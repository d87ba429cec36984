use buddy_graph::coordinator::extract_final_message;
use buddy_graph::coordinator::find_str;
use buddy_graph::coordinator::MergeDecision;
use buddy_graph::coordinator::plan_reconcile;
use buddy_graph::exchange::GraphData;
use buddy_graph::exchange::GraphNode;
use buddy_graph::exchange::PropValue;
use buddy_graph::prompts::build_extraction_prompt;
use buddy_graph::prompts::build_merge_prompt;
use buddy_graph::prompts::ChatPrompts;
use buddy_graph::prompts::interview_text;
use buddy_graph::prompts::ToolPrompts;
use buddy_graph::retrieval::full_graph_query;
use buddy_graph::retrieval::semantic_search_query;

fn s(text: &str) -> String {
    text.to_string()
}

fn empty_graph() -> GraphData {
    GraphData { nodes: vec![], relationships: vec![] }
}

fn one_node_graph(name: &str) -> GraphData {
    GraphData {
        nodes: vec![GraphNode {
            id: s("interest_1"),
            label: s("Interest"),
            properties: vec![(s("name"), PropValue::Str(s(name)))],
        }],
        relationships: vec![],
    }
}

#[test]
fn reconcile_empty_existing_uses_fresh_verbatim() {
    let existing = empty_graph();
    let fresh = one_node_graph("hiking");
    let fresh_json = fresh.to_json_text();
    match plan_reconcile(&existing, fresh, "March 15, 2024") {
        MergeDecision::UseFresh(g) => assert_eq!(g.to_json_text(), fresh_json),
        MergeDecision::RequestMerge(_) => {
            panic!("an empty existing graph must not spend a merge call")
        }
    }
}

#[test]
fn reconcile_nonempty_existing_requests_merge() {
    let existing = one_node_graph("reading");
    let fresh = one_node_graph("hiking");
    match plan_reconcile(&existing, fresh, "March 15, 2024") {
        MergeDecision::UseFresh(_) => panic!("a non-empty existing graph must be reconciled"),
        MergeDecision::RequestMerge(prompt) => {
            assert!(prompt.contains("\"name\":\"reading\""));
            assert!(prompt.contains("\"name\":\"hiking\""));
            assert!(prompt.contains("Today is March 15, 2024."));
            assert!(!prompt.contains("{existing_graph}"));
            assert!(!prompt.contains("{new_graph}"));
            assert!(!prompt.contains("{graph_schema}"));
            assert!(!prompt.contains("{date}"));
        }
    }
}

#[test]
fn interview_joins_role_and_content() {
    let messages = vec![
        (s("user"), s("I love hiking")),
        (s("assistant"), s("Great, let's set a goal...")),
    ];
    assert_eq!(
        interview_text(&messages),
        "user: I love hiking\nassistant: Great, let's set a goal..."
    );
}

#[test]
fn interview_of_nothing_is_empty() {
    assert_eq!(interview_text(&vec![]), "");
}

#[test]
fn extraction_prompt_substitutes_every_placeholder() {
    let messages = vec![
        (s("user"), s("I love hiking")),
        (s("assistant"), s("Great, let's set a goal...")),
    ];
    let interview = interview_text(&messages);
    let prompt = build_extraction_prompt(&interview, "March 15, 2024");
    assert!(prompt.contains("user: I love hiking"));
    assert!(prompt.contains("Today is March 15, 2024."));
    assert!(prompt.contains("\"label\": \"Interest\""));
    assert!(prompt.contains("\"INTERESTED_IN\""));
    assert!(!prompt.contains("{interview}"));
    assert!(!prompt.contains("{graph_schema}"));
    assert!(!prompt.contains("{graph_data}"));
    assert!(!prompt.contains("{date}"));
}

#[test]
fn daily_outline_prompt_substitutes_context_and_date() {
    let prompt =
        buddy_graph::prompts::build_daily_outline_prompt("User: acct - HAS_GOAL -> Goal: run\n", "March 15, 2024");
    assert!(prompt.contains("<context>\nUser: acct - HAS_GOAL -> Goal: run\n\n</context>"));
    assert!(prompt.contains("Today is March 15, 2024."));
    assert!(!prompt.contains("{context}"));
    assert!(!prompt.contains("{date}"));
}

#[test]
fn merge_prompt_built_from_template() {
    let prompt = build_merge_prompt("EXISTING", "FRESH", "March 15, 2024");
    assert!(prompt.contains("<existing_graph>\nEXISTING\n</existing_graph>"));
    assert!(prompt.contains("<new_graph>\nFRESH\n</new_graph>"));
    assert!(prompt.contains("Today is March 15, 2024."));
}

#[test]
fn templates_carry_their_placeholders() {
    assert!(ChatPrompts::InitialGoals.prompt_template().contains("<final_message>"));
    assert!(ChatPrompts::DailyOutline.prompt_template().contains("{context}"));
    assert!(ChatPrompts::DailyOutline.prompt_template().contains("{date}"));
    assert!(ToolPrompts::SchemaGeneration.prompt_template().contains("{schema_definition}"));
    assert!(ToolPrompts::ExtractEntities.prompt_template().contains("{interview}"));
    assert!(ToolPrompts::ExtractEntities.prompt_template().contains("{graph_data}"));
    assert!(ToolPrompts::MergeGraph.prompt_template().contains("{existing_graph}"));
    assert!(ToolPrompts::MergeGraph.prompt_template().contains("{new_graph}"));
}

#[test]
fn final_message_extracted_between_markers() {
    let reply = "Thanks! <final_message>We are done, go hike.</final_message> Bye.";
    assert_eq!(
        extract_final_message(reply).as_deref(),
        Some("We are done, go hike.")
    );
}

#[test]
fn final_message_spans_newlines() {
    let reply = "<final_message>line one\nline two</final_message>";
    assert_eq!(extract_final_message(reply).as_deref(), Some("line one\nline two"));
}

#[test]
fn final_message_absent_without_markers() {
    assert!(extract_final_message("An ordinary reply.").is_none());
    assert!(extract_final_message("<final_message>never closed").is_none());
    assert!(extract_final_message("never opened</final_message>").is_none());
}

#[test]
fn final_message_takes_first_pair() {
    let reply = "<final_message>first</final_message><final_message>second</final_message>";
    assert_eq!(extract_final_message(reply).as_deref(), Some("first"));
}

#[test]
fn find_str_first_occurrence() {
    assert_eq!(find_str("abcabc", "bc"), Some(1));
    assert_eq!(find_str("abcabc", "zz"), None);
    assert_eq!(find_str("abc", ""), Some(0));
    assert_eq!(find_str("", "a"), None);
}

#[test]
fn retrieval_queries_take_their_parameters() {
    let full = full_graph_query();
    assert!(full.contains("$user_id"));
    assert!(full.contains("RETURN DISTINCT n, r as rel, m"));
    let sim = semantic_search_query();
    assert!(sim.contains("$user_id"));
    assert!(sim.contains("$embedding"));
    assert!(sim.contains("score > $threshold"));
    assert!(sim.contains("ORDER BY score DESC"));
}
