//! The prompt templates of the pipeline, and the builders that substitute a
//! transcript, the graph schema, the exchange-document shape and the date
//! into them. Substitution is plain placeholder replacement, specified by
//! `replace_all`.
use vstd::prelude::*;

use crate::text::join_with;
use crate::text::replace_all;
use crate::text::replace_all_str;

verus! {

/// The system prompts of the conversational chat flows.
#[derive(Debug, Clone)]
pub enum ChatPrompts {
    InitialGoals,
    DailyOutline,
}

/// The system prompts of the tool-style collaborator calls: schema
/// generation, entity extraction, and graph merging.
#[derive(Debug, Clone)]
pub enum ToolPrompts {
    SchemaGeneration,
    ExtractEntities,
    MergeGraph,
}

/// The template text of a chat prompt.
pub open spec fn chat_prompt_text(p: ChatPrompts) -> Seq<char> {
    match p {
        ChatPrompts::InitialGoals => "Your name is Buddy. You are an AI companion that challenges the user to be better and set/achieve goals.\nStart by introducing yourself and your purpose. After a brief greeting, move on to your main task.\nYour first job is to determine the user's interests, values and motivations. You will use these to help the user set short to medium term goals; things that the user can start taking action towards immediately.\nYour responses should be concise. Ask the user one question at a time. Try to get them to elaborate on their answers, but do not overwhelm them.\nYour goal is to get a general understanding of the user. Enough to build the basis of a knowledge graph that includes their interests, goals, personality, etc. This knowledge graph will be continuously updated through future interactions, so do not grill the user too deeply about any one topic.\nOnce you are satisfied with your understanding of the user, you will end the chat. Wrap your final message in <final_message></final_message> tags to indicate the end of the chat."@,
        ChatPrompts::DailyOutline => "<context>\n{context}\n</context>\nToday is {date}.\nYour name is Buddy. You are an AI companion that helps the user plan their day.\nThe context provided to you above in <context></context> tags contains inforamation about the user gathered from pervious interactions. Use it as background information as you engage with the user.\nYour goal is to help the user create a clear plan of action for the day. Use what you know about the user to ask informed questions and make helpful suggestions.\nYour responses should be concise. Make inquiries/suggestions one at a time. Try to get them to elaborate on their answers, but do not overwhelm them.\nOnce you suspect the user is ready to wrap up, ask them if they are ready to get to work. If they say yes, wrap your final message in <final_message></final_message> tags to indicate the end of the chat."@,
    }
}

/// The template text of a tool prompt.
pub open spec fn tool_prompt_text(p: ToolPrompts) -> Seq<char> {
    match p {
        ToolPrompts::SchemaGeneration => "<interview>\n{interview}\n</interview>\n<schema_definition>\n{schema_definition}\n</schema_definition>\nYour name is Buddy. You are an expert at generating schemas for Neo4J knowledge graphs that describe the relationships between user's interests, goals, personality etc.\nYou have just finished interviewing the user. During the interview, the user shared information about their interests, motivations, and goals. The full interview transcript is provided to you above in <interview></interview> tags.\nYour task is to generate the schema for a Neo4J knowledge graph based on the provided interview transcript. The schema must be a JSON object that conforms to the schema definition in <schema_definition></schema_definition> tags.\nYou will define entities as 'nodeLabels' and relationships as 'relationshipTypes'. You can also choose to define properties for entities and relationships using 'nodeObjectTypes' and 'relationshipObjectTypes' respectively. You must use 'relationshipObjectTypes' to define the source and target entities for each relationshipType.\nDo not include any instances of entities in your response. Only define the schema!\nYour response must be a valid JSON object that conforms to the provided schema definition!"@,
        ToolPrompts::ExtractEntities => "<interview>\n{interview}\n</interview>\n<graph_schema>\n{graph_schema}\n</graph_schema>\n<graph_data>\n{graph_data}\n</graph_data>\nToday is {date}.\nYour name is Buddy. You are an expert at parsing text to extract entities for a Neo4J knowledge graph.\nThe text to be parsed is provided to you above in <interview></interview> tags. It contains a conversation between a user and an AI companion where the user shares information about their interests, motivations, and goals.\nThe schema for the knowledge graph is also provided to you above in <graph_schema></graph_schema> tags. This schema defines the entities and relationships that will be used to represent the user's information in the knowledge graph.\nYour task is to extract instances of these entities and relationships from the interview text. You will use the graph schema to inform the types of entities and relationships you can extract.\nYou will output a JSON object that conforms to the JSON schema in <graph_data></graph_data> tags.\nYour output must be a valid JSON object!"@,
        ToolPrompts::MergeGraph => "<graph_schema>\n{graph_schema}\n</graph_schema>\n<existing_graph>\n{existing_graph}\n</existing_graph>\n<new_graph>\n{new_graph}\n</new_graph>\nToday is {date}.\nYour name is Buddy. You are an expert at merging Neo4J knowledge graphs that describe the user's interests, goals, motivations and tasks.\nThe user's existing knowledge graph is provided to you above in <existing_graph></existing_graph> tags, and a freshly extracted graph from the latest conversation is provided in <new_graph></new_graph> tags. Both conform to the schema in <graph_schema></graph_schema> tags.\nYour task is to combine the two graphs into one: keep every fact of the existing graph that is still true, add the new facts from the new graph, and merge nodes that clearly describe the same thing instead of duplicating them.\nYou will output a single JSON object with the same shape as the two input graphs.\nYour output must be a valid JSON object!"@,
    }
}

impl ChatPrompts {
    /// The template of this prompt, with its placeholders unsubstituted.
    pub fn prompt_template(&self) -> (r: &'static str)
        ensures
            r@ == chat_prompt_text(*self),
    {
        match self {
            ChatPrompts::InitialGoals => "Your name is Buddy. You are an AI companion that challenges the user to be better and set/achieve goals.\nStart by introducing yourself and your purpose. After a brief greeting, move on to your main task.\nYour first job is to determine the user's interests, values and motivations. You will use these to help the user set short to medium term goals; things that the user can start taking action towards immediately.\nYour responses should be concise. Ask the user one question at a time. Try to get them to elaborate on their answers, but do not overwhelm them.\nYour goal is to get a general understanding of the user. Enough to build the basis of a knowledge graph that includes their interests, goals, personality, etc. This knowledge graph will be continuously updated through future interactions, so do not grill the user too deeply about any one topic.\nOnce you are satisfied with your understanding of the user, you will end the chat. Wrap your final message in <final_message></final_message> tags to indicate the end of the chat.",
            ChatPrompts::DailyOutline => "<context>\n{context}\n</context>\nToday is {date}.\nYour name is Buddy. You are an AI companion that helps the user plan their day.\nThe context provided to you above in <context></context> tags contains inforamation about the user gathered from pervious interactions. Use it as background information as you engage with the user.\nYour goal is to help the user create a clear plan of action for the day. Use what you know about the user to ask informed questions and make helpful suggestions.\nYour responses should be concise. Make inquiries/suggestions one at a time. Try to get them to elaborate on their answers, but do not overwhelm them.\nOnce you suspect the user is ready to wrap up, ask them if they are ready to get to work. If they say yes, wrap your final message in <final_message></final_message> tags to indicate the end of the chat.",
        }
    }
}

impl ToolPrompts {
    /// The template of this prompt, with its placeholders unsubstituted.
    pub fn prompt_template(&self) -> (r: &'static str)
        ensures
            r@ == tool_prompt_text(*self),
    {
        match self {
            ToolPrompts::SchemaGeneration => "<interview>\n{interview}\n</interview>\n<schema_definition>\n{schema_definition}\n</schema_definition>\nYour name is Buddy. You are an expert at generating schemas for Neo4J knowledge graphs that describe the relationships between user's interests, goals, personality etc.\nYou have just finished interviewing the user. During the interview, the user shared information about their interests, motivations, and goals. The full interview transcript is provided to you above in <interview></interview> tags.\nYour task is to generate the schema for a Neo4J knowledge graph based on the provided interview transcript. The schema must be a JSON object that conforms to the schema definition in <schema_definition></schema_definition> tags.\nYou will define entities as 'nodeLabels' and relationships as 'relationshipTypes'. You can also choose to define properties for entities and relationships using 'nodeObjectTypes' and 'relationshipObjectTypes' respectively. You must use 'relationshipObjectTypes' to define the source and target entities for each relationshipType.\nDo not include any instances of entities in your response. Only define the schema!\nYour response must be a valid JSON object that conforms to the provided schema definition!",
            ToolPrompts::ExtractEntities => "<interview>\n{interview}\n</interview>\n<graph_schema>\n{graph_schema}\n</graph_schema>\n<graph_data>\n{graph_data}\n</graph_data>\nToday is {date}.\nYour name is Buddy. You are an expert at parsing text to extract entities for a Neo4J knowledge graph.\nThe text to be parsed is provided to you above in <interview></interview> tags. It contains a conversation between a user and an AI companion where the user shares information about their interests, motivations, and goals.\nThe schema for the knowledge graph is also provided to you above in <graph_schema></graph_schema> tags. This schema defines the entities and relationships that will be used to represent the user's information in the knowledge graph.\nYour task is to extract instances of these entities and relationships from the interview text. You will use the graph schema to inform the types of entities and relationships you can extract.\nYou will output a JSON object that conforms to the JSON schema in <graph_data></graph_data> tags.\nYour output must be a valid JSON object!",
            ToolPrompts::MergeGraph => "<graph_schema>\n{graph_schema}\n</graph_schema>\n<existing_graph>\n{existing_graph}\n</existing_graph>\n<new_graph>\n{new_graph}\n</new_graph>\nToday is {date}.\nYour name is Buddy. You are an expert at merging Neo4J knowledge graphs that describe the user's interests, goals, motivations and tasks.\nThe user's existing knowledge graph is provided to you above in <existing_graph></existing_graph> tags, and a freshly extracted graph from the latest conversation is provided in <new_graph></new_graph> tags. Both conform to the schema in <graph_schema></graph_schema> tags.\nYour task is to combine the two graphs into one: keep every fact of the existing graph that is still true, add the new facts from the new graph, and merge nodes that clearly describe the same thing instead of duplicating them.\nYou will output a single JSON object with the same shape as the two input graphs.\nYour output must be a valid JSON object!",
        }
    }
}

/// The fixed schema description of the knowledge graph: the six node kinds
/// with their properties, and the relationship kinds between them.
pub open spec fn graph_schema() -> Seq<char> {
    "{\n  \"graphSchema\": {\n    \"nodeTypes\": [\n      { \"id_format\": \"user_{num}\", \"label\": \"User\", \"properties\": { \"user_id\": { \"nullable\": false, \"type\": \"string\" } } },\n      { \"id_format\": \"interest_{num}\", \"label\": \"Interest\", \"properties\": { \"name\": { \"nullable\": false, \"type\": \"string\" } } },\n      { \"id_format\": \"goal_{num}\", \"label\": \"Goal\", \"properties\": { \"description\": { \"nullable\": false, \"type\": \"string\" }, \"timeframe\": { \"nullable\": true, \"type\": \"string\", \"enum\": [\"short-term\", \"medium-term\", \"long-term\"] } } },\n      { \"id_format\": \"motivation_{num}\", \"label\": \"Motivation\", \"properties\": { \"title\": { \"nullable\": false, \"type\": \"string\" }, \"reason\": { \"nullable\": false, \"type\": \"string\" } } },\n      { \"id_format\": \"task_{num}\", \"label\": \"Task\", \"properties\": { \"action\": { \"nullable\": false, \"type\": \"string\" }, \"status\": { \"nullable\": true, \"type\": \"string\", \"enum\": [\"pending\", \"in_progress\", \"completed\", \"failed\"] } } },\n      { \"id_format\": \"date_{num}\", \"label\": \"Date\", \"properties\": { \"day\": { \"nullable\": false, \"type\": \"integer\" }, \"month\": { \"nullable\": false, \"type\": \"integer\" }, \"year\": { \"nullable\": false, \"type\": \"integer\" } } }\n    ],\n    \"relationshipTypes\": [\n      { \"label\": \"INTERESTED_IN\", \"source_node_type\": \"User\", \"target_node_type\": \"Interest\" },\n      { \"label\": \"LINKED_TO\", \"source_node_type\": \"Goal\", \"target_node_type\": \"Interest\" },\n      { \"label\": \"HAS_GOAL\", \"source_node_type\": \"User\", \"target_node_type\": \"Goal\" },\n      { \"label\": \"MOTIVATED_BY\", \"source_node_type\": \"Goal\", \"target_node_type\": \"Motivation\" },\n      { \"label\": \"PART_OF\", \"source_node_type\": \"Task\", \"target_node_type\": \"Goal\" },\n      { \"label\": \"CREATED_ON\", \"source_node_type\": \"Task\", \"target_node_type\": \"Date\" }\n    ]\n  }\n}"@
}

/// The JSON-shape contract of the exchange document, as handed to the
/// extraction collaborator.
pub open spec fn graph_data_def() -> Seq<char> {
    "{\n    \"type\": \"object\",\n    \"properties\": {\n        \"nodes\": {\n            \"type\": \"array\",\n            \"items\": {\n            \"type\": \"object\",\n            \"properties\": {\n                \"id\": {\n                \"type\": \"string\"\n                },\n                \"label\": {\n                \"type\": \"string\"\n                },\n                \"props\": {\n                \"type\": \"object\",\n                \"additionalProperties\": true\n                }\n            },\n            \"required\": [\"id\", \"label\", \"props\"]\n            }\n        },\n        \"relationships\": {\n            \"type\": \"array\",\n            \"items\": {\n            \"type\": \"object\",\n            \"properties\": {\n                \"source\": {\n                \"type\": \"string\"\n                },\n                \"target\": {\n                \"type\": \"string\"\n                },\n                \"label\": {\n                \"type\": \"string\"\n                }\n            },\n            \"required\": [\"source\", \"target\", \"label\"]\n            }\n        }\n    },\n    \"required\": [\"nodes\", \"relationships\"]\n}"@
}

/// The fixed schema description, as executable text.
pub fn graph_schema_text() -> (r: &'static str)
    ensures
        r@ == graph_schema(),
{
    "{\n  \"graphSchema\": {\n    \"nodeTypes\": [\n      { \"id_format\": \"user_{num}\", \"label\": \"User\", \"properties\": { \"user_id\": { \"nullable\": false, \"type\": \"string\" } } },\n      { \"id_format\": \"interest_{num}\", \"label\": \"Interest\", \"properties\": { \"name\": { \"nullable\": false, \"type\": \"string\" } } },\n      { \"id_format\": \"goal_{num}\", \"label\": \"Goal\", \"properties\": { \"description\": { \"nullable\": false, \"type\": \"string\" }, \"timeframe\": { \"nullable\": true, \"type\": \"string\", \"enum\": [\"short-term\", \"medium-term\", \"long-term\"] } } },\n      { \"id_format\": \"motivation_{num}\", \"label\": \"Motivation\", \"properties\": { \"title\": { \"nullable\": false, \"type\": \"string\" }, \"reason\": { \"nullable\": false, \"type\": \"string\" } } },\n      { \"id_format\": \"task_{num}\", \"label\": \"Task\", \"properties\": { \"action\": { \"nullable\": false, \"type\": \"string\" }, \"status\": { \"nullable\": true, \"type\": \"string\", \"enum\": [\"pending\", \"in_progress\", \"completed\", \"failed\"] } } },\n      { \"id_format\": \"date_{num}\", \"label\": \"Date\", \"properties\": { \"day\": { \"nullable\": false, \"type\": \"integer\" }, \"month\": { \"nullable\": false, \"type\": \"integer\" }, \"year\": { \"nullable\": false, \"type\": \"integer\" } } }\n    ],\n    \"relationshipTypes\": [\n      { \"label\": \"INTERESTED_IN\", \"source_node_type\": \"User\", \"target_node_type\": \"Interest\" },\n      { \"label\": \"LINKED_TO\", \"source_node_type\": \"Goal\", \"target_node_type\": \"Interest\" },\n      { \"label\": \"HAS_GOAL\", \"source_node_type\": \"User\", \"target_node_type\": \"Goal\" },\n      { \"label\": \"MOTIVATED_BY\", \"source_node_type\": \"Goal\", \"target_node_type\": \"Motivation\" },\n      { \"label\": \"PART_OF\", \"source_node_type\": \"Task\", \"target_node_type\": \"Goal\" },\n      { \"label\": \"CREATED_ON\", \"source_node_type\": \"Task\", \"target_node_type\": \"Date\" }\n    ]\n  }\n}"
}

/// The JSON-shape contract of the exchange document, as executable text.
pub fn graph_data_def_text() -> (r: &'static str)
    ensures
        r@ == graph_data_def(),
{
    "{\n    \"type\": \"object\",\n    \"properties\": {\n        \"nodes\": {\n            \"type\": \"array\",\n            \"items\": {\n            \"type\": \"object\",\n            \"properties\": {\n                \"id\": {\n                \"type\": \"string\"\n                },\n                \"label\": {\n                \"type\": \"string\"\n                },\n                \"props\": {\n                \"type\": \"object\",\n                \"additionalProperties\": true\n                }\n            },\n            \"required\": [\"id\", \"label\", \"props\"]\n            }\n        },\n        \"relationships\": {\n            \"type\": \"array\",\n            \"items\": {\n            \"type\": \"object\",\n            \"properties\": {\n                \"source\": {\n                \"type\": \"string\"\n                },\n                \"target\": {\n                \"type\": \"string\"\n                },\n                \"label\": {\n                \"type\": \"string\"\n                }\n            },\n            \"required\": [\"source\", \"target\", \"label\"]\n            }\n        }\n    },\n    \"required\": [\"nodes\", \"relationships\"]\n}"
}

/// One transcript line: `<role>: <content>`.
pub open spec fn interview_line(role: Seq<char>, content: Seq<char>) -> Seq<char> {
    role + ": "@ + content
}

/// The transcript lines of a message list, in order.
pub open spec fn interview_lines(messages: Seq<(String, String)>) -> Seq<Seq<char>> {
    messages.map_values(|m: (String, String)| interview_line(m.0@, m.1@))
}

/// The transcript of a conversation, one line per message, joined with
/// newlines.
pub open spec fn interview_of(messages: Seq<(String, String)>) -> Seq<char> {
    join_with(interview_lines(messages), "\n"@)
}

/// Renders a conversation — a list of `(role, content)` messages — as the
/// transcript handed to the extraction collaborator.
pub fn interview_text(messages: &Vec<(String, String)>) -> (r: String)
    ensures
        r@ == interview_of(messages@),
{
    let mut lines: Vec<String> = Vec::new();
    let mut i: usize = 0;
    while i < messages.len()
        invariant
            i <= messages@.len(),
            lines@.len() == i,
            forall|k: int|
                0 <= k < i ==> lines@[k]@ == interview_line(messages@[k].0@, messages@[k].1@),
        decreases messages@.len() - i,
    {
        let m = &messages[i];
        let mut line = m.0.clone();
        vstd::string::StringExecFns::append(&mut line, ": ");
        vstd::string::StringExecFns::append(&mut line, m.1.as_str());
        proof {
            assert(line@ =~= interview_line(messages@[i as int].0@, messages@[i as int].1@));
        }
        lines.push(line);
        i = i + 1;
    }
    proof {
        assert(crate::text::seq_views(lines@) =~~= interview_lines(messages@));
    }
    crate::text::join_strings(&lines, "\n")
}

/// The extraction request document: the extraction template with the
/// transcript, the fixed schema, the exchange-document shape and the date
/// substituted in.
pub open spec fn extraction_prompt(interview: Seq<char>, date: Seq<char>) -> Seq<char> {
    replace_all(
        replace_all(
            replace_all(
                replace_all(
                    tool_prompt_text(ToolPrompts::ExtractEntities),
                    "{interview}"@,
                    interview,
                ),
                "{graph_schema}"@,
                graph_schema(),
            ),
            "{graph_data}"@,
            graph_data_def(),
        ),
        "{date}"@,
        date,
    )
}

/// Builds the extraction request document for a transcript and a date.
pub fn build_extraction_prompt(interview: &str, date: &str) -> (r: String)
    ensures
        r@ == extraction_prompt(interview@, date@),
{
    let s1 = replace_all_str(
        ToolPrompts::ExtractEntities.prompt_template(),
        "{interview}",
        interview,
    );
    let s2 = replace_all_str(s1.as_str(), "{graph_schema}", graph_schema_text());
    let s3 = replace_all_str(s2.as_str(), "{graph_data}", graph_data_def_text());
    replace_all_str(s3.as_str(), "{date}", date)
}

/// Builds the extraction request document for a transcript, dated with the
/// current local date. The date comes from the clock, so the result is the
/// extraction prompt for some date.
pub fn build_extraction_prompt_today(interview: &str) -> (r: String)
    ensures
        exists|date: Seq<char>| r@ == extraction_prompt(interview@, date),
{
    let date = crate::external::today_string();
    let r = build_extraction_prompt(interview, date.as_str());
    proof {
        assert(r@ == extraction_prompt(interview@, date@));
    }
    r
}

/// The merge request document: the merge template with the fixed schema,
/// both serialized graphs and the date substituted in.
pub open spec fn merge_prompt(existing: Seq<char>, fresh: Seq<char>, date: Seq<char>) -> Seq<
    char,
> {
    replace_all(
        replace_all(
            replace_all(
                replace_all(tool_prompt_text(ToolPrompts::MergeGraph), "{graph_schema}"@, graph_schema()),
                "{existing_graph}"@,
                existing,
            ),
            "{new_graph}"@,
            fresh,
        ),
        "{date}"@,
        date,
    )
}

/// Builds the merge request document for two serialized graphs and a date.
pub fn build_merge_prompt(existing: &str, fresh: &str, date: &str) -> (r: String)
    ensures
        r@ == merge_prompt(existing@, fresh@, date@),
{
    let s1 = replace_all_str(
        ToolPrompts::MergeGraph.prompt_template(),
        "{graph_schema}",
        graph_schema_text(),
    );
    let s2 = replace_all_str(s1.as_str(), "{existing_graph}", existing);
    let s3 = replace_all_str(s2.as_str(), "{new_graph}", fresh);
    replace_all_str(s3.as_str(), "{date}", date)
}


/// The daily-outline system prompt: the chat template with the retrieved
/// context and the date substituted in.
pub open spec fn daily_outline_prompt(context: Seq<char>, date: Seq<char>) -> Seq<char> {
    replace_all(
        replace_all(chat_prompt_text(ChatPrompts::DailyOutline), "{date}"@, date),
        "{context}"@,
        context,
    )
}

/// Builds the daily-outline system prompt from retrieved context and a
/// date.
pub fn build_daily_outline_prompt(context: &str, date: &str) -> (r: String)
    ensures
        r@ == daily_outline_prompt(context@, date@),
{
    let s1 = replace_all_str(ChatPrompts::DailyOutline.prompt_template(), "{date}", date);
    replace_all_str(s1.as_str(), "{context}", context)
}


} // verus!
