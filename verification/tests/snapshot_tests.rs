use buddy_graph::errors::GraphError;
use buddy_graph::exchange::PropValue;
use buddy_graph::model::Interest;
use buddy_graph::model::Neo4jNode;
use buddy_graph::model::UserNode;
use buddy_graph::snapshot::GraphRow;
use buddy_graph::snapshot::Neo4jGraph;
use buddy_graph::snapshot::Neo4jRelation;
use buddy_graph::text::i64_to_string;
use buddy_graph::text::replace_all_str;
use buddy_graph::text::u64_to_string;

fn s(text: &str) -> String {
    text.to_string()
}

fn user_interest_row() -> GraphRow {
    GraphRow {
        src_id: 10,
        src_labels: vec![s("User")],
        src_props: vec![
            (s("id"), PropValue::Str(s("u-stable"))),
            (s("user_id"), PropValue::Str(s("acct"))),
        ],
        dst_id: 20,
        dst_labels: vec![s("Interest")],
        dst_props: vec![
            (s("id"), PropValue::Str(s("i-stable"))),
            (s("name"), PropValue::Str(s("hiking"))),
        ],
        rel_src_id: 10,
        rel_dst_id: 20,
        rel_type: s("INTERESTED_IN"),
    }
}

#[test]
fn rows_assemble_with_deduplication() {
    // The same row twice: one node pair, one relation.
    let rows = vec![user_interest_row(), user_interest_row()];
    let g = Neo4jGraph::from_rows(&rows).expect("assembly must succeed");
    assert_eq!(g.nodes.len(), 2);
    assert_eq!(g.relations.len(), 1);
    assert_eq!(g.nodes[0].0, 10);
    assert!(matches!(&g.nodes[0].1, Neo4jNode::User(_)));
    assert_eq!(g.nodes[1].0, 20);
    assert!(matches!(&g.nodes[1].1, Neo4jNode::Interest(_)));
    let rel = &g.relations[0];
    assert_eq!(rel.src_id, 10);
    assert_eq!(rel.dst_id, 20);
    assert_eq!(rel.rel, "INTERESTED_IN");
}

#[test]
fn rows_with_unknown_label_abort_assembly() {
    let mut row = user_interest_row();
    row.dst_labels = vec![s("Animal")];
    match Neo4jGraph::from_rows(&vec![row]) {
        Err(GraphError::UnrecognizedLabel(l)) => assert_eq!(l, "Animal"),
        other => panic!("expected UnrecognizedLabel, got {:?}", other),
    }
}

#[test]
fn snapshot_renders_context_lines() {
    let g = Neo4jGraph::from_rows(&vec![user_interest_row()]).expect("assembly must succeed");
    let ctx = g.to_context().expect("every endpoint is present");
    assert_eq!(ctx, "User: acct - INTERESTED_IN -> Interest: hiking\n");
}

#[test]
fn snapshot_context_unresolved_endpoint_fails() {
    let g = Neo4jGraph {
        nodes: vec![(10, Neo4jNode::User(UserNode { id: s("u"), user_id: s("acct") }))],
        relations: vec![Neo4jRelation { src_id: 10, dst_id: 99, rel: s("HAS_GOAL") }],
    };
    match g.to_context() {
        Err(GraphError::IdentifierResolutionFailure(which)) => assert_eq!(which, "99"),
        other => panic!("expected IdentifierResolutionFailure, got {:?}", other),
    }
}

#[test]
fn snapshot_converts_to_exchange_document() {
    let g = Neo4jGraph::from_rows(&vec![user_interest_row()]).expect("assembly must succeed");
    let gd = g.to_graph_data().expect("every endpoint is present");
    assert_eq!(gd.nodes.len(), 2);
    assert_eq!(gd.nodes[0].id, "u-stable");
    assert_eq!(gd.nodes[0].label, "User");
    assert_eq!(gd.nodes[1].id, "i-stable");
    assert_eq!(gd.relationships.len(), 1);
    // Relationship endpoints are the stable identities, not engine numbers.
    assert_eq!(gd.relationships[0].source_id, "u-stable");
    assert_eq!(gd.relationships[0].target_id, "i-stable");
    assert_eq!(gd.relationships[0].label, "INTERESTED_IN");
}

#[test]
fn relation_equality_is_structural() {
    let a = Neo4jRelation { src_id: 1, dst_id: 2, rel: s("X") };
    let b = Neo4jRelation { src_id: 1, dst_id: 2, rel: s("X") };
    let c = Neo4jRelation { src_id: 1, dst_id: 3, rel: s("X") };
    assert!(a == b);
    assert!(!(a == c));
}

#[test]
fn get_node_finds_by_engine_identity() {
    let g = Neo4jGraph {
        nodes: vec![(7, Neo4jNode::Interest(Interest { id: s("i"), name: s("chess") }))],
        relations: vec![],
    };
    assert!(g.get_node(7).is_some());
    assert!(g.get_node(8).is_none());
}

#[test]
fn decimal_rendering_exact() {
    assert_eq!(u64_to_string(0), "0");
    assert_eq!(u64_to_string(907), "907");
    assert_eq!(u64_to_string(u64::MAX), "18446744073709551615");
    assert_eq!(i64_to_string(0), "0");
    assert_eq!(i64_to_string(-1), "-1");
    assert_eq!(i64_to_string(i64::MIN), "-9223372036854775808");
    assert_eq!(i64_to_string(i64::MAX), "9223372036854775807");
}

#[test]
fn replace_all_replaces_each_occurrence() {
    assert_eq!(replace_all_str("a{x}b{x}", "{x}", "1"), "a1b1");
    assert_eq!(replace_all_str("aaa", "aa", "b"), "ba");
    assert_eq!(replace_all_str("abc", "z", "1"), "abc");
    assert_eq!(replace_all_str("abc", "", "1"), "abc");
}

#[test]
fn rows_keep_first_seen_order() {
    let mut second = user_interest_row();
    second.src_id = 30;
    second.src_props = vec![
        (s("id"), PropValue::Str(s("g-stable"))),
        (s("description"), PropValue::Str(s("run"))),
    ];
    second.src_labels = vec![s("Goal")];
    second.rel_src_id = 30;
    second.rel_type = s("LINKED_TO");
    let rows = vec![user_interest_row(), second];
    let g = Neo4jGraph::from_rows(&rows).expect("assembly must succeed");
    let ids: Vec<i64> = g.nodes.iter().map(|p| p.0).collect();
    assert_eq!(ids, vec![10, 20, 30]);
    assert_eq!(g.relations.len(), 2);
    assert_eq!(g.relations[0].rel, "INTERESTED_IN");
    assert_eq!(g.relations[1].rel, "LINKED_TO");
}

#[test]
fn decimal_rendering_keeps_interior_zeros() {
    assert_eq!(u64_to_string(1005), "1005");
    assert_eq!(i64_to_string(-1005), "-1005");
}
