use buddy_graph::errors::GraphError;
use buddy_graph::exchange::GraphData;
use buddy_graph::exchange::GraphNode;
use buddy_graph::exchange::GraphRelationship;
use buddy_graph::exchange::PropValue;

fn s(text: &str) -> String {
    text.to_string()
}

fn hiking_graph() -> GraphData {
    GraphData {
        nodes: vec![
            GraphNode { id: s("user_1"), label: s("User"), properties: vec![] },
            GraphNode {
                id: s("interest_1"),
                label: s("Interest"),
                properties: vec![(s("name"), PropValue::Str(s("hiking")))],
            },
        ],
        relationships: vec![GraphRelationship {
            source_id: s("user_1"),
            target_id: s("interest_1"),
            label: s("INTERESTED_IN"),
        }],
    }
}

#[test]
fn embedding_texts_per_label() {
    let g = hiking_graph();
    let texts = g.embedding_texts().expect("plan must succeed");
    assert_eq!(texts.len(), 2);
    assert!(texts[0].is_none());
    assert_eq!(texts[1].as_deref(), Some("Interest: \"hiking\""));
}

#[test]
fn embedding_texts_for_every_embeddable_label() {
    let g = GraphData {
        nodes: vec![
            GraphNode {
                id: s("goal_1"),
                label: s("Goal"),
                properties: vec![(s("description"), PropValue::Str(s("run")))],
            },
            GraphNode {
                id: s("motivation_1"),
                label: s("Motivation"),
                properties: vec![
                    (s("title"), PropValue::Str(s("health"))),
                    (s("reason"), PropValue::Str(s("family"))),
                ],
            },
            GraphNode {
                id: s("task_1"),
                label: s("Task"),
                properties: vec![(s("action"), PropValue::Str(s("jog")))],
            },
            GraphNode {
                id: s("date_1"),
                label: s("Date"),
                properties: vec![
                    (s("day"), PropValue::Int(15)),
                    (s("month"), PropValue::Int(3)),
                    (s("year"), PropValue::Int(2024)),
                ],
            },
        ],
        relationships: vec![],
    };
    let texts = g.embedding_texts().expect("plan must succeed");
    assert_eq!(texts[0].as_deref(), Some("Goal: \"run\""));
    assert_eq!(
        texts[1].as_deref(),
        Some("Motivation: \"health\" with reason \"family\"")
    );
    assert_eq!(texts[2].as_deref(), Some("Task: \"jog\""));
    assert_eq!(texts[3].as_deref(), Some("Date: 15 of 3, 2024."));
}

#[test]
fn embedding_texts_missing_field_aborts() {
    let g = GraphData {
        nodes: vec![GraphNode { id: s("interest_1"), label: s("Interest"), properties: vec![] }],
        relationships: vec![],
    };
    match g.embedding_texts() {
        Err(GraphError::MalformedNode(field)) => assert_eq!(field, "name"),
        other => panic!("expected MalformedNode, got {:?}", other),
    }
}

#[test]
fn compile_hiking_scenario() {
    let g = hiking_graph();
    let owner = Some(s("11111111-1111-1111-1111-111111111111"));
    let embeddings = vec![None, Some(s("[0.1, 0.2]"))];
    let ids = vec![
        s("aaaaaaaa-0000-0000-0000-000000000001"),
        s("aaaaaaaa-0000-0000-0000-000000000002"),
    ];
    let q = g.into_queries_with_ids(&owner, &embeddings, &ids).expect("compilation must succeed");
    assert_eq!(q.queries.len(), 3);
    assert_eq!(
        q.queries[0],
        "CREATE (user_1:User { id: \"aaaaaaaa-0000-0000-0000-000000000001\", user_id: \"11111111-1111-1111-1111-111111111111\" })"
    );
    assert_eq!(
        q.queries[1],
        "CREATE (interest_1:Interest { id: \"aaaaaaaa-0000-0000-0000-000000000002\", embedding: [0.1, 0.2], name: \"hiking\" })"
    );
    assert_eq!(
        q.queries[2],
        "MATCH (n), (m) WHERE n.id = \"aaaaaaaa-0000-0000-0000-000000000001\" AND m.id = \"aaaaaaaa-0000-0000-0000-000000000002\" CREATE (n)-[:INTERESTED_IN]->(m)"
    );
    // The relationship statement references the freshly minted identifiers,
    // never the caller-local ones.
    assert!(!q.queries[2].contains("user_1"));
    assert!(!q.queries[2].contains("interest_1"));
}

#[test]
fn compile_statement_counts_and_order() {
    let g = hiking_graph();
    let embeddings = vec![None, Some(s("[1.0]"))];
    let q = g.into_queries(&None, &embeddings).expect("compilation must succeed");
    assert_eq!(q.queries.len(), g.nodes.len() + g.relationships.len());
    for i in 0..g.nodes.len() {
        assert!(q.queries[i].starts_with("CREATE ("));
    }
    for j in g.nodes.len()..q.queries.len() {
        assert!(q.queries[j].starts_with("MATCH (n), (m)"));
    }
}

#[test]
fn compile_embedding_appears_exactly_once_when_embeddable() {
    let g = hiking_graph();
    let embeddings = vec![None, Some(s("[1.0]"))];
    let ids = vec![s("id-a"), s("id-b")];
    let q = g.into_queries_with_ids(&None, &embeddings, &ids).expect("compilation must succeed");
    assert_eq!(q.queries[0].matches("embedding:").count(), 0);
    assert_eq!(q.queries[1].matches("embedding:").count(), 1);
}

#[test]
fn compile_without_owner_leaves_user_props_alone() {
    let g = hiking_graph();
    let embeddings = vec![None, Some(s("[1.0]"))];
    let ids = vec![s("id-a"), s("id-b")];
    let q = g.into_queries_with_ids(&None, &embeddings, &ids).expect("compilation must succeed");
    assert_eq!(q.queries[0], "CREATE (user_1:User { id: \"id-a\",  })");
}

#[test]
fn compile_owner_overwrites_existing_user_id() {
    let g = GraphData {
        nodes: vec![GraphNode {
            id: s("user_1"),
            label: s("User"),
            properties: vec![(s("user_id"), PropValue::Str(s("stale")))],
        }],
        relationships: vec![],
    };
    let owner = Some(s("fresh-account"));
    let embeddings = vec![None];
    let ids = vec![s("id-a")];
    let q = g.into_queries_with_ids(&owner, &embeddings, &ids).expect("compilation must succeed");
    assert_eq!(q.queries[0], "CREATE (user_1:User { id: \"id-a\", user_id: \"fresh-account\" })");
}

#[test]
fn compile_unresolved_endpoint_fails_hard() {
    let g = GraphData {
        nodes: vec![GraphNode { id: s("user_1"), label: s("User"), properties: vec![] }],
        relationships: vec![GraphRelationship {
            source_id: s("user_1"),
            target_id: s("ghost_7"),
            label: s("HAS_GOAL"),
        }],
    };
    let embeddings = vec![None];
    let ids = vec![s("id-a")];
    match g.into_queries_with_ids(&None, &embeddings, &ids) {
        Err(GraphError::IdentifierResolutionFailure(which)) => assert_eq!(which, "ghost_7"),
        other => panic!("expected IdentifierResolutionFailure, got {:?}", other),
    }
}

#[test]
fn compile_minted_identifiers_are_uuid_shaped() {
    let g = GraphData {
        nodes: vec![GraphNode { id: s("user_1"), label: s("User"), properties: vec![] }],
        relationships: vec![],
    };
    let embeddings = vec![None];
    let q = g.into_queries(&None, &embeddings).expect("compilation must succeed");
    // `CREATE (user_1:User { id: "` is 28 characters; the 36-character
    // minted identifier follows.
    let stmt = &q.queries[0];
    let prefix = "CREATE (user_1:User { id: \"";
    assert!(stmt.starts_with(prefix));
    let rest = &stmt[prefix.len()..];
    let minted: String = rest.chars().take_while(|c| *c != '"').collect();
    assert_eq!(minted.len(), 36);
    assert_ne!(minted, "user_1");
}

#[test]
fn into_queries_unresolved_endpoint_fails_with_minted_ids_too() {
    let g = GraphData {
        nodes: vec![GraphNode { id: s("user_1"), label: s("User"), properties: vec![] }],
        relationships: vec![GraphRelationship {
            source_id: s("ghost_1"),
            target_id: s("user_1"),
            label: s("HAS_GOAL"),
        }],
    };
    let embeddings = vec![None];
    match g.into_queries(&None, &embeddings) {
        Err(GraphError::IdentifierResolutionFailure(which)) => assert_eq!(which, "ghost_1"),
        other => panic!("expected IdentifierResolutionFailure, got {:?}", other),
    }
}

#[test]
fn compile_empty_document_yields_no_statements() {
    let g = GraphData { nodes: vec![], relationships: vec![] };
    let q = g.into_queries(&None, &vec![]).expect("the empty batch compiles");
    assert!(q.queries.is_empty());
}

#[test]
fn duplicate_batch_local_ids_resolve_to_last_mapping() {
    let g = GraphData {
        nodes: vec![
            GraphNode { id: s("n"), label: s("User"), properties: vec![] },
            GraphNode { id: s("n"), label: s("User"), properties: vec![] },
        ],
        relationships: vec![GraphRelationship {
            source_id: s("n"),
            target_id: s("n"),
            label: s("HAS_GOAL"),
        }],
    };
    let embeddings = vec![None, None];
    let ids = vec![s("first-mint"), s("second-mint")];
    let q = g.into_queries_with_ids(&None, &embeddings, &ids).expect("compilation must succeed");
    assert!(q.queries[2].contains("n.id = \"second-mint\""));
    assert!(!q.queries[2].contains("first-mint"));
}
