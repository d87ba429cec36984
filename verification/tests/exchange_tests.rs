use buddy_graph::errors::GraphError;
use buddy_graph::exchange::GraphData;
use buddy_graph::exchange::GraphNode;
use buddy_graph::exchange::GraphRelationship;
use buddy_graph::exchange::JsonValue;
use buddy_graph::exchange::PropValue;

fn s(text: &str) -> String {
    text.to_string()
}

fn sample_graph() -> GraphData {
    GraphData {
        nodes: vec![
            GraphNode {
                id: s("user_1"),
                label: s("User"),
                properties: vec![(s("user_id"), PropValue::Str(s("acct")))],
            },
            GraphNode {
                id: s("interest_1"),
                label: s("Interest"),
                properties: vec![(s("name"), PropValue::Str(s("hiking")))],
            },
        ],
        relationships: vec![GraphRelationship {
            source_id: s("user_1"),
            target_id: s("interest_1"),
            label: s("INTERESTED_IN"),
        }],
    }
}

#[test]
fn render_graph_as_compact_json() {
    let text = sample_graph().to_json_text();
    assert_eq!(
        text,
        "{\"nodes\":[{\"id\":\"user_1\",\"label\":\"User\",\"props\":{\"user_id\":\"acct\"}},{\"id\":\"interest_1\",\"label\":\"Interest\",\"props\":{\"name\":\"hiking\"}}],\"relationships\":[{\"source\":\"user_1\",\"target\":\"interest_1\",\"label\":\"INTERESTED_IN\"}]}"
    );
}

#[test]
fn render_escapes_json_special_characters() {
    let g = GraphData {
        nodes: vec![GraphNode {
            id: s("n1"),
            label: s("Interest"),
            properties: vec![(s("name"), PropValue::Str(s("say \"hi\"\nback\\slash")))],
        }],
        relationships: vec![],
    };
    let text = g.to_json_text();
    assert_eq!(
        text,
        "{\"nodes\":[{\"id\":\"n1\",\"label\":\"Interest\",\"props\":{\"name\":\"say \\\"hi\\\"\\nback\\\\slash\"}}],\"relationships\":[]}"
    );
}

#[test]
fn render_scalar_kinds() {
    let g = GraphData {
        nodes: vec![GraphNode {
            id: s("d1"),
            label: s("Date"),
            properties: vec![
                (s("day"), PropValue::Int(15)),
                (s("flag"), PropValue::Bool(true)),
                (s("gap"), PropValue::Null),
                (s("offset"), PropValue::Int(-40)),
            ],
        }],
        relationships: vec![],
    };
    let text = g.to_json_text();
    assert_eq!(
        text,
        "{\"nodes\":[{\"id\":\"d1\",\"label\":\"Date\",\"props\":{\"day\":15,\"flag\":true,\"gap\":null,\"offset\":-40}}],\"relationships\":[]}"
    );
}

fn obj(fields: Vec<(&str, JsonValue)>) -> JsonValue {
    JsonValue::Obj(fields.into_iter().map(|(k, v)| (k.to_string(), v)).collect())
}

fn node_json(id: &str, label: &str, props: Vec<(&str, JsonValue)>) -> JsonValue {
    obj(vec![
        ("id", JsonValue::Str(id.to_string())),
        ("label", JsonValue::Str(label.to_string())),
        ("props", obj(props)),
    ])
}

#[test]
fn parse_valid_exchange_document() {
    let doc = obj(vec![
        (
            "nodes",
            JsonValue::Arr(vec![
                node_json("user_1", "User", vec![]),
                node_json(
                    "interest_1",
                    "Interest",
                    vec![("name", JsonValue::Str(s("hiking")))],
                ),
            ]),
        ),
        (
            "relationships",
            JsonValue::Arr(vec![obj(vec![
                ("source", JsonValue::Str(s("user_1"))),
                ("target", JsonValue::Str(s("interest_1"))),
                ("label", JsonValue::Str(s("INTERESTED_IN"))),
            ])]),
        ),
    ]);
    let g = GraphData::from_json(&doc).expect("well-shaped document must parse");
    assert_eq!(g.nodes.len(), 2);
    assert_eq!(g.nodes[0].id, "user_1");
    assert_eq!(g.nodes[0].label, "User");
    assert_eq!(g.nodes[1].properties.len(), 1);
    assert_eq!(g.nodes[1].properties[0].0, "name");
    assert!(matches!(&g.nodes[1].properties[0].1, PropValue::Str(v) if v == "hiking"));
    assert_eq!(g.relationships.len(), 1);
    assert_eq!(g.relationships[0].source_id, "user_1");
    assert_eq!(g.relationships[0].target_id, "interest_1");
    assert_eq!(g.relationships[0].label, "INTERESTED_IN");
}

#[test]
fn parse_malformed_nodes_field_fails() {
    let doc = obj(vec![("nodes", JsonValue::Str(s("oops")))]);
    assert!(matches!(
        GraphData::from_json(&doc),
        Err(GraphError::MalformedExchangeDocument)
    ));
}

#[test]
fn parse_non_object_fails() {
    assert!(matches!(
        GraphData::from_json(&JsonValue::Str(s("not a graph"))),
        Err(GraphError::MalformedExchangeDocument)
    ));
}

#[test]
fn parse_missing_relationships_fails() {
    let doc = obj(vec![("nodes", JsonValue::Arr(vec![]))]);
    assert!(matches!(
        GraphData::from_json(&doc),
        Err(GraphError::MalformedExchangeDocument)
    ));
}

#[test]
fn parse_node_with_nested_property_fails() {
    let doc = obj(vec![
        (
            "nodes",
            JsonValue::Arr(vec![node_json(
                "n1",
                "Interest",
                vec![("name", JsonValue::Arr(vec![]))],
            )]),
        ),
        ("relationships", JsonValue::Arr(vec![])),
    ]);
    assert!(matches!(
        GraphData::from_json(&doc),
        Err(GraphError::MalformedExchangeDocument)
    ));
}

#[test]
fn parse_empty_document_is_not_an_error() {
    let doc = obj(vec![
        ("nodes", JsonValue::Arr(vec![])),
        ("relationships", JsonValue::Arr(vec![])),
    ]);
    let g = GraphData::from_json(&doc).expect("the empty graph is legitimate");
    assert!(g.is_empty());
}

#[test]
fn error_messages_name_the_failure() {
    assert_eq!(
        GraphError::MalformedExchangeDocument.message(),
        "malformed exchange document"
    );
    assert_eq!(
        GraphError::UnrecognizedLabel(s("Animal")).message(),
        "unrecognized label: Animal"
    );
    assert_eq!(
        GraphError::MissingRequiredProperty(s("name")).message(),
        "missing required property: name"
    );
    assert_eq!(
        GraphError::IdentifierResolutionFailure(s("x_9")).message(),
        "unresolved identifier: x_9"
    );
    assert_eq!(GraphError::TransactionFailure.message(), "transaction failure");
    assert_eq!(GraphError::CollaboratorFailure.message(), "collaborator failure");
    assert_eq!(
        GraphError::MalformedNode(s("name")).message(),
        "malformed node, no embeddable field: name"
    );
}
