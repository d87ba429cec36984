use buddy_graph::errors::GraphError;
use buddy_graph::exchange::PropValue;
use buddy_graph::model::classify;
use buddy_graph::model::Date;
use buddy_graph::model::Goal;
use buddy_graph::model::Interest;
use buddy_graph::model::Motivation;
use buddy_graph::model::Neo4jNode;
use buddy_graph::model::Task;
use buddy_graph::model::UserNode;

fn s(text: &str) -> String {
    text.to_string()
}

#[test]
fn classify_user_node() {
    let labels = vec![s("User")];
    let props = vec![
        (s("id"), PropValue::Str(s("u-1"))),
        (s("user_id"), PropValue::Str(s("account-9"))),
    ];
    match classify(&labels, &props) {
        Ok(Neo4jNode::User(u)) => {
            assert_eq!(u.id, "u-1");
            assert_eq!(u.user_id, "account-9");
        }
        other => panic!("expected a User, got {:?}", other),
    }
}

#[test]
fn classify_uses_first_label_only() {
    let labels = vec![s("Interest"), s("Goal")];
    let props = vec![(s("id"), PropValue::Str(s("i-1"))), (s("name"), PropValue::Str(s("chess")))];
    match classify(&labels, &props) {
        Ok(Neo4jNode::Interest(i)) => assert_eq!(i.name, "chess"),
        other => panic!("expected an Interest, got {:?}", other),
    }
}

#[test]
fn classify_unknown_label_fails() {
    let labels = vec![s("Animal")];
    let props = vec![(s("id"), PropValue::Str(s("a-1")))];
    match classify(&labels, &props) {
        Err(GraphError::UnrecognizedLabel(l)) => assert_eq!(l, "Animal"),
        other => panic!("expected UnrecognizedLabel, got {:?}", other),
    }
}

#[test]
fn classify_no_label_fails() {
    let labels: Vec<String> = vec![];
    let props = vec![(s("id"), PropValue::Str(s("a-1")))];
    assert!(matches!(classify(&labels, &props), Err(GraphError::UnrecognizedLabel(_))));
}

#[test]
fn classify_missing_required_property_fails() {
    let labels = vec![s("Goal")];
    let props = vec![(s("id"), PropValue::Str(s("g-1")))];
    match classify(&labels, &props) {
        Err(GraphError::MissingRequiredProperty(name)) => assert_eq!(name, "description"),
        other => panic!("expected MissingRequiredProperty, got {:?}", other),
    }
}

#[test]
fn classify_date_out_of_range_fails() {
    let labels = vec![s("Date")];
    let props = vec![
        (s("id"), PropValue::Str(s("d-1"))),
        (s("day"), PropValue::Int(300)),
        (s("month"), PropValue::Int(3)),
        (s("year"), PropValue::Int(2024)),
    ];
    assert!(matches!(classify(&labels, &props), Err(GraphError::MissingRequiredProperty(_))));
}

#[test]
fn roundtrip_all_six_variants() {
    let variants = vec![
        Neo4jNode::User(UserNode { id: s("u"), user_id: s("acct") }),
        Neo4jNode::Interest(Interest { id: s("i"), name: s("hiking") }),
        Neo4jNode::Goal(Goal {
            id: s("g"),
            description: s("run a marathon"),
            timeframe: Some(s("long-term")),
        }),
        Neo4jNode::Goal(Goal { id: s("g2"), description: s("sleep more"), timeframe: None }),
        Neo4jNode::Motivation(Motivation { id: s("m"), title: s("health"), reason: s("family") }),
        Neo4jNode::Task(Task { id: s("t"), action: s("buy shoes"), status: Some(s("pending")) }),
        Neo4jNode::Task(Task { id: s("t2"), action: s("stretch"), status: None }),
        Neo4jNode::Date(Date { id: s("d"), day: 15, month: 3, year: 2024 }),
    ];
    for v in variants {
        let gn = v.to_graph_node();
        let back = Neo4jNode::from_graph_node(&gn).expect("projection must classify back");
        assert_eq!(back.id(), v.id());
        assert_eq!(back.to_context(), v.to_context());
        let gn2 = back.to_graph_node();
        assert_eq!(gn2.id, gn.id);
        assert_eq!(gn2.label, gn.label);
        assert_eq!(gn2.properties.len(), gn.properties.len());
    }
}

#[test]
fn context_lines_exact() {
    assert_eq!(
        Neo4jNode::User(UserNode { id: s("u"), user_id: s("acct-1") }).to_context(),
        "User: acct-1"
    );
    assert_eq!(
        Neo4jNode::Interest(Interest { id: s("i"), name: s("hiking") }).to_context(),
        "Interest: hiking"
    );
    assert_eq!(
        Neo4jNode::Goal(Goal {
            id: s("g"),
            description: s("run"),
            timeframe: Some(s("short-term"))
        })
        .to_context(),
        "Goal: run with timeframe short-term"
    );
    assert_eq!(
        Neo4jNode::Goal(Goal { id: s("g"), description: s("run"), timeframe: None }).to_context(),
        "Goal: run"
    );
    assert_eq!(
        Neo4jNode::Motivation(Motivation { id: s("m"), title: s("health"), reason: s("family") })
            .to_context(),
        "Motivation: health with reason family"
    );
    assert_eq!(
        Neo4jNode::Task(Task { id: s("t"), action: s("jog"), status: Some(s("pending")) })
            .to_context(),
        "Task: jog with status pending"
    );
    assert_eq!(
        Neo4jNode::Task(Task { id: s("t"), action: s("jog"), status: None }).to_context(),
        "Task: jog"
    );
    assert_eq!(
        Neo4jNode::Date(Date { id: s("d"), day: 15, month: 3, year: 2024 }).to_context(),
        "Date: 15 of 3, 2024"
    );
}

#[test]
fn variant_id_accessor() {
    let v = Neo4jNode::Motivation(Motivation { id: s("m-77"), title: s("a"), reason: s("b") });
    assert_eq!(v.id(), "m-77");
}

#[test]
fn goal_null_timeframe_classifies_as_none() {
    let labels = vec![s("Goal")];
    let props = vec![
        (s("id"), PropValue::Str(s("g-1"))),
        (s("description"), PropValue::Str(s("ship it"))),
        (s("timeframe"), PropValue::Null),
    ];
    match classify(&labels, &props) {
        Ok(Neo4jNode::Goal(g)) => {
            assert_eq!(g.description, "ship it");
            assert!(g.timeframe.is_none());
        }
        other => panic!("expected a Goal, got {:?}", other),
    }
}
