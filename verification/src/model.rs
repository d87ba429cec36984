//! The domain node variants of the knowledge graph: the closed set of node
//! kinds, their one-line natural-language renderings, their lossless
//! projection to the exchange format, and the classifier that maps a raw
//! stored node (labels and properties) back to a variant.
use vstd::prelude::*;
use vstd::string::StringExecFns;

use crate::errors::ErrV;
use crate::errors::GraphError;
use crate::exchange::GraphNode;
use crate::exchange::GraphNodeV;
use crate::exchange::PropV;
use crate::exchange::PropValue;
use crate::exchange::props_view;
use crate::text::dec_str;
use crate::text::seq_views;
use crate::text::str_eq;
use crate::text::u64_to_string;

verus! {

/// A stored `User` node: the root of one account's subgraph.
#[derive(Debug, Clone)]
pub struct UserNode {
    pub id: String,
    pub user_id: String,
}

/// A stored `Interest` node.
#[derive(Debug, Clone)]
pub struct Interest {
    pub id: String,
    pub name: String,
}

/// A stored `Goal` node; the timeframe is optional.
#[derive(Debug, Clone)]
pub struct Goal {
    pub id: String,
    pub description: String,
    pub timeframe: Option<String>,
}

/// A stored `Motivation` node.
#[derive(Debug, Clone)]
pub struct Motivation {
    pub id: String,
    pub title: String,
    pub reason: String,
}

/// A stored `Task` node; the status is optional.
#[derive(Debug, Clone)]
pub struct Task {
    pub id: String,
    pub action: String,
    pub status: Option<String>,
}

/// A stored `Date` node.
#[derive(Debug, Clone)]
pub struct Date {
    pub id: String,
    pub day: u8,
    pub month: u8,
    pub year: u16,
}

/// A domain node variant: the closed set of node kinds the graph schema
/// admits. Every persisted node carries exactly one of these labels;
/// an unknown label is a hard classification failure, never silently
/// dropped.
#[derive(Debug, Clone)]
pub enum Neo4jNode {
    User(UserNode),
    Interest(Interest),
    Goal(Goal),
    Motivation(Motivation),
    Task(Task),
    Date(Date),
}

/// Spec-level view of `UserNode`.
pub struct UserNodeV {
    pub id: Seq<char>,
    pub user_id: Seq<char>,
}

/// Spec-level view of `Interest`.
pub struct InterestV {
    pub id: Seq<char>,
    pub name: Seq<char>,
}

/// Spec-level view of `Goal`.
pub struct GoalV {
    pub id: Seq<char>,
    pub description: Seq<char>,
    pub timeframe: Option<Seq<char>>,
}

/// Spec-level view of `Motivation`.
pub struct MotivationV {
    pub id: Seq<char>,
    pub title: Seq<char>,
    pub reason: Seq<char>,
}

/// Spec-level view of `Task`.
pub struct TaskV {
    pub id: Seq<char>,
    pub action: Seq<char>,
    pub status: Option<Seq<char>>,
}

/// Spec-level view of `Date`.
pub struct DateV {
    pub id: Seq<char>,
    pub day: u8,
    pub month: u8,
    pub year: u16,
}

/// Spec-level view of `Neo4jNode`.
pub enum NodeV {
    User(UserNodeV),
    Interest(InterestV),
    Goal(GoalV),
    Motivation(MotivationV),
    Task(TaskV),
    Date(DateV),
}

/// The view of an optional string.
pub open spec fn opt_view(o: Option<String>) -> Option<Seq<char>> {
    match o {
        Some(s) => Some(s@),
        None => None,
    }
}

impl View for UserNode {
    type V = UserNodeV;

    open spec fn view(&self) -> UserNodeV {
        UserNodeV { id: self.id@, user_id: self.user_id@ }
    }
}

impl View for Interest {
    type V = InterestV;

    open spec fn view(&self) -> InterestV {
        InterestV { id: self.id@, name: self.name@ }
    }
}

impl View for Goal {
    type V = GoalV;

    open spec fn view(&self) -> GoalV {
        GoalV { id: self.id@, description: self.description@, timeframe: opt_view(self.timeframe) }
    }
}

impl View for Motivation {
    type V = MotivationV;

    open spec fn view(&self) -> MotivationV {
        MotivationV { id: self.id@, title: self.title@, reason: self.reason@ }
    }
}

impl View for Task {
    type V = TaskV;

    open spec fn view(&self) -> TaskV {
        TaskV { id: self.id@, action: self.action@, status: opt_view(self.status) }
    }
}

impl View for Date {
    type V = DateV;

    open spec fn view(&self) -> DateV {
        DateV { id: self.id@, day: self.day, month: self.month, year: self.year }
    }
}

impl View for Neo4jNode {
    type V = NodeV;

    open spec fn view(&self) -> NodeV {
        match self {
            Neo4jNode::User(u) => NodeV::User(u@),
            Neo4jNode::Interest(i) => NodeV::Interest(i@),
            Neo4jNode::Goal(g) => NodeV::Goal(g@),
            Neo4jNode::Motivation(m) => NodeV::Motivation(m@),
            Neo4jNode::Task(t) => NodeV::Task(t@),
            Neo4jNode::Date(d) => NodeV::Date(d@),
        }
    }
}

/// The stable identity of a variant.
pub open spec fn node_id(n: NodeV) -> Seq<char> {
    match n {
        NodeV::User(u) => u.id,
        NodeV::Interest(i) => i.id,
        NodeV::Goal(g) => g.id,
        NodeV::Motivation(m) => m.id,
        NodeV::Task(t) => t.id,
        NodeV::Date(d) => d.id,
    }
}

/// The one-line natural-language rendering of a variant, used to build
/// retrieval context.
pub open spec fn node_context(n: NodeV) -> Seq<char> {
    match n {
        NodeV::User(u) => "User: "@ + u.user_id,
        NodeV::Interest(i) => "Interest: "@ + i.name,
        NodeV::Goal(g) => match g.timeframe {
            Some(t) => "Goal: "@ + g.description + " with timeframe "@ + t,
            None => "Goal: "@ + g.description,
        },
        NodeV::Motivation(m) => "Motivation: "@ + m.title + " with reason "@ + m.reason,
        NodeV::Task(t) => match t.status {
            Some(s) => "Task: "@ + t.action + " with status "@ + s,
            None => "Task: "@ + t.action,
        },
        NodeV::Date(d) => "Date: "@ + dec_str(d.day as nat) + " of "@ + dec_str(d.month as nat)
            + ", "@ + dec_str(d.year as nat),
    }
}

/// The lossless projection of a variant to the exchange format: the stable
/// identity in `id`, the variant's kind as `label`, and every field in the
/// property map (an absent optional field as a `null`).
pub open spec fn node_to_graph_node(n: NodeV) -> GraphNodeV {
    match n {
        NodeV::User(u) => GraphNodeV {
            id: u.id,
            label: "User"@,
            props: seq![("user_id"@, PropV::Str(u.user_id))],
        },
        NodeV::Interest(i) => GraphNodeV {
            id: i.id,
            label: "Interest"@,
            props: seq![("name"@, PropV::Str(i.name))],
        },
        NodeV::Goal(g) => GraphNodeV {
            id: g.id,
            label: "Goal"@,
            props: seq![
                ("description"@, PropV::Str(g.description)),
                (
                    "timeframe"@,
                    match g.timeframe {
                        Some(t) => PropV::Str(t),
                        None => PropV::Null,
                    },
                ),
            ],
        },
        NodeV::Motivation(m) => GraphNodeV {
            id: m.id,
            label: "Motivation"@,
            props: seq![("title"@, PropV::Str(m.title)), ("reason"@, PropV::Str(m.reason))],
        },
        NodeV::Task(t) => GraphNodeV {
            id: t.id,
            label: "Task"@,
            props: seq![
                ("action"@, PropV::Str(t.action)),
                (
                    "status"@,
                    match t.status {
                        Some(s) => PropV::Str(s),
                        None => PropV::Null,
                    },
                ),
            ],
        },
        NodeV::Date(d) => GraphNodeV {
            id: d.id,
            label: "Date"@,
            props: seq![
                ("day"@, PropV::Int(d.day as int)),
                ("month"@, PropV::Int(d.month as int)),
                ("year"@, PropV::Int(d.year as int)),
            ],
        },
    }
}

impl UserNode {
    /// Renders this node as one line of retrieval context.
    pub fn to_context(&self) -> (r: String)
        ensures
            r@ == node_context(NodeV::User(self@)),
    {
        let mut out = "User: ".to_owned();
        out.append(self.user_id.as_str());
        out
    }
}

impl Interest {
    /// Renders this node as one line of retrieval context.
    pub fn to_context(&self) -> (r: String)
        ensures
            r@ == node_context(NodeV::Interest(self@)),
    {
        let mut out = "Interest: ".to_owned();
        out.append(self.name.as_str());
        out
    }
}

impl Goal {
    /// Renders this node as one line of retrieval context.
    pub fn to_context(&self) -> (r: String)
        ensures
            r@ == node_context(NodeV::Goal(self@)),
    {
        let mut out = "Goal: ".to_owned();
        out.append(self.description.as_str());
        match &self.timeframe {
            Some(t) => {
                out.append(" with timeframe ");
                out.append(t.as_str());
            }
            None => {}
        }
        out
    }
}

impl Motivation {
    /// Renders this node as one line of retrieval context.
    pub fn to_context(&self) -> (r: String)
        ensures
            r@ == node_context(NodeV::Motivation(self@)),
    {
        let mut out = "Motivation: ".to_owned();
        out.append(self.title.as_str());
        out.append(" with reason ");
        out.append(self.reason.as_str());
        out
    }
}

impl Task {
    /// Renders this node as one line of retrieval context.
    pub fn to_context(&self) -> (r: String)
        ensures
            r@ == node_context(NodeV::Task(self@)),
    {
        let mut out = "Task: ".to_owned();
        out.append(self.action.as_str());
        match &self.status {
            Some(s) => {
                out.append(" with status ");
                out.append(s.as_str());
            }
            None => {}
        }
        out
    }
}

impl Date {
    /// Renders this node as one line of retrieval context.
    pub fn to_context(&self) -> (r: String)
        ensures
            r@ == node_context(NodeV::Date(self@)),
    {
        let mut out = "Date: ".to_owned();
        out.append(u64_to_string(self.day as u64).as_str());
        out.append(" of ");
        out.append(u64_to_string(self.month as u64).as_str());
        out.append(", ");
        out.append(u64_to_string(self.year as u64).as_str());
        out
    }
}

impl Neo4jNode {
    /// The stable identity of this variant.
    pub fn id(&self) -> (r: String)
        ensures
            r@ == node_id(self@),
    {
        match self {
            Neo4jNode::User(u) => u.id.clone(),
            Neo4jNode::Interest(i) => i.id.clone(),
            Neo4jNode::Goal(g) => g.id.clone(),
            Neo4jNode::Motivation(m) => m.id.clone(),
            Neo4jNode::Task(t) => t.id.clone(),
            Neo4jNode::Date(d) => d.id.clone(),
        }
    }

    /// Renders this variant as one line of retrieval context.
    pub fn to_context(&self) -> (r: String)
        ensures
            r@ == node_context(self@),
    {
        match self {
            Neo4jNode::User(u) => u.to_context(),
            Neo4jNode::Interest(i) => i.to_context(),
            Neo4jNode::Goal(g) => g.to_context(),
            Neo4jNode::Motivation(m) => m.to_context(),
            Neo4jNode::Task(t) => t.to_context(),
            Neo4jNode::Date(d) => d.to_context(),
        }
    }

    /// Projects this variant to the exchange format, losslessly.
    pub fn to_graph_node(&self) -> (r: GraphNode)
        ensures
            r@ == node_to_graph_node(self@),
    {
        match self {
            Neo4jNode::User(u) => {
                let mut props: Vec<(String, PropValue)> = Vec::new();
                props.push(("user_id".to_owned(), PropValue::Str(u.user_id.clone())));
                let r = GraphNode {
                    id: u.id.clone(),
                    label: "User".to_owned(),
                    properties: props,
                };
                proof {
                    assert(r@.props =~~= node_to_graph_node(self@).props);
                }
                r
            }
            Neo4jNode::Interest(i) => {
                let mut props: Vec<(String, PropValue)> = Vec::new();
                props.push(("name".to_owned(), PropValue::Str(i.name.clone())));
                let r = GraphNode {
                    id: i.id.clone(),
                    label: "Interest".to_owned(),
                    properties: props,
                };
                proof {
                    assert(r@.props =~~= node_to_graph_node(self@).props);
                }
                r
            }
            Neo4jNode::Goal(g) => {
                let mut props: Vec<(String, PropValue)> = Vec::new();
                props.push(("description".to_owned(), PropValue::Str(g.description.clone())));
                let tf: PropValue = match &g.timeframe {
                    Some(t) => PropValue::Str(t.clone()),
                    None => PropValue::Null,
                };
                props.push(("timeframe".to_owned(), tf));
                let r = GraphNode {
                    id: g.id.clone(),
                    label: "Goal".to_owned(),
                    properties: props,
                };
                proof {
                    assert(r@.props =~~= node_to_graph_node(self@).props);
                }
                r
            }
            Neo4jNode::Motivation(m) => {
                let mut props: Vec<(String, PropValue)> = Vec::new();
                props.push(("title".to_owned(), PropValue::Str(m.title.clone())));
                props.push(("reason".to_owned(), PropValue::Str(m.reason.clone())));
                let r = GraphNode {
                    id: m.id.clone(),
                    label: "Motivation".to_owned(),
                    properties: props,
                };
                proof {
                    assert(r@.props =~~= node_to_graph_node(self@).props);
                }
                r
            }
            Neo4jNode::Task(t) => {
                let mut props: Vec<(String, PropValue)> = Vec::new();
                props.push(("action".to_owned(), PropValue::Str(t.action.clone())));
                let st: PropValue = match &t.status {
                    Some(s) => PropValue::Str(s.clone()),
                    None => PropValue::Null,
                };
                props.push(("status".to_owned(), st));
                let r = GraphNode {
                    id: t.id.clone(),
                    label: "Task".to_owned(),
                    properties: props,
                };
                proof {
                    assert(r@.props =~~= node_to_graph_node(self@).props);
                }
                r
            }
            Neo4jNode::Date(d) => {
                let mut props: Vec<(String, PropValue)> = Vec::new();
                props.push(("day".to_owned(), PropValue::Int(d.day as i64)));
                props.push(("month".to_owned(), PropValue::Int(d.month as i64)));
                props.push(("year".to_owned(), PropValue::Int(d.year as i64)));
                let r = GraphNode {
                    id: d.id.clone(),
                    label: "Date".to_owned(),
                    properties: props,
                };
                proof {
                    assert(r@.props =~~= node_to_graph_node(self@).props);
                }
                r
            }
        }
    }
}


// ---------------------------------------------------------------------------
// The node classifier
// ---------------------------------------------------------------------------
/// Looks a key up in a property list; the first matching key wins.
pub open spec fn prop_lookup(props: Seq<(Seq<char>, PropV)>, key: Seq<char>) -> Option<PropV>
    decreases props.len(),
{
    if props.len() == 0 {
        None
    } else if props[0].0 == key {
        Some(props[0].1)
    } else {
        prop_lookup(props.drop_first(), key)
    }
}

/// A required string property: present and a string, or a
/// `MissingRequiredProperty` failure naming the property.
pub open spec fn req_str(props: Seq<(Seq<char>, PropV)>, key: Seq<char>) -> Result<
    Seq<char>,
    ErrV,
> {
    match prop_lookup(props, key) {
        Some(PropV::Str(s)) => Ok(s),
        _ => Err(ErrV::MissingRequiredProperty(key)),
    }
}

/// An optional string property: an absent key or a `null` is `None`; a
/// present value of any other shape than a string is a
/// `MissingRequiredProperty` failure.
pub open spec fn opt_str(props: Seq<(Seq<char>, PropV)>, key: Seq<char>) -> Result<
    Option<Seq<char>>,
    ErrV,
> {
    match prop_lookup(props, key) {
        None => Ok(None),
        Some(PropV::Null) => Ok(None),
        Some(PropV::Str(s)) => Ok(Some(s)),
        Some(_) => Err(ErrV::MissingRequiredProperty(key)),
    }
}

/// A required integer property that must fit a `u8`.
pub open spec fn req_u8(props: Seq<(Seq<char>, PropV)>, key: Seq<char>) -> Result<u8, ErrV> {
    match prop_lookup(props, key) {
        Some(PropV::Int(i)) => if 0 <= i <= u8::MAX {
            Ok(i as u8)
        } else {
            Err(ErrV::MissingRequiredProperty(key))
        },
        _ => Err(ErrV::MissingRequiredProperty(key)),
    }
}

/// A required integer property that must fit a `u16`.
pub open spec fn req_u16(props: Seq<(Seq<char>, PropV)>, key: Seq<char>) -> Result<u16, ErrV> {
    match prop_lookup(props, key) {
        Some(PropV::Int(i)) => if 0 <= i <= u16::MAX {
            Ok(i as u16)
        } else {
            Err(ErrV::MissingRequiredProperty(key))
        },
        _ => Err(ErrV::MissingRequiredProperty(key)),
    }
}

/// Classification of a `User` node from its property map.
pub open spec fn user_of_props(props: Seq<(Seq<char>, PropV)>) -> Result<NodeV, ErrV> {
    match (req_str(props, "id"@), req_str(props, "user_id"@)) {
        (Err(e), _) => Err(e),
        (_, Err(e)) => Err(e),
        (Ok(id), Ok(user_id)) => Ok(NodeV::User(UserNodeV { id, user_id })),
    }
}

/// Classification of an `Interest` node from its property map.
pub open spec fn interest_of_props(props: Seq<(Seq<char>, PropV)>) -> Result<NodeV, ErrV> {
    match (req_str(props, "id"@), req_str(props, "name"@)) {
        (Err(e), _) => Err(e),
        (_, Err(e)) => Err(e),
        (Ok(id), Ok(name)) => Ok(NodeV::Interest(InterestV { id, name })),
    }
}

/// Classification of a `Goal` node from its property map.
pub open spec fn goal_of_props(props: Seq<(Seq<char>, PropV)>) -> Result<NodeV, ErrV> {
    match (req_str(props, "id"@), req_str(props, "description"@), opt_str(props, "timeframe"@)) {
        (Err(e), _, _) => Err(e),
        (_, Err(e), _) => Err(e),
        (_, _, Err(e)) => Err(e),
        (Ok(id), Ok(description), Ok(timeframe)) => Ok(
            NodeV::Goal(GoalV { id, description, timeframe }),
        ),
    }
}

/// Classification of a `Motivation` node from its property map.
pub open spec fn motivation_of_props(props: Seq<(Seq<char>, PropV)>) -> Result<NodeV, ErrV> {
    match (req_str(props, "id"@), req_str(props, "title"@), req_str(props, "reason"@)) {
        (Err(e), _, _) => Err(e),
        (_, Err(e), _) => Err(e),
        (_, _, Err(e)) => Err(e),
        (Ok(id), Ok(title), Ok(reason)) => Ok(NodeV::Motivation(MotivationV { id, title, reason })),
    }
}

/// Classification of a `Task` node from its property map.
pub open spec fn task_of_props(props: Seq<(Seq<char>, PropV)>) -> Result<NodeV, ErrV> {
    match (req_str(props, "id"@), req_str(props, "action"@), opt_str(props, "status"@)) {
        (Err(e), _, _) => Err(e),
        (_, Err(e), _) => Err(e),
        (_, _, Err(e)) => Err(e),
        (Ok(id), Ok(action), Ok(status)) => Ok(NodeV::Task(TaskV { id, action, status })),
    }
}

/// Classification of a `Date` node from its property map.
pub open spec fn date_of_props(props: Seq<(Seq<char>, PropV)>) -> Result<NodeV, ErrV> {
    match (
        req_str(props, "id"@),
        req_u8(props, "day"@),
        req_u8(props, "month"@),
        req_u16(props, "year"@),
    ) {
        (Err(e), _, _, _) => Err(e),
        (_, Err(e), _, _) => Err(e),
        (_, _, Err(e), _) => Err(e),
        (_, _, _, Err(e)) => Err(e),
        (Ok(id), Ok(day), Ok(month), Ok(year)) => Ok(NodeV::Date(DateV { id, day, month, year })),
    }
}

/// The classifier: maps a raw stored node's labels and property map to the
/// matching domain variant. The classifying label is the first element of
/// the label list; a node with no label or an unknown first label is an
/// `UnrecognizedLabel` failure, and a required field that is absent or not
/// of the required shape is a `MissingRequiredProperty` failure.
pub open spec fn classify_spec(labels: Seq<Seq<char>>, props: Seq<(Seq<char>, PropV)>) -> Result<
    NodeV,
    ErrV,
> {
    if labels.len() == 0 {
        Err(ErrV::UnrecognizedLabel(Seq::empty()))
    } else {
        let l = labels[0];
        if l == "User"@ {
            user_of_props(props)
        } else if l == "Interest"@ {
            interest_of_props(props)
        } else if l == "Goal"@ {
            goal_of_props(props)
        } else if l == "Motivation"@ {
            motivation_of_props(props)
        } else if l == "Task"@ {
            task_of_props(props)
        } else if l == "Date"@ {
            date_of_props(props)
        } else {
            Err(ErrV::UnrecognizedLabel(l))
        }
    }
}

fn get_prop<'a>(props: &'a Vec<(String, PropValue)>, key: &str) -> (r: Option<&'a PropValue>)
    ensures
        match r {
            Some(x) => prop_lookup(props_view(props@), key@) == Some(x@),
            None => prop_lookup(props_view(props@), key@) is None,
        },
{
    let mut i: usize = 0;
    proof {
        assert(props_view(props@).skip(0) =~= props_view(props@));
    }
    while i < props.len()
        invariant
            i <= props@.len(),
            prop_lookup(props_view(props@).skip(i as int), key@) == prop_lookup(
                props_view(props@),
                key@,
            ),
        decreases props@.len() - i,
    {
        proof {
            assert(props_view(props@).skip(i as int)[0] == props_view(props@)[i as int]);
            assert(props_view(props@)[i as int] == (props@[i as int].0@, props@[i as int].1@));
            assert(props_view(props@).skip(i as int).drop_first() =~= props_view(props@).skip(
                i as int + 1,
            ));
        }
        let f = &props[i];
        if str_eq(f.0.as_str(), key) {
            return Some(&f.1);
        }
        i = i + 1;
    }
    proof {
        assert(props_view(props@).skip(props@.len() as int) =~= Seq::<(Seq<char>, PropV)>::empty());
    }
    None
}

fn req_str_prop(props: &Vec<(String, PropValue)>, key: &str) -> (r: Result<String, GraphError>)
    ensures
        match r {
            Ok(s) => req_str(props_view(props@), key@) == Ok::<Seq<char>, ErrV>(s@),
            Err(e) => req_str(props_view(props@), key@) == Err::<Seq<char>, ErrV>(e@),
        },
{
    match get_prop(props, key) {
        Some(PropValue::Str(s)) => Ok(s.clone()),
        _ => Err(GraphError::MissingRequiredProperty(key.to_owned())),
    }
}

fn opt_str_prop(props: &Vec<(String, PropValue)>, key: &str) -> (r: Result<
    Option<String>,
    GraphError,
>)
    ensures
        match r {
            Ok(s) => opt_str(props_view(props@), key@) == Ok::<Option<Seq<char>>, ErrV>(
                opt_view(s),
            ),
            Err(e) => opt_str(props_view(props@), key@) == Err::<Option<Seq<char>>, ErrV>(e@),
        },
{
    match get_prop(props, key) {
        None => Ok(None),
        Some(PropValue::Null) => Ok(None),
        Some(PropValue::Str(s)) => Ok(Some(s.clone())),
        Some(_) => Err(GraphError::MissingRequiredProperty(key.to_owned())),
    }
}

fn req_u8_prop(props: &Vec<(String, PropValue)>, key: &str) -> (r: Result<u8, GraphError>)
    ensures
        match r {
            Ok(n) => req_u8(props_view(props@), key@) == Ok::<u8, ErrV>(n),
            Err(e) => req_u8(props_view(props@), key@) == Err::<u8, ErrV>(e@),
        },
{
    match get_prop(props, key) {
        Some(PropValue::Int(n)) => {
            if 0 <= *n && *n <= 255 {
                Ok(*n as u8)
            } else {
                Err(GraphError::MissingRequiredProperty(key.to_owned()))
            }
        }
        _ => Err(GraphError::MissingRequiredProperty(key.to_owned())),
    }
}

fn req_u16_prop(props: &Vec<(String, PropValue)>, key: &str) -> (r: Result<u16, GraphError>)
    ensures
        match r {
            Ok(n) => req_u16(props_view(props@), key@) == Ok::<u16, ErrV>(n),
            Err(e) => req_u16(props_view(props@), key@) == Err::<u16, ErrV>(e@),
        },
{
    match get_prop(props, key) {
        Some(PropValue::Int(n)) => {
            if 0 <= *n && *n <= 65535 {
                Ok(*n as u16)
            } else {
                Err(GraphError::MissingRequiredProperty(key.to_owned()))
            }
        }
        _ => Err(GraphError::MissingRequiredProperty(key.to_owned())),
    }
}

/// Classifies a raw stored node — its label list and its property map —
/// into the matching domain variant, or fails as `classify_spec` says.
/// Classification is pure: it reads its arguments and touches nothing else.
pub fn classify(labels: &Vec<String>, properties: &Vec<(String, PropValue)>) -> (r: Result<
    Neo4jNode,
    GraphError,
>)
    ensures
        match r {
            Ok(n) => classify_spec(seq_views(labels@), props_view(properties@)) == Ok::<
                NodeV,
                ErrV,
            >(n@),
            Err(e) => classify_spec(seq_views(labels@), props_view(properties@)) == Err::<
                NodeV,
                ErrV,
            >(e@),
        },
{
    if labels.len() == 0 {
        return Err(GraphError::UnrecognizedLabel(String::new()));
    }
    let l: &String = &labels[0];
    proof {
        assert(seq_views(labels@)[0] == labels@[0]@);
    }
    if str_eq(l.as_str(), "User") {
        let id = match req_str_prop(properties, "id") {
            Ok(s) => s,
            Err(e) => {
                return Err(e);
            }
        };
        let user_id = match req_str_prop(properties, "user_id") {
            Ok(s) => s,
            Err(e) => {
                return Err(e);
            }
        };
        Ok(Neo4jNode::User(UserNode { id, user_id }))
    } else if str_eq(l.as_str(), "Interest") {
        let id = match req_str_prop(properties, "id") {
            Ok(s) => s,
            Err(e) => {
                return Err(e);
            }
        };
        let name = match req_str_prop(properties, "name") {
            Ok(s) => s,
            Err(e) => {
                return Err(e);
            }
        };
        Ok(Neo4jNode::Interest(Interest { id, name }))
    } else if str_eq(l.as_str(), "Goal") {
        let id = match req_str_prop(properties, "id") {
            Ok(s) => s,
            Err(e) => {
                return Err(e);
            }
        };
        let description = match req_str_prop(properties, "description") {
            Ok(s) => s,
            Err(e) => {
                return Err(e);
            }
        };
        let timeframe = match opt_str_prop(properties, "timeframe") {
            Ok(s) => s,
            Err(e) => {
                return Err(e);
            }
        };
        Ok(Neo4jNode::Goal(Goal { id, description, timeframe }))
    } else if str_eq(l.as_str(), "Motivation") {
        let id = match req_str_prop(properties, "id") {
            Ok(s) => s,
            Err(e) => {
                return Err(e);
            }
        };
        let title = match req_str_prop(properties, "title") {
            Ok(s) => s,
            Err(e) => {
                return Err(e);
            }
        };
        let reason = match req_str_prop(properties, "reason") {
            Ok(s) => s,
            Err(e) => {
                return Err(e);
            }
        };
        Ok(Neo4jNode::Motivation(Motivation { id, title, reason }))
    } else if str_eq(l.as_str(), "Task") {
        let id = match req_str_prop(properties, "id") {
            Ok(s) => s,
            Err(e) => {
                return Err(e);
            }
        };
        let action = match req_str_prop(properties, "action") {
            Ok(s) => s,
            Err(e) => {
                return Err(e);
            }
        };
        let status = match opt_str_prop(properties, "status") {
            Ok(s) => s,
            Err(e) => {
                return Err(e);
            }
        };
        Ok(Neo4jNode::Task(Task { id, action, status }))
    } else if str_eq(l.as_str(), "Date") {
        let id = match req_str_prop(properties, "id") {
            Ok(s) => s,
            Err(e) => {
                return Err(e);
            }
        };
        let day = match req_u8_prop(properties, "day") {
            Ok(n) => n,
            Err(e) => {
                return Err(e);
            }
        };
        let month = match req_u8_prop(properties, "month") {
            Ok(n) => n,
            Err(e) => {
                return Err(e);
            }
        };
        let year = match req_u16_prop(properties, "year") {
            Ok(n) => n,
            Err(e) => {
                return Err(e);
            }
        };
        Ok(Neo4jNode::Date(Date { id, day, month, year }))
    } else {
        Err(GraphError::UnrecognizedLabel(l.clone()))
    }
}

/// The property list a classifier sees for an exchange-format node: the
/// node's identity under the `id` key, then the node's own properties.
pub open spec fn classifier_props(n: GraphNodeV) -> Seq<(Seq<char>, PropV)> {
    seq![("id"@, PropV::Str(n.id))] + n.props
}

impl Neo4jNode {
    /// Classifies an exchange-format node back into a domain variant: the
    /// node's label is the sole classifying label, and its identity is
    /// handed to the classifier under the `id` key.
    pub fn from_graph_node(n: &GraphNode) -> (r: Result<Neo4jNode, GraphError>)
        ensures
            match r {
                Ok(out) => classify_spec(seq![n.label@], classifier_props(n@)) == Ok::<
                    NodeV,
                    ErrV,
                >(out@),
                Err(e) => classify_spec(seq![n.label@], classifier_props(n@)) == Err::<
                    NodeV,
                    ErrV,
                >(e@),
            },
    {
        let mut labels: Vec<String> = Vec::new();
        labels.push(n.label.clone());
        let mut props: Vec<(String, PropValue)> = Vec::new();
        props.push(("id".to_owned(), PropValue::Str(n.id.clone())));
        let mut i: usize = 0;
        while i < n.properties.len()
            invariant
                i <= n.properties@.len(),
                props@.len() == i + 1,
                props@[0].0@ == "id"@,
                props@[0].1@ == PropV::Str(n.id@),
                forall|k: int|
                    0 <= k < i ==> props@[k + 1].0@ == n.properties@[k].0@ && props@[k + 1].1@
                        == n.properties@[k].1@,
            decreases n.properties@.len() - i,
        {
            let f = &n.properties[i];
            props.push((f.0.clone(), f.1.duplicate()));
            i = i + 1;
        }
        proof {
            assert(seq_views(labels@) =~~= seq![n.label@]);
            assert(props_view(props@) =~~= classifier_props(n@));
        }
        classify(&labels, &props)
    }
}



/// Law: projecting a domain variant to the exchange format and classifying
/// the result back yields the same variant, for every variant of the
/// closed set — the projection is lossless in both directions.
pub proof fn lemma_classify_roundtrip(n: NodeV)
    ensures
        classify_spec(
            seq![node_to_graph_node(n).label],
            classifier_props(node_to_graph_node(n)),
        ) == Ok::<NodeV, ErrV>(n),
{
    reveal_with_fuel(prop_lookup, 8);
    reveal_strlit("User");
    reveal_strlit("Interest");
    reveal_strlit("Goal");
    reveal_strlit("Motivation");
    reveal_strlit("Task");
    reveal_strlit("Date");
    reveal_strlit("id");
    reveal_strlit("user_id");
    reveal_strlit("name");
    reveal_strlit("description");
    reveal_strlit("timeframe");
    reveal_strlit("title");
    reveal_strlit("reason");
    reveal_strlit("action");
    reveal_strlit("status");
    reveal_strlit("day");
    reveal_strlit("month");
    reveal_strlit("year");
    assert("User"@.len() == 4 && "User"@[0] == 'U');
    assert("Interest"@.len() == 8 && "Interest"@[0] == 'I');
    assert("Goal"@.len() == 4 && "Goal"@[0] == 'G');
    assert("Motivation"@.len() == 10 && "Motivation"@[0] == 'M');
    assert("Task"@.len() == 4 && "Task"@[0] == 'T');
    assert("Date"@.len() == 4 && "Date"@[0] == 'D');
    assert("id"@.len() == 2);
    assert("user_id"@.len() == 7);
    assert("name"@.len() == 4);
    assert("description"@.len() == 11);
    assert("timeframe"@.len() == 9);
    assert("title"@.len() == 5);
    assert("reason"@.len() == 6 && "reason"@[0] == 'r');
    assert("action"@.len() == 6 && "action"@[0] == 'a');
    assert("status"@.len() == 6 && "status"@[0] == 's');
    assert("day"@.len() == 3);
    assert("month"@.len() == 5);
    assert("year"@.len() == 4);
    let gn = node_to_graph_node(n);
    let props = classifier_props(gn);
    match n {
        NodeV::User(u) => {
            assert(props =~= seq![("id"@, PropV::Str(u.id)), ("user_id"@, PropV::Str(u.user_id))]);
            assert(props.drop_first() =~= seq![("user_id"@, PropV::Str(u.user_id))]);
            assert(prop_lookup(props, "id"@) == Some(PropV::Str(u.id)));
            assert(prop_lookup(props, "user_id"@) == Some(PropV::Str(u.user_id)));
        }
        NodeV::Interest(i) => {
            assert(props =~= seq![("id"@, PropV::Str(i.id)), ("name"@, PropV::Str(i.name))]);
            assert(props.drop_first() =~= seq![("name"@, PropV::Str(i.name))]);
            assert(prop_lookup(props, "id"@) == Some(PropV::Str(i.id)));
            assert(prop_lookup(props, "name"@) == Some(PropV::Str(i.name)));
        }
        NodeV::Goal(g) => {
            let tf = match g.timeframe {
                Some(t) => PropV::Str(t),
                None => PropV::Null,
            };
            assert(props =~= seq![
                ("id"@, PropV::Str(g.id)),
                ("description"@, PropV::Str(g.description)),
                ("timeframe"@, tf),
            ]);
            assert(props.drop_first() =~= seq![
                ("description"@, PropV::Str(g.description)),
                ("timeframe"@, tf),
            ]);
            assert(props.drop_first().drop_first() =~= seq![("timeframe"@, tf)]);
            assert(prop_lookup(props, "id"@) == Some(PropV::Str(g.id)));
            assert(prop_lookup(props, "description"@) == Some(PropV::Str(g.description)));
            assert(prop_lookup(props, "timeframe"@) == Some(tf));
        }
        NodeV::Motivation(m) => {
            assert(props =~= seq![
                ("id"@, PropV::Str(m.id)),
                ("title"@, PropV::Str(m.title)),
                ("reason"@, PropV::Str(m.reason)),
            ]);
            assert(props.drop_first() =~= seq![
                ("title"@, PropV::Str(m.title)),
                ("reason"@, PropV::Str(m.reason)),
            ]);
            assert(props.drop_first().drop_first() =~= seq![("reason"@, PropV::Str(m.reason))]);
            assert(prop_lookup(props, "id"@) == Some(PropV::Str(m.id)));
            assert(prop_lookup(props, "title"@) == Some(PropV::Str(m.title)));
            assert(prop_lookup(props, "reason"@) == Some(PropV::Str(m.reason)));
        }
        NodeV::Task(t) => {
            let st = match t.status {
                Some(x) => PropV::Str(x),
                None => PropV::Null,
            };
            assert(props =~= seq![
                ("id"@, PropV::Str(t.id)),
                ("action"@, PropV::Str(t.action)),
                ("status"@, st),
            ]);
            assert(props.drop_first() =~= seq![("action"@, PropV::Str(t.action)), ("status"@, st)]);
            assert(props.drop_first().drop_first() =~= seq![("status"@, st)]);
            assert(prop_lookup(props, "id"@) == Some(PropV::Str(t.id)));
            assert(prop_lookup(props, "action"@) == Some(PropV::Str(t.action)));
            assert(prop_lookup(props, "status"@) == Some(st));
        }
        NodeV::Date(d) => {
            assert(props =~= seq![
                ("id"@, PropV::Str(d.id)),
                ("day"@, PropV::Int(d.day as int)),
                ("month"@, PropV::Int(d.month as int)),
                ("year"@, PropV::Int(d.year as int)),
            ]);
            assert(props.drop_first() =~= seq![
                ("day"@, PropV::Int(d.day as int)),
                ("month"@, PropV::Int(d.month as int)),
                ("year"@, PropV::Int(d.year as int)),
            ]);
            assert(props.drop_first().drop_first() =~= seq![
                ("month"@, PropV::Int(d.month as int)),
                ("year"@, PropV::Int(d.year as int)),
            ]);
            assert(props.drop_first().drop_first().drop_first() =~= seq![
                ("year"@, PropV::Int(d.year as int)),
            ]);
            assert(prop_lookup(props, "id"@) == Some(PropV::Str(d.id)));
            assert(prop_lookup(props, "day"@) == Some(PropV::Int(d.day as int)));
            assert(prop_lookup(props, "month"@) == Some(PropV::Int(d.month as int)));
            assert(prop_lookup(props, "year"@) == Some(PropV::Int(d.year as int)));
        }
    }
}


} // verus!
