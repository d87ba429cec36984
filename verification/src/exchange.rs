//! The exchange-format graph document: the `{nodes, relationships}` contract
//! passed between the extraction and merge collaborators and the query
//! compiler, together with its JSON rendering and the shape validation of a
//! collaborator response.
use vstd::prelude::*;
use vstd::string::StringExecFns;

use crate::errors::ErrV;
use crate::errors::GraphError;
use crate::text::dec_str_int;
use crate::text::escape_str;
use crate::text::join_with;
use crate::text::seq_views;
use crate::text::str_eq;

verus! {

/// A scalar JSON property value, as it appears in a node's property map.
#[derive(Debug, Clone)]
pub enum PropValue {
    Null,
    Bool(bool),
    Int(i64),
    Str(String),
}

/// Spec-level view of `PropValue`.
pub enum PropV {
    Null,
    Bool(bool),
    Int(int),
    Str(Seq<char>),
}

impl View for PropValue {
    type V = PropV;

    open spec fn view(&self) -> PropV {
        match self {
            PropValue::Null => PropV::Null,
            PropValue::Bool(b) => PropV::Bool(*b),
            PropValue::Int(i) => PropV::Int(*i as int),
            PropValue::Str(s) => PropV::Str(s@),
        }
    }
}

/// The view of a property list: keys as character sequences, values as
/// spec-level scalars, in list order.
pub open spec fn props_view(props: Seq<(String, PropValue)>) -> Seq<(Seq<char>, PropV)> {
    props.map_values(|p: (String, PropValue)| (p.0@, p.1@))
}

/// The views of a sequence of nodes.
pub open spec fn nodes_view(nodes: Seq<GraphNode>) -> Seq<GraphNodeV> {
    nodes.map_values(|n: GraphNode| n@)
}

/// The views of a sequence of relationships.
pub open spec fn rels_view(rels: Seq<GraphRelationship>) -> Seq<GraphRelationshipV> {
    rels.map_values(|r: GraphRelationship| r@)
}

/// A node of the exchange document. Its `id` is caller-local: assigned by
/// the extraction step and unique only within one extraction batch.
#[derive(Debug, Clone)]
pub struct GraphNode {
    pub id: String,
    pub label: String,
    pub properties: Vec<(String, PropValue)>,
}

/// Spec-level view of `GraphNode`.
pub struct GraphNodeV {
    pub id: Seq<char>,
    pub label: Seq<char>,
    pub props: Seq<(Seq<char>, PropV)>,
}

impl View for GraphNode {
    type V = GraphNodeV;

    open spec fn view(&self) -> GraphNodeV {
        GraphNodeV { id: self.id@, label: self.label@, props: props_view(self.properties@) }
    }
}

/// A relationship of the exchange document, referencing caller-local node
/// identifiers from the same batch.
#[derive(Debug, Clone)]
pub struct GraphRelationship {
    pub source_id: String,
    pub target_id: String,
    pub label: String,
}

/// Spec-level view of `GraphRelationship`.
pub struct GraphRelationshipV {
    pub source_id: Seq<char>,
    pub target_id: Seq<char>,
    pub label: Seq<char>,
}

impl View for GraphRelationship {
    type V = GraphRelationshipV;

    open spec fn view(&self) -> GraphRelationshipV {
        GraphRelationshipV {
            source_id: self.source_id@,
            target_id: self.target_id@,
            label: self.label@,
        }
    }
}

/// The exchange document itself.
#[derive(Debug, Clone)]
pub struct GraphData {
    pub nodes: Vec<GraphNode>,
    pub relationships: Vec<GraphRelationship>,
}

/// Spec-level view of `GraphData`.
pub struct GraphDataV {
    pub nodes: Seq<GraphNodeV>,
    pub relationships: Seq<GraphRelationshipV>,
}

impl View for GraphData {
    type V = GraphDataV;

    open spec fn view(&self) -> GraphDataV {
        GraphDataV { nodes: nodes_view(self.nodes@), relationships: rels_view(self.relationships@) }
    }
}

/// An ordered batch of graph mutation statements.
#[derive(Debug, Clone)]
pub struct CypherQueries {
    pub queries: Vec<String>,
}

impl View for CypherQueries {
    type V = Seq<Seq<char>>;

    open spec fn view(&self) -> Seq<Seq<char>> {
        seq_views(self.queries@)
    }
}

/// A JSON document, as handed to the library after a collaborator response
/// has been read. Numbers are integral: the exchange schema has no
/// fractional property values.
#[derive(Debug)]
pub enum JsonValue {
    Null,
    Bool(bool),
    Int(i64),
    Str(String),
    Arr(Vec<JsonValue>),
    Obj(Vec<(String, JsonValue)>),
}

impl PropValue {
    /// A copy of this scalar with the same view.
    pub fn duplicate(&self) -> (r: PropValue)
        ensures
            r@ == self@,
    {
        match self {
            PropValue::Null => PropValue::Null,
            PropValue::Bool(b) => PropValue::Bool(*b),
            PropValue::Int(i) => PropValue::Int(*i),
            PropValue::Str(s) => PropValue::Str(s.clone()),
        }
    }
}

// ---------------------------------------------------------------------------
// JSON rendering of the exchange document
// ---------------------------------------------------------------------------
/// The compact JSON rendering of a scalar property value: `null`, `true`,
/// `false`, decimal digits, or a quoted escaped string.
pub open spec fn json_scalar(v: PropV) -> Seq<char> {
    match v {
        PropV::Null => "null"@,
        PropV::Bool(b) => if b {
            "true"@
        } else {
            "false"@
        },
        PropV::Int(i) => dec_str_int(i),
        PropV::Str(s) => seq!['"'] + escape_str(s) + seq!['"'],
    }
}

/// One `"key":value` member of a JSON property object.
pub open spec fn json_prop_entry(p: (Seq<char>, PropV)) -> Seq<char> {
    seq!['"'] + escape_str(p.0) + "\":"@ + json_scalar(p.1)
}

/// The members of a JSON property object, in list order.
pub open spec fn json_prop_entries(props: Seq<(Seq<char>, PropV)>) -> Seq<Seq<char>> {
    props.map_values(|p: (Seq<char>, PropV)| json_prop_entry(p))
}

/// The JSON rendering of one node of the exchange document.
pub open spec fn json_of_node(n: GraphNodeV) -> Seq<char> {
    "{\"id\":\""@ + escape_str(n.id) + "\",\"label\":\""@ + escape_str(n.label)
        + "\",\"props\":{"@ + join_with(json_prop_entries(n.props), ","@) + "}}"@
}

/// The JSON rendering of one relationship of the exchange document.
pub open spec fn json_of_rel(r: GraphRelationshipV) -> Seq<char> {
    "{\"source\":\""@ + escape_str(r.source_id) + "\",\"target\":\""@ + escape_str(r.target_id)
        + "\",\"label\":\""@ + escape_str(r.label) + "\"}"@
}

/// The JSON renderings of a sequence of nodes.
pub open spec fn json_node_texts(nodes: Seq<GraphNodeV>) -> Seq<Seq<char>> {
    nodes.map_values(|n: GraphNodeV| json_of_node(n))
}

/// The JSON renderings of a sequence of relationships.
pub open spec fn json_rel_texts(rels: Seq<GraphRelationshipV>) -> Seq<Seq<char>> {
    rels.map_values(|r: GraphRelationshipV| json_of_rel(r))
}

/// The compact JSON rendering of a whole exchange document.
pub open spec fn json_of_graph(g: GraphDataV) -> Seq<char> {
    "{\"nodes\":["@ + join_with(json_node_texts(g.nodes), ","@)
        + "],\"relationships\":["@ + join_with(json_rel_texts(g.relationships), ","@)
        + "]}"@
}

/// Appends the JSON rendering of a scalar to `out`.
pub(crate) fn append_json_scalar(out: &mut String, v: &PropValue)
    ensures
        final(out)@ == old(out)@ + json_scalar(v@),
{
    match v {
        PropValue::Null => {
            out.append("null");
        }
        PropValue::Bool(b) => {
            if *b {
                out.append("true");
            } else {
                out.append("false");
            }
        }
        PropValue::Int(i) => {
            let s = crate::text::i64_to_string(*i);
            out.append(s.as_str());
        }
        PropValue::Str(s) => {
            out.push('"');
            crate::text::append_escaped(out, s.as_str());
            out.push('"');
            proof {
                assert(out@ =~= old(out)@ + json_scalar(v@));
            }
        }
    }
}

fn json_prop_entry_string(p: &(String, PropValue)) -> (r: String)
    ensures
        r@ == json_prop_entry((p.0@, p.1@)),
{
    let mut out = String::new();
    out.push('"');
    crate::text::append_escaped(&mut out, p.0.as_str());
    out.append("\":");
    append_json_scalar(&mut out, &p.1);
    proof {
        assert(out@ =~= json_prop_entry((p.0@, p.1@)));
    }
    out
}

/// Renders a property list as the inside of a JSON object: the comma-joined
/// `"key":value` members, in list order.
fn json_props_body(props: &Vec<(String, PropValue)>) -> (r: String)
    ensures
        r@ == join_with(json_prop_entries(props_view(props@)), ","@),
{
    let mut entries: Vec<String> = Vec::new();
    let mut i: usize = 0;
    while i < props.len()
        invariant
            i <= props@.len(),
            entries@.len() == i,
            forall|k: int|
                0 <= k < i ==> entries@[k]@ == json_prop_entry(props_view(props@)[k]),
        decreases props@.len() - i,
    {
        let e = json_prop_entry_string(&props[i]);
        proof {
            assert(props_view(props@)[i as int] == (props@[i as int].0@, props@[i as int].1@));
        }
        entries.push(e);
        i = i + 1;
    }
    proof {
        assert(seq_views(entries@) =~~= json_prop_entries(props_view(props@)));
    }
    crate::text::join_strings(&entries, ",")
}

impl GraphNode {
    /// Renders this node as compact JSON.
    pub fn to_json_text(&self) -> (r: String)
        ensures
            r@ == json_of_node(self@),
    {
        let mut out = "{\"id\":\"".to_owned();
        crate::text::append_escaped(&mut out, self.id.as_str());
        out.append("\",\"label\":\"");
        crate::text::append_escaped(&mut out, self.label.as_str());
        out.append("\",\"props\":{");
        let body = json_props_body(&self.properties);
        out.append(body.as_str());
        out.append("}}");
        proof {
            assert(out@ =~= json_of_node(self@));
        }
        out
    }
}

impl GraphRelationship {
    /// Renders this relationship as compact JSON.
    pub fn to_json_text(&self) -> (r: String)
        ensures
            r@ == json_of_rel(self@),
    {
        let mut out = "{\"source\":\"".to_owned();
        crate::text::append_escaped(&mut out, self.source_id.as_str());
        out.append("\",\"target\":\"");
        crate::text::append_escaped(&mut out, self.target_id.as_str());
        out.append("\",\"label\":\"");
        crate::text::append_escaped(&mut out, self.label.as_str());
        out.append("\"}");
        proof {
            assert(out@ =~= json_of_rel(self@));
        }
        out
    }
}

impl GraphData {
    /// Whether the document is empty: no nodes and no relationships.
    pub fn is_empty(&self) -> (r: bool)
        ensures
            r == (self@.nodes.len() == 0 && self@.relationships.len() == 0),
    {
        self.nodes.len() == 0 && self.relationships.len() == 0
    }

    /// Renders this document as compact JSON, the shape in which it is
    /// embedded into a merge instruction for the completion collaborator.
    pub fn to_json_text(&self) -> (r: String)
        ensures
            r@ == json_of_graph(self@),
    {
        let mut node_texts: Vec<String> = Vec::new();
        let mut i: usize = 0;
        while i < self.nodes.len()
            invariant
                i <= self.nodes@.len(),
                node_texts@.len() == i,
                forall|k: int|
                    0 <= k < i ==> node_texts@[k]@ == json_of_node(nodes_view(self.nodes@)[k]),
            decreases self.nodes@.len() - i,
        {
            let t = self.nodes[i].to_json_text();
            proof {
                assert(nodes_view(self.nodes@)[i as int] == self.nodes@[i as int]@);
            }
            node_texts.push(t);
            i = i + 1;
        }
        let mut rel_texts: Vec<String> = Vec::new();
        let mut j: usize = 0;
        while j < self.relationships.len()
            invariant
                j <= self.relationships@.len(),
                rel_texts@.len() == j,
                forall|k: int|
                    0 <= k < j ==> rel_texts@[k]@ == json_of_rel(
                        rels_view(self.relationships@)[k],
                    ),
            decreases self.relationships@.len() - j,
        {
            let t = self.relationships[j].to_json_text();
            proof {
                assert(rels_view(self.relationships@)[j as int] == self.relationships@[j as int]@);
            }
            rel_texts.push(t);
            j = j + 1;
        }
        proof {
            assert(seq_views(node_texts@) =~~= json_node_texts(nodes_view(self.nodes@)));
            assert(seq_views(rel_texts@) =~~= json_rel_texts(rels_view(self.relationships@)));
        }
        let mut out = "{\"nodes\":[".to_owned();
        let nb = crate::text::join_strings(&node_texts, ",");
        out.append(nb.as_str());
        out.append("],\"relationships\":[");
        let rb = crate::text::join_strings(&rel_texts, ",");
        out.append(rb.as_str());
        out.append("]}");
        proof {
            assert(out@ =~= json_of_graph(self@));
        }
        out
    }
}


// ---------------------------------------------------------------------------
// Shape validation of a collaborator response
// ---------------------------------------------------------------------------
/// Looks a key up in a JSON object's field list; the first matching field
/// wins.
pub open spec fn json_obj_lookup(fields: Seq<(String, JsonValue)>, key: Seq<char>) -> Option<
    JsonValue,
>
    decreases fields.len(),
{
    if fields.len() == 0 {
        None
    } else if fields[0].0@ == key {
        Some(fields[0].1)
    } else {
        json_obj_lookup(fields.drop_first(), key)
    }
}

/// The scalar property value a JSON value stands for, if it is a scalar.
pub open spec fn prop_of_json(v: JsonValue) -> Option<PropV> {
    match v {
        JsonValue::Null => Some(PropV::Null),
        JsonValue::Bool(b) => Some(PropV::Bool(b)),
        JsonValue::Int(i) => Some(PropV::Int(i as int)),
        JsonValue::Str(s) => Some(PropV::Str(s@)),
        JsonValue::Arr(_) => None,
        JsonValue::Obj(_) => None,
    }
}

/// Whether every field of a JSON object holds a scalar value.
pub open spec fn all_scalar_fields(fields: Seq<(String, JsonValue)>) -> bool {
    forall|k: int| 0 <= k < fields.len() ==> prop_of_json(fields[k].1) is Some
}

/// The property list a JSON object stands for; meaningful when
/// `all_scalar_fields` holds of it.
pub open spec fn scalar_props(fields: Seq<(String, JsonValue)>) -> Seq<(Seq<char>, PropV)> {
    fields.map_values(
        |f: (String, JsonValue)|
            (
                f.0@,
                match prop_of_json(f.1) {
                    Some(p) => p,
                    None => PropV::Null,
                },
            ),
    )
}

/// The exchange-document node a JSON value stands for, if it has the node
/// shape: an object with string `id` and `label` and an all-scalar object
/// `props`.
pub open spec fn node_of_json(v: JsonValue) -> Option<GraphNodeV> {
    match v {
        JsonValue::Obj(fields) => match (
            json_obj_lookup(fields@, "id"@),
            json_obj_lookup(fields@, "label"@),
            json_obj_lookup(fields@, "props"@),
        ) {
            (
                Some(JsonValue::Str(id)),
                Some(JsonValue::Str(label)),
                Some(JsonValue::Obj(pf)),
            ) => {
                if all_scalar_fields(pf@) {
                    Some(GraphNodeV { id: id@, label: label@, props: scalar_props(pf@) })
                } else {
                    None
                }
            }
            _ => None,
        },
        _ => None,
    }
}

/// The exchange-document relationship a JSON value stands for, if it has
/// the relationship shape: an object with string `source`, `target` and
/// `label`.
pub open spec fn rel_of_json(v: JsonValue) -> Option<GraphRelationshipV> {
    match v {
        JsonValue::Obj(fields) => match (
            json_obj_lookup(fields@, "source"@),
            json_obj_lookup(fields@, "target"@),
            json_obj_lookup(fields@, "label"@),
        ) {
            (
                Some(JsonValue::Str(src)),
                Some(JsonValue::Str(tgt)),
                Some(JsonValue::Str(label)),
            ) => Some(
                GraphRelationshipV { source_id: src@, target_id: tgt@, label: label@ },
            ),
            _ => None,
        },
        _ => None,
    }
}

/// Whether every item of a JSON array has the node shape.
pub open spec fn json_nodes_ok(items: Seq<JsonValue>) -> bool {
    forall|k: int| 0 <= k < items.len() ==> node_of_json(items[k]) is Some
}

/// The nodes a JSON array stands for; meaningful when `json_nodes_ok` holds.
pub open spec fn json_nodes_val(items: Seq<JsonValue>) -> Seq<GraphNodeV> {
    items.map_values(
        |n: JsonValue|
            match node_of_json(n) {
                Some(x) => x,
                None => GraphNodeV { id: Seq::empty(), label: Seq::empty(), props: Seq::empty() },
            },
    )
}

/// Whether every item of a JSON array has the relationship shape.
pub open spec fn json_rels_ok(items: Seq<JsonValue>) -> bool {
    forall|k: int| 0 <= k < items.len() ==> rel_of_json(items[k]) is Some
}

/// The relationships a JSON array stands for; meaningful when
/// `json_rels_ok` holds.
pub open spec fn json_rels_val(items: Seq<JsonValue>) -> Seq<GraphRelationshipV> {
    items.map_values(
        |r: JsonValue|
            match rel_of_json(r) {
                Some(x) => x,
                None => GraphRelationshipV {
                    source_id: Seq::empty(),
                    target_id: Seq::empty(),
                    label: Seq::empty(),
                },
            },
    )
}

/// The exchange document a JSON value stands for, if it has the exchange
/// shape: an object whose `nodes` and `relationships` fields are arrays of
/// node-shaped and relationship-shaped objects.
pub open spec fn graph_of_json(v: JsonValue) -> Option<GraphDataV> {
    match v {
        JsonValue::Obj(fields) => match (
            json_obj_lookup(fields@, "nodes"@),
            json_obj_lookup(fields@, "relationships"@),
        ) {
            (Some(JsonValue::Arr(ns)), Some(JsonValue::Arr(rs))) => {
                if json_nodes_ok(ns@) && json_rels_ok(rs@) {
                    Some(
                        GraphDataV {
                            nodes: json_nodes_val(ns@),
                            relationships: json_rels_val(rs@),
                        },
                    )
                } else {
                    None
                }
            }
            _ => None,
        },
        _ => None,
    }
}

fn obj_get<'a>(fields: &'a Vec<(String, JsonValue)>, key: &str) -> (r: Option<&'a JsonValue>)
    ensures
        match r {
            Some(x) => json_obj_lookup(fields@, key@) == Some(*x),
            None => json_obj_lookup(fields@, key@) is None,
        },
{
    let mut i: usize = 0;
    proof {
        assert(fields@.skip(0) =~= fields@);
    }
    while i < fields.len()
        invariant
            i <= fields@.len(),
            json_obj_lookup(fields@.skip(i as int), key@) == json_obj_lookup(fields@, key@),
        decreases fields@.len() - i,
    {
        proof {
            assert(fields@.skip(i as int)[0] == fields@[i as int]);
            assert(fields@.skip(i as int).drop_first() =~= fields@.skip(i as int + 1));
        }
        let f = &fields[i];
        if str_eq(f.0.as_str(), key) {
            return Some(&f.1);
        }
        i = i + 1;
    }
    proof {
        assert(fields@.skip(fields@.len() as int) =~= Seq::<(String, JsonValue)>::empty());
    }
    None
}

fn node_from_json(v: &JsonValue) -> (r: Result<GraphNode, GraphError>)
    ensures
        match r {
            Ok(n) => node_of_json(*v) == Some(n@),
            Err(e) => node_of_json(*v) is None && e@ == ErrV::MalformedExchangeDocument,
        },
{
    match v {
        JsonValue::Obj(fields) => {
            let id: String = match obj_get(fields, "id") {
                Some(JsonValue::Str(s)) => s.clone(),
                _ => {
                    return Err(GraphError::MalformedExchangeDocument);
                }
            };
            let label: String = match obj_get(fields, "label") {
                Some(JsonValue::Str(s)) => s.clone(),
                _ => {
                    return Err(GraphError::MalformedExchangeDocument);
                }
            };
            let pf: &Vec<(String, JsonValue)> = match obj_get(fields, "props") {
                Some(JsonValue::Obj(pf)) => pf,
                _ => {
                    return Err(GraphError::MalformedExchangeDocument);
                }
            };
            let mut props: Vec<(String, PropValue)> = Vec::new();
            let mut i: usize = 0;
            while i < pf.len()
                invariant
                    *v == JsonValue::Obj(*fields),
                    json_obj_lookup(fields@, "id"@) == Some(JsonValue::Str(id)),
                    json_obj_lookup(fields@, "label"@) == Some(JsonValue::Str(label)),
                    json_obj_lookup(fields@, "props"@) == Some(JsonValue::Obj(*pf)),
                    i <= pf@.len(),
                    props@.len() == i,
                    forall|k: int| 0 <= k < i ==> prop_of_json(pf@[k].1) is Some,
                    forall|k: int|
                        0 <= k < i ==> props@[k].0@ == pf@[k].0@ && prop_of_json(pf@[k].1)
                            == Some(props@[k].1@),
                decreases pf@.len() - i,
            {
                let f = &pf[i];
                let value: PropValue = match &f.1 {
                    JsonValue::Null => PropValue::Null,
                    JsonValue::Bool(b) => PropValue::Bool(*b),
                    JsonValue::Int(n) => PropValue::Int(*n),
                    JsonValue::Str(s) => PropValue::Str(s.clone()),
                    _ => {
                        proof {
                            assert(prop_of_json(pf@[i as int].1) is None);
                            assert(!all_scalar_fields(pf@));
                        }
                        return Err(GraphError::MalformedExchangeDocument);
                    }
                };
                props.push((f.0.clone(), value));
                i = i + 1;
            }
            proof {
                assert(all_scalar_fields(pf@));
                assert(props_view(props@) =~~= scalar_props(pf@));
            }
            Ok(GraphNode { id, label, properties: props })
        }
        _ => Err(GraphError::MalformedExchangeDocument),
    }
}

fn rel_from_json(v: &JsonValue) -> (r: Result<GraphRelationship, GraphError>)
    ensures
        match r {
            Ok(n) => rel_of_json(*v) == Some(n@),
            Err(e) => rel_of_json(*v) is None && e@ == ErrV::MalformedExchangeDocument,
        },
{
    match v {
        JsonValue::Obj(fields) => {
            let source_id: String = match obj_get(fields, "source") {
                Some(JsonValue::Str(s)) => s.clone(),
                _ => {
                    return Err(GraphError::MalformedExchangeDocument);
                }
            };
            let target_id: String = match obj_get(fields, "target") {
                Some(JsonValue::Str(s)) => s.clone(),
                _ => {
                    return Err(GraphError::MalformedExchangeDocument);
                }
            };
            let label: String = match obj_get(fields, "label") {
                Some(JsonValue::Str(s)) => s.clone(),
                _ => {
                    return Err(GraphError::MalformedExchangeDocument);
                }
            };
            Ok(GraphRelationship { source_id, target_id, label })
        }
        _ => Err(GraphError::MalformedExchangeDocument),
    }
}

impl GraphData {
    /// Validates the shape of a collaborator's JSON response and converts
    /// it into an exchange document. Any shape other than the exchange
    /// shape is a `MalformedExchangeDocument` error: a malformed response
    /// is never coerced into an empty graph.
    pub fn from_json(v: &JsonValue) -> (r: Result<GraphData, GraphError>)
        ensures
            match r {
                Ok(g) => graph_of_json(*v) == Some(g@),
                Err(e) => graph_of_json(*v) is None && e@ == ErrV::MalformedExchangeDocument,
            },
    {
        match v {
            JsonValue::Obj(fields) => {
                let ns: &Vec<JsonValue> = match obj_get(fields, "nodes") {
                    Some(JsonValue::Arr(ns)) => ns,
                    _ => {
                        return Err(GraphError::MalformedExchangeDocument);
                    }
                };
                let rs: &Vec<JsonValue> = match obj_get(fields, "relationships") {
                    Some(JsonValue::Arr(rs)) => rs,
                    _ => {
                        return Err(GraphError::MalformedExchangeDocument);
                    }
                };
                let mut nodes: Vec<GraphNode> = Vec::new();
                let mut i: usize = 0;
                while i < ns.len()
                    invariant
                        *v == JsonValue::Obj(*fields),
                        json_obj_lookup(fields@, "nodes"@) == Some(JsonValue::Arr(*ns)),
                        json_obj_lookup(fields@, "relationships"@) == Some(JsonValue::Arr(*rs)),
                        i <= ns@.len(),
                        nodes@.len() == i,
                        forall|k: int| 0 <= k < i ==> node_of_json(ns@[k]) == Some(nodes@[k]@),
                    decreases ns@.len() - i,
                {
                    match node_from_json(&ns[i]) {
                        Ok(n) => {
                            nodes.push(n);
                        }
                        Err(e) => {
                            proof {
                                assert(node_of_json(ns@[i as int]) is None);
                                assert(!json_nodes_ok(ns@));
                            }
                            return Err(GraphError::MalformedExchangeDocument);
                        }
                    }
                    i = i + 1;
                }
                let mut rels: Vec<GraphRelationship> = Vec::new();
                let mut j: usize = 0;
                while j < rs.len()
                    invariant
                        *v == JsonValue::Obj(*fields),
                        json_obj_lookup(fields@, "nodes"@) == Some(JsonValue::Arr(*ns)),
                        json_obj_lookup(fields@, "relationships"@) == Some(JsonValue::Arr(*rs)),
                        nodes@.len() == ns@.len(),
                        forall|k: int|
                            0 <= k < ns@.len() ==> node_of_json(ns@[k]) == Some(nodes@[k]@),
                        j <= rs@.len(),
                        rels@.len() == j,
                        forall|k: int| 0 <= k < j ==> rel_of_json(rs@[k]) == Some(rels@[k]@),
                    decreases rs@.len() - j,
                {
                    match rel_from_json(&rs[j]) {
                        Ok(n) => {
                            rels.push(n);
                        }
                        Err(e) => {
                            proof {
                                assert(rel_of_json(rs@[j as int]) is None);
                                assert(!json_rels_ok(rs@));
                            }
                            return Err(GraphError::MalformedExchangeDocument);
                        }
                    }
                    j = j + 1;
                }
                let out = GraphData { nodes, relationships: rels };
                proof {
                    assert(json_nodes_ok(ns@));
                    assert(json_rels_ok(rs@));
                    assert(out@.nodes =~~= json_nodes_val(ns@));
                    assert(out@.relationships =~~= json_rels_val(rs@));
                }
                Ok(out)
            }
            _ => Err(GraphError::MalformedExchangeDocument),
        }
    }
}

} // verus!
