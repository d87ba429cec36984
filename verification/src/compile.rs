//! The query compiler: turns an exchange document into an ordered batch of
//! graph mutation statements. Every node receives a freshly minted stable
//! identifier; a `User` node is scoped to the owning account; text-bearing
//! nodes carry an embedding; relationship endpoints are resolved through
//! an explicit identifier table, and an unresolved endpoint is a hard
//! failure, never a silent fallback.
use vstd::prelude::*;
use vstd::string::StringExecFns;

use crate::errors::ErrV;
use crate::errors::GraphError;
use crate::exchange::CypherQueries;
use crate::exchange::GraphData;
use crate::exchange::GraphDataV;
use crate::exchange::GraphNode;
use crate::exchange::GraphNodeV;
use crate::exchange::GraphRelationshipV;
use crate::exchange::PropV;
use crate::exchange::PropValue;
use crate::exchange::append_json_scalar;
use crate::exchange::json_scalar;
use crate::exchange::props_view;
use crate::external::fresh_stable_id;
use crate::model::opt_view;
use crate::model::prop_lookup;
use crate::text::join_with;
use crate::text::seq_views;
use crate::text::str_eq;

verus! {

/// The views of a list of optional strings.
pub open spec fn opts_view(items: Seq<Option<String>>) -> Seq<Option<Seq<char>>> {
    items.map_values(|o: Option<String>| opt_view(o))
}

/// The views of an identifier table's pairs.
pub open spec fn pairs_view(pairs: Seq<(String, String)>) -> Seq<(Seq<char>, Seq<char>)> {
    pairs.map_values(|p: (String, String)| (p.0@, p.1@))
}

// ---------------------------------------------------------------------------
// Embedding planning
// ---------------------------------------------------------------------------
/// Whether a label carries a designated embeddable text field.
pub open spec fn is_embeddable_label(l: Seq<char>) -> bool {
    l == "Interest"@ || l == "Goal"@ || l == "Motivation"@ || l == "Task"@ || l == "Date"@
}

/// The text to embed for one node: the label's designated text field,
/// rendered as in the statement text. A node whose label has no such
/// field embeds nothing; a node whose label demands a field that its
/// property map lacks is a `MalformedNode` failure naming the field.
pub open spec fn embed_text_req(n: GraphNodeV) -> Result<Option<Seq<char>>, ErrV> {
    if n.label == "Interest"@ {
        match prop_lookup(n.props, "name"@) {
            Some(v) => Ok(Some("Interest: "@ + json_scalar(v))),
            None => Err(ErrV::MalformedNode("name"@)),
        }
    } else if n.label == "Goal"@ {
        match prop_lookup(n.props, "description"@) {
            Some(v) => Ok(Some("Goal: "@ + json_scalar(v))),
            None => Err(ErrV::MalformedNode("description"@)),
        }
    } else if n.label == "Motivation"@ {
        match (prop_lookup(n.props, "title"@), prop_lookup(n.props, "reason"@)) {
            (Some(t), Some(q)) => Ok(
                Some("Motivation: "@ + json_scalar(t) + " with reason "@ + json_scalar(q)),
            ),
            (None, _) => Err(ErrV::MalformedNode("title"@)),
            (_, None) => Err(ErrV::MalformedNode("reason"@)),
        }
    } else if n.label == "Task"@ {
        match prop_lookup(n.props, "action"@) {
            Some(v) => Ok(Some("Task: "@ + json_scalar(v))),
            None => Err(ErrV::MalformedNode("action"@)),
        }
    } else if n.label == "Date"@ {
        match (
            prop_lookup(n.props, "day"@),
            prop_lookup(n.props, "month"@),
            prop_lookup(n.props, "year"@),
        ) {
            (Some(d), Some(m), Some(y)) => Ok(
                Some(
                    "Date: "@ + json_scalar(d) + " of "@ + json_scalar(m) + ", "@ + json_scalar(y)
                        + "."@,
                ),
            ),
            (None, _, _) => Err(ErrV::MalformedNode("day"@)),
            (_, None, _) => Err(ErrV::MalformedNode("month"@)),
            (_, _, None) => Err(ErrV::MalformedNode("year"@)),
        }
    } else {
        Ok(None)
    }
}

/// Law: when the embeddable-field lookup succeeds, a node embeds some
/// text exactly when its label carries a designated embeddable field —
/// so a compiled statement carries an embedding exactly for those labels.
pub proof fn lemma_embedding_presence(n: GraphNodeV)
    ensures
        match embed_text_req(n) {
            Ok(o) => (o is Some) <==> is_embeddable_label(n.label),
            Err(_) => is_embeddable_label(n.label),
        },
{
}

fn lookup_for_embed<'a>(props: &'a Vec<(String, PropValue)>, key: &str) -> (r: Result<
    &'a PropValue,
    GraphError,
>)
    ensures
        match r {
            Ok(v) => prop_lookup(props_view(props@), key@) == Some(v@),
            Err(e) => prop_lookup(props_view(props@), key@) is None && e@ == ErrV::MalformedNode(
                key@,
            ),
        },
{
    let mut i: usize = 0;
    proof {
        assert(props_view(props@).skip(0) =~= props_view(props@));
    }
    while i < props.len()
        invariant
            i <= props@.len(),
            prop_lookup(props_view(props@).skip(i as int), key@) == prop_lookup(
                props_view(props@),
                key@,
            ),
        decreases props@.len() - i,
    {
        proof {
            assert(props_view(props@).skip(i as int)[0] == props_view(props@)[i as int]);
            assert(props_view(props@)[i as int] == (props@[i as int].0@, props@[i as int].1@));
            assert(props_view(props@).skip(i as int).drop_first() =~= props_view(props@).skip(
                i as int + 1,
            ));
        }
        let f = &props[i];
        if str_eq(f.0.as_str(), key) {
            return Ok(&f.1);
        }
        i = i + 1;
    }
    proof {
        assert(props_view(props@).skip(props@.len() as int) =~= Seq::<(Seq<char>, PropV)>::empty());
    }
    Err(GraphError::MalformedNode(key.to_owned()))
}

impl GraphNode {
    /// The text to embed for this node, per `embed_text_req`.
    pub fn embedding_text(&self) -> (r: Result<Option<String>, GraphError>)
        ensures
            match r {
                Ok(o) => embed_text_req(self@) == Ok::<Option<Seq<char>>, ErrV>(opt_view(o)),
                Err(e) => embed_text_req(self@) == Err::<Option<Seq<char>>, ErrV>(e@),
            },
    {
        if str_eq(self.label.as_str(), "Interest") {
            let v = match lookup_for_embed(&self.properties, "name") {
                Ok(v) => v,
                Err(e) => {
                    return Err(e);
                }
            };
            let mut out = "Interest: ".to_owned();
            append_json_scalar(&mut out, v);
            Ok(Some(out))
        } else if str_eq(self.label.as_str(), "Goal") {
            let v = match lookup_for_embed(&self.properties, "description") {
                Ok(v) => v,
                Err(e) => {
                    return Err(e);
                }
            };
            let mut out = "Goal: ".to_owned();
            append_json_scalar(&mut out, v);
            Ok(Some(out))
        } else if str_eq(self.label.as_str(), "Motivation") {
            let t = match lookup_for_embed(&self.properties, "title") {
                Ok(v) => v,
                Err(e) => {
                    return Err(e);
                }
            };
            let q = match lookup_for_embed(&self.properties, "reason") {
                Ok(v) => v,
                Err(e) => {
                    return Err(e);
                }
            };
            let mut out = "Motivation: ".to_owned();
            append_json_scalar(&mut out, t);
            out.append(" with reason ");
            append_json_scalar(&mut out, q);
            Ok(Some(out))
        } else if str_eq(self.label.as_str(), "Task") {
            let v = match lookup_for_embed(&self.properties, "action") {
                Ok(v) => v,
                Err(e) => {
                    return Err(e);
                }
            };
            let mut out = "Task: ".to_owned();
            append_json_scalar(&mut out, v);
            Ok(Some(out))
        } else if str_eq(self.label.as_str(), "Date") {
            let d = match lookup_for_embed(&self.properties, "day") {
                Ok(v) => v,
                Err(e) => {
                    return Err(e);
                }
            };
            let m = match lookup_for_embed(&self.properties, "month") {
                Ok(v) => v,
                Err(e) => {
                    return Err(e);
                }
            };
            let y = match lookup_for_embed(&self.properties, "year") {
                Ok(v) => v,
                Err(e) => {
                    return Err(e);
                }
            };
            let mut out = "Date: ".to_owned();
            append_json_scalar(&mut out, d);
            out.append(" of ");
            append_json_scalar(&mut out, m);
            out.append(", ");
            append_json_scalar(&mut out, y);
            out.append(".");
            Ok(Some(out))
        } else {
            Ok(None)
        }
    }
}

impl GraphData {
    /// The embedding plan for this document: one slot per node, in node
    /// order — the text to embed, or nothing for a label with no
    /// embeddable field. The first node whose required text field is
    /// missing aborts the plan, before any statement is emitted.
    pub fn embedding_texts(&self) -> (r: Result<Vec<Option<String>>, GraphError>)
        ensures
            match r {
                Ok(v) => v@.len() == self@.nodes.len() && forall|k: int|
                    0 <= k < v@.len() ==> embed_text_req(self@.nodes[k]) == Ok::<
                        Option<Seq<char>>,
                        ErrV,
                    >(opt_view(v@[k])),
                Err(e) => exists|k: int|
                    0 <= k < self@.nodes.len() && embed_text_req(self@.nodes[k]) == Err::<
                        Option<Seq<char>>,
                        ErrV,
                    >(e@) && (forall|j: int|
                        0 <= j < k ==> embed_text_req(self@.nodes[j]) is Ok),
            },
    {
        let mut out: Vec<Option<String>> = Vec::new();
        let mut i: usize = 0;
        while i < self.nodes.len()
            invariant
                i <= self.nodes@.len(),
                out@.len() == i,
                forall|k: int|
                    0 <= k < i ==> embed_text_req(self@.nodes[k]) == Ok::<
                        Option<Seq<char>>,
                        ErrV,
                    >(opt_view(out@[k])),
            decreases self.nodes@.len() - i,
        {
            proof {
                assert(self@.nodes[i as int] == self.nodes@[i as int]@);
            }
            match self.nodes[i].embedding_text() {
                Ok(o) => {
                    out.push(o);
                }
                Err(e) => {
                    proof {
                        assert(embed_text_req(self@.nodes[i as int]) == Err::<
                            Option<Seq<char>>,
                            ErrV,
                        >(e@));
                    }
                    return Err(e);
                }
            }
            i = i + 1;
        }
        Ok(out)
    }
}

// ---------------------------------------------------------------------------
// Statement texts
// ---------------------------------------------------------------------------
/// A property list with one property set: an existing key keeps its place
/// with the new value; a new key is appended.
pub open spec fn set_prop(props: Seq<(Seq<char>, PropV)>, key: Seq<char>, v: PropV) -> Seq<
    (Seq<char>, PropV),
>
    decreases props.len(),
{
    if props.len() == 0 {
        seq![(key, v)]
    } else if props[0].0 == key {
        seq![(key, v)] + props.drop_first()
    } else {
        seq![props[0]] + set_prop(props.drop_first(), key, v)
    }
}

/// One `key: value` member of a statement's property block.
pub open spec fn stmt_prop_entry(p: (Seq<char>, PropV)) -> Seq<char> {
    p.0 + ": "@ + json_scalar(p.1)
}

/// The members of a statement's property block, in list order.
pub open spec fn stmt_prop_entries(props: Seq<(Seq<char>, PropV)>) -> Seq<Seq<char>> {
    props.map_values(|p: (Seq<char>, PropV)| stmt_prop_entry(p))
}

/// The body of a statement's property block: the members joined with
/// `, `.
pub open spec fn stmt_props_body(props: Seq<(Seq<char>, PropV)>) -> Seq<char> {
    join_with(stmt_prop_entries(props), ", "@)
}

/// The property list a node's creation statement carries: the node's own
/// properties, with `user_id` injected (or overwritten) when the node is a
/// `User` and an owning account is supplied.
pub open spec fn owned_props(n: GraphNodeV, owner: Option<Seq<char>>) -> Seq<(Seq<char>, PropV)> {
    match owner {
        Some(o) => if n.label == "User"@ {
            set_prop(n.props, "user_id"@, PropV::Str(o))
        } else {
            n.props
        },
        None => n.props,
    }
}

/// The creation statement for one node: the caller-local identifier as
/// the statement variable, the label, the freshly minted stable
/// identifier as the `id` property, the embedding when there is one, and
/// the property block.
pub open spec fn node_stmt(
    n: GraphNodeV,
    owner: Option<Seq<char>>,
    emb: Option<Seq<char>>,
    fresh: Seq<char>,
) -> Seq<char> {
    let body = stmt_props_body(owned_props(n, owner));
    match emb {
        Some(e) => "CREATE ("@ + n.id + ":"@ + n.label + " { id: \""@ + fresh + "\", embedding: "@
            + e + ", "@ + body + " })"@,
        None => "CREATE ("@ + n.id + ":"@ + n.label + " { id: \""@ + fresh + "\", "@ + body
            + " })"@,
    }
}

/// Looks a caller-local identifier up in the identifier table; the last
/// recorded mapping wins, as a later node with the same caller-local
/// identifier overwrites an earlier one.
pub open spec fn table_lookup(pairs: Seq<(Seq<char>, Seq<char>)>, key: Seq<char>) -> Option<
    Seq<char>,
>
    decreases pairs.len(),
{
    if pairs.len() == 0 {
        None
    } else if pairs.last().0 == key {
        Some(pairs.last().1)
    } else {
        table_lookup(pairs.drop_last(), key)
    }
}

/// The identifier table for a batch: each node's caller-local identifier
/// mapped to its freshly minted stable identifier, in node order.
pub open spec fn id_table_spec(nodes: Seq<GraphNodeV>, ids: Seq<Seq<char>>) -> Seq<
    (Seq<char>, Seq<char>),
> {
    Seq::new(nodes.len(), |i: int| (nodes[i].id, ids[i]))
}

/// The creation statement for one relationship, with both endpoints
/// resolved through the identifier table; an endpoint absent from the
/// table is an `IdentifierResolutionFailure` carrying the unresolved
/// caller-local identifier.
pub open spec fn rel_stmt(pairs: Seq<(Seq<char>, Seq<char>)>, r: GraphRelationshipV) -> Result<
    Seq<char>,
    ErrV,
> {
    match table_lookup(pairs, r.source_id) {
        None => Err(ErrV::IdentifierResolutionFailure(r.source_id)),
        Some(src) => match table_lookup(pairs, r.target_id) {
            None => Err(ErrV::IdentifierResolutionFailure(r.target_id)),
            Some(dst) => Ok(
                "MATCH (n), (m) WHERE n.id = \""@ + src + "\" AND m.id = \""@ + dst
                    + "\" CREATE (n)-[:"@ + r.label + "]->(m)"@,
            ),
        },
    }
}

/// The relationship statements for a relationship list, appended onto the
/// accumulator left to right; the first unresolved endpoint aborts.
pub open spec fn rel_stmts(
    pairs: Seq<(Seq<char>, Seq<char>)>,
    acc: Seq<Seq<char>>,
    rels: Seq<GraphRelationshipV>,
) -> Result<Seq<Seq<char>>, ErrV>
    decreases rels.len(),
{
    if rels.len() == 0 {
        Ok(acc)
    } else {
        match rel_stmt(pairs, rels[0]) {
            Err(e) => Err(e),
            Ok(s) => rel_stmts(pairs, acc.push(s), rels.drop_first()),
        }
    }
}

/// The node creation statements for a batch, in node order.
pub open spec fn node_stmts_spec(
    nodes: Seq<GraphNodeV>,
    owner: Option<Seq<char>>,
    embs: Seq<Option<Seq<char>>>,
    ids: Seq<Seq<char>>,
) -> Seq<Seq<char>> {
    Seq::new(nodes.len(), |i: int| node_stmt(nodes[i], owner, embs[i], ids[i]))
}

/// The whole compiled batch: every node creation statement, in input
/// order, followed by every relationship creation statement, in input
/// order; the first unresolved relationship endpoint aborts the batch.
pub open spec fn compile_spec(
    g: GraphDataV,
    owner: Option<Seq<char>>,
    embs: Seq<Option<Seq<char>>>,
    ids: Seq<Seq<char>>,
) -> Result<Seq<Seq<char>>, ErrV> {
    let pairs = id_table_spec(g.nodes, ids);
    let nstmts = node_stmts_spec(g.nodes, owner, embs, ids);
    match rel_stmts(pairs, Seq::empty(), g.relationships) {
        Err(e) => Err(e),
        Ok(rstmts) => Ok(nstmts + rstmts),
    }
}


fn props_dup(props: &Vec<(String, PropValue)>) -> (r: Vec<(String, PropValue)>)
    ensures
        props_view(r@) == props_view(props@),
{
    let mut out: Vec<(String, PropValue)> = Vec::new();
    let mut i: usize = 0;
    while i < props.len()
        invariant
            i <= props@.len(),
            out@.len() == i,
            forall|k: int|
                0 <= k < i ==> out@[k].0@ == props@[k].0@ && out@[k].1@ == props@[k].1@,
        decreases props@.len() - i,
    {
        let f = &props[i];
        out.push((f.0.clone(), f.1.duplicate()));
        i = i + 1;
    }
    proof {
        assert(props_view(out@) =~~= props_view(props@));
    }
    out
}

fn with_prop_set(props: &Vec<(String, PropValue)>, key: &str, value: &PropValue) -> (r: Vec<
    (String, PropValue),
>)
    ensures
        props_view(r@) == set_prop(props_view(props@), key@, value@),
{
    let ghost whole = set_prop(props_view(props@), key@, value@);
    let mut out: Vec<(String, PropValue)> = Vec::new();
    let mut found = false;
    let mut i: usize = 0;
    proof {
        assert(props_view(props@).skip(0) =~= props_view(props@));
    }
    while i < props.len()
        invariant
            i <= props@.len(),
            found ==> props_view(out@) + props_view(props@).skip(i as int) == whole,
            !found ==> props_view(out@) + set_prop(props_view(props@).skip(i as int), key@, value@)
                == whole,
        decreases props@.len() - i,
    {
        let ghost rest = props_view(props@).skip(i as int);
        proof {
            assert(rest[0] == props_view(props@)[i as int]);
            assert(props_view(props@)[i as int] == (props@[i as int].0@, props@[i as int].1@));
            assert(rest.drop_first() =~= props_view(props@).skip(i as int + 1));
        }
        let f = &props[i];
        if !found && str_eq(f.0.as_str(), key) {
            out.push((key.to_owned(), value.duplicate()));
            found = true;
            proof {
                assert(set_prop(rest, key@, value@) =~~= seq![(key@, value@)] + rest.drop_first());
                assert(props_view(out@) + props_view(props@).skip(i as int + 1) =~~= whole);
            }
        } else {
            out.push((f.0.clone(), f.1.duplicate()));
            proof {
                if found {
                    assert(rest =~~= seq![rest[0]] + rest.drop_first());
                    assert(props_view(out@) + props_view(props@).skip(i as int + 1) =~~= whole);
                } else {
                    assert(set_prop(rest, key@, value@) =~~= seq![rest[0]] + set_prop(
                        rest.drop_first(),
                        key@,
                        value@,
                    ));
                    assert(props_view(out@) + set_prop(
                        props_view(props@).skip(i as int + 1),
                        key@,
                        value@,
                    ) =~~= whole);
                }
            }
        }
        i = i + 1;
    }
    proof {
        assert(props_view(props@).skip(props@.len() as int) =~= Seq::<(Seq<char>, PropV)>::empty());
    }
    if !found {
        out.push((key.to_owned(), value.duplicate()));
        proof {
            assert(set_prop(Seq::<(Seq<char>, PropV)>::empty(), key@, value@) =~~= seq![
                (key@, value@),
            ]);
            assert(props_view(out@) =~~= whole);
        }
    } else {
        proof {
            assert(props_view(out@) =~~= whole);
        }
    }
    out
}

fn stmt_props_body_exec(props: &Vec<(String, PropValue)>) -> (r: String)
    ensures
        r@ == stmt_props_body(props_view(props@)),
{
    let mut entries: Vec<String> = Vec::new();
    let mut i: usize = 0;
    while i < props.len()
        invariant
            i <= props@.len(),
            entries@.len() == i,
            forall|k: int|
                0 <= k < i ==> entries@[k]@ == stmt_prop_entry(props_view(props@)[k]),
        decreases props@.len() - i,
    {
        let f = &props[i];
        let mut e = f.0.clone();
        e.append(": ");
        append_json_scalar(&mut e, &f.1);
        proof {
            assert(props_view(props@)[i as int] == (props@[i as int].0@, props@[i as int].1@));
            assert(e@ =~= stmt_prop_entry(props_view(props@)[i as int]));
        }
        entries.push(e);
        i = i + 1;
    }
    proof {
        assert(seq_views(entries@) =~~= stmt_prop_entries(props_view(props@)));
    }
    crate::text::join_strings(&entries, ", ")
}

fn node_stmt_exec(n: &GraphNode, owner: &Option<String>, emb: &Option<String>, fresh: &String) -> (r:
    String)
    ensures
        r@ == node_stmt(n@, opt_view(*owner), opt_view(*emb), fresh@),
{
    let is_user = str_eq(n.label.as_str(), "User");
    let props: Vec<(String, PropValue)> = match owner {
        Some(o) => {
            if is_user {
                with_prop_set(&n.properties, "user_id", &PropValue::Str(o.clone()))
            } else {
                props_dup(&n.properties)
            }
        }
        None => props_dup(&n.properties),
    };
    proof {
        assert(props_view(props@) == owned_props(n@, opt_view(*owner)));
    }
    let body = stmt_props_body_exec(&props);
    let mut out = "CREATE (".to_owned();
    out.append(n.id.as_str());
    out.append(":");
    out.append(n.label.as_str());
    match emb {
        Some(e) => {
            out.append(" { id: \"");
            out.append(fresh.as_str());
            out.append("\", embedding: ");
            out.append(e.as_str());
            out.append(", ");
            out.append(body.as_str());
            out.append(" })");
        }
        None => {
            out.append(" { id: \"");
            out.append(fresh.as_str());
            out.append("\", ");
            out.append(body.as_str());
            out.append(" })");
        }
    }
    proof {
        assert(out@ =~= node_stmt(n@, opt_view(*owner), opt_view(*emb), fresh@));
    }
    out
}

fn table_lookup_exec<'a>(pairs: &'a Vec<(String, String)>, key: &str) -> (r: Option<&'a String>)
    ensures
        match r {
            Some(x) => table_lookup(pairs_view(pairs@), key@) == Some(x@),
            None => table_lookup(pairs_view(pairs@), key@) is None,
        },
{
    let mut i: usize = pairs.len();
    proof {
        assert(pairs_view(pairs@).take(pairs@.len() as int) =~= pairs_view(pairs@));
    }
    while i > 0
        invariant
            i <= pairs@.len(),
            table_lookup(pairs_view(pairs@).take(i as int), key@) == table_lookup(
                pairs_view(pairs@),
                key@,
            ),
        decreases i,
    {
        let ghost pre = pairs_view(pairs@).take(i as int);
        proof {
            assert(pre.last() == pairs_view(pairs@)[i as int - 1]);
            assert(pairs_view(pairs@)[i as int - 1] == (pairs@[i as int - 1].0@, pairs@[i as int
                - 1].1@));
            assert(pre.drop_last() =~= pairs_view(pairs@).take(i as int - 1));
        }
        i = i - 1;
        let f = &pairs[i];
        if str_eq(f.0.as_str(), key) {
            return Some(&f.1);
        }
    }
    proof {
        assert(pairs_view(pairs@).take(0) =~= Seq::<(Seq<char>, Seq<char>)>::empty());
    }
    None
}

impl GraphData {
    /// Compiles this document with the given stable identifiers: one per
    /// node, in node order. See `compile_spec` for the statement layout
    /// and the failure conditions.
    pub fn into_queries_with_ids(
        &self,
        owner: &Option<String>,
        embeddings: &Vec<Option<String>>,
        ids: &Vec<String>,
    ) -> (r: Result<CypherQueries, GraphError>)
        requires
            embeddings@.len() == self.nodes@.len(),
            ids@.len() == self.nodes@.len(),
        ensures
            match r {
                Ok(q) => compile_spec(
                    self@,
                    opt_view(*owner),
                    opts_view(embeddings@),
                    seq_views(ids@),
                ) == Ok::<Seq<Seq<char>>, ErrV>(q@),
                Err(e) => compile_spec(
                    self@,
                    opt_view(*owner),
                    opts_view(embeddings@),
                    seq_views(ids@),
                ) == Err::<Seq<Seq<char>>, ErrV>(e@),
            },
    {
        let ghost ownv = opt_view(*owner);
        let ghost embv = opts_view(embeddings@);
        let ghost idsv = seq_views(ids@);
        let ghost tablev = id_table_spec(self@.nodes, idsv);
        let mut stmts: Vec<String> = Vec::new();
        let mut pairs: Vec<(String, String)> = Vec::new();
        let mut i: usize = 0;
        while i < self.nodes.len()
            invariant
                i <= self.nodes@.len(),
                embeddings@.len() == self.nodes@.len(),
                ids@.len() == self.nodes@.len(),
                stmts@.len() == i,
                pairs@.len() == i,
                ownv == opt_view(*owner),
                embv == opts_view(embeddings@),
                idsv == seq_views(ids@),
                forall|k: int|
                    0 <= k < i ==> stmts@[k]@ == node_stmt(self@.nodes[k], ownv, embv[k], idsv[k]),
                forall|k: int| #![trigger pairs@[k]]
                    0 <= k < i ==> pairs@[k].0@ == self@.nodes[k].id && pairs@[k].1@ == idsv[k],
            decreases self.nodes@.len() - i,
        {
            proof {
                assert(self@.nodes[i as int] == self.nodes@[i as int]@);
                assert(embv[i as int] == opt_view(embeddings@[i as int]));
                assert(idsv[i as int] == ids@[i as int]@);
            }
            let stmt = node_stmt_exec(&self.nodes[i], owner, &embeddings[i], &ids[i]);
            stmts.push(stmt);
            let ghost pre_pairs = pairs@;
            pairs.push((self.nodes[i].id.clone(), ids[i].clone()));
            proof {
                assert(pairs@[i as int].0@ == self@.nodes[i as int].id);
                assert(pairs@[i as int].1@ == idsv[i as int]);
                assert forall|k: int| #![trigger pairs@[k]]
                    0 <= k < i + 1 implies pairs@[k].0@ == self@.nodes[k].id && pairs@[k].1@
                    == idsv[k] by {
                    if k < i {
                        assert(pairs@[k] == pre_pairs[k]);
                    }
                }
            }
            i = i + 1;
        }
        proof {
            assert(pairs_view(pairs@) =~~= tablev);
            assert(seq_views(stmts@) =~~= node_stmts_spec(self@.nodes, ownv, embv, idsv));
        }
        let ghost nstmtsv = seq_views(stmts@);
        let mut rstmts: Vec<String> = Vec::new();
        let mut j: usize = 0;
        proof {
            assert(self@.relationships.skip(0) =~= self@.relationships);
            assert(seq_views(rstmts@) =~~= Seq::<Seq<char>>::empty());
        }
        while j < self.relationships.len()
            invariant
                j <= self.relationships@.len(),
                pairs_view(pairs@) == tablev,
                ownv == opt_view(*owner),
                embv == opts_view(embeddings@),
                idsv == seq_views(ids@),
                tablev == id_table_spec(self@.nodes, idsv),
                rel_stmts(tablev, seq_views(rstmts@), self@.relationships.skip(j as int))
                    == rel_stmts(tablev, Seq::empty(), self@.relationships),
            decreases self.relationships@.len() - j,
        {
            let ghost rest = self@.relationships.skip(j as int);
            let ghost acc = seq_views(rstmts@);
            proof {
                assert(rest[0] == self@.relationships[j as int]);
                assert(self@.relationships[j as int] == self.relationships@[j as int]@);
                assert(rest.drop_first() =~= self@.relationships.skip(j as int + 1));
            }
            let rel = &self.relationships[j];
            let src = match table_lookup_exec(&pairs, rel.source_id.as_str()) {
                Some(x) => x,
                None => {
                    proof {
                        assert(rel_stmt(tablev, rest[0]) == Err::<Seq<char>, ErrV>(
                            ErrV::IdentifierResolutionFailure(rest[0].source_id),
                        ));
                        assert(rel_stmts(tablev, acc, rest) == Err::<Seq<Seq<char>>, ErrV>(
                            ErrV::IdentifierResolutionFailure(rest[0].source_id),
                        ));
                    }
                    return Err(GraphError::IdentifierResolutionFailure(rel.source_id.clone()));
                }
            };
            let dst = match table_lookup_exec(&pairs, rel.target_id.as_str()) {
                Some(x) => x,
                None => {
                    proof {
                        assert(rel_stmt(tablev, rest[0]) == Err::<Seq<char>, ErrV>(
                            ErrV::IdentifierResolutionFailure(rest[0].target_id),
                        ));
                        assert(rel_stmts(tablev, acc, rest) == Err::<Seq<Seq<char>>, ErrV>(
                            ErrV::IdentifierResolutionFailure(rest[0].target_id),
                        ));
                    }
                    return Err(GraphError::IdentifierResolutionFailure(rel.target_id.clone()));
                }
            };
            let mut stmt = "MATCH (n), (m) WHERE n.id = \"".to_owned();
            stmt.append(src.as_str());
            stmt.append("\" AND m.id = \"");
            stmt.append(dst.as_str());
            stmt.append("\" CREATE (n)-[:");
            stmt.append(rel.label.as_str());
            stmt.append("]->(m)");
            proof {
                assert(rel_stmt(tablev, rest[0]) == Ok::<Seq<char>, ErrV>(stmt@)) by {
                    assert(stmt@ =~= "MATCH (n), (m) WHERE n.id = \""@ + src@ + "\" AND m.id = \""@
                        + dst@ + "\" CREATE (n)-[:"@ + rel@.label + "]->(m)"@);
                }
            }
            rstmts.push(stmt);
            proof {
                assert(seq_views(rstmts@) =~~= acc.push(rel_stmt(tablev, rest[0])->Ok_0));
                assert(rel_stmts(tablev, acc, rest) == rel_stmts(
                    tablev,
                    acc.push(rel_stmt(tablev, rest[0])->Ok_0),
                    rest.drop_first(),
                ));
                assert(rel_stmts(tablev, seq_views(rstmts@), self@.relationships.skip(j as int + 1))
                    == rel_stmts(tablev, Seq::empty(), self@.relationships));
            }
            j = j + 1;
        }
        proof {
            assert(self@.relationships.skip(self.relationships@.len() as int) =~= Seq::<
                GraphRelationshipV,
            >::empty());
        }
        let mut queries: Vec<String> = stmts;
        queries.append(&mut rstmts);
        let out = CypherQueries { queries };
        proof {
            assert(out@ =~~= nstmtsv + rel_stmts(tablev, Seq::empty(), self@.relationships)->Ok_0);
        }
        Ok(out)
    }

    /// Compiles this document into its mutation statement batch: a fresh
    /// stable identifier is minted for every node, and the batch follows
    /// `compile_spec` for those identifiers. Statement order is all node
    /// creations first, in input order, then all relationship creations,
    /// in input order.
    pub fn into_queries(&self, owner: &Option<String>, embeddings: &Vec<Option<String>>) -> (r:
        Result<CypherQueries, GraphError>)
        requires
            embeddings@.len() == self.nodes@.len(),
        ensures
            match r {
                Ok(q) => exists|ids: Seq<Seq<char>>|
                    ids.len() == self@.nodes.len() && (forall|k: int|
                        0 <= k < ids.len() ==> ids[k].len() == 36) && compile_spec(
                        self@,
                        opt_view(*owner),
                        opts_view(embeddings@),
                        ids,
                    ) == Ok::<Seq<Seq<char>>, ErrV>(q@),
                Err(e) => exists|ids: Seq<Seq<char>>|
                    ids.len() == self@.nodes.len() && compile_spec(
                        self@,
                        opt_view(*owner),
                        opts_view(embeddings@),
                        ids,
                    ) == Err::<Seq<Seq<char>>, ErrV>(e@),
            },
    {
        let mut ids: Vec<String> = Vec::new();
        let mut i: usize = 0;
        while i < self.nodes.len()
            invariant
                i <= self.nodes@.len(),
                ids@.len() == i,
                forall|k: int| 0 <= k < i ==> ids@[k]@.len() == 36,
            decreases self.nodes@.len() - i,
        {
            ids.push(fresh_stable_id());
            i = i + 1;
        }
        let r = self.into_queries_with_ids(owner, embeddings, &ids);
        proof {
            let idsv = seq_views(ids@);
            assert(idsv.len() == self@.nodes.len());
            assert(forall|k: int| 0 <= k < idsv.len() ==> idsv[k].len() == 36);
        }
        r
    }
}



proof fn lemma_rel_stmts_ok(
    pairs: Seq<(Seq<char>, Seq<char>)>,
    acc: Seq<Seq<char>>,
    rels: Seq<GraphRelationshipV>,
    out: Seq<Seq<char>>,
)
    requires
        rel_stmts(pairs, acc, rels) == Ok::<Seq<Seq<char>>, ErrV>(out),
    ensures
        out.len() == acc.len() + rels.len(),
        forall|k: int| 0 <= k < acc.len() ==> out[k] == acc[k],
        forall|k: int|
            0 <= k < rels.len() ==> rel_stmt(pairs, rels[k]) is Ok && out[acc.len() + k]
                == rel_stmt(pairs, rels[k])->Ok_0,
    decreases rels.len(),
{
    if rels.len() == 0 {
    } else {
        match rel_stmt(pairs, rels[0]) {
            Ok(st) => {
                lemma_rel_stmts_ok(pairs, acc.push(st), rels.drop_first(), out);
                assert forall|k: int|
                    0 <= k < rels.len() implies rel_stmt(pairs, rels[k]) is Ok && out[acc.len()
                    + k] == rel_stmt(pairs, rels[k])->Ok_0 by {
                    if k > 0 {
                        assert(rels.drop_first()[k - 1] == rels[k]);
                        assert(out[acc.push(st).len() as int + (k - 1)] == rel_stmt(
                            pairs,
                            rels.drop_first()[k - 1],
                        )->Ok_0);
                    } else {
                        assert(out[acc.len() as int] == acc.push(st)[acc.len() as int]);
                    }
                }
            }
            Err(_) => {
                assert(false);
            }
        }
    }
}

proof fn lemma_rel_stmts_total(
    pairs: Seq<(Seq<char>, Seq<char>)>,
    acc: Seq<Seq<char>>,
    rels: Seq<GraphRelationshipV>,
)
    requires
        forall|k: int| 0 <= k < rels.len() ==> rel_stmt(pairs, rels[k]) is Ok,
    ensures
        rel_stmts(pairs, acc, rels) is Ok,
    decreases rels.len(),
{
    if rels.len() == 0 {
    } else {
        assert(rel_stmt(pairs, rels[0]) is Ok);
        let st = rel_stmt(pairs, rels[0])->Ok_0;
        assert forall|k: int|
            0 <= k < rels.drop_first().len() implies rel_stmt(pairs, rels.drop_first()[k])
            is Ok by {
            assert(rels.drop_first()[k] == rels[k + 1]);
        }
        lemma_rel_stmts_total(pairs, acc.push(st), rels.drop_first());
    }
}

/// The caller-local identifier of some node of the batch resolves in the
/// batch's identifier table.
pub proof fn lemma_table_lookup_some(nodes: Seq<GraphNodeV>, ids: Seq<Seq<char>>, key: Seq<char>)
    requires
        ids.len() == nodes.len(),
        exists|i: int| 0 <= i < nodes.len() && nodes[i].id == key,
    ensures
        table_lookup(id_table_spec(nodes, ids), key) is Some,
    decreases nodes.len(),
{
    let t = id_table_spec(nodes, ids);
    assert(t.len() == nodes.len());
    if t.last().0 == key {
    } else {
        let i = choose|i: int| 0 <= i < nodes.len() && nodes[i].id == key;
        assert(t.last() == (nodes[nodes.len() - 1].id, ids[nodes.len() - 1]));
        assert(i < nodes.len() - 1);
        assert(t.drop_last() =~~= id_table_spec(nodes.drop_last(), ids.drop_last()));
        assert(nodes.drop_last()[i] == nodes[i]);
        lemma_table_lookup_some(nodes.drop_last(), ids.drop_last(), key);
    }
}

/// Law: for a batch whose every relationship endpoint is the caller-local
/// identifier of some node of the same batch, compilation succeeds and
/// yields exactly one statement per node and per relationship — the node
/// creation statements first, in input order, followed by the
/// relationship creation statements, in input order, so a relationship
/// never references a node not created in the same batch.
pub proof fn lemma_compile_layout(
    g: GraphDataV,
    owner: Option<Seq<char>>,
    embs: Seq<Option<Seq<char>>>,
    ids: Seq<Seq<char>>,
)
    requires
        embs.len() == g.nodes.len(),
        ids.len() == g.nodes.len(),
        forall|k: int|
            0 <= k < g.relationships.len() ==> exists|i: int|
                0 <= i < g.nodes.len() && g.nodes[i].id == #[trigger] g.relationships[k].source_id,
        forall|k: int|
            0 <= k < g.relationships.len() ==> exists|i: int|
                0 <= i < g.nodes.len() && g.nodes[i].id == #[trigger] g.relationships[k].target_id,
    ensures
        compile_spec(g, owner, embs, ids) is Ok,
        compile_spec(g, owner, embs, ids)->Ok_0.len() == g.nodes.len() + g.relationships.len(),
        forall|i: int|
            0 <= i < g.nodes.len() ==> compile_spec(g, owner, embs, ids)->Ok_0[i] == node_stmt(
                g.nodes[i],
                owner,
                embs[i],
                ids[i],
            ),
        forall|j: int|
            0 <= j < g.relationships.len() ==> compile_spec(g, owner, embs, ids)->Ok_0[g.nodes.len()
                + j] == rel_stmt(id_table_spec(g.nodes, ids), g.relationships[j])->Ok_0,
{
    let pairs = id_table_spec(g.nodes, ids);
    assert forall|k: int|
        0 <= k < g.relationships.len() implies rel_stmt(pairs, #[trigger] g.relationships[k])
        is Ok by {
        lemma_table_lookup_some(g.nodes, ids, g.relationships[k].source_id);
        lemma_table_lookup_some(g.nodes, ids, g.relationships[k].target_id);
    }
    lemma_rel_stmts_total(pairs, Seq::empty(), g.relationships);
    let rout = rel_stmts(pairs, Seq::empty(), g.relationships)->Ok_0;
    lemma_rel_stmts_ok(pairs, Seq::empty(), g.relationships, rout);
    let nstmts = node_stmts_spec(g.nodes, owner, embs, ids);
    assert(compile_spec(g, owner, embs, ids) == Ok::<Seq<Seq<char>>, ErrV>(nstmts + rout));
    assert forall|i: int|
        0 <= i < g.nodes.len() implies compile_spec(g, owner, embs, ids)->Ok_0[i] == node_stmt(
        g.nodes[i],
        owner,
        embs[i],
        ids[i],
    ) by {
        assert((nstmts + rout)[i] == nstmts[i]);
    }
    assert forall|j: int|
        0 <= j < g.relationships.len() implies compile_spec(g, owner, embs, ids)->Ok_0[g.nodes.len()
        + j] == rel_stmt(pairs, g.relationships[j])->Ok_0 by {
        assert((nstmts + rout)[g.nodes.len() + j] == rout[j]);
    }
}



/// Law: for a batch whose every node passes the embeddable-field lookup
/// and whose every relationship endpoint is the caller-local identifier of
/// some node of the batch, compiling with the planned embeddings succeeds;
/// the batch holds exactly one statement per node and per relationship,
/// node creations first in input order, then relationship creations in
/// input order; and a node's creation statement carries an embedding
/// exactly when its label has a designated embeddable field.
pub proof fn lemma_plan_then_compile(
    g: GraphDataV,
    owner: Option<Seq<char>>,
    embs: Seq<Option<Seq<char>>>,
    ids: Seq<Seq<char>>,
)
    requires
        embs.len() == g.nodes.len(),
        ids.len() == g.nodes.len(),
        forall|k: int|
            0 <= k < g.nodes.len() ==> embed_text_req(#[trigger] g.nodes[k]) == Ok::<
                Option<Seq<char>>,
                ErrV,
            >(embs[k]),
        forall|k: int|
            0 <= k < g.relationships.len() ==> exists|i: int|
                0 <= i < g.nodes.len() && g.nodes[i].id == #[trigger] g.relationships[k].source_id,
        forall|k: int|
            0 <= k < g.relationships.len() ==> exists|i: int|
                0 <= i < g.nodes.len() && g.nodes[i].id == #[trigger] g.relationships[k].target_id,
    ensures
        compile_spec(g, owner, embs, ids) is Ok,
        compile_spec(g, owner, embs, ids)->Ok_0.len() == g.nodes.len() + g.relationships.len(),
        forall|i: int|
            0 <= i < g.nodes.len() ==> compile_spec(g, owner, embs, ids)->Ok_0[i] == node_stmt(
                g.nodes[i],
                owner,
                embs[i],
                ids[i],
            ),
        forall|j: int|
            0 <= j < g.relationships.len() ==> compile_spec(g, owner, embs, ids)->Ok_0[g.nodes.len()
                + j] == rel_stmt(id_table_spec(g.nodes, ids), g.relationships[j])->Ok_0,
        forall|i: int|
            0 <= i < g.nodes.len() ==> ((#[trigger] embs[i]) is Some <==> is_embeddable_label(
                g.nodes[i].label,
            )),
{
    lemma_compile_layout(g, owner, embs, ids);
    assert forall|i: int|
        0 <= i < g.nodes.len() implies ((#[trigger] embs[i]) is Some <==> is_embeddable_label(
        g.nodes[i].label,
    )) by {
        lemma_embedding_presence(g.nodes[i]);
    }
}


} // verus!
