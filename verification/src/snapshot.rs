//! The persisted graph snapshot: the shape a retrieval query result is
//! assembled into before being rendered as human-readable context or
//! converted back into an exchange document. A snapshot is reconstructed
//! fresh on every read; the graph store is the single source of truth.
use vstd::prelude::*;
use vstd::string::StringExecFns;

use crate::errors::ErrV;
use crate::errors::GraphError;
use crate::exchange::GraphData;
use crate::exchange::GraphNode;
use crate::exchange::GraphDataV;
use crate::exchange::GraphNodeV;
use crate::exchange::GraphRelationship;
use crate::exchange::GraphRelationshipV;
use crate::exchange::PropV;
use crate::exchange::PropValue;
use crate::exchange::props_view;
use crate::model::classify;
use crate::model::classify_spec;
use crate::model::Neo4jNode;
use crate::model::NodeV;
use crate::model::node_context;
use crate::model::node_id;
use crate::model::node_to_graph_node;
use crate::text::dec_str_int;
use crate::text::i64_to_string;
use crate::text::seq_views;
use crate::text::str_eq;

verus! {

/// A persisted relation record, identified structurally by its engine
/// endpoint identities and its type.
#[derive(Debug, Clone)]
pub struct Neo4jRelation {
    pub src_id: i64,
    pub dst_id: i64,
    pub rel: String,
}

/// Spec-level view of `Neo4jRelation`.
pub struct Neo4jRelationV {
    pub src_id: i64,
    pub dst_id: i64,
    pub rel: Seq<char>,
}

impl View for Neo4jRelation {
    type V = Neo4jRelationV;

    open spec fn view(&self) -> Neo4jRelationV {
        Neo4jRelationV { src_id: self.src_id, dst_id: self.dst_id, rel: self.rel@ }
    }
}

impl PartialEq for Neo4jRelation {
    /// Structural equality over the two endpoint identities and the type,
    /// used to deduplicate relations returned by overlapping traversal
    /// rows.
    fn eq(&self, other: &Neo4jRelation) -> (r: bool) {
        self.src_id == other.src_id && self.dst_id == other.dst_id && self.rel == other.rel
    }
}

impl vstd::std_specs::cmp::PartialEqSpecImpl for Neo4jRelation {
    open spec fn obeys_eq_spec() -> bool {
        true
    }

    open spec fn eq_spec(&self, other: &Neo4jRelation) -> bool {
        self.src_id == other.src_id && self.dst_id == other.dst_id && self.rel@ == other.rel@
    }
}

/// One row of a traversal query result: two raw nodes (engine identity,
/// labels, properties) and the relation connecting them.
#[derive(Debug, Clone)]
pub struct GraphRow {
    pub src_id: i64,
    pub src_labels: Vec<String>,
    pub src_props: Vec<(String, PropValue)>,
    pub dst_id: i64,
    pub dst_labels: Vec<String>,
    pub dst_props: Vec<(String, PropValue)>,
    pub rel_src_id: i64,
    pub rel_dst_id: i64,
    pub rel_type: String,
}

/// Spec-level view of `GraphRow`.
pub struct GraphRowV {
    pub src_id: i64,
    pub src_labels: Seq<Seq<char>>,
    pub src_props: Seq<(Seq<char>, PropV)>,
    pub dst_id: i64,
    pub dst_labels: Seq<Seq<char>>,
    pub dst_props: Seq<(Seq<char>, PropV)>,
    pub rel_src_id: i64,
    pub rel_dst_id: i64,
    pub rel_type: Seq<char>,
}

impl View for GraphRow {
    type V = GraphRowV;

    open spec fn view(&self) -> GraphRowV {
        GraphRowV {
            src_id: self.src_id,
            src_labels: seq_views(self.src_labels@),
            src_props: props_view(self.src_props@),
            dst_id: self.dst_id,
            dst_labels: seq_views(self.dst_labels@),
            dst_props: props_view(self.dst_props@),
            rel_src_id: self.rel_src_id,
            rel_dst_id: self.rel_dst_id,
            rel_type: self.rel_type@,
        }
    }
}

/// A snapshot of one user's persisted subgraph: nodes keyed by engine
/// identity (keys unique, in first-seen order) and structurally
/// deduplicated relations.
#[derive(Debug, Clone)]
pub struct Neo4jGraph {
    pub nodes: Vec<(i64, Neo4jNode)>,
    pub relations: Vec<Neo4jRelation>,
}

/// Spec-level view of `Neo4jGraph`.
pub struct Neo4jGraphV {
    pub nodes: Seq<(i64, NodeV)>,
    pub relations: Seq<Neo4jRelationV>,
}

/// The views of a node list.
pub open spec fn gnodes_view(nodes: Seq<(i64, Neo4jNode)>) -> Seq<(i64, NodeV)> {
    nodes.map_values(|p: (i64, Neo4jNode)| (p.0, p.1@))
}

/// The views of a relation list.
pub open spec fn nrels_view(rels: Seq<Neo4jRelation>) -> Seq<Neo4jRelationV> {
    rels.map_values(|r: Neo4jRelation| r@)
}

/// The views of a row list.
pub open spec fn rows_view(rows: Seq<GraphRow>) -> Seq<GraphRowV> {
    rows.map_values(|r: GraphRow| r@)
}

impl View for Neo4jGraph {
    type V = Neo4jGraphV;

    open spec fn view(&self) -> Neo4jGraphV {
        Neo4jGraphV { nodes: gnodes_view(self.nodes@), relations: nrels_view(self.relations@) }
    }
}

/// Looks an engine identity up in a node list; the first match wins (and
/// with unique keys it is the only one).
pub open spec fn node_lookup(nodes: Seq<(i64, NodeV)>, id: i64) -> Option<NodeV>
    decreases nodes.len(),
{
    if nodes.len() == 0 {
        None
    } else if nodes[0].0 == id {
        Some(nodes[0].1)
    } else {
        node_lookup(nodes.drop_first(), id)
    }
}

/// Inserts a node under an engine identity unless that identity is
/// already present: the first classification of an engine node wins.
pub open spec fn insert_node_spec(nodes: Seq<(i64, NodeV)>, id: i64, n: NodeV) -> Seq<
    (i64, NodeV),
> {
    if node_lookup(nodes, id) is Some {
        nodes
    } else {
        nodes.push((id, n))
    }
}

/// Appends a relation unless a structurally equal one is already present.
pub open spec fn add_rel_spec(rels: Seq<Neo4jRelationV>, r: Neo4jRelationV) -> Seq<
    Neo4jRelationV,
> {
    if rels.contains(r) {
        rels
    } else {
        rels.push(r)
    }
}

/// Folds one traversal row into a snapshot: both endpoint nodes are
/// classified (a classification failure aborts the whole assembly), each
/// is inserted under its engine identity if not seen before, and the
/// connecting relation is added if not seen before.
pub open spec fn assemble_step(g: Neo4jGraphV, row: GraphRowV) -> Result<Neo4jGraphV, ErrV> {
    match classify_spec(row.src_labels, row.src_props) {
        Err(e) => Err(e),
        Ok(sn) => match classify_spec(row.dst_labels, row.dst_props) {
            Err(e) => Err(e),
            Ok(dn) => {
                let nodes1 = insert_node_spec(g.nodes, row.src_id, sn);
                let nodes2 = insert_node_spec(nodes1, row.dst_id, dn);
                let r = Neo4jRelationV {
                    src_id: row.rel_src_id,
                    dst_id: row.rel_dst_id,
                    rel: row.rel_type,
                };
                Ok(Neo4jGraphV { nodes: nodes2, relations: add_rel_spec(g.relations, r) })
            }
        },
    }
}

/// Folds a whole row list into a snapshot, left to right, starting from
/// the accumulator; the first failure aborts.
pub open spec fn assemble_spec(acc: Neo4jGraphV, rows: Seq<GraphRowV>) -> Result<
    Neo4jGraphV,
    ErrV,
>
    decreases rows.len(),
{
    if rows.len() == 0 {
        Ok(acc)
    } else {
        match assemble_step(acc, rows[0]) {
            Err(e) => Err(e),
            Ok(g2) => assemble_spec(g2, rows.drop_first()),
        }
    }
}

/// The empty snapshot.
pub open spec fn empty_graph_v() -> Neo4jGraphV {
    Neo4jGraphV { nodes: Seq::empty(), relations: Seq::empty() }
}

fn contains_node(nodes: &Vec<(i64, Neo4jNode)>, id: i64) -> (b: bool)
    ensures
        b == (node_lookup(gnodes_view(nodes@), id) is Some),
{
    let mut i: usize = 0;
    proof {
        assert(gnodes_view(nodes@).skip(0) =~= gnodes_view(nodes@));
    }
    while i < nodes.len()
        invariant
            i <= nodes@.len(),
            node_lookup(gnodes_view(nodes@).skip(i as int), id) == node_lookup(
                gnodes_view(nodes@),
                id,
            ),
        decreases nodes@.len() - i,
    {
        proof {
            assert(gnodes_view(nodes@).skip(i as int)[0] == gnodes_view(nodes@)[i as int]);
            assert(gnodes_view(nodes@)[i as int] == (nodes@[i as int].0, nodes@[i as int].1@));
            assert(gnodes_view(nodes@).skip(i as int).drop_first() =~= gnodes_view(nodes@).skip(
                i as int + 1,
            ));
        }
        if nodes[i].0 == id {
            return true;
        }
        i = i + 1;
    }
    proof {
        assert(gnodes_view(nodes@).skip(nodes@.len() as int) =~= Seq::<(i64, NodeV)>::empty());
    }
    false
}

fn contains_rel(rels: &Vec<Neo4jRelation>, r: &Neo4jRelation) -> (b: bool)
    ensures
        b == nrels_view(rels@).contains(r@),
{
    let mut i: usize = 0;
    while i < rels.len()
        invariant
            i <= rels@.len(),
            forall|k: int| 0 <= k < i ==> nrels_view(rels@)[k] != r@,
        decreases rels@.len() - i,
    {
        let c = &rels[i];
        if c.src_id == r.src_id && c.dst_id == r.dst_id && str_eq(c.rel.as_str(), r.rel.as_str()) {
            proof {
                assert(nrels_view(rels@)[i as int] == r@);
            }
            return true;
        }
        proof {
            assert(nrels_view(rels@)[i as int] == rels@[i as int]@);
            assert(nrels_view(rels@)[i as int] != r@);
        }
        i = i + 1;
    }
    proof {
        assert(forall|k: int| 0 <= k < nrels_view(rels@).len() ==> nrels_view(rels@)[k] != r@);
    }
    false
}

impl Neo4jGraph {
    /// The empty snapshot.
    pub fn new() -> (r: Neo4jGraph)
        ensures
            r@ == empty_graph_v(),
    {
        let r = Neo4jGraph { nodes: Vec::new(), relations: Vec::new() };
        proof {
            assert(r@.nodes =~= empty_graph_v().nodes);
            assert(r@.relations =~= empty_graph_v().relations);
        }
        r
    }

    /// The node stored under an engine identity, if any.
    pub fn get_node<'a>(&'a self, id: i64) -> (r: Option<&'a Neo4jNode>)
        ensures
            match r {
                Some(n) => node_lookup(self@.nodes, id) == Some(n@),
                None => node_lookup(self@.nodes, id) is None,
            },
    {
        let nodes = &self.nodes;
        let mut i: usize = 0;
        proof {
            assert(gnodes_view(nodes@).skip(0) =~= gnodes_view(nodes@));
        }
        while i < nodes.len()
            invariant
                i <= nodes@.len(),
                nodes@ == self.nodes@,
                node_lookup(gnodes_view(nodes@).skip(i as int), id) == node_lookup(
                    gnodes_view(nodes@),
                    id,
                ),
            decreases nodes@.len() - i,
        {
            proof {
                assert(gnodes_view(nodes@).skip(i as int)[0] == gnodes_view(nodes@)[i as int]);
                assert(gnodes_view(nodes@)[i as int] == (nodes@[i as int].0, nodes@[i as int].1@));
                assert(gnodes_view(nodes@).skip(i as int).drop_first() =~= gnodes_view(
                    nodes@,
                ).skip(i as int + 1));
            }
            let p = &nodes[i];
            if p.0 == id {
                return Some(&p.1);
            }
            i = i + 1;
        }
        proof {
            assert(gnodes_view(nodes@).skip(nodes@.len() as int) =~= Seq::<(i64, NodeV)>::empty());
        }
        None
    }

    /// Assembles the rows of a traversal query result into a snapshot:
    /// endpoint nodes are classified and deduplicated by engine identity,
    /// relations deduplicated structurally; the first classification
    /// failure aborts the assembly.
    pub fn from_rows(rows: &Vec<GraphRow>) -> (r: Result<Neo4jGraph, GraphError>)
        ensures
            match r {
                Ok(g) => assemble_spec(empty_graph_v(), rows_view(rows@)) == Ok::<
                    Neo4jGraphV,
                    ErrV,
                >(g@),
                Err(e) => assemble_spec(empty_graph_v(), rows_view(rows@)) == Err::<
                    Neo4jGraphV,
                    ErrV,
                >(e@),
            },
    {
        let mut g = Neo4jGraph::new();
        let mut i: usize = 0;
        proof {
            assert(rows_view(rows@).skip(0) =~= rows_view(rows@));
        }
        while i < rows.len()
            invariant
                i <= rows@.len(),
                assemble_spec(g@, rows_view(rows@).skip(i as int)) == assemble_spec(
                    empty_graph_v(),
                    rows_view(rows@),
                ),
            decreases rows@.len() - i,
        {
            let ghost pre = g@;
            let ghost rest = rows_view(rows@).skip(i as int);
            proof {
                assert(rest[0] == rows_view(rows@)[i as int]);
                assert(rows_view(rows@)[i as int] == rows@[i as int]@);
                assert(rest.drop_first() =~= rows_view(rows@).skip(i as int + 1));
            }
            let row = &rows[i];
            let sn = match classify(&row.src_labels, &row.src_props) {
                Ok(n) => n,
                Err(e) => {
                    proof {
                        assert(assemble_step(pre, rest[0]) == Err::<Neo4jGraphV, ErrV>(e@));
                    }
                    return Err(e);
                }
            };
            let ghost snv = sn@;
            let dn = match classify(&row.dst_labels, &row.dst_props) {
                Ok(n) => n,
                Err(e) => {
                    proof {
                        assert(assemble_step(pre, rest[0]) == Err::<Neo4jGraphV, ErrV>(e@));
                    }
                    return Err(e);
                }
            };
            let ghost dnv = dn@;
            if !contains_node(&g.nodes, row.src_id) {
                g.nodes.push((row.src_id, sn));
            }
            let ghost nodes1 = insert_node_spec(pre.nodes, row.src_id, snv);
            proof {
                assert(gnodes_view(g.nodes@) =~~= nodes1);
            }
            if !contains_node(&g.nodes, row.dst_id) {
                g.nodes.push((row.dst_id, dn));
            }
            let ghost nodes2 = insert_node_spec(nodes1, row.dst_id, dnv);
            proof {
                assert(gnodes_view(g.nodes@) =~~= nodes2);
            }
            let rel = Neo4jRelation {
                src_id: row.rel_src_id,
                dst_id: row.rel_dst_id,
                rel: row.rel_type.clone(),
            };
            let ghost relv = rel@;
            if !contains_rel(&g.relations, &rel) {
                g.relations.push(rel);
            }
            proof {
                assert(nrels_view(g.relations@) =~~= add_rel_spec(pre.relations, relv));
                assert(assemble_step(pre, rest[0]) == Ok::<Neo4jGraphV, ErrV>(g@));
                assert(assemble_spec(g@, rows_view(rows@).skip(i as int + 1)) == assemble_spec(
                    empty_graph_v(),
                    rows_view(rows@),
                ));
            }
            i = i + 1;
        }
        proof {
            assert(rows_view(rows@).skip(rows@.len() as int) =~= Seq::<GraphRowV>::empty());
        }
        Ok(g)
    }
}


/// The one context line for a relation: the source node's rendering, the
/// relation type, and the target node's rendering; an endpoint missing
/// from the snapshot is an `IdentifierResolutionFailure` naming the engine
/// identity.
pub open spec fn context_line(nodes: Seq<(i64, NodeV)>, r: Neo4jRelationV) -> Result<
    Seq<char>,
    ErrV,
> {
    match node_lookup(nodes, r.src_id) {
        None => Err(ErrV::IdentifierResolutionFailure(dec_str_int(r.src_id as int))),
        Some(sn) => match node_lookup(nodes, r.dst_id) {
            None => Err(ErrV::IdentifierResolutionFailure(dec_str_int(r.dst_id as int))),
            Some(dn) => Ok(
                node_context(sn) + " - "@ + r.rel + " -> "@ + node_context(dn) + "\n"@,
            ),
        },
    }
}

/// The context lines for a relation list, concatenated onto the
/// accumulator left to right; the first unresolvable endpoint aborts.
pub open spec fn graph_context(
    nodes: Seq<(i64, NodeV)>,
    acc: Seq<char>,
    rels: Seq<Neo4jRelationV>,
) -> Result<Seq<char>, ErrV>
    decreases rels.len(),
{
    if rels.len() == 0 {
        Ok(acc)
    } else {
        match context_line(nodes, rels[0]) {
            Err(e) => Err(e),
            Ok(line) => graph_context(nodes, acc + line, rels.drop_first()),
        }
    }
}

/// The exchange-format relationship for one persisted relation: endpoints
/// resolved through the snapshot to the nodes' stable identities.
pub open spec fn exchange_rel(nodes: Seq<(i64, NodeV)>, r: Neo4jRelationV) -> Result<
    GraphRelationshipV,
    ErrV,
> {
    match node_lookup(nodes, r.src_id) {
        None => Err(ErrV::IdentifierResolutionFailure(dec_str_int(r.src_id as int))),
        Some(sn) => match node_lookup(nodes, r.dst_id) {
            None => Err(ErrV::IdentifierResolutionFailure(dec_str_int(r.dst_id as int))),
            Some(dn) => Ok(
                GraphRelationshipV {
                    source_id: node_id(sn),
                    target_id: node_id(dn),
                    label: r.rel,
                },
            ),
        },
    }
}

/// The exchange-format relationships for a relation list, appended onto
/// the accumulator left to right; the first unresolvable endpoint aborts.
pub open spec fn exchange_rels(
    nodes: Seq<(i64, NodeV)>,
    acc: Seq<GraphRelationshipV>,
    rels: Seq<Neo4jRelationV>,
) -> Result<Seq<GraphRelationshipV>, ErrV>
    decreases rels.len(),
{
    if rels.len() == 0 {
        Ok(acc)
    } else {
        match exchange_rel(nodes, rels[0]) {
            Err(e) => Err(e),
            Ok(x) => exchange_rels(nodes, acc.push(x), rels.drop_first()),
        }
    }
}

/// The exchange-format nodes of a snapshot, in snapshot order.
pub open spec fn exchange_nodes(nodes: Seq<(i64, NodeV)>) -> Seq<GraphNodeV> {
    nodes.map_values(|p: (i64, NodeV)| node_to_graph_node(p.1))
}

/// The exchange document a snapshot stands for: every node projected
/// losslessly, every relation resolved to stable identities.
pub open spec fn graph_to_exchange(g: Neo4jGraphV) -> Result<GraphDataV, ErrV> {
    match exchange_rels(g.nodes, Seq::empty(), g.relations) {
        Err(e) => Err(e),
        Ok(rs) => Ok(GraphDataV { nodes: exchange_nodes(g.nodes), relationships: rs }),
    }
}

impl Neo4jGraph {
    /// Renders the snapshot as retrieval context: one line per relation,
    /// `<source> - <TYPE> -> <target>`, in relation order.
    pub fn to_context(&self) -> (r: Result<String, GraphError>)
        ensures
            match r {
                Ok(s) => graph_context(self@.nodes, Seq::empty(), self@.relations) == Ok::<
                    Seq<char>,
                    ErrV,
                >(s@),
                Err(e) => graph_context(self@.nodes, Seq::empty(), self@.relations) == Err::<
                    Seq<char>,
                    ErrV,
                >(e@),
            },
    {
        let mut out = String::new();
        let mut j: usize = 0;
        proof {
            assert(self@.relations.skip(0) =~= self@.relations);
        }
        while j < self.relations.len()
            invariant
                j <= self.relations@.len(),
                self@.relations.len() == self.relations@.len(),
                graph_context(self@.nodes, out@, self@.relations.skip(j as int)) == graph_context(
                    self@.nodes,
                    Seq::empty(),
                    self@.relations,
                ),
            decreases self.relations@.len() - j,
        {
            let ghost rest = self@.relations.skip(j as int);
            proof {
                assert(rest[0] == self@.relations[j as int]);
                assert(self@.relations[j as int] == self.relations@[j as int]@);
                assert(rest.drop_first() =~= self@.relations.skip(j as int + 1));
            }
            let rel = &self.relations[j];
            let src = match self.get_node(rel.src_id) {
                Some(n) => n,
                None => {
                    return Err(
                        GraphError::IdentifierResolutionFailure(i64_to_string(rel.src_id)),
                    );
                }
            };
            let dst = match self.get_node(rel.dst_id) {
                Some(n) => n,
                None => {
                    return Err(
                        GraphError::IdentifierResolutionFailure(i64_to_string(rel.dst_id)),
                    );
                }
            };
            let ghost before = out@;
            let sctx = src.to_context();
            out.append(sctx.as_str());
            out.append(" - ");
            out.append(rel.rel.as_str());
            out.append(" -> ");
            let dctx = dst.to_context();
            out.append(dctx.as_str());
            out.append("\n");
            proof {
                assert(out@ =~= before + (node_context(src@) + " - "@ + rel@.rel + " -> "@
                    + node_context(dst@) + "\n"@));
            }
            j = j + 1;
        }
        proof {
            assert(self@.relations.skip(self.relations@.len() as int) =~= Seq::<
                Neo4jRelationV,
            >::empty());
        }
        Ok(out)
    }

    /// Converts the snapshot back into an exchange document, for merge
    /// comparison: nodes projected losslessly in snapshot order, relations
    /// resolved to the endpoints' stable identities.
    pub fn to_graph_data(&self) -> (r: Result<GraphData, GraphError>)
        ensures
            match r {
                Ok(g) => graph_to_exchange(self@) == Ok::<GraphDataV, ErrV>(g@),
                Err(e) => graph_to_exchange(self@) == Err::<GraphDataV, ErrV>(e@),
            },
    {
        let mut out_nodes: Vec<GraphNode> = Vec::new();
        let mut i: usize = 0;
        while i < self.nodes.len()
            invariant
                i <= self.nodes@.len(),
                out_nodes@.len() == i,
                forall|k: int|
                    0 <= k < i ==> out_nodes@[k]@ == node_to_graph_node(self@.nodes[k].1),
            decreases self.nodes@.len() - i,
        {
            let p = &self.nodes[i];
            let gn = p.1.to_graph_node();
            proof {
                assert(self@.nodes[i as int] == (self.nodes@[i as int].0, self.nodes@[i as int].1@));
            }
            out_nodes.push(gn);
            i = i + 1;
        }
        let mut out_rels: Vec<GraphRelationship> = Vec::new();
        let mut j: usize = 0;
        proof {
            assert(self@.relations.skip(0) =~= self@.relations);
            assert(crate::exchange::rels_view(out_rels@) =~~= Seq::<GraphRelationshipV>::empty());
        }
        while j < self.relations.len()
            invariant
                j <= self.relations@.len(),
                exchange_rels(
                    self@.nodes,
                    crate::exchange::rels_view(out_rels@),
                    self@.relations.skip(j as int),
                ) == exchange_rels(self@.nodes, Seq::empty(), self@.relations),
            decreases self.relations@.len() - j,
        {
            let ghost rest = self@.relations.skip(j as int);
            let ghost acc = crate::exchange::rels_view(out_rels@);
            proof {
                assert(rest[0] == self@.relations[j as int]);
                assert(self@.relations[j as int] == self.relations@[j as int]@);
                assert(rest.drop_first() =~= self@.relations.skip(j as int + 1));
            }
            let rel = &self.relations[j];
            let src = match self.get_node(rel.src_id) {
                Some(n) => n,
                None => {
                    return Err(
                        GraphError::IdentifierResolutionFailure(i64_to_string(rel.src_id)),
                    );
                }
            };
            let dst = match self.get_node(rel.dst_id) {
                Some(n) => n,
                None => {
                    return Err(
                        GraphError::IdentifierResolutionFailure(i64_to_string(rel.dst_id)),
                    );
                }
            };
            let gr = GraphRelationship {
                source_id: src.id(),
                target_id: dst.id(),
                label: rel.rel.clone(),
            };
            out_rels.push(gr);
            proof {
                assert(crate::exchange::rels_view(out_rels@) =~~= acc.push(
                    GraphRelationshipV {
                        source_id: node_id(src@),
                        target_id: node_id(dst@),
                        label: rel@.rel,
                    },
                ));
            }
            j = j + 1;
        }
        proof {
            assert(self@.relations.skip(self.relations@.len() as int) =~= Seq::<
                Neo4jRelationV,
            >::empty());
        }
        let out = GraphData { nodes: out_nodes, relationships: out_rels };
        proof {
            assert(out@.nodes =~~= exchange_nodes(self@.nodes));
        }
        Ok(out)
    }
}


} // verus!
