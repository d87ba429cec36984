//! The retrieval queries: the parameterized pattern queries that the graph
//! engine runs to materialize a user's subgraph, either whole or filtered
//! by cosine similarity against a query embedding. The engine executes
//! them and hands back rows, which `Neo4jGraph::from_rows` assembles and
//! deduplicates.
use vstd::prelude::*;

verus! {

/// The full-graph traversal: every node reachable from the `User` node
/// whose `user_id` property is the `$user_id` parameter, with each node's
/// direct neighbors and the connecting relations, deduplicated by the
/// engine. Used to materialize the existing graph for reconciliation.
pub open spec fn full_graph_query_text() -> Seq<char> {
    "MATCH (:User {user_id: $user_id})-[*]-(n)\nWITH n\nMATCH (n)-[r]-(m)\nRETURN DISTINCT n, r as rel, m"@
}

/// The similarity traversal: among reachable nodes that carry a stored
/// `embedding` property, the cosine score against the `$embedding`
/// parameter is computed by the engine, only nodes with score strictly
/// above `$threshold` are kept, each is expanded one hop to its direct
/// neighbors, and rows come back ordered by descending score.
pub open spec fn semantic_search_query_text() -> Seq<char> {
    "MATCH (u:User {user_id: $user_id})\nMATCH (u)-[*]-(n)\nWHERE n.embedding IS NOT NULL\nWITH n, n.embedding as vec1, $embedding as vec2\nWITH n, vec1, vec2,\n    reduce(dot = 0.0, i IN range(0, size(vec1)-1) | dot + vec1[i] * vec2[i]) AS dotProduct,\n    sqrt(reduce(norm1 = 0.0, i IN range(0, size(vec1)-1) | norm1 + vec1[i] * vec1[i])) AS norm1,\n    sqrt(reduce(norm2 = 0.0, i IN range(0, size(vec2)-1) | norm2 + vec2[i] * vec2[i])) AS norm2\nWITH n, dotProduct / (norm1 * norm2) AS score\nWHERE score > $threshold\nMATCH (n)-[r]-(m)\nRETURN DISTINCT n, r as rel, m, score\nORDER BY score DESC"@
}

/// The full-graph traversal, as executable text. It takes one parameter,
/// `$user_id`.
pub fn full_graph_query() -> (r: &'static str)
    ensures
        r@ == full_graph_query_text(),
{
    "MATCH (:User {user_id: $user_id})-[*]-(n)\nWITH n\nMATCH (n)-[r]-(m)\nRETURN DISTINCT n, r as rel, m"
}

/// The similarity traversal, as executable text. It takes three
/// parameters: `$user_id`, `$embedding` and `$threshold`.
pub fn semantic_search_query() -> (r: &'static str)
    ensures
        r@ == semantic_search_query_text(),
{
    "MATCH (u:User {user_id: $user_id})\nMATCH (u)-[*]-(n)\nWHERE n.embedding IS NOT NULL\nWITH n, n.embedding as vec1, $embedding as vec2\nWITH n, vec1, vec2,\n    reduce(dot = 0.0, i IN range(0, size(vec1)-1) | dot + vec1[i] * vec2[i]) AS dotProduct,\n    sqrt(reduce(norm1 = 0.0, i IN range(0, size(vec1)-1) | norm1 + vec1[i] * vec1[i])) AS norm1,\n    sqrt(reduce(norm2 = 0.0, i IN range(0, size(vec2)-1) | norm2 + vec2[i] * vec2[i])) AS norm2\nWITH n, dotProduct / (norm1 * norm2) AS score\nWHERE score > $threshold\nMATCH (n)-[r]-(m)\nRETURN DISTINCT n, r as rel, m, score\nORDER BY score DESC"
}

} // verus!
