//! The merge coordinator's decisions. The coordinator itself is a loop of
//! collaborator calls; every decision in it is a function here, verified
//! for every value a collaborator could hand back: whether a conversation
//! is complete, and whether a freshly extracted graph is committed
//! directly or reconciled against the user's existing graph through a
//! second completion call.
use vstd::prelude::*;
use vstd::string::StrSliceExecFns;

use crate::exchange::GraphData;
use crate::exchange::GraphDataV;
use crate::prompts::merge_prompt;
use crate::text::match_at;
use crate::text::str_chars;

verus! {

/// What to do with a freshly extracted graph: commit it verbatim, or send
/// the given merge request document to the completion collaborator and
/// commit its (validated) response instead.
#[derive(Debug)]
pub enum MergeDecision {
    UseFresh(GraphData),
    RequestMerge(String),
}

/// Spec-level view of `MergeDecision`.
pub enum MergeDecisionV {
    UseFresh(GraphDataV),
    RequestMerge(Seq<char>),
}

impl View for MergeDecision {
    type V = MergeDecisionV;

    open spec fn view(&self) -> MergeDecisionV {
        match self {
            MergeDecision::UseFresh(g) => MergeDecisionV::UseFresh(g@),
            MergeDecision::RequestMerge(p) => MergeDecisionV::RequestMerge(p@),
        }
    }
}

/// The reconciliation policy: an empty existing graph takes the fresh
/// extraction verbatim, with no merge request; otherwise both graphs are
/// serialized into a merge request for the completion collaborator.
pub open spec fn reconcile_decision(
    existing: GraphDataV,
    fresh: GraphDataV,
    date: Seq<char>,
) -> MergeDecisionV {
    if existing.nodes.len() == 0 && existing.relationships.len() == 0 {
        MergeDecisionV::UseFresh(fresh)
    } else {
        MergeDecisionV::RequestMerge(
            merge_prompt(
                crate::exchange::json_of_graph(existing),
                crate::exchange::json_of_graph(fresh),
                date,
            ),
        )
    }
}

/// Law: reconciling against an empty existing graph returns the fresh
/// graph unchanged and issues no merge request — the first-write case
/// never spends a collaborator call.
pub proof fn lemma_reconcile_empty(existing: GraphDataV, fresh: GraphDataV, date: Seq<char>)
    requires
        existing.nodes.len() == 0,
        existing.relationships.len() == 0,
    ensures
        reconcile_decision(existing, fresh, date) == MergeDecisionV::UseFresh(fresh),
{
}

/// Decides how to commit a freshly extracted graph, per
/// `reconcile_decision`; the fresh graph is consumed into the decision.
pub fn plan_reconcile(existing: &GraphData, fresh: GraphData, date: &str) -> (r: MergeDecision)
    ensures
        r@ == reconcile_decision(existing@, fresh@, date@),
{
    if existing.is_empty() {
        MergeDecision::UseFresh(fresh)
    } else {
        let ex = existing.to_json_text();
        let fr = fresh.to_json_text();
        MergeDecision::RequestMerge(
            crate::prompts::build_merge_prompt(ex.as_str(), fr.as_str(), date),
        )
    }
}

// ---------------------------------------------------------------------------
// Conversation-complete detection
// ---------------------------------------------------------------------------
/// The position of the first occurrence of `p` in `s`, scanning left to
/// right.
pub open spec fn find_index(s: Seq<char>, p: Seq<char>) -> Option<nat>
    decreases s.len(),
{
    if p.len() == 0 {
        Some(0)
    } else if s.len() < p.len() {
        None
    } else if s.take(p.len() as int) == p {
        Some(0)
    } else {
        match find_index(s.drop_first(), p) {
            Some(i) => Some((i + 1) as nat),
            None => None,
        }
    }
}

/// The opening marker an assistant reply wraps its final message in.
pub open spec fn final_marker_open() -> Seq<char> {
    "<final_message>"@
}

/// The closing marker.
pub open spec fn final_marker_close() -> Seq<char> {
    "</final_message>"@
}

/// The final message wrapped in the completion markers, if the reply
/// carries one: the text between the first opening marker and the first
/// closing marker after it. A reply with no such pair carries none.
pub open spec fn final_message_of(s: Seq<char>) -> Option<Seq<char>> {
    match find_index(s, final_marker_open()) {
        None => None,
        Some(i) => {
            let rest = s.skip((i + final_marker_open().len()) as int);
            match find_index(rest, final_marker_close()) {
                None => None,
                Some(j) => Some(rest.take(j as int)),
            }
        }
    }
}

/// Finds the first occurrence of `pat` in `s`.
pub fn find_str(s: &str, pat: &str) -> (r: Option<usize>)
    ensures
        match r {
            Some(i) => find_index(s@, pat@) == Some(i as nat),
            None => find_index(s@, pat@) is None,
        },
{
    let sv: Vec<char> = str_chars(s);
    let pv: Vec<char> = str_chars(pat);
    let sl: usize = sv.len();
    let pl: usize = pv.len();
    if pl == 0 {
        return Some(0);
    }
    if pl > sl {
        return None;
    }
    let mut i: usize = 0;
    proof {
        assert(sv@.skip(0) =~= sv@);
    }
    while i <= sl - pl
        invariant
            i <= sv@.len(),
            sv@ == s@,
            pv@ == pat@,
            sl == sv@.len(),
            pl == pv@.len(),
            pl >= 1,
            pl <= sl,
            match find_index(sv@.skip(i as int), pv@) {
                Some(j) => find_index(sv@, pv@) == Some((i + j) as nat),
                None => find_index(sv@, pv@) is None,
            },
        decreases sv@.len() - i,
    {
        let ghost rest = sv@.skip(i as int);
        proof {
            assert(rest.take(pv@.len() as int) =~= sv@.subrange(
                i as int,
                i as int + pv@.len() as int,
            ));
            assert(rest.drop_first() =~= sv@.skip(i as int + 1));
        }
        if match_at(&sv, &pv, i) {
            proof {
                assert(find_index(rest, pv@) == Some(0nat));
            }
            return Some(i);
        }
        proof {
            assert(find_index(rest, pv@) == match find_index(sv@.skip(i as int + 1), pv@) {
                Some(j) => Some((j + 1) as nat),
                None => None,
            });
        }
        i = i + 1;
    }
    proof {
        assert(sv@.skip(i as int).len() < pv@.len());
        assert(find_index(sv@.skip(i as int), pv@) is None);
    }
    None
}

/// Extracts the final message from an assistant reply, if the reply wraps
/// one in the completion markers — the signal that the conversation is
/// complete and knowledge-graph construction should be dispatched.
pub fn extract_final_message(s: &str) -> (r: Option<String>)
    ensures
        crate::model::opt_view(r) == final_message_of(s@),
{
    let open_len: usize = "<final_message>".unicode_len();
    let i = match find_str(s, "<final_message>") {
        Some(i) => i,
        None => {
            return None;
        }
    };
    let n: usize = s.unicode_len();
    proof {
        assert(i + open_len <= n) by {
            assert(find_index(s@, "<final_message>"@) == Some(i as nat));
            lemma_find_index_bound(s@, "<final_message>"@);
        }
    }
    let rest: &str = s.substring_char(i + open_len, n);
    proof {
        assert(rest@ =~= s@.skip(i as int + open_len as int));
    }
    let j = match find_str(rest, "</final_message>") {
        Some(j) => j,
        None => {
            return None;
        }
    };
    proof {
        assert(j <= rest@.len()) by {
            assert(find_index(rest@, "</final_message>"@) == Some(j as nat));
            lemma_find_index_bound(rest@, "</final_message>"@);
        }
    }
    let body: &str = rest.substring_char(0, j);
    proof {
        assert(body@ =~= rest@.take(j as int));
    }
    Some(body.to_owned())
}

/// A found occurrence lies within the text.
proof fn lemma_find_index_bound(s: Seq<char>, p: Seq<char>)
    requires
        find_index(s, p) is Some,
    ensures
        find_index(s, p)->0 + p.len() <= s.len(),
    decreases s.len(),
{
    if p.len() == 0 {
    } else if s.len() < p.len() {
    } else if s.take(p.len() as int) == p {
    } else {
        lemma_find_index_bound(s.drop_first(), p);
    }
}

} // verus!
