//! Facts about runs of the station: sequences of requests applied one after
//! another, as the actor's loop applies them.
use vstd::prelude::*;
use crate::station::{has_id, step_ok, Action, StationState};
use crate::types::{Request, SelectResult};

verus! {

/// `states[k]` leads to `states[k + 1]` by request `reqs[k]` and action `acts[k]`.
pub open spec fn is_run(states: Seq<StationState>, reqs: Seq<Request>, acts: Seq<Action>) -> bool {
    &&& states.len() == reqs.len() + 1
    &&& acts.len() == reqs.len()
    &&& forall|k: int|
        0 <= k < reqs.len() ==> step_ok(states[k], #[trigger] reqs[k], states[k + 1], acts[k])
}

/// Request `k` of the run selects network `ids[k]`.
pub open spec fn selects(reqs: Seq<Request>, ids: Seq<usize>) -> bool {
    &&& reqs.len() == ids.len()
    &&& forall|k: int| 0 <= k < reqs.len() ==> #[trigger] reqs[k] == Request::SelectNetwork(ids[k])
}

proof fn lemma_select_step(pre: StationState, id: usize, post: StationState, a: Action)
    requires
        step_ok(pre, Request::SelectNetwork(id), post, a),
    ensures
        post.networks == pre.networks,
        post.running == pre.running,
        pre.pending is Some ==> post == pre,
        a is BeginSelect ==> pre.running && pre.pending is None && post.pending is Some,
        !(a is BeginSelect) ==> post == pre,
{
}

proof fn lemma_select_run(
    states: Seq<StationState>,
    reqs: Seq<Request>,
    ids: Seq<usize>,
    acts: Seq<Action>,
    i: int,
    j: int,
)
    requires
        is_run(states, reqs, acts),
        selects(reqs, ids),
        0 <= i <= j <= reqs.len(),
    ensures
        states[j].networks == states[i].networks,
        states[j].running == states[i].running,
        states[i].pending is Some ==> states[j] == states[i],
    decreases j - i,
{
    if i < j {
        lemma_select_run(states, reqs, ids, acts, i, j - 1);
        assert(reqs[j - 1] == Request::SelectNetwork(ids[j - 1]));
        lemma_select_step(states[j - 1], ids[j - 1], states[j], acts[j - 1]);
    }
}

/// Select requests are serialized: in any run of select requests, at most one
/// of them starts a selection with the link layer, none does while a selection
/// is already pending, and once one has started, every later select of a
/// configured network is answered `PendingSelect`.
pub proof fn lemma_one_select_at_a_time(
    states: Seq<StationState>,
    reqs: Seq<Request>,
    ids: Seq<usize>,
    acts: Seq<Action>,
)
    requires
        is_run(states, reqs, acts),
        selects(reqs, ids),
    ensures
        forall|i: int, j: int|
            0 <= i < j < acts.len() && #[trigger] acts[i] is BeginSelect ==> !(#[trigger] acts[j] is BeginSelect),
        states[0].pending is Some ==> forall|i: int| 0 <= i < acts.len() ==> !(#[trigger] acts[i] is BeginSelect),
        forall|i: int, j: int|
            0 <= i < j < acts.len() && #[trigger] acts[i] is BeginSelect && has_id(states[0].networks, ids[j])
                ==> #[trigger] acts[j] == Action::ReplySelect(SelectResult::PendingSelect),
{
    assert forall|i: int, j: int|
        0 <= i < j < acts.len() && #[trigger] acts[i] is BeginSelect implies !(#[trigger] acts[j] is BeginSelect)
            && (has_id(states[0].networks, ids[j]) ==> acts[j] == Action::ReplySelect(SelectResult::PendingSelect)) by {
        assert(reqs[i] == Request::SelectNetwork(ids[i]));
        assert(reqs[j] == Request::SelectNetwork(ids[j]));
        lemma_select_step(states[i], ids[i], states[i + 1], acts[i]);
        lemma_select_run(states, reqs, ids, acts, i + 1, j);
        lemma_select_run(states, reqs, ids, acts, 0, j);
        lemma_select_step(states[j], ids[j], states[j + 1], acts[j]);
    }
    if states[0].pending is Some {
        assert forall|i: int| 0 <= i < acts.len() implies !(#[trigger] acts[i] is BeginSelect) by {
            assert(reqs[i] == Request::SelectNetwork(ids[i]));
            lemma_select_run(states, reqs, ids, acts, 0, i);
            lemma_select_step(states[i], ids[i], states[i + 1], acts[i]);
        }
    }
}

/// Selecting a network that is not configured is answered `InvalidNetworkId`
/// and changes nothing, whatever else the running station holds (a pending
/// selection included).
pub proof fn lemma_select_unknown_network(pre: StationState, id: usize, post: StationState, a: Action)
    requires
        pre.running,
        !has_id(pre.networks, id),
        step_ok(pre, Request::SelectNetwork(id), post, a),
    ensures
        a == Action::ReplySelect(SelectResult::InvalidNetworkId),
        post == pre,
{
}

/// Once a shutdown has been processed, every later request is refused: none
/// is carried out, and no caller gets an answer from the station.
pub proof fn lemma_refused_after_shutdown(
    states: Seq<StationState>,
    reqs: Seq<Request>,
    acts: Seq<Action>,
)
    requires
        is_run(states, reqs, acts),
        reqs.len() > 0,
        reqs[0] == Request::Shutdown,
    ensures
        forall|k: int| 1 <= k < acts.len() ==> #[trigger] acts[k] is Refuse,
        forall|k: int| 1 <= k < states.len() ==> #[trigger] states[k] == states[1],
        !states[1].running,
{
    assert(step_ok(states[0], reqs[0], states[1], acts[0]));
    assert forall|k: int| 1 <= k < states.len() implies #[trigger] states[k] == states[1] by {
        lemma_stopped_stays(states, reqs, acts, k);
    }
    assert forall|k: int| 1 <= k < acts.len() implies #[trigger] acts[k] is Refuse by {
        lemma_stopped_stays(states, reqs, acts, k);
        assert(step_ok(states[k], reqs[k], states[k + 1], acts[k]));
    }
}

proof fn lemma_stopped_stays(states: Seq<StationState>, reqs: Seq<Request>, acts: Seq<Action>, k: int)
    requires
        is_run(states, reqs, acts),
        !states[1].running,
        1 <= k < states.len(),
    ensures
        states[k] == states[1],
    decreases k,
{
    if k > 1 {
        lemma_stopped_stays(states, reqs, acts, k - 1);
        assert(step_ok(states[k - 1], reqs[k - 1], states[k], acts[k - 1]));
    }
}

/// Scanning reads the station and leaves its state alone: two successive scan
/// requests each ask the link layer for a fresh scan (each of which becomes a
/// snapshot of its own), and the state after both is the state before.
pub proof fn lemma_scans_leave_state_unchanged(
    s0: StationState,
    s1: StationState,
    s2: StationState,
    a1: Action,
    a2: Action,
)
    requires
        s0.running,
        step_ok(s0, Request::Scan, s1, a1),
        step_ok(s1, Request::Scan, s2, a2),
    ensures
        a1 is PerformScan,
        a2 is PerformScan,
        s1 == s0,
        s2 == s0,
{
}

} // verus!
