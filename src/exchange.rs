//! A whole probe played against a given sequence of host replies.
use vstd::prelude::*;

use crate::probe::{accepts, answer, pending_action, start_view, Action, Event, Probe, ProbeView};
use crate::report::{outcome_view, ProbeError};

verus! {

/// Where a probe at `v` ends, and the host calls it asks for on the way, when
/// the host answers with `es` in order; it stops at the first reply that does
/// not answer the pending call.
pub open spec fn run(v: ProbeView, es: Seq<Event>) -> (ProbeView, Seq<Action>)
    decreases es.len(),
{
    if es.len() == 0 || !accepts(v.stage, es[0]) {
        (v, Seq::empty())
    } else {
        let w = answer(v, es[0]);
        let rest = run(w, es.drop_first());
        (rest.0, seq![pending_action(w.stage)] + rest.1)
    }
}

/// The view of an optional outcome.
pub open spec fn optional_outcome_view(o: Option<Result<String, ProbeError>>) -> Option<
    Result<Seq<char>, ProbeError>,
> {
    match o {
        Some(r) => Some(outcome_view(r)),
        None => None,
    }
}

/// A probe played out: the host calls it asked for, in order, and its outcome
/// if the replies carried it that far.
pub struct Exchange {
    pub actions: Vec<Action>,
    pub outcome: Option<Result<String, ProbeError>>,
}

/// Runs one health check of the proxy in which the host answers each call
/// with the next of `replies`.
pub fn fetch_health(replies: Vec<Event>) -> (x: Exchange)
    ensures
        x.actions@ == seq![pending_action(start_view().stage)] + run(start_view(), replies@).1,
        optional_outcome_view(x.outcome) == run(start_view(), replies@).0.outcome,
{
    let mut probe = Probe::new();
    let mut actions: Vec<Action> = Vec::new();
    actions.push(probe.next_action());
    let mut rest = replies;
    while rest.len() > 0 && probe.accepts(&rest[0])
        invariant
            run(probe@, rest@).0 == run(start_view(), replies@).0,
            actions@ + run(probe@, rest@).1 == seq![pending_action(start_view().stage)] + run(
                start_view(),
                replies@,
            ).1,
        decreases rest.len(),
    {
        let ghost before = rest@;
        let ghost from = probe@;
        let e = rest.remove(0);
        assert(rest@ =~= before.drop_first());
        let a = probe.step(e);
        let ghost tail = run(probe@, rest@).1;
        assert(run(from, before).1 == seq![a] + tail);
        assert(actions@ + run(from, before).1 =~= actions@.push(a) + tail);
        actions.push(a);
    }
    assert(run(probe@, rest@).1 =~= Seq::<Action>::empty());
    assert(actions@ + run(probe@, rest@).1 =~= actions@);
    Exchange { actions, outcome: probe.into_outcome() }
}

} // verus!
