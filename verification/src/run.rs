//! Whole runs of the dispatcher: what it has launched, and where it stands, after a sequence of
//! waits.

use crate::dispatcher::{launched, state_after, step, Directive, Exit, SourceEvent, Tick};
use crate::flow::FlowSocket;
use vstd::prelude::*;

verus! {

/// The flows that the source produced in `ticks`, in the order of their production.
pub open spec fn flows<S, D, E>(ticks: Seq<Tick<S, D, E>>) -> Seq<FlowSocket<S, D>>
    decreases ticks.len(),
{
    if ticks.len() == 0 {
        Seq::empty()
    } else {
        let earlier = flows(ticks.drop_last());
        match ticks.last().event {
            SourceEvent::Flow(socket) => earlier.push(socket),
            _ => earlier,
        }
    }
}

/// Whether `ticks` is a run of the loop: the source is waited on only while the dispatcher
/// accepts, so no tick follows the one on which it exits.
pub open spec fn is_run<S, D, E>(ticks: Seq<Tick<S, D, E>>) -> bool {
    ticks.len() > 0 ==> state_after(ticks.drop_last()) is None
}

/// A dispatcher that has left its loop stays where it is and launches nothing more, whatever
/// is handed to it.
pub proof fn lemma_exit_is_final<S, D, E>(ticks: Seq<Tick<S, D, E>>, more: Seq<Tick<S, D, E>>)
    requires
        state_after(ticks) is Some,
    ensures
        state_after(ticks + more) == state_after(ticks),
        launched(ticks + more) == launched(ticks),
    decreases more.len(),
{
    if more.len() == 0 {
        assert(ticks + more =~= ticks);
    } else {
        lemma_exit_is_final(ticks, more.drop_last());
        assert((ticks + more).drop_last() =~= ticks + more.drop_last());
        assert((ticks + more).last() == more.last());
    }
}

/// A dispatcher that still accepts has accepted all along.
pub proof fn lemma_accepting_all_along<S, D, E>(ticks: Seq<Tick<S, D, E>>, n: int)
    requires
        state_after(ticks) is None,
        0 <= n <= ticks.len(),
    ensures
        state_after(ticks.take(n)) is None,
{
    if state_after(ticks.take(n)) is Some {
        lemma_exit_is_final(ticks.take(n), ticks.skip(n));
        assert(ticks.take(n) + ticks.skip(n) =~= ticks);
    }
}

/// No duplicate dispatch: in a run, the dispatcher launches each flow that the source produced
/// exactly once and in the order of production, and launches nothing else. So where the source
/// produced flows that differ from each other, as many tasks are launched as there are flows,
/// no two of them for the same flow.
pub proof fn lemma_each_flow_launched_once<S, D, E>(ticks: Seq<Tick<S, D, E>>)
    requires
        is_run(ticks),
    ensures
        launched(ticks) == flows(ticks),
        launched(ticks).len() == flows(ticks).len(),
        flows(ticks).no_duplicates() ==> launched(ticks).no_duplicates(),
    decreases ticks.len(),
{
    if ticks.len() > 0 {
        let earlier = ticks.drop_last();
        if earlier.len() > 0 {
            lemma_accepting_all_along(earlier, earlier.len() - 1);
            assert(earlier.take(earlier.len() - 1) =~= earlier.drop_last());
        }
        lemma_each_flow_launched_once(earlier);
    }
}

/// Bounded shutdown: once the termination signal is set, the first wait that ends without a
/// flow ends the loop, whatever the dispatcher has handled before. The loop then runs for no
/// more than the one wait that was under way when the stop was requested.
pub proof fn lemma_stop_ends_the_loop<S, D, E>(ticks: Seq<Tick<S, D, E>>, tick: Tick<S, D, E>)
    requires
        tick.stop_requested,
        !(tick.event is Flow),
    ensures
        state_after(ticks.push(tick)) is Some,
        state_after(ticks) is None && tick.event is TimedOut ==> state_after(ticks.push(tick))
            == Some(Exit::Terminated),
{
    assert(ticks.push(tick).drop_last() =~= ticks);
}

/// Acceptance does not wait on servicing: handing a flow off leaves the dispatcher as it was.
/// It keeps nothing of the flow and takes no word from the task, so a task that never ends
/// holds nothing up: the next flow is accepted and launched like the one before it.
pub proof fn lemma_launch_keeps_accepting<S, D, E>(
    ticks: Seq<Tick<S, D, E>>,
    socket: FlowSocket<S, D>,
    stop_requested: bool,
    next: FlowSocket<S, D>,
    stop_requested_next: bool,
)
    requires
        state_after(ticks) is None,
    ensures
        ({
            let one = ticks.push(Tick { event: SourceEvent::Flow(socket), stop_requested });
            let two = one.push(
                Tick { event: SourceEvent::Flow(next), stop_requested: stop_requested_next },
            );
            &&& state_after(one) is None
            &&& launched(one) == launched(ticks).push(socket)
            &&& state_after(two) is None
            &&& launched(two) == launched(ticks).push(socket).push(next)
        }),
{
    let one = ticks.push(Tick { event: SourceEvent::Flow(socket), stop_requested });
    let two = one.push(
        Tick { event: SourceEvent::Flow(next), stop_requested: stop_requested_next },
    );
    assert(one.drop_last() =~= ticks);
    assert(two.drop_last() =~= one);
    assert(state_after(one) is None);
    assert(launched(one) == launched(ticks).push(socket));
}

/// Faults of servicing are contained: the loop ends on the flow source and the termination
/// signal alone. A dispatcher that accepts leaves its loop on a turn exactly if the source was
/// exhausted, the source failed, or the wait timed out while the signal was set; and it
/// directs its caller to abort only for a fault of the source, which is the fault it hands on.
/// Nothing that a launched task does is among these, so a task that fails ends no loop.
pub proof fn lemma_loop_ends_on_source_or_signal_only<S, D, E>(
    ticks: Seq<Tick<S, D, E>>,
    tick: Tick<S, D, E>,
)
    requires
        state_after(ticks) is None,
    ensures
        state_after(ticks.push(tick)) is Some <==> tick.event is Exhausted || tick.event is Fault
            || (tick.event is TimedOut && tick.stop_requested),
        state_after(ticks.push(tick)) == Some(Exit::SourceFault) <==> tick.event is Fault,
        step(state_after(ticks), tick.event, tick.stop_requested).1 is Abort
            <==> tick.event is Fault,
        tick.event is Fault ==> step(state_after(ticks), tick.event, tick.stop_requested).1
            == Directive::<S, D, E>::Abort(tick.event->Fault_0),
{
    assert(ticks.push(tick).drop_last() =~= ticks);
}

} // verus!
