//! The shutdown coordinator: one boolean that is set on request and never cleared.

use vstd::prelude::*;

verus! {

/// The termination signal. It starts clear, `request_stop` sets it, and nothing clears it.
#[derive(Debug)]
pub struct TerminationSignal {
    stop_requested: bool,
}

impl View for TerminationSignal {
    type V = bool;

    /// Whether a stop has been requested.
    closed spec fn view(&self) -> bool {
        self.stop_requested
    }
}

/// The two operations on the signal.
pub enum SignalCall {
    RequestStop,
    IsStopRequested,
}

/// The signal after one call, from the signal before it: a request sets it, a read leaves it as
/// it is.
pub open spec fn after_call(before: bool, call: SignalCall) -> bool {
    match call {
        SignalCall::RequestStop => true,
        SignalCall::IsStopRequested => before,
    }
}

/// The signal after a sequence of calls, made one after the other.
pub open spec fn after_calls(before: bool, calls: Seq<SignalCall>) -> bool
    decreases calls.len(),
{
    if calls.len() == 0 {
        before
    } else {
        after_call(after_calls(before, calls.drop_last()), calls.last())
    }
}

impl TerminationSignal {
    /// A signal on which no stop has been requested.
    pub fn new() -> (signal: Self)
        ensures
            !signal@,
    {
        TerminationSignal { stop_requested: false }
    }

    /// Requests a stop. The signal is set afterwards, whatever it was before.
    pub fn request_stop(&mut self)
        ensures
            final(self)@,
            final(self)@ == after_call(old(self)@, SignalCall::RequestStop),
    {
        self.stop_requested = true;
    }

    /// Reads the signal, and leaves it as it is.
    pub fn is_stop_requested(&self) -> (requested: bool)
        ensures
            requested == self@,
    {
        self.stop_requested
    }
}

/// After any sequence of calls the signal is set exactly if it was set before or one of the
/// calls was a request.
pub proof fn lemma_set_by_any_request(before: bool, calls: Seq<SignalCall>)
    ensures
        after_calls(before, calls) == (before || calls.contains(SignalCall::RequestStop)),
    decreases calls.len(),
{
    if calls.len() > 0 {
        let earlier = calls.drop_last();
        lemma_set_by_any_request(before, earlier);
        if calls.last() == SignalCall::RequestStop {
            assert(calls[calls.len() - 1] == SignalCall::RequestStop);
        } else if calls.contains(SignalCall::RequestStop) {
            let i = choose|i: int| 0 <= i < calls.len() && calls[i] == SignalCall::RequestStop;
            assert(earlier[i] == SignalCall::RequestStop);
        } else if earlier.contains(SignalCall::RequestStop) {
            let i = choose|i: int| 0 <= i < earlier.len() && earlier[i] == SignalCall::RequestStop;
            assert(calls[i] == SignalCall::RequestStop);
        }
    }
}

/// A request made again changes nothing: any number of requests, one or more, leaves the
/// signal as a single request does.
pub proof fn lemma_stop_is_idempotent(before: bool, times: nat)
    requires
        times >= 1,
    ensures
        after_calls(before, Seq::new(times, |i: int| SignalCall::RequestStop)) == after_call(
            before,
            SignalCall::RequestStop,
        ),
{
    let calls = Seq::new(times, |i: int| SignalCall::RequestStop);
    lemma_set_by_any_request(before, calls);
    assert(calls[0] == SignalCall::RequestStop);
}

/// The signal never reverts: once it is set, it is set after every further sequence of calls.
pub proof fn lemma_signal_never_reverts(before: bool, calls: Seq<SignalCall>, more: Seq<SignalCall>)
    requires
        after_calls(before, calls),
    ensures
        after_calls(before, calls + more),
        after_calls(after_calls(before, calls), more),
{
    lemma_set_by_any_request(before, calls);
    lemma_set_by_any_request(before, calls + more);
    lemma_set_by_any_request(after_calls(before, calls), more);
    if calls.contains(SignalCall::RequestStop) {
        let i = choose|i: int| 0 <= i < calls.len() && calls[i] == SignalCall::RequestStop;
        assert((calls + more)[i] == SignalCall::RequestStop);
    }
}

/// Callers that act at the same time see their calls made in some order, one after the other.
/// Whatever that order is, the signal ends as if the first caller had made all its calls and
/// then the second: `merged` is any sequence that holds the calls of both, each as often as
/// they made it.
pub proof fn lemma_order_of_callers_is_immaterial(
    before: bool,
    first: Seq<SignalCall>,
    second: Seq<SignalCall>,
    merged: Seq<SignalCall>,
)
    requires
        merged.to_multiset() == first.to_multiset().add(second.to_multiset()),
    ensures
        after_calls(before, merged) == after_calls(after_calls(before, first), second),
        after_calls(before, merged) == (before || first.contains(SignalCall::RequestStop)
            || second.contains(SignalCall::RequestStop)),
{
    lemma_set_by_any_request(before, merged);
    lemma_set_by_any_request(before, first);
    lemma_set_by_any_request(after_calls(before, first), second);
    merged.to_multiset_ensures();
    first.to_multiset_ensures();
    second.to_multiset_ensures();
    let request = SignalCall::RequestStop;
    assert(merged.to_multiset().count(request) == first.to_multiset().count(request)
        + second.to_multiset().count(request));
}

} // verus!
