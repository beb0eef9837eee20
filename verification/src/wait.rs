//! From what a bounded wait on the flow source returned to the event that the dispatcher
//! handles.

use crate::dispatcher::SourceEvent;
use crate::flow::FlowSocket;
use vstd::prelude::*;

verus! {

/// `std::io::Error`, the error of a wait. It is carried through as it came, and nothing in it
/// is read but its kind.
#[verifier::external_type_specification]
#[verifier::external_body]
pub struct ExIoError(std::io::Error);

/// The event that stands for `outcome`, the result of one wait: a flow, the orderly end of the
/// source, or an error, which is a timeout where `timed_out` says so and a fault of the source
/// where it does not.
pub open spec fn event_of<S, D, E>(
    outcome: Result<Option<FlowSocket<S, D>>, E>,
    timed_out: bool,
) -> SourceEvent<S, D, E> {
    match outcome {
        Ok(Some(socket)) => SourceEvent::Flow(socket),
        Ok(None) => SourceEvent::Exhausted,
        Err(error) => if timed_out {
            SourceEvent::TimedOut
        } else {
            SourceEvent::Fault(error)
        },
    }
}

/// Tells the outcomes of a wait apart, given for an error whether it is the timeout of the
/// wait. `timed_out` is not read where the outcome is no error.
pub fn wait_event<S, D, E>(
    outcome: Result<Option<FlowSocket<S, D>>, E>,
    timed_out: bool,
) -> (event: SourceEvent<S, D, E>)
    ensures
        event == event_of(outcome, timed_out),
{
    match outcome {
        Ok(Some(socket)) => SourceEvent::Flow(socket),
        Ok(None) => SourceEvent::Exhausted,
        Err(error) => {
            if timed_out {
                SourceEvent::TimedOut
            } else {
                SourceEvent::Fault(error)
            }
        },
    }
}

/// Calls `std::io::Error::kind` and says whether the kind is `ErrorKind::TimedOut`. Nothing is
/// claimed of the answer: the error is opaque here, and the kind of an error that came from the
/// operating system is decoded as the platform has it.
#[verifier::external_body]
fn is_timed_out(error: &std::io::Error) -> (timed_out: bool) {
    matches!(error.kind(), std::io::ErrorKind::TimedOut)
}

/// Tells the outcomes of a wait apart where the error is an I/O error: one of the kind
/// `TimedOut` is the timeout of the wait, any other is a fault of the source. Which kind an
/// error has is for the standard library to say, so of an error this function states only that
/// the event is one of the two.
pub fn classify_wait<S, D>(
    outcome: Result<Option<FlowSocket<S, D>>, std::io::Error>,
) -> (event: SourceEvent<S, D, std::io::Error>)
    ensures
        outcome is Ok ==> event == event_of(outcome, false),
        outcome is Err ==> event == event_of(outcome, true) || event == event_of(outcome, false),
{
    let timed_out = match &outcome {
        Ok(_) => false,
        Err(error) => is_timed_out(error),
    };
    wait_event(outcome, timed_out)
}

} // verus!
