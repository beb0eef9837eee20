//! The flow dispatcher: what the accept loop does with each outcome of its bounded wait.
//!
//! The dispatcher itself performs no wait and launches no task. Its caller waits on the flow
//! source for at most `POLL_INTERVAL_SECS`, hands the outcome to `Dispatcher::on_event`, and
//! carries out the directive that comes back. What a dispatcher has been handed since it was
//! made is its view; its state and the flows it has had launched are functions of that.

use crate::flow::FlowSocket;
use crate::shutdown::TerminationSignal;
use vstd::prelude::*;

verus! {

/// The longest that one wait on the flow source may last, in seconds.
pub const POLL_INTERVAL_SECS: u64 = 1;

/// How one wait on the flow source ended.
#[derive(Debug, PartialEq, Eq)]
pub enum SourceEvent<S, D, E> {
    /// The source produced a flow.
    Flow(FlowSocket<S, D>),
    /// The source ended its sequence in an orderly way.
    Exhausted,
    /// The poll interval passed and no flow was ready.
    TimedOut,
    /// The source failed in any other way.
    Fault(E),
}

/// Why the dispatcher left its loop.
#[derive(Clone, Copy, Debug, PartialEq, Eq, Structural)]
pub enum Exit {
    /// The source was exhausted.
    SourceExhausted,
    /// A wait timed out while the termination signal was set.
    Terminated,
    /// The source reported a fault.
    SourceFault,
}

/// What the caller of the dispatcher does next.
#[derive(Debug, PartialEq, Eq)]
pub enum Directive<S, D, E> {
    /// Launch an independent task that services this flow, then wait again without waiting for
    /// the task.
    Launch(FlowSocket<S, D>),
    /// Wait again.
    Wait,
    /// Leave the loop; nothing went wrong.
    Stop,
    /// Leave the loop and hand this fault to the caller.
    Abort(E),
}

/// One step of the dispatcher: from its state (`None` while it accepts, the reason of its exit
/// afterwards), the outcome of a wait and the termination signal as it stood when the wait
/// ended, to the next state and the directive.
///
/// A flow is launched, whatever the signal says. A timeout is the one place where the signal
/// is consulted. Exhaustion and a fault end the loop, and only the fault is handed on. After
/// its exit the dispatcher launches nothing and stays as it is.
pub open spec fn step<S, D, E>(
    state: Option<Exit>,
    event: SourceEvent<S, D, E>,
    stop_requested: bool,
) -> (Option<Exit>, Directive<S, D, E>) {
    if state is Some {
        (state, Directive::Stop)
    } else {
        match event {
            SourceEvent::Flow(socket) => (None, Directive::Launch(socket)),
            SourceEvent::Exhausted => (Some(Exit::SourceExhausted), Directive::Stop),
            SourceEvent::TimedOut => if stop_requested {
                (Some(Exit::Terminated), Directive::Stop)
            } else {
                (None, Directive::Wait)
            },
            SourceEvent::Fault(fault) => (Some(Exit::SourceFault), Directive::Abort(fault)),
        }
    }
}

impl Exit {
    /// Whether the process is to end with status zero: it is, unless the source failed.
    pub fn is_clean(&self) -> (clean: bool)
        ensures
            clean == (*self != Exit::SourceFault),
    {
        match self {
            Exit::SourceExhausted => true,
            Exit::Terminated => true,
            Exit::SourceFault => false,
        }
    }
}

/// One turn of the accept loop: how the wait ended, and the termination signal as it stood
/// then.
pub struct Tick<S, D, E> {
    pub event: SourceEvent<S, D, E>,
    pub stop_requested: bool,
}

/// The state of a dispatcher that started out accepting and has handled `ticks` in order.
pub open spec fn state_after<S, D, E>(ticks: Seq<Tick<S, D, E>>) -> Option<Exit>
    decreases ticks.len(),
{
    if ticks.len() == 0 {
        None
    } else {
        step(state_after(ticks.drop_last()), ticks.last().event, ticks.last().stop_requested).0
    }
}

/// The flows that such a dispatcher has told its caller to launch, in the order of its
/// directives.
pub open spec fn launched<S, D, E>(ticks: Seq<Tick<S, D, E>>) -> Seq<FlowSocket<S, D>>
    decreases ticks.len(),
{
    if ticks.len() == 0 {
        Seq::empty()
    } else {
        let earlier = launched(ticks.drop_last());
        match step(
            state_after(ticks.drop_last()),
            ticks.last().event,
            ticks.last().stop_requested,
        ).1 {
            Directive::Launch(socket) => earlier.push(socket),
            _ => earlier,
        }
    }
}

/// The accept loop's own state. `S` and `D` are the channel types of the flow source, `E` is
/// the type of its faults.
pub struct Dispatcher<S, D, E> {
    exit: Option<Exit>,
    history: Ghost<Seq<Tick<S, D, E>>>,
}

impl<S, D, E> View for Dispatcher<S, D, E> {
    type V = Seq<Tick<S, D, E>>;

    /// All that the dispatcher has handled, in order.
    closed spec fn view(&self) -> Seq<Tick<S, D, E>> {
        self.history@
    }
}

impl<S, D, E> Dispatcher<S, D, E> {
    #[verifier::type_invariant]
    spec fn exit_agrees_with_history(self) -> bool {
        self.exit == state_after(self.history@)
    }

    /// A dispatcher that accepts flows and has handled nothing yet.
    pub fn new() -> (dispatcher: Self)
        ensures
            dispatcher@ == Seq::<Tick<S, D, E>>::empty(),
            state_after(dispatcher@) is None,
    {
        Dispatcher { exit: None, history: Ghost(Seq::empty()) }
    }

    /// Whether the loop goes on.
    pub fn is_accepting(&self) -> (accepting: bool)
        ensures
            accepting == (state_after(self@) is None),
    {
        proof {
            use_type_invariant(self);
        }
        self.exit.is_none()
    }

    /// Why the dispatcher left its loop, if it has.
    pub fn exit(&self) -> (exit: Option<Exit>)
        ensures
            exit == state_after(self@),
    {
        proof {
            use_type_invariant(self);
        }
        self.exit
    }

    /// Handles the outcome of one wait, reading the termination signal where the wait timed
    /// out, and says what the caller does next.
    pub fn on_event(
        &mut self,
        event: SourceEvent<S, D, E>,
        termination: &TerminationSignal,
    ) -> (directive: Directive<S, D, E>)
        ensures
            final(self)@ == old(self)@.push(Tick { event, stop_requested: termination@ }),
            directive == step(state_after(old(self)@), event, termination@).1,
            state_after(final(self)@) == step(state_after(old(self)@), event, termination@).0,
            launched(final(self)@) == match directive {
                Directive::Launch(socket) => launched(old(self)@).push(socket),
                _ => launched(old(self)@),
            },
    {
        proof {
            use_type_invariant(&*self);
        }
        let ghost history = self.history@.push(Tick { event, stop_requested: termination@ });
        proof {
            assert(history.drop_last() =~= self.history@);
        }
        if self.exit.is_some() {
            self.history = Ghost(history);
            return Directive::Stop;
        }
        match event {
            SourceEvent::Flow(socket) => {
                self.history = Ghost(history);
                Directive::Launch(socket)
            },
            SourceEvent::Exhausted => {
                *self = Dispatcher { exit: Some(Exit::SourceExhausted), history: Ghost(history) };
                Directive::Stop
            },
            SourceEvent::TimedOut => {
                if termination.is_stop_requested() {
                    *self = Dispatcher { exit: Some(Exit::Terminated), history: Ghost(history) };
                    Directive::Stop
                } else {
                    self.history = Ghost(history);
                    Directive::Wait
                }
            },
            SourceEvent::Fault(fault) => {
                *self = Dispatcher { exit: Some(Exit::SourceFault), history: Ghost(history) };
                Directive::Abort(fault)
            },
        }
    }
}

} // verus!
