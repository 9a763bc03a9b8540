//! The listener loop's decisions: bind once, then accept forever, handing each
//! accepted connection to a handler of its own.
use vstd::prelude::*;

verus! {

/// Where the listener stands in its lifetime.
#[derive(PartialEq, Eq, Structural, Clone, Copy, Debug)]
pub enum ListenerState {
    /// Not yet bound.
    Starting,
    /// Bound, accepting connections.
    Listening,
    /// The bind failed; the process ends.
    Aborted,
}

/// What the outside world reports to the listener.
#[derive(PartialEq, Eq, Structural, Clone, Copy, Debug)]
pub enum ListenerEvent {
    /// The address was bound.
    Bound,
    /// The address could not be bound.
    BindFailed,
    /// An inbound connection was accepted.
    Accepted,
    /// An accept call returned an error.
    AcceptFailed,
}

/// What the listener asks the outside world to do next.
#[derive(PartialEq, Eq, Structural, Clone, Copy, Debug)]
pub enum ListenerAction {
    /// Report the bound address, then accept.
    ReportAddress,
    /// Terminate the process.
    Abort,
    /// Hand the connection to a newly spawned handler, then accept again.
    Dispatch,
    /// Report the accept error, then accept again.
    ReportAcceptError,
}

/// Whether `event` can reach the listener in `state`: bind outcomes while
/// starting, accept outcomes while listening, nothing after an abort.
pub open spec fn admits(state: ListenerState, event: ListenerEvent) -> bool {
    match state {
        ListenerState::Starting => event == ListenerEvent::Bound || event == ListenerEvent::BindFailed,
        ListenerState::Listening => event == ListenerEvent::Accepted || event == ListenerEvent::AcceptFailed,
        ListenerState::Aborted => false,
    }
}

/// The action taken on an admitted event.
pub open spec fn action_of(event: ListenerEvent) -> ListenerAction {
    match event {
        ListenerEvent::Bound => ListenerAction::ReportAddress,
        ListenerEvent::BindFailed => ListenerAction::Abort,
        ListenerEvent::Accepted => ListenerAction::Dispatch,
        ListenerEvent::AcceptFailed => ListenerAction::ReportAcceptError,
    }
}

/// The state after an admitted event: a failed bind is fatal, a successful one
/// starts the accept loop, and no accept outcome ever leaves it.
pub open spec fn next_state(event: ListenerEvent) -> ListenerState {
    match event {
        ListenerEvent::BindFailed => ListenerState::Aborted,
        _ => ListenerState::Listening,
    }
}

/// The state reached and the actions taken over a run of events.
pub open spec fn run(state: ListenerState, events: Seq<ListenerEvent>) -> (ListenerState, Seq<ListenerAction>)
    decreases events.len(),
{
    if events.len() == 0 {
        (state, Seq::empty())
    } else {
        let acts = run(state, events.drop_last()).1;
        (next_state(events.last()), acts.push(action_of(events.last())))
    }
}

/// Whether each event of `events` is admitted in the state that the ones
/// before it lead to.
pub open spec fn admits_all(state: ListenerState, events: Seq<ListenerEvent>) -> bool
    decreases events.len(),
{
    if events.len() == 0 {
        true
    } else {
        admits_all(state, events.drop_last()) && admits(run(state, events.drop_last()).0, events.last())
    }
}

/// One step of the listener: the next state and the action to perform.
pub fn listener_step(state: ListenerState, event: ListenerEvent) -> (r: (ListenerState, ListenerAction))
    requires
        admits(state, event),
    ensures
        r.0 == next_state(event),
        r.1 == action_of(event),
{
    match event {
        ListenerEvent::Bound => (ListenerState::Listening, ListenerAction::ReportAddress),
        ListenerEvent::BindFailed => (ListenerState::Aborted, ListenerAction::Abort),
        ListenerEvent::Accepted => (ListenerState::Listening, ListenerAction::Dispatch),
        ListenerEvent::AcceptFailed => (ListenerState::Listening, ListenerAction::ReportAcceptError),
    }
}

/// A failed bind aborts the process, and after that no event is admitted: no
/// connection is ever accepted.
pub proof fn lemma_bind_failure_is_fatal(event: ListenerEvent)
    ensures
        next_state(ListenerEvent::BindFailed) == ListenerState::Aborted,
        action_of(ListenerEvent::BindFailed) == ListenerAction::Abort,
        !admits(ListenerState::Aborted, event),
{
}

/// A successful bind leaves the listener accepting connections.
pub proof fn lemma_bind_success_listens(event: ListenerEvent)
    ensures
        next_state(ListenerEvent::Bound) == ListenerState::Listening,
        admits(ListenerState::Listening, event) <==> (event == ListenerEvent::Accepted
            || event == ListenerEvent::AcceptFailed),
{
}

/// Once listening, every run of accept outcomes is admitted and keeps the
/// listener listening; each accepted connection is dispatched exactly once, in
/// the order of acceptance, and each accept error is only reported.
pub proof fn lemma_accept_loop_continues(events: Seq<ListenerEvent>)
    requires
        forall|i: int| 0 <= i < events.len() ==> (events[i] == ListenerEvent::Accepted
            || events[i] == ListenerEvent::AcceptFailed),
    ensures
        admits_all(ListenerState::Listening, events),
        run(ListenerState::Listening, events).0 == ListenerState::Listening,
        run(ListenerState::Listening, events).1.len() == events.len(),
        forall|i: int| 0 <= i < events.len() ==>
            (#[trigger] run(ListenerState::Listening, events).1[i] == ListenerAction::Dispatch
                <==> events[i] == ListenerEvent::Accepted),
    decreases events.len(),
{
    if events.len() > 0 {
        let prefix = events.drop_last();
        lemma_accept_loop_continues(prefix);
        let acts = run(ListenerState::Listening, events).1;
        assert forall|i: int| 0 <= i < events.len() implies (#[trigger] acts[i] == ListenerAction::Dispatch
            <==> events[i] == ListenerEvent::Accepted) by {
            if i < events.len() - 1 {
                assert(prefix[i] == events[i]);
            }
        }
    }
}

} // verus!
