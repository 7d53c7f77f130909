//! Shutting the runtime down, once.
//!
//! One token stands between whoever wants the runtime to stop (a signal of
//! the operating system, or the host's own code) and the one task that stops
//! it. The coordinator says what that task does when the token fires, when
//! it is dropped unfired, and when the runtime has come to rest.

use vstd::prelude::*;

verus! {

/// How the runtime came to rest.
#[derive(Debug, Clone, Copy, PartialEq, Eq, Structural)]
pub enum Termination {
    /// All of the runtime's work ended in order.
    Clean,
    /// The runtime's task ended in an error or did not end by itself.
    Abnormal,
}

/// Where the coordinator stands.
#[derive(Debug, Clone, Copy, PartialEq, Eq, Structural)]
pub enum ShutdownPhase {
    /// The token is unfired; the runtime runs.
    Armed,
    /// The token was dropped unfired: nothing can fire it any more.
    Disarmed,
    /// Shutdown was asked of the runtime; its end is awaited.
    Terminating,
    /// The runtime has come to rest.
    Terminated,
}

/// What happens to the coordinator.
#[derive(Debug, Clone, Copy, PartialEq, Eq, Structural)]
pub enum ShutdownEvent {
    /// The token was fired.
    Fired,
    /// The token was dropped without having been fired.
    Dropped,
    /// The runtime has come to rest.
    RuntimeEnded(Termination),
}

/// What the coordinator's task does in answer.
#[derive(Debug, Clone, Copy, PartialEq, Eq, Structural)]
pub enum ShutdownAction {
    /// Ask the runtime to shut down, and wait until it has come to rest.
    Shutdown,
    /// Hand the way the runtime ended to whoever decides how the process
    /// exits; only now may the process exit.
    Exit(Termination),
    /// Note that the token was dropped unfired; nothing else.
    NoteDropped,
    /// Note that the token was fired to no effect; nothing else.
    NoteRace,
    /// Nothing.
    Ignore,
}

/// The sending half of tokio's one-shot channel,
/// `tokio::sync::oneshot::Sender`. Nothing is known of a value of it; it is
/// only carried and handed to [`send_once`].
#[verifier::external_type_specification]
#[verifier::external_body]
#[verifier::reject_recursive_types(T)]
pub struct ExOneshotSender<T>(tokio::sync::oneshot::Sender<T>);

/// Calls `tokio::sync::oneshot::Sender::send`, which uses the sender up and
/// hands the value to the receiver unless the receiver is gone. Whether it
/// is gone depends on the other side, so nothing is claimed of the result.
#[verifier::external_body]
fn send_once(sender: tokio::sync::oneshot::Sender<bool>) -> (received: bool) {
    match sender.send(true) {
        Ok(()) => true,
        Err(_) => false,
    }
}

/// What firing the token came to.
#[derive(Debug, Clone, Copy, PartialEq, Eq, Structural)]
pub enum Firing {
    /// The coordinator's task was woken.
    Fired,
    /// The coordinator's task is gone; to be noted, never an error.
    ReceiverGone,
    /// The token had been fired before: nothing happened.
    Spent,
}

/// What `fire` returns, given whether the token was still armed and whether
/// the receiver took the signal.
pub open spec fn firing_of(armed: bool, received: bool) -> Firing {
    if !armed {
        Firing::Spent
    } else if received {
        Firing::Fired
    } else {
        Firing::ReceiverGone
    }
}

/// Names what firing came to once the channel has answered.
pub fn firing(armed: bool, received: bool) -> (f: Firing)
    ensures
        f == firing_of(armed, received),
{
    if !armed {
        Firing::Spent
    } else if received {
        Firing::Fired
    } else {
        Firing::ReceiverGone
    }
}

/// The token that asks for shutdown. It can be fired once.
pub struct ShutdownToken {
    /// The way to the coordinator's task, until the token is fired.
    pub sender: Option<tokio::sync::oneshot::Sender<bool>>,
}

impl ShutdownToken {
    /// Whether the token can still be fired.
    pub open spec fn armed(&self) -> bool {
        self.sender is Some
    }

    /// An armed token that fires through `sender`.
    pub fn new(sender: tokio::sync::oneshot::Sender<bool>) -> (token: ShutdownToken)
        ensures
            token.sender == Some(sender),
            token.armed(),
    {
        ShutdownToken { sender: Some(sender) }
    }

    /// Fires the token. The first firing wakes the coordinator's task, if
    /// that is still there; every later one does nothing. The token is spent
    /// afterwards in any case.
    pub fn fire(&mut self) -> (f: Firing)
        ensures
            !final(self).armed(),
            !old(self).armed() <==> f == Firing::Spent,
    {
        match self.sender.take() {
            Some(sender) => {
                let received = send_once(sender);
                firing(true, received)
            },
            None => firing(false, false),
        }
    }
}

/// The coordinator after an event.
pub open spec fn next_phase(phase: ShutdownPhase, event: ShutdownEvent) -> ShutdownPhase {
    match (phase, event) {
        (ShutdownPhase::Armed, ShutdownEvent::Fired) => ShutdownPhase::Terminating,
        (ShutdownPhase::Armed, ShutdownEvent::Dropped) => ShutdownPhase::Disarmed,
        (ShutdownPhase::Terminating, ShutdownEvent::RuntimeEnded(_)) => ShutdownPhase::Terminated,
        _ => phase,
    }
}

/// What the task does in answer to an event.
pub open spec fn action_for(phase: ShutdownPhase, event: ShutdownEvent) -> ShutdownAction {
    match (phase, event) {
        (ShutdownPhase::Armed, ShutdownEvent::Fired) => ShutdownAction::Shutdown,
        (ShutdownPhase::Armed, ShutdownEvent::Dropped) => ShutdownAction::NoteDropped,
        (ShutdownPhase::Terminating, ShutdownEvent::RuntimeEnded(how)) => ShutdownAction::Exit(
            how,
        ),
        (_, ShutdownEvent::Fired) => ShutdownAction::NoteRace,
        _ => ShutdownAction::Ignore,
    }
}

/// The coordinator of one runtime's shutdown.
#[derive(Debug, Clone, Copy, PartialEq, Eq, Structural)]
pub struct ShutdownCoordinator {
    /// Where the coordinator stands.
    pub phase: ShutdownPhase,
}

impl ShutdownCoordinator {
    /// A coordinator whose token is unfired.
    pub fn new() -> (coordinator: ShutdownCoordinator)
        ensures
            coordinator.phase == ShutdownPhase::Armed,
    {
        ShutdownCoordinator { phase: ShutdownPhase::Armed }
    }

    /// Takes one event and says what the task does. Only the first firing of
    /// an armed token asks the runtime to shut down; a second firing, or one
    /// that finds the token dropped, is noted and does nothing; a token
    /// dropped unfired is noted and leaves the runtime running.
    pub fn step(&mut self, event: ShutdownEvent) -> (action: ShutdownAction)
        ensures
            final(self).phase == next_phase(old(self).phase, event),
            action == action_for(old(self).phase, event),
    {
        let phase = self.phase;
        match (phase, event) {
            (ShutdownPhase::Armed, ShutdownEvent::Fired) => {
                self.phase = ShutdownPhase::Terminating;
                ShutdownAction::Shutdown
            },
            (ShutdownPhase::Armed, ShutdownEvent::Dropped) => {
                self.phase = ShutdownPhase::Disarmed;
                ShutdownAction::NoteDropped
            },
            (ShutdownPhase::Terminating, ShutdownEvent::RuntimeEnded(how)) => {
                self.phase = ShutdownPhase::Terminated;
                ShutdownAction::Exit(how)
            },
            (_, ShutdownEvent::Fired) => ShutdownAction::NoteRace,
            _ => ShutdownAction::Ignore,
        }
    }

    /// Whether the process may exit: only once the runtime has come to rest
    /// after a shutdown.
    pub fn may_exit(&self) -> (allowed: bool)
        ensures
            allowed == (self.phase == ShutdownPhase::Terminated),
    {
        match self.phase {
            ShutdownPhase::Terminated => true,
            _ => false,
        }
    }
}

/// The coordinator after a sequence of events.
pub open spec fn phase_after(phase: ShutdownPhase, events: Seq<ShutdownEvent>) -> ShutdownPhase
    decreases events.len(),
{
    if events.len() == 0 {
        phase
    } else {
        next_phase(phase_after(phase, events.drop_last()), events.last())
    }
}

/// How often the runtime is asked to shut down over a sequence of events.
pub open spec fn shutdowns(phase: ShutdownPhase, events: Seq<ShutdownEvent>) -> nat
    decreases events.len(),
{
    if events.len() == 0 {
        0
    } else {
        let before = events.drop_last();
        let asked: nat = if action_for(phase_after(phase, before), events.last())
            == ShutdownAction::Shutdown {
            1
        } else {
            0
        };
        shutdowns(phase, before) + asked
    }
}

/// Whether, in a sequence of events, the token is fired before it is
/// dropped.
pub open spec fn fired_while_armed(events: Seq<ShutdownEvent>) -> bool {
    exists|i: int|
        0 <= i < events.len() && events[i] == ShutdownEvent::Fired && forall|j: int|
            0 <= j < i ==> #[trigger] events[j] != ShutdownEvent::Dropped
}

/// Whatever happens, and in whatever order, the runtime is asked to shut
/// down at most once; and once it was asked, no event asks again.
pub proof fn at_most_one_shutdown(events: Seq<ShutdownEvent>)
    ensures
        shutdowns(ShutdownPhase::Armed, events) <= 1,
        shutdowns(ShutdownPhase::Armed, events) == 1 <==> phase_after(
            ShutdownPhase::Armed,
            events,
        ) == ShutdownPhase::Terminating || phase_after(ShutdownPhase::Armed, events)
            == ShutdownPhase::Terminated,
    decreases events.len(),
{
    if events.len() > 0 {
        at_most_one_shutdown(events.drop_last());
    }
}

/// A token that is fired before it is dropped shuts the runtime down exactly
/// once, however often it is fired after that.
pub proof fn fired_token_shuts_down_once(events: Seq<ShutdownEvent>)
    ensures
        fired_while_armed(events) <==> shutdowns(ShutdownPhase::Armed, events) == 1,
    decreases events.len(),
{
    at_most_one_shutdown(events);
    if events.len() > 0 {
        let before = events.drop_last();
        fired_token_shuts_down_once(before);
        at_most_one_shutdown(before);
        armed_means_untouched(before);
        if fired_while_armed(before) {
            let i = choose|i: int|
                0 <= i < before.len() && before[i] == ShutdownEvent::Fired && forall|j: int|
                    0 <= j < i ==> #[trigger] before[j] != ShutdownEvent::Dropped;
            assert(events[i] == ShutdownEvent::Fired);
            assert forall|j: int| 0 <= j < i implies #[trigger] events[j]
                != ShutdownEvent::Dropped by {
                assert(before[j] != ShutdownEvent::Dropped);
            }
            assert(fired_while_armed(events));
        }
        if fired_while_armed(events) && !fired_while_armed(before) {
            let i = choose|i: int|
                0 <= i < events.len() && events[i] == ShutdownEvent::Fired && forall|j: int|
                    0 <= j < i ==> #[trigger] events[j] != ShutdownEvent::Dropped;
            if i < before.len() {
                assert(before[i] == ShutdownEvent::Fired);
                assert forall|j: int| 0 <= j < i implies #[trigger] before[j]
                    != ShutdownEvent::Dropped by {
                    assert(events[j] != ShutdownEvent::Dropped);
                }
                assert(false);
            }
            assert forall|j: int| 0 <= j < before.len() implies #[trigger] before[j]
                != ShutdownEvent::Dropped by {
                assert(events[j] != ShutdownEvent::Dropped);
            }
            assert forall|j: int| 0 <= j < before.len() implies #[trigger] before[j]
                != ShutdownEvent::Fired by {
                if before[j] == ShutdownEvent::Fired {
                    assert forall|k: int| 0 <= k < j implies #[trigger] before[k]
                        != ShutdownEvent::Dropped by {}
                    assert(fired_while_armed(before));
                }
            }
        }
        if phase_after(ShutdownPhase::Armed, before) == ShutdownPhase::Armed && events.last()
            == ShutdownEvent::Fired {
            assert(events[events.len() - 1] == ShutdownEvent::Fired);
            assert forall|j: int| 0 <= j < events.len() - 1 implies #[trigger] events[j]
                != ShutdownEvent::Dropped by {
                assert(before[j] != ShutdownEvent::Dropped);
            }
            assert(fired_while_armed(events));
        }
    }
}

/// The token is still armed exactly as long as it was neither fired nor
/// dropped.
pub proof fn armed_means_untouched(events: Seq<ShutdownEvent>)
    ensures
        phase_after(ShutdownPhase::Armed, events) == ShutdownPhase::Armed <==> forall|j: int|
            0 <= j < events.len() ==> #[trigger] events[j] != ShutdownEvent::Fired && events[j]
                != ShutdownEvent::Dropped,
    decreases events.len(),
{
    if events.len() > 0 {
        let before = events.drop_last();
        armed_means_untouched(before);
        if phase_after(ShutdownPhase::Armed, events) == ShutdownPhase::Armed {
            assert forall|j: int| 0 <= j < events.len() implies #[trigger] events[j]
                != ShutdownEvent::Fired && events[j] != ShutdownEvent::Dropped by {
                if j < before.len() {
                    assert(before[j] != ShutdownEvent::Fired && before[j]
                        != ShutdownEvent::Dropped);
                }
            }
        } else {
            if phase_after(ShutdownPhase::Armed, before) == ShutdownPhase::Armed {
                assert(events[events.len() - 1] == events.last());
            } else {
                let j = choose|j: int|
                    0 <= j < before.len() && !(#[trigger] before[j] != ShutdownEvent::Fired
                        && before[j] != ShutdownEvent::Dropped);
                assert(events[j] == before[j]);
            }
        }
    }
}

} // verus!
