//! Lifecycle signals and their best-effort delivery to an optional observer.

use vstd::prelude::*;

verus! {

/// A milestone of start-up, reported to whoever observes the embedding.
#[derive(Debug, Clone, Copy, PartialEq, Eq, Structural)]
pub enum StateSignal {
    /// No storage was found: this is the first run.
    IsFirstRun,
    /// Storage was found: an earlier run is resumed.
    IsNotFirstRun,
    /// An identity key pair is about to be generated.
    CreatingKeys,
    /// The bundles are about to be registered.
    RegisteringDna,
    /// The install units are about to be submitted.
    InstallingApp,
    /// The installed application is about to be enabled.
    EnablingApp,
    /// The application interface is about to be attached.
    AddingAppInterface,
    /// Start-up is complete.
    IsReady,
}

/// Why an attempt to hand a signal to the observer came to nothing.
#[derive(Debug, Clone, Copy, PartialEq, Eq, Structural)]
pub enum SendFailure {
    /// The channel held as many signals as it can hold.
    Full,
    /// The receiving half is gone.
    Closed,
}

/// What became of one signal.
#[derive(Debug, Clone, Copy, PartialEq, Eq, Structural)]
pub enum Delivery {
    /// Nothing was handed over, for want of an observer.
    Unobserved,
    /// The signal was queued for the observer.
    Sent,
    /// The attempt failed; start-up goes on regardless.
    Dropped(SendFailure),
}

/// The sending half of tokio's bounded channel, `tokio::sync::mpsc::Sender`.
/// Nothing is known of a value of it; it is only carried and handed to
/// [`try_send`].
#[verifier::external_type_specification]
#[verifier::external_body]
#[verifier::reject_recursive_types(T)]
pub struct ExSender<T>(tokio::sync::mpsc::Sender<T>);

/// Calls `tokio::sync::mpsc::Sender::try_send`, which queues the signal if
/// the channel has room and its receiver lives, and never waits. Whether that
/// is so depends on the channel at the moment of the call, so nothing is
/// claimed of the result.
#[verifier::external_body]
fn try_send(sender: &tokio::sync::mpsc::Sender<StateSignal>, event: StateSignal) -> (outcome:
    Result<(), SendFailure>) {
    match sender.try_send(event) {
        Ok(()) => Ok(()),
        Err(tokio::sync::mpsc::error::TrySendError::Full(_)) => Err(SendFailure::Full),
        Err(tokio::sync::mpsc::error::TrySendError::Closed(_)) => Err(SendFailure::Closed),
    }
}

/// What `emit` returns, given whether there is an observer and what the
/// channel answered.
pub open spec fn delivery_of(observed: bool, outcome: Result<(), SendFailure>) -> Delivery {
    if !observed {
        Delivery::Unobserved
    } else {
        match outcome {
            Ok(_) => Delivery::Sent,
            Err(failure) => Delivery::Dropped(failure),
        }
    }
}

/// Names what became of a signal once the channel has answered.
pub fn delivery(observed: bool, outcome: Result<(), SendFailure>) -> (d: Delivery)
    ensures
        d == delivery_of(observed, outcome),
{
    if !observed {
        Delivery::Unobserved
    } else {
        match outcome {
            Ok(_) => Delivery::Sent,
            Err(failure) => Delivery::Dropped(failure),
        }
    }
}

/// Hands `event` to the observer, if there is one, without ever waiting for
/// room in the channel. A full or closed channel is reported in the result
/// and is no error of start-up.
pub fn emit(
    event_channel: &Option<tokio::sync::mpsc::Sender<StateSignal>>,
    event: StateSignal,
) -> (d: Delivery)
    ensures
        event_channel is None <==> d == Delivery::Unobserved,
{
    match event_channel {
        Some(sender) => {
            let outcome = try_send(sender, event);
            delivery(true, outcome)
        },
        None => delivery(false, Ok(())),
    }
}

} // verus!
