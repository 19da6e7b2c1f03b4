//! The message loop of one connection, as a state machine.
//!
//! A router never touches a socket or the event bus itself. It is told what
//! happened (a [`RouterEvent`]) and answers with what to do next (a
//! [`RouterAction`]); the task that owns the connection performs the action
//! and reports the outcome as the next event. A fresh router waits for a
//! message, so its driver begins by receiving.

use vstd::prelude::*;
use crate::error::{reach_of, Reach, RelayError};
use crate::message::{
    is_forwarded, payload_text, relay_event, InboundMessage, MessageView, RelayEvent,
    RelayEventView,
};

verus! {

/// The state of a router as its connection task sees it.
#[derive(Clone, Copy, Debug, PartialEq, Eq, Structural)]
pub enum RouterState {
    /// The loop is alive.
    Running,
    /// The loop ended because the peer closed or a receive failed.
    Closed,
    /// The loop ended on a failed send or on a fault.
    Errored,
}

/// Whether the connection of a router still holds its resources.
#[derive(Clone, Copy, Debug, PartialEq, Eq, Structural)]
pub enum Liveness {
    Open,
    /// The loop has ended and the release of the connection was asked for.
    Closing,
    Closed,
}

/// How a loop came to its end.
#[derive(Clone, Copy, Debug, PartialEq, Eq, Structural)]
pub enum Ending {
    Closed,
    Errored,
}

/// Where a router stands in its loop: what it waits for.
#[derive(Clone, Copy, Debug, PartialEq, Eq, Structural)]
pub enum Stage {
    /// Waiting for the next inbound message.
    Receiving,
    /// Waiting for the publish call to return.
    Publishing,
    /// Waiting for the outcome of the acknowledgment send.
    Acknowledging,
    /// The loop has ended; waiting for the connection to be released.
    Releasing(Ending),
    /// The loop has ended and the connection is released.
    Released(Ending),
}

/// What the driver of a router reports to it.
#[derive(Clone, Debug, PartialEq, Eq)]
pub enum RouterEvent {
    /// The receive wait yielded a message.
    Received(InboundMessage),
    /// The receive wait yielded an error.
    ReceiveFailed,
    /// The receive wait yielded the end of the stream.
    StreamEnded,
    /// The publish call returned.
    Published,
    /// The publish call returned an error.
    PublishFailed,
    /// The acknowledgment was sent.
    AcknowledgmentSent,
    /// The acknowledgment could not be sent.
    AcknowledgmentFailed,
    /// The connection was released.
    Released,
    /// A step of the driver failed in a way it did not expect.
    Faulted,
}

/// The mathematical content of a [`RouterEvent`].
pub enum EventView {
    Received(MessageView),
    ReceiveFailed,
    StreamEnded,
    Published,
    PublishFailed,
    AcknowledgmentSent,
    AcknowledgmentFailed,
    Released,
    Faulted,
}

impl View for RouterEvent {
    type V = EventView;

    open spec fn view(&self) -> EventView {
        match self {
            RouterEvent::Received(message) => EventView::Received(message@),
            RouterEvent::ReceiveFailed => EventView::ReceiveFailed,
            RouterEvent::StreamEnded => EventView::StreamEnded,
            RouterEvent::Published => EventView::Published,
            RouterEvent::PublishFailed => EventView::PublishFailed,
            RouterEvent::AcknowledgmentSent => EventView::AcknowledgmentSent,
            RouterEvent::AcknowledgmentFailed => EventView::AcknowledgmentFailed,
            RouterEvent::Released => EventView::Released,
            RouterEvent::Faulted => EventView::Faulted,
        }
    }
}

/// What a router asks its driver to do next.
#[derive(Clone, Debug, PartialEq, Eq)]
pub enum RouterAction {
    /// Wait for the next inbound message on the receive half.
    Receive,
    /// Hand this event to the event bus, and report when the call returns.
    Publish(RelayEvent),
    /// Send the fixed acknowledgment on the send half.
    Acknowledge,
    /// Release everything the connection holds; the task is about to exit.
    Release,
    /// Nothing is left to do.
    Nothing,
}

/// The mathematical content of a [`RouterAction`].
pub enum ActionView {
    Receive,
    Publish(RelayEventView),
    Acknowledge,
    Release,
    Nothing,
}

impl View for RouterAction {
    type V = ActionView;

    open spec fn view(&self) -> ActionView {
        match self {
            RouterAction::Receive => ActionView::Receive,
            RouterAction::Publish(event) => ActionView::Publish(event@),
            RouterAction::Acknowledge => ActionView::Acknowledge,
            RouterAction::Release => ActionView::Release,
            RouterAction::Nothing => ActionView::Nothing,
        }
    }
}

/// The state that a stage of the loop stands for.
pub open spec fn state_of(stage: Stage) -> RouterState {
    match stage {
        Stage::Receiving | Stage::Publishing | Stage::Acknowledging => RouterState::Running,
        Stage::Releasing(Ending::Closed) | Stage::Released(Ending::Closed) => RouterState::Closed,
        Stage::Releasing(Ending::Errored) | Stage::Released(Ending::Errored) => RouterState::Errored,
    }
}

/// The liveness of the connection at a stage of the loop.
pub open spec fn liveness_of(stage: Stage) -> Liveness {
    match stage {
        Stage::Receiving | Stage::Publishing | Stage::Acknowledging => Liveness::Open,
        Stage::Releasing(_) => Liveness::Closing,
        Stage::Released(_) => Liveness::Closed,
    }
}

/// The transition of a router: the stage and the action that follow `event`
/// at `stage`.
///
/// While the loop runs, an event that does not answer what the router waits
/// for counts as a fault and ends the loop in `Errored`. Once the loop has
/// ended nothing but the release of the connection is taken note of.
pub open spec fn step_model(stage: Stage, event: EventView) -> (Stage, ActionView) {
    match stage {
        Stage::Receiving => match event {
            EventView::Received(message) => if is_forwarded(message) {
                (Stage::Publishing, ActionView::Publish(relay_event(payload_text(message))))
            } else {
                (Stage::Receiving, ActionView::Receive)
            },
            EventView::ReceiveFailed | EventView::StreamEnded => (
                Stage::Releasing(Ending::Closed),
                ActionView::Release,
            ),
            _ => (Stage::Releasing(Ending::Errored), ActionView::Release),
        },
        Stage::Publishing => match event {
            EventView::Published | EventView::PublishFailed => (
                Stage::Acknowledging,
                ActionView::Acknowledge,
            ),
            _ => (Stage::Releasing(Ending::Errored), ActionView::Release),
        },
        Stage::Acknowledging => match event {
            EventView::AcknowledgmentSent => (Stage::Receiving, ActionView::Receive),
            _ => (Stage::Releasing(Ending::Errored), ActionView::Release),
        },
        Stage::Releasing(ending) => match event {
            EventView::Released => (Stage::Released(ending), ActionView::Nothing),
            _ => (Stage::Releasing(ending), ActionView::Nothing),
        },
        Stage::Released(ending) => (Stage::Released(ending), ActionView::Nothing),
    }
}

/// The failure that an event reports, if it reports one. The end of the
/// stream is no failure: it is how a connection ends in the ordinary way.
pub open spec fn failure_of(event: EventView) -> Option<RelayError> {
    match event {
        EventView::ReceiveFailed => Some(RelayError::Receive),
        EventView::PublishFailed => Some(RelayError::Publish),
        EventView::AcknowledgmentFailed => Some(RelayError::Send),
        _ => None,
    }
}

/// Whether `event` answers what a router at `stage` waits for.
pub open spec fn is_awaited(stage: Stage, event: EventView) -> bool {
    match stage {
        Stage::Receiving => event is Received || event is ReceiveFailed || event is StreamEnded,
        Stage::Publishing => event is Published || event is PublishFailed,
        Stage::Acknowledging => event is AcknowledgmentSent || event is AcknowledgmentFailed,
        Stage::Releasing(_) => event is Released,
        Stage::Released(_) => false,
    }
}

/// The router of one connection.
#[derive(Debug)]
pub struct MessageRouter {
    stage: Stage,
}

impl View for MessageRouter {
    type V = Stage;

    closed spec fn view(&self) -> Stage {
        self.stage
    }
}

impl RouterEvent {
    /// The failure that this event reports, if it reports one.
    pub fn failure(&self) -> (failure: Option<RelayError>)
        ensures
            failure == failure_of(self@),
    {
        match self {
            RouterEvent::ReceiveFailed => Some(RelayError::Receive),
            RouterEvent::PublishFailed => Some(RelayError::Publish),
            RouterEvent::AcknowledgmentFailed => Some(RelayError::Send),
            _ => None,
        }
    }
}

impl MessageRouter {
    /// The router of a freshly upgraded connection: running, and waiting for
    /// the first message.
    pub fn new() -> (router: MessageRouter)
        ensures
            router@ == Stage::Receiving,
    {
        MessageRouter { stage: Stage::Receiving }
    }

    /// Where the router stands in its loop.
    pub fn stage(&self) -> (stage: Stage)
        ensures
            stage == self@,
    {
        self.stage
    }

    /// The state of the loop.
    pub fn state(&self) -> (state: RouterState)
        ensures
            state == state_of(self@),
    {
        match self.stage {
            Stage::Receiving | Stage::Publishing | Stage::Acknowledging => RouterState::Running,
            Stage::Releasing(Ending::Closed) | Stage::Released(Ending::Closed) => RouterState::Closed,
            Stage::Releasing(Ending::Errored) | Stage::Released(Ending::Errored) => RouterState::Errored,
        }
    }

    /// The liveness of the connection that this router serves.
    pub fn liveness(&self) -> (liveness: Liveness)
        ensures
            liveness == liveness_of(self@),
    {
        match self.stage {
            Stage::Receiving | Stage::Publishing | Stage::Acknowledging => Liveness::Open,
            Stage::Releasing(_) => Liveness::Closing,
            Stage::Released(_) => Liveness::Closed,
        }
    }

    /// Takes note of `event` and says what the driver is to do next.
    pub fn step(&mut self, event: RouterEvent) -> (action: RouterAction)
        ensures
            (final(self)@, action@) == step_model(old(self)@, event@),
    {
        match self.stage {
            Stage::Receiving => match event {
                RouterEvent::Received(message) => match message.into_event() {
                    Some(relay_event) => {
                        self.stage = Stage::Publishing;
                        RouterAction::Publish(relay_event)
                    },
                    None => RouterAction::Receive,
                },
                RouterEvent::ReceiveFailed | RouterEvent::StreamEnded => self.end(Ending::Closed),
                _ => self.end(Ending::Errored),
            },
            Stage::Publishing => match event {
                RouterEvent::Published | RouterEvent::PublishFailed => {
                    self.stage = Stage::Acknowledging;
                    RouterAction::Acknowledge
                },
                _ => self.end(Ending::Errored),
            },
            Stage::Acknowledging => match event {
                RouterEvent::AcknowledgmentSent => {
                    self.stage = Stage::Receiving;
                    RouterAction::Receive
                },
                _ => self.end(Ending::Errored),
            },
            Stage::Releasing(ending) => {
                if let RouterEvent::Released = event {
                    self.stage = Stage::Released(ending);
                }
                RouterAction::Nothing
            },
            Stage::Released(_) => RouterAction::Nothing,
        }
    }

    /// Ends the loop and asks for the release of the connection.
    fn end(&mut self, ending: Ending) -> (action: RouterAction)
        ensures
            final(self)@ == Stage::Releasing(ending),
            action@ == ActionView::Release,
    {
        self.stage = Stage::Releasing(ending);
        RouterAction::Release
    }
}

/// A failure on a connection reaches as far as its kind says and no
/// further: one that is only logged leaves the loop running, and one that
/// ends the connection ends the loop with the release of the connection.
/// None of them reaches the caller of the service.
pub proof fn failure_reaches_as_far_as_its_kind(stage: Stage, event: EventView)
    requires
        is_awaited(stage, event),
        failure_of(event) is Some,
    ensures
        reach_of(failure_of(event)->0) != Reach::Caller,
        reach_of(failure_of(event)->0) == Reach::Logged ==> state_of(step_model(stage, event).0)
            == RouterState::Running,
        reach_of(failure_of(event)->0) == Reach::Connection ==> state_of(
            step_model(stage, event).0,
        ) != RouterState::Running && step_model(stage, event).1 == ActionView::Release,
{
}

/// While the loop runs, an event that does not answer what the router waits
/// for ends the loop in `Errored` with the release of the connection.
pub proof fn event_out_of_turn_is_a_fault(stage: Stage, event: EventView)
    requires
        state_of(stage) == RouterState::Running,
        !is_awaited(stage, event),
    ensures
        step_model(stage, event) == (Stage::Releasing(Ending::Errored), ActionView::Release),
{
}

/// Once the loop has ended it stays ended, in the state in which it ended,
/// and the router asks for nothing more.
pub proof fn ended_loop_stays_ended(stage: Stage, event: EventView)
    requires
        state_of(stage) != RouterState::Running,
    ensures
        state_of(step_model(stage, event).0) == state_of(stage),
        step_model(stage, event).1 == ActionView::Nothing,
        liveness_of(step_model(stage, event).0) == Liveness::Closed <==> liveness_of(stage)
            == Liveness::Closed || event is Released,
{
}

} // verus!
