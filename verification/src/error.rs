//! The failures of the relay and how far each of them reaches.

use vstd::prelude::*;

verus! {

/// A failure in the relay, by where it arises.
#[derive(Clone, Copy, Debug, PartialEq, Eq, Structural)]
pub enum RelayError {
    /// The listen address could not be bound.
    Bind,
    /// One attempt to accept a connection failed; the listener lives on.
    Accept,
    /// The upgrade of an accepted connection failed.
    Handshake,
    /// A receive on a connection failed.
    Receive,
    /// A send on a connection failed.
    Send,
    /// The event bus did not take an event.
    Publish,
}

/// How far a failure reaches.
#[derive(Clone, Copy, Debug, PartialEq, Eq, Structural)]
pub enum Reach {
    /// The start of the service fails, and its caller is told.
    Caller,
    /// The task of the one connection ends; nothing else is touched.
    Connection,
    /// Nothing ends: the failure is logged and the loop goes on.
    Logged,
}

/// The reach of each failure.
pub open spec fn reach_of(error: RelayError) -> Reach {
    match error {
        RelayError::Bind => Reach::Caller,
        RelayError::Accept => Reach::Logged,
        RelayError::Handshake => Reach::Connection,
        RelayError::Receive => Reach::Connection,
        RelayError::Send => Reach::Connection,
        RelayError::Publish => Reach::Logged,
    }
}

impl RelayError {
    /// How far this failure reaches.
    pub fn reach(&self) -> (reach: Reach)
        ensures
            reach == reach_of(*self),
    {
        match self {
            RelayError::Bind => Reach::Caller,
            RelayError::Accept => Reach::Logged,
            RelayError::Handshake => Reach::Connection,
            RelayError::Receive => Reach::Connection,
            RelayError::Send => Reach::Connection,
            RelayError::Publish => Reach::Logged,
        }
    }

    /// Whether the user of the service ever sees this failure. Only a failure
    /// to bind is.
    pub fn is_user_visible(&self) -> (visible: bool)
        ensures
            visible <==> *self == RelayError::Bind,
            visible <==> reach_of(*self) == Reach::Caller,
    {
        match self {
            RelayError::Bind => true,
            _ => false,
        }
    }
}

} // verus!
