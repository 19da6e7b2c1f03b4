//! The listener of the relay: where it binds, and what it makes of each
//! attempt to accept a connection.

use vstd::prelude::*;
use crate::error::RelayError;
use crate::router::MessageRouter;
use crate::router::Stage;

verus! {

/// The port on which the relay listens.
pub const RELAY_PORT: u16 = 9001;

/// A host and a port to listen on, fixed for the lifetime of the service.
///
/// The host is on the loopback network and the port is not zero: what an
/// address needs so that it can be bound on this machine and be reached
/// again under the same name.
#[derive(Clone, Copy, Debug, PartialEq, Eq)]
pub struct ListenAddress {
    host: [u8; 4],
    port: u16,
}

/// Whether `host` and `port` make an address that the relay may listen on.
pub open spec fn is_bindable(host: Seq<u8>, port: u16) -> bool {
    host.len() == 4 && host[0] == 127 && port != 0
}

impl ListenAddress {
    /// The host of this address, as the four octets of an IPv4 address.
    pub closed spec fn host_octets(&self) -> Seq<u8> {
        self.host@
    }

    /// The port of this address.
    pub closed spec fn port_number(&self) -> u16 {
        self.port
    }

    /// Every address is one that the relay may listen on.
    #[verifier::type_invariant]
    pub closed spec fn wf(self) -> bool {
        is_bindable(self.host@, self.port)
    }

    /// The address `host:port`, if the relay may listen on it.
    pub fn new(host: [u8; 4], port: u16) -> (address: Option<ListenAddress>)
        ensures
            address is Some <==> is_bindable(host@, port),
            address is Some ==> {
                &&& address->0.host_octets() == host@
                &&& address->0.port_number() == port
            },
    {
        if host[0] == 127 && port != 0 {
            Some(ListenAddress { host, port })
        } else {
            None
        }
    }

    /// The address on which the relay listens: `127.0.0.1` and the relay port.
    pub fn relay() -> (address: ListenAddress)
        ensures
            address.host_octets() == seq![127u8, 0u8, 0u8, 1u8],
            address.port_number() == RELAY_PORT,
    {
        let host: [u8; 4] = [127, 0, 0, 1];
        ListenAddress { host, port: RELAY_PORT }
    }

    /// The four octets of the host, which is on the loopback network.
    pub fn host(&self) -> (host: [u8; 4])
        ensures
            host@ == self.host_octets(),
            host@[0] == 127,
    {
        proof {
            use_type_invariant(self);
        }
        self.host
    }

    /// The port, which is not zero.
    pub fn port(&self) -> (port: u16)
        ensures
            port == self.port_number(),
            port != 0,
    {
        proof {
            use_type_invariant(self);
        }
        self.port
    }
}

/// What came of the attempt to bind the listen address.
#[derive(Clone, Copy, Debug, PartialEq, Eq, Structural)]
pub enum BindOutcome {
    Bound,
    AddressInUse,
    Unavailable,
}

/// Why an attempt to accept a connection failed.
#[derive(Clone, Copy, Debug, PartialEq, Eq, Structural)]
pub enum AcceptFailure {
    /// The peer gave up before it was accepted.
    ConnectionAborted,
    /// The peer reset the connection before it was accepted.
    ConnectionReset,
    /// The wait was interrupted.
    Interrupted,
    /// The wait timed out.
    TimedOut,
    /// Nothing was there to accept.
    WouldBlock,
    /// Anything else: the listening socket itself is of no use any more.
    Other,
}

/// What came of one attempt to accept a connection.
#[derive(Clone, Copy, Debug, PartialEq, Eq, Structural)]
pub enum AcceptOutcome {
    Accepted,
    Failed(AcceptFailure),
}

/// Whether the listener is still at work.
#[derive(Clone, Copy, Debug, PartialEq, Eq, Structural)]
pub enum ListenerState {
    Accepting,
    Terminated,
}

/// What the listener asks its driver to do after an attempt to accept.
#[derive(Clone, Copy, Debug, PartialEq, Eq, Structural)]
pub enum ListenerAction {
    /// Hand the accepted socket to a new task of its own, do not wait for
    /// it, and accept again.
    Spawn,
    /// Log the failure and accept again.
    Continue,
    /// Stop accepting: the service has come to its end.
    Stop,
}

/// What came of the upgrade of an accepted connection.
#[derive(Clone, Copy, Debug, PartialEq, Eq, Structural)]
pub enum UpgradeOutcome {
    Upgraded,
    Failed,
}

/// Whether a failed accept concerns only the one connection that was on its
/// way, so that the listener goes on.
pub open spec fn is_transient(failure: AcceptFailure) -> bool {
    failure != AcceptFailure::Other
}

/// The transition of the listener: the state and the action that follow one
/// attempt to accept.
pub open spec fn listener_step(state: ListenerState, outcome: AcceptOutcome) -> (
    ListenerState,
    ListenerAction,
) {
    match state {
        ListenerState::Terminated => (ListenerState::Terminated, ListenerAction::Stop),
        ListenerState::Accepting => match outcome {
            AcceptOutcome::Accepted => (ListenerState::Accepting, ListenerAction::Spawn),
            AcceptOutcome::Failed(failure) => if is_transient(failure) {
                (ListenerState::Accepting, ListenerAction::Continue)
            } else {
                (ListenerState::Terminated, ListenerAction::Stop)
            },
        },
    }
}

/// What starting the relay on `address` comes to, given what came of binding
/// it: a listener at work on that address if it was bound, the bind failure
/// if it was in use or could not be had.
pub open spec fn start_model(address: ListenAddress, bind: BindOutcome) -> Result<
    ListenerView,
    RelayError,
> {
    match bind {
        BindOutcome::Bound => Ok(ListenerView { address, state: ListenerState::Accepting }),
        BindOutcome::AddressInUse => Err(RelayError::Bind),
        BindOutcome::Unavailable => Err(RelayError::Bind),
    }
}

/// Whether an attempt to accept failed in a way that ends the listener.
pub open spec fn is_fatal(outcome: AcceptOutcome) -> bool {
    outcome matches AcceptOutcome::Failed(failure) && !is_transient(failure)
}

/// The run of a listener from `state` over a sequence of attempts to accept:
/// the state it ends in and the action it asked for after each attempt.
pub open spec fn listener_run(state: ListenerState, outcomes: Seq<AcceptOutcome>) -> (
    ListenerState,
    Seq<ListenerAction>,
)
    decreases outcomes.len(),
{
    if outcomes.len() == 0 {
        (state, Seq::empty())
    } else {
        let (before, actions) = listener_run(state, outcomes.drop_last());
        let (after, action) = listener_step(before, outcomes.last());
        (after, actions.push(action))
    }
}

impl AcceptFailure {
    /// Whether the listener goes on after this failure.
    pub fn is_transient(&self) -> (transient: bool)
        ensures
            transient == is_transient(*self),
    {
        match self {
            AcceptFailure::Other => false,
            _ => true,
        }
    }
}

/// The listener of the relay, bound to its address.
#[derive(Debug)]
pub struct RelayListener {
    address: ListenAddress,
    state: ListenerState,
}

/// The mathematical content of a [`RelayListener`].
pub struct ListenerView {
    pub address: ListenAddress,
    pub state: ListenerState,
}

impl View for RelayListener {
    type V = ListenerView;

    closed spec fn view(&self) -> ListenerView {
        ListenerView { address: self.address, state: self.state }
    }
}

impl RelayListener {
    /// The address that this listener is bound to.
    pub fn address(&self) -> (address: ListenAddress)
        ensures
            address == self@.address,
    {
        self.address
    }

    /// Whether the listener is still at work.
    pub fn state(&self) -> (state: ListenerState)
        ensures
            state == self@.state,
    {
        self.state
    }

    /// Takes note of one attempt to accept and says what to do next. The
    /// address never changes.
    pub fn on_accept(&mut self, outcome: AcceptOutcome) -> (action: ListenerAction)
        ensures
            (final(self)@.state, action) == listener_step(old(self)@.state, outcome),
            final(self)@.address == old(self)@.address,
    {
        match self.state {
            ListenerState::Terminated => ListenerAction::Stop,
            ListenerState::Accepting => match outcome {
                AcceptOutcome::Accepted => ListenerAction::Spawn,
                AcceptOutcome::Failed(failure) => if failure.is_transient() {
                    ListenerAction::Continue
                } else {
                    self.state = ListenerState::Terminated;
                    ListenerAction::Stop
                },
            },
        }
    }
}

/// The lifecycle of the relay. It is started once and lives as long as the
/// process does.
pub struct RelayService {}

impl RelayService {
    /// Starts the relay on `address`, given what came of binding it: the
    /// listener, at work, if and only if the address was bound; the bind
    /// failure otherwise.
    pub fn start(address: ListenAddress, bind: BindOutcome) -> (started: Result<
        RelayListener,
        RelayError,
    >)
        ensures
            started is Ok <==> bind == BindOutcome::Bound,
            match started {
                Ok(listener) => Ok::<ListenerView, RelayError>(listener@) == start_model(
                    address,
                    bind,
                ),
                Err(error) => Err::<ListenerView, RelayError>(error) == start_model(address, bind),
            },
    {
        match bind {
            BindOutcome::Bound => Ok(RelayListener { address, state: ListenerState::Accepting }),
            BindOutcome::AddressInUse => Err(RelayError::Bind),
            BindOutcome::Unavailable => Err(RelayError::Bind),
        }
    }

    /// Begins the task of an accepted connection, given what came of its
    /// upgrade: a fresh router if and only if the upgrade succeeded; the
    /// handshake failure otherwise, with which the task ends.
    pub fn begin_connection(upgrade: UpgradeOutcome) -> (begun: Result<MessageRouter, RelayError>)
        ensures
            match begun {
                Ok(router) => upgrade == UpgradeOutcome::Upgraded && router@ == Stage::Receiving,
                Err(error) => upgrade == UpgradeOutcome::Failed && error == RelayError::Handshake,
            },
    {
        match upgrade {
            UpgradeOutcome::Upgraded => Ok(MessageRouter::new()),
            UpgradeOutcome::Failed => Err(RelayError::Handshake),
        }
    }
}

/// The listener asks for one action after each attempt to accept.
pub proof fn lemma_listener_run_length(state: ListenerState, outcomes: Seq<AcceptOutcome>)
    ensures
        listener_run(state, outcomes).1.len() == outcomes.len(),
    decreases outcomes.len(),
{
    if outcomes.len() > 0 {
        lemma_listener_run_length(state, outcomes.drop_last());
    }
}

/// No failure that concerns a single connection ends the listener: as long
/// as no attempt fails fatally the listener stays at work, spawns a task for
/// each accepted connection and goes on after each failure.
pub proof fn listener_survives_transient_failures(outcomes: Seq<AcceptOutcome>)
    requires
        forall|i: int| 0 <= i < outcomes.len() ==> !is_fatal(#[trigger] outcomes[i]),
    ensures
        listener_run(ListenerState::Accepting, outcomes) == (
            ListenerState::Accepting,
            Seq::new(
                outcomes.len(),
                |i: int|
                    if outcomes[i] == AcceptOutcome::Accepted {
                        ListenerAction::Spawn
                    } else {
                        ListenerAction::Continue
                    },
            ),
        ),
    decreases outcomes.len(),
{
    if outcomes.len() > 0 {
        listener_survives_transient_failures(outcomes.drop_last());
    }
}

/// A fatal failure ends the listener for good: from that attempt on it asks
/// for nothing but to stop, whatever is reported to it.
pub proof fn listener_stops_for_good(outcomes: Seq<AcceptOutcome>, fatal: int)
    requires
        0 <= fatal < outcomes.len(),
        is_fatal(outcomes[fatal]),
    ensures
        listener_run(ListenerState::Accepting, outcomes).0 == ListenerState::Terminated,
        forall|i: int|
            fatal <= i < outcomes.len() ==> #[trigger] listener_run(
                ListenerState::Accepting,
                outcomes,
            ).1[i] == ListenerAction::Stop,
    decreases outcomes.len(),
{
    lemma_listener_run_length(ListenerState::Accepting, outcomes.drop_last());
    if fatal < outcomes.len() - 1 {
        listener_stops_for_good(outcomes.drop_last(), fatal);
    }
}

/// A relay whose address was bound is at work on that very address, and
/// spawns a task for the connection attempt that follows.
pub proof fn bound_relay_accepts(address: ListenAddress)
    ensures
        start_model(address, BindOutcome::Bound) == Ok::<ListenerView, RelayError>(
            ListenerView { address, state: ListenerState::Accepting },
        ),
        listener_step(ListenerState::Accepting, AcceptOutcome::Accepted) == (
            ListenerState::Accepting,
            ListenerAction::Spawn,
        ),
{
}

/// A second start on an address that is taken fails with the bind failure
/// and yields no listener; the listener of the first start is a value of
/// its own and goes on accepting.
pub proof fn second_start_fails_and_first_listener_lives(
    address: ListenAddress,
    first: ListenerView,
)
    requires
        start_model(address, BindOutcome::Bound) == Ok::<ListenerView, RelayError>(first),
    ensures
        start_model(address, BindOutcome::AddressInUse) == Err::<ListenerView, RelayError>(
            RelayError::Bind,
        ),
        listener_step(first.state, AcceptOutcome::Accepted) == (
            ListenerState::Accepting,
            ListenerAction::Spawn,
        ),
{
}

} // verus!
