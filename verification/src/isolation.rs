//! Many connections at once: each router runs for itself.
//!
//! The relay keeps no table of its connections. The model below follows all
//! of them together only to state what their independence means: whatever
//! happens on one connection, every other one goes its own way.

use vstd::prelude::*;
use crate::router::{step_model, ActionView, EventView, Stage};
use crate::trace::run_model;

verus! {

/// The stage of `connection` among the routers in `stages`. A connection
/// that has not been heard of yet has a fresh router.
pub open spec fn stage_at(stages: Map<nat, Stage>, connection: nat) -> Stage {
    if stages.dom().contains(connection) {
        stages[connection]
    } else {
        Stage::Receiving
    }
}

/// The run of the whole relay over events that arrive interleaved, each
/// with the connection it belongs to: the stage that every router ends in,
/// and the actions asked for, each with its connection.
pub open spec fn relay_run(events: Seq<(nat, EventView)>) -> (
    Map<nat, Stage>,
    Seq<(nat, ActionView)>,
)
    decreases events.len(),
{
    if events.len() == 0 {
        (Map::empty(), Seq::empty())
    } else {
        let (stages, actions) = relay_run(events.drop_last());
        let (connection, event) = events.last();
        let (next, action) = step_model(stage_at(stages, connection), event);
        (stages.insert(connection, next), actions.push((connection, action)))
    }
}

/// The events of one connection among interleaved events, in their order.
pub open spec fn events_of(events: Seq<(nat, EventView)>, connection: nat) -> Seq<EventView>
    decreases events.len(),
{
    if events.len() == 0 {
        Seq::empty()
    } else if events.last().0 == connection {
        events_of(events.drop_last(), connection).push(events.last().1)
    } else {
        events_of(events.drop_last(), connection)
    }
}

/// The actions asked of one connection among interleaved actions, in their
/// order.
pub open spec fn actions_of(actions: Seq<(nat, ActionView)>, connection: nat) -> Seq<ActionView>
    decreases actions.len(),
{
    if actions.len() == 0 {
        Seq::empty()
    } else if actions.last().0 == connection {
        actions_of(actions.drop_last(), connection).push(actions.last().1)
    } else {
        actions_of(actions.drop_last(), connection)
    }
}

/// However the events of many connections interleave, each connection runs
/// as if it were alone: its router ends where it would have ended on its own
/// events, and is asked for the same actions in the same order.
pub proof fn each_connection_runs_alone(events: Seq<(nat, EventView)>, connection: nat)
    ensures
        (
            stage_at(relay_run(events).0, connection),
            actions_of(relay_run(events).1, connection),
        ) == run_model(Stage::Receiving, events_of(events, connection)),
    decreases events.len(),
{
    if events.len() > 0 {
        each_connection_runs_alone(events.drop_last(), connection);
        let (stages, actions) = relay_run(events.drop_last());
        let (next, action) = step_model(stage_at(stages, events.last().0), events.last().1);
        assert(relay_run(events).1.drop_last() =~= actions);
        if events.last().0 == connection {
            let own = events_of(events, connection);
            assert(own.drop_last() =~= events_of(events.drop_last(), connection));
        }
    }
}

/// A fault or an abrupt close on one connection does not reach another: if
/// two interleavings hold the same events for a connection, then whatever
/// else they hold, that connection ends in the same stage and is asked for
/// the same actions.
pub proof fn other_connections_do_not_matter(
    one: Seq<(nat, EventView)>,
    other: Seq<(nat, EventView)>,
    connection: nat,
)
    requires
        events_of(one, connection) == events_of(other, connection),
    ensures
        stage_at(relay_run(one).0, connection) == stage_at(relay_run(other).0, connection),
        actions_of(relay_run(one).1, connection) == actions_of(relay_run(other).1, connection),
{
    each_connection_runs_alone(one, connection);
    each_connection_runs_alone(other, connection);
}

/// What is reported for one connection leaves the routers of all others
/// where they were, and asks nothing of them.
pub proof fn an_event_touches_its_connection_only(
    events: Seq<(nat, EventView)>,
    connection: nat,
    event: EventView,
    other: nat,
)
    requires
        other != connection,
    ensures
        stage_at(relay_run(events.push((connection, event))).0, other) == stage_at(
            relay_run(events).0,
            other,
        ),
        actions_of(relay_run(events.push((connection, event))).1, other) == actions_of(
            relay_run(events).1,
            other,
        ),
{
    let longer = events.push((connection, event));
    assert(longer.drop_last() =~= events);
    assert(relay_run(longer).1.drop_last() =~= relay_run(events).1);
}

} // verus!
