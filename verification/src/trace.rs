//! Whole runs of a router: the actions it asks for over a sequence of events.

use vstd::prelude::*;
use crate::message::{is_forwarded, payload_text, relay_event, MessageView};
use crate::router::{
    state_of, step_model, ActionView, EventView, MessageRouter, RouterAction, RouterEvent,
    RouterState, Stage,
};

verus! {

/// The contents of a sequence of events.
pub open spec fn event_views(events: Seq<RouterEvent>) -> Seq<EventView> {
    events.map_values(|event: RouterEvent| event@)
}

/// The contents of a sequence of actions.
pub open spec fn action_views(actions: Seq<RouterAction>) -> Seq<ActionView> {
    actions.map_values(|action: RouterAction| action@)
}

/// The run of a router from `stage` over `events`: the stage it ends in and
/// the actions it asked for, one for each event and in their order.
pub open spec fn run_model(stage: Stage, events: Seq<EventView>) -> (Stage, Seq<ActionView>)
    decreases events.len(),
{
    if events.len() == 0 {
        (stage, Seq::empty())
    } else {
        let (before, trace) = run_model(stage, events.drop_last());
        let (after, action) = step_model(before, events.last());
        (after, trace.push(action))
    }
}

impl MessageRouter {
    /// Feeds a recorded sequence of events to the router, one after the
    /// other, and returns the action it asked for after each.
    pub fn replay(&mut self, events: Vec<RouterEvent>) -> (trace: Vec<RouterAction>)
        ensures
            (final(self)@, action_views(trace@)) == run_model(old(self)@, event_views(events@)),
    {
        let ghost start = self@;
        let ghost all = events@;
        let mut trace: Vec<RouterAction> = Vec::new();
        for event in it: events
            invariant
                it.seq() == all,
                (self@, action_views(trace@)) == run_model(
                    start,
                    event_views(all.take(it.index() as int)),
                ),
        {
            let ghost done = it.index() as int;
            let action = self.step(event);
            trace.push(action);
            proof {
                assert(event_views(all.take(done + 1)).drop_last() =~= event_views(
                    all.take(done),
                ));
            }
        }
        assert(all.take(all.len() as int) =~= all);
        trace
    }
}

/// What a healthy driver reports for one inbound message: the message, and
/// for a forwarded one the return of the publish call and the sent
/// acknowledgment.
pub open spec fn exchange(message: MessageView) -> Seq<EventView> {
    if is_forwarded(message) {
        seq![
            EventView::Received(message),
            EventView::Published,
            EventView::AcknowledgmentSent,
        ]
    } else {
        seq![EventView::Received(message)]
    }
}

/// What the router asks for in the course of one healthy exchange.
pub open spec fn answers(message: MessageView) -> Seq<ActionView> {
    if is_forwarded(message) {
        seq![
            ActionView::Publish(relay_event(payload_text(message))),
            ActionView::Acknowledge,
            ActionView::Receive,
        ]
    } else {
        seq![ActionView::Receive]
    }
}

/// The events of a healthy connection on which `messages` arrive in turn.
pub open spec fn conversation(messages: Seq<MessageView>) -> Seq<EventView>
    decreases messages.len(),
{
    if messages.len() == 0 {
        Seq::empty()
    } else {
        conversation(messages.drop_last()) + exchange(messages.last())
    }
}

/// The actions that answer a healthy conversation.
pub open spec fn conversation_answers(messages: Seq<MessageView>) -> Seq<ActionView>
    decreases messages.len(),
{
    if messages.len() == 0 {
        Seq::empty()
    } else {
        conversation_answers(messages.drop_last()) + answers(messages.last())
    }
}

/// The same events with every failed publish call taken for a returned one.
pub open spec fn publish_failures_forgiven(events: Seq<EventView>) -> Seq<EventView> {
    events.map_values(
        |event: EventView|
            if event is PublishFailed {
                EventView::Published
            } else {
                event
            },
    )
}

/// A run asks for exactly one action for each event.
pub proof fn lemma_run_length(stage: Stage, events: Seq<EventView>)
    ensures
        run_model(stage, events).1.len() == events.len(),
    decreases events.len(),
{
    if events.len() > 0 {
        lemma_run_length(stage, events.drop_last());
    }
}

/// A run over two sequences of events in a row is the run over the first,
/// followed by the run over the second from where the first ended.
pub proof fn lemma_run_concat(stage: Stage, first: Seq<EventView>, second: Seq<EventView>)
    ensures
        run_model(stage, first + second) == ({
            let (middle, head) = run_model(stage, first);
            let (end, tail) = run_model(middle, second);
            (end, head + tail)
        }),
    decreases second.len(),
{
    if second.len() > 0 {
        lemma_run_concat(stage, first, second.drop_last());
        assert((first + second).drop_last() =~= first + second.drop_last());
    }
}

/// One healthy exchange leaves the router waiting for the next message.
proof fn lemma_exchange(message: MessageView)
    ensures
        run_model(Stage::Receiving, exchange(message)) == (Stage::Receiving, answers(message)),
{
    let events = exchange(message);
    if is_forwarded(message) {
        let one = seq![EventView::Received(message)];
        let two = seq![EventView::Received(message), EventView::Published];
        assert(two.drop_last() =~= one);
        assert(events.drop_last() =~= two);
        assert(run_model(Stage::Receiving, one.drop_last()) == (
            Stage::Receiving,
            Seq::<ActionView>::empty(),
        ));
        let publish = ActionView::Publish(relay_event(payload_text(message)));
        assert(run_model(Stage::Receiving, one) == (
            Stage::Publishing,
            Seq::<ActionView>::empty().push(publish),
        ));
    } else {
        assert(run_model(Stage::Receiving, events.drop_last()) == (
            Stage::Receiving,
            Seq::<ActionView>::empty(),
        ));
    }
}

/// On a healthy connection the router answers every message in turn, each by
/// its own exchange, and ends waiting for the next message.
pub proof fn healthy_conversation_is_answered_in_turn(messages: Seq<MessageView>)
    ensures
        run_model(Stage::Receiving, conversation(messages)) == (
            Stage::Receiving,
            conversation_answers(messages),
        ),
    decreases messages.len(),
{
    if messages.len() > 0 {
        healthy_conversation_is_answered_in_turn(messages.drop_last());
        lemma_exchange(messages.last());
        lemma_run_concat(
            Stage::Receiving,
            conversation(messages.drop_last()),
            exchange(messages.last()),
        );
    }
}

/// For N text or binary messages on one healthy connection the router asks
/// for N publishes and N acknowledgments and for nothing else but the next
/// receive: the i-th publish carries the payload of the i-th message, and
/// the i-th acknowledgment comes directly after the i-th publish and before
/// the next one.
pub proof fn forwarded_messages_interleave_publish_and_acknowledgment(
    messages: Seq<MessageView>,
)
    requires
        forall|i: int| 0 <= i < messages.len() ==> is_forwarded(#[trigger] messages[i]),
    ensures
        run_model(Stage::Receiving, conversation(messages)).0 == Stage::Receiving,
        run_model(Stage::Receiving, conversation(messages)).1.len() == 3 * messages.len(),
        forall|i: int|
            #![trigger messages[i]]
            0 <= i < messages.len() ==> {
                let trace = run_model(Stage::Receiving, conversation(messages)).1;
                &&& trace[3 * i] == ActionView::Publish(relay_event(payload_text(messages[i])))
                &&& trace[3 * i + 1] == ActionView::Acknowledge
                &&& trace[3 * i + 2] == ActionView::Receive
            },
{
    healthy_conversation_is_answered_in_turn(messages);
    lemma_forwarded_answers(messages);
}

/// The shape of the answers to a conversation of forwarded messages.
proof fn lemma_forwarded_answers(messages: Seq<MessageView>)
    requires
        forall|i: int| 0 <= i < messages.len() ==> is_forwarded(#[trigger] messages[i]),
    ensures
        conversation_answers(messages).len() == 3 * messages.len(),
        forall|i: int|
            #![trigger messages[i]]
            0 <= i < messages.len() ==> {
                let trace = conversation_answers(messages);
                &&& trace[3 * i] == ActionView::Publish(relay_event(payload_text(messages[i])))
                &&& trace[3 * i + 1] == ActionView::Acknowledge
                &&& trace[3 * i + 2] == ActionView::Receive
            },
    decreases messages.len(),
{
    if messages.len() > 0 {
        let earlier = messages.drop_last();
        lemma_forwarded_answers(earlier);
        let trace = conversation_answers(messages);
        assert forall|i: int| #![trigger messages[i]] 0 <= i < messages.len() implies {
            &&& trace[3 * i] == ActionView::Publish(relay_event(payload_text(messages[i])))
            &&& trace[3 * i + 1] == ActionView::Acknowledge
            &&& trace[3 * i + 2] == ActionView::Receive
        } by {
            if i < earlier.len() {
                assert(earlier[i] == messages[i]);
            }
        }
    }
}

/// Control frames and invalid frames are neither published nor acknowledged:
/// for each of them the router asks for the next receive and nothing else.
pub proof fn unforwarded_messages_leave_no_trace(messages: Seq<MessageView>)
    requires
        forall|i: int| 0 <= i < messages.len() ==> !is_forwarded(#[trigger] messages[i]),
    ensures
        run_model(Stage::Receiving, conversation(messages)) == (
            Stage::Receiving,
            Seq::new(messages.len(), |i: int| ActionView::Receive),
        ),
    decreases messages.len(),
{
    healthy_conversation_is_answered_in_turn(messages);
    lemma_unforwarded_answers(messages);
}

/// The shape of the answers to a conversation without forwarded messages.
proof fn lemma_unforwarded_answers(messages: Seq<MessageView>)
    requires
        forall|i: int| 0 <= i < messages.len() ==> !is_forwarded(#[trigger] messages[i]),
    ensures
        conversation_answers(messages) == Seq::new(messages.len(), |i: int| ActionView::Receive),
    decreases messages.len(),
{
    if messages.len() > 0 {
        lemma_unforwarded_answers(messages.drop_last());
    }
}

/// A failed publish call changes nothing in the course of a connection: the
/// run is the one in which every such call had returned.
pub proof fn publish_failure_changes_no_run(stage: Stage, events: Seq<EventView>)
    ensures
        run_model(stage, events) == run_model(stage, publish_failures_forgiven(events)),
    decreases events.len(),
{
    if events.len() > 0 {
        publish_failure_changes_no_run(stage, events.drop_last());
        assert(publish_failures_forgiven(events).drop_last() =~= publish_failures_forgiven(
            events.drop_last(),
        ));
    }
}

/// Every exit of the loop releases the connection, once: a run from a
/// running stage asks for a release if and only if the loop has ended, no
/// release is followed by anything but `Nothing`, and `Nothing` is never
/// asked for while the loop runs.
pub proof fn every_exit_releases_once(start: Stage, events: Seq<EventView>)
    requires
        state_of(start) == RouterState::Running,
    ensures
        ({
            let (stage, trace) = run_model(start, events);
            &&& state_of(stage) != RouterState::Running <==> exists|i: int|
                0 <= i < trace.len() && #[trigger] trace[i] is Release
            &&& forall|i: int, j: int|
                0 <= i < j < trace.len() && #[trigger] trace[i] is Release
                    ==> #[trigger] trace[j] is Nothing
            &&& state_of(stage) == RouterState::Running ==> forall|i: int|
                0 <= i < trace.len() ==> !(#[trigger] trace[i] is Nothing)
        }),
    decreases events.len(),
{
    let (stage, trace) = run_model(start, events);
    if events.len() > 0 {
        every_exit_releases_once(start, events.drop_last());
        lemma_run_length(start, events.drop_last());
        let (before, earlier) = run_model(start, events.drop_last());
        let (after, action) = step_model(before, events.last());
        if state_of(before) != RouterState::Running {
            let k = choose|k: int| 0 <= k < earlier.len() && #[trigger] earlier[k] is Release;
            assert(trace[k] is Release);
        } else if state_of(after) != RouterState::Running {
            assert(trace[earlier.len() as int] is Release);
        }
    }
}

/// In every run of a fresh router an acknowledgment is asked for only
/// directly after a publish, and a publish is followed by its
/// acknowledgment or, on a fault, by the release.
pub proof fn acknowledgment_follows_its_publish(events: Seq<EventView>)
    ensures
        ({
            let (stage, trace) = run_model(Stage::Receiving, events);
            &&& forall|i: int|
                0 <= i < trace.len() && #[trigger] trace[i] is Acknowledge ==> i > 0 && trace[i
                    - 1] is Publish
            &&& forall|i: int|
                0 <= i < trace.len() - 1 && #[trigger] trace[i] is Publish ==> trace[i + 1]
                    is Acknowledge || trace[i + 1] is Release
            &&& stage is Publishing <==> trace.len() > 0 && trace.last() is Publish
            &&& stage is Acknowledging <==> trace.len() > 0 && trace.last() is Acknowledge
        }),
    decreases events.len(),
{
    if events.len() > 0 {
        acknowledgment_follows_its_publish(events.drop_last());
        lemma_run_length(Stage::Receiving, events.drop_last());
    }
}

} // verus!
