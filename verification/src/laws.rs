//! What holds of every bridge: theorems about the transition function and
//! about runs of it.

use vstd::prelude::*;
use vstd::utf8::*;

use crate::config::{publish_qos, topic_of};
use crate::message::{lemma_payload_decodes, payload_of};
use crate::model::{
    lemma_run_length, lemma_run_prefix, lemma_run_three, lemma_run_two, run, step, ActionModel,
    BridgeModel, EventModel, Phase,
};

verus! {

/// The action that publishes `content` for the bridge `s`.
pub open spec fn publish(s: BridgeModel, content: Seq<char>) -> ActionModel {
    ActionModel::Publish { topic: s.topic, qos: publish_qos(), content }
}

/// The event of reading `text` from the clipboard after a change.
pub open spec fn changed(text: Seq<char>) -> EventModel {
    EventModel::ClipboardChanged(Some(text))
}

/// Every event is answered by exactly one action, and the action at position
/// `i` is the answer to the event at position `i`, given from the state that
/// the events before it led to. Actions are never reordered.
pub proof fn law_actions_follow_events(s: BridgeModel, events: Seq<EventModel>, i: int)
    requires
        0 <= i < events.len(),
    ensures
        run(s, events).1.len() == events.len(),
        run(s, events).1[i] == step(run(s, events.take(i)).0, events[i]).1,
    decreases events.len(),
{
    let front = events.drop_last();
    lemma_run_length(s, front);
    if i == events.len() - 1 {
        assert(events.take(i) == front);
    } else {
        law_actions_follow_events(s, front, i);
        assert(front.take(i) == events.take(i));
    }
}

/// Two different texts read one after the other by a running bridge, the
/// first of them new to it, are both published, each once, in the order in
/// which they were read.
pub proof fn law_distinct_changes_are_published_in_order(
    s: BridgeModel,
    a: Seq<char>,
    b: Seq<char>,
)
    requires
        s.phase == Phase::Running,
        a != s.snapshot,
        a != b,
    ensures
        run(s, seq![changed(a), changed(b)]) == (
            BridgeModel { snapshot: b, ..s },
            seq![publish(s, a), publish(s, b)],
        ),
{
    lemma_run_two(s, changed(a), changed(b));
}

/// A text new to a running bridge that is read twice in a row is published
/// exactly once.
pub proof fn law_repeated_change_is_published_once(s: BridgeModel, a: Seq<char>)
    requires
        s.phase == Phase::Running,
        a != s.snapshot,
    ensures
        run(s, seq![changed(a), changed(a)]) == (
            BridgeModel { snapshot: a, ..s },
            seq![publish(s, a), ActionModel::Nothing],
        ),
{
    lemma_run_two(s, changed(a), changed(a));
}

/// Whatever a bridge reads from the clipboard, reading the same again right
/// after changes nothing and asks for nothing.
pub proof fn law_change_detection_is_idempotent(s: BridgeModel, read: Option<Seq<char>>)
    ensures
        ({
            let once = step(s, EventModel::ClipboardChanged(read)).0;
            step(once, EventModel::ClipboardChanged(read)) == (once, ActionModel::Nothing)
        }),
{
}

/// Loop prevention. A running bridge that takes a payload of valid UTF-8 asks
/// for its text to be written; once the write is reported, that text is the
/// snapshot, and a change notification that reads the same text is answered
/// with nothing. The text is not published.
pub proof fn law_inbound_text_is_not_echoed(s: BridgeModel, payload: Seq<u8>)
    requires
        s.phase == Phase::Running,
        valid_utf8(payload),
    ensures
        ({
            let text = decode_utf8(payload);
            run(
                s,
                seq![
                    EventModel::Inbound(payload),
                    EventModel::ClipboardWritten(text),
                    changed(text),
                ],
            ) == (
                BridgeModel { snapshot: text, ..s },
                seq![ActionModel::WriteClipboard(text), ActionModel::Nothing, ActionModel::Nothing],
            )
        }),
{
    let text = decode_utf8(payload);
    lemma_run_three(
        s,
        EventModel::Inbound(payload),
        EventModel::ClipboardWritten(text),
        changed(text),
    );
}

/// A payload that is not valid UTF-8 is dropped: the bridge, in whatever
/// state, stays as it is and asks for nothing, so nothing is written.
pub proof fn law_malformed_payload_is_dropped(s: BridgeModel, payload: Seq<u8>)
    requires
        !valid_utf8(payload),
    ensures
        step(s, EventModel::Inbound(payload)) == (s, ActionModel::Nothing),
{
}

/// Round trip. A text new to a running sender is published; the payload of
/// that message, delivered to a running receiver, makes the receiver ask for
/// the same text to be written, and after the write that text is the
/// receiver's snapshot.
pub proof fn law_round_trip(sender: BridgeModel, receiver: BridgeModel, x: Seq<char>)
    requires
        sender.phase == Phase::Running,
        receiver.phase == Phase::Running,
        x != sender.snapshot,
    ensures
        step(sender, changed(x)).1 == publish(sender, x),
        run(receiver, seq![EventModel::Inbound(payload_of(x)), EventModel::ClipboardWritten(x)])
            == (
            BridgeModel { snapshot: x, ..receiver },
            seq![ActionModel::WriteClipboard(x), ActionModel::Nothing],
        ),
{
    lemma_payload_decodes(x);
    lemma_run_two(receiver, EventModel::Inbound(payload_of(x)), EventModel::ClipboardWritten(x));
}

/// What a bridge publishes it remembers: after a publish, the snapshot is the
/// text that was published.
pub proof fn law_published_text_is_remembered(s: BridgeModel, e: EventModel)
    ensures
        step(s, e).1 matches ActionModel::Publish { content, .. } ==> step(s, e).0.snapshot
            == content,
{
}

/// The snapshot belongs to the two rules: only a clipboard change and a
/// reported clipboard write can alter it, and only while the bridge runs.
pub proof fn law_snapshot_changes_by_rule_only(s: BridgeModel, e: EventModel)
    requires
        step(s, e).0.snapshot != s.snapshot,
    ensures
        s.phase == Phase::Running,
        e is ClipboardChanged || e is ClipboardWritten,
{
}

/// Only a running bridge publishes or asks for a clipboard write.
pub proof fn law_only_a_running_bridge_acts(s: BridgeModel, e: EventModel)
    requires
        s.phase != Phase::Running,
    ensures
        !(step(s, e).1 is Publish),
        !(step(s, e).1 is WriteClipboard),
{
}

/// The phases are passed in one direction. An idle bridge starts running when
/// the watcher and the connection are up; a bridge that is not yet shutting
/// down does so when the process exits; nothing else changes the phase.
pub proof fn law_phases_only_advance(s: BridgeModel, e: EventModel)
    ensures
        ({
            let next = step(s, e).0.phase;
            ||| next == s.phase
            ||| s.phase == Phase::Idle && e is Started && next == Phase::Running
            ||| s.phase != Phase::ShuttingDown && e is Shutdown && next == Phase::ShuttingDown
        }),
{
}

/// A bridge that is shutting down stays so: it ignores every event.
pub proof fn law_shutdown_is_final(s: BridgeModel, e: EventModel)
    requires
        s.phase == Phase::ShuttingDown,
    ensures
        step(s, e) == (s, ActionModel::Nothing),
{
}

/// A run that has reached the last phase stays in it.
pub proof fn lemma_shutdown_lasts(s: BridgeModel, events: Seq<EventModel>, from: int, to: int)
    requires
        0 <= from <= to <= events.len(),
        run(s, events.take(from)).0.phase == Phase::ShuttingDown,
    ensures
        run(s, events.take(to)).0.phase == Phase::ShuttingDown,
    decreases to - from,
{
    if from < to {
        lemma_shutdown_lasts(s, events, from, to - 1);
        lemma_run_prefix(s, events, to - 1);
    }
}

/// The watcher is stopped at most once, and that is the last thing a bridge
/// asks for: in a run, every action after a request to stop the watcher is
/// `Nothing`.
pub proof fn law_nothing_follows_the_stop(
    s: BridgeModel,
    events: Seq<EventModel>,
    i: int,
    j: int,
)
    requires
        0 <= i < j < events.len(),
        run(s, events).1[i] == ActionModel::StopWatcher,
    ensures
        run(s, events).1[j] == ActionModel::Nothing,
{
    law_actions_follow_events(s, events, i);
    law_actions_follow_events(s, events, j);
    lemma_run_prefix(s, events, i);
    lemma_shutdown_lasts(s, events, i + 1, j);
}

/// A bridge has one topic for life. No run changes it, and every subscription
/// and every publish asked for in a run names it.
pub proof fn law_single_topic(s: BridgeModel, events: Seq<EventModel>, i: int)
    requires
        0 <= i < events.len(),
    ensures
        run(s, events).0.topic == s.topic,
        run(s, events).1[i] matches ActionModel::Subscribe { topic, .. } ==> topic == s.topic,
        run(s, events).1[i] matches ActionModel::Publish { topic, .. } ==> topic == s.topic,
{
    lemma_topic_is_kept(s, events);
    lemma_topic_is_kept(s, events.take(i));
    law_actions_follow_events(s, events, i);
}

/// Two users share a topic only if they are the same user.
pub proof fn law_topic_tells_users_apart(first: Seq<char>, second: Seq<char>)
    requires
        topic_of(first) == topic_of(second),
    ensures
        first == second,
{
    let prefix = "clipboard/"@;
    assert(topic_of(first).subrange(prefix.len() as int, topic_of(first).len() as int) == first);
    assert(topic_of(second).subrange(prefix.len() as int, topic_of(second).len() as int)
        == second);
}

/// No run changes the topic of a bridge.
pub proof fn lemma_topic_is_kept(s: BridgeModel, events: Seq<EventModel>)
    ensures
        run(s, events).0.topic == s.topic,
    decreases events.len(),
{
    if events.len() > 0 {
        lemma_topic_is_kept(s, events.drop_last());
    }
}

} // verus!
