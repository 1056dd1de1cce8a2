//! The bridge as a mathematical state machine: its states, the events it
//! takes, the actions it answers with, and its transition function.

use vstd::prelude::*;

use crate::config::{publish_qos, subscribe_qos, topic_of, QoS};
use crate::dedup::is_new_change;
use crate::message::text_of;

verus! {

/// Where a bridge stands in its life.
#[derive(Debug, Clone, Copy, PartialEq, Eq, Structural)]
pub enum Phase {
    /// Created; the watcher and the broker connection are not up yet.
    Idle,
    /// Mirroring in both directions.
    Running,
    /// Stopped for good.
    ShuttingDown,
}

/// Mathematical model of a bridge.
#[verifier::ext_equal]
pub struct BridgeModel {
    pub phase: Phase,
    /// The clipboard text last known to the bridge.
    pub snapshot: Seq<char>,
    /// The one topic of this bridge.
    pub topic: Seq<char>,
}

/// Mathematical model of an event.
#[verifier::ext_equal]
pub enum EventModel {
    Started,
    ClipboardChanged(Option<Seq<char>>),
    Inbound(Seq<u8>),
    ClipboardWritten(Seq<char>),
    Shutdown,
}

/// Mathematical model of an action.
#[verifier::ext_equal]
pub enum ActionModel {
    Nothing,
    Subscribe { topic: Seq<char>, qos: QoS },
    Publish { topic: Seq<char>, qos: QoS, content: Seq<char> },
    WriteClipboard(Seq<char>),
    StopWatcher,
}

/// A bridge as it is created for `user`: idle, with an empty snapshot.
pub open spec fn initial(user: Seq<char>) -> BridgeModel {
    BridgeModel { phase: Phase::Idle, snapshot: Seq::empty(), topic: topic_of(user) }
}

/// The watcher and the connection are up: an idle bridge starts running and
/// subscribes to its topic. Any other bridge stays as it is.
pub open spec fn on_started(s: BridgeModel) -> (BridgeModel, ActionModel) {
    if s.phase == Phase::Idle {
        (
            BridgeModel { phase: Phase::Running, ..s },
            ActionModel::Subscribe { topic: s.topic, qos: subscribe_qos() },
        )
    } else {
        (s, ActionModel::Nothing)
    }
}

/// The outbound rule. A running bridge that reads a text other than its
/// snapshot takes that text as its snapshot and publishes it. A text equal to
/// the snapshot, or no text at all, changes nothing.
pub open spec fn on_clipboard_changed(s: BridgeModel, read: Option<Seq<char>>) -> (
    BridgeModel,
    ActionModel,
) {
    match read {
        Some(text) if s.phase == Phase::Running && is_new_change(text, s.snapshot) => (
            BridgeModel { snapshot: text, ..s },
            ActionModel::Publish { topic: s.topic, qos: publish_qos(), content: text },
        ),
        _ => (s, ActionModel::Nothing),
    }
}

/// First half of the inbound rule. A running bridge asks for the text of a
/// payload to be written to the clipboard. A payload that is not valid UTF-8
/// is dropped. The snapshot is left alone until the write has succeeded.
pub open spec fn on_inbound(s: BridgeModel, payload: Seq<u8>) -> (BridgeModel, ActionModel) {
    match text_of(payload) {
        Some(text) if s.phase == Phase::Running => (s, ActionModel::WriteClipboard(text)),
        _ => (s, ActionModel::Nothing),
    }
}

/// Second half of the inbound rule. A running bridge takes the text that was
/// written to the clipboard as its snapshot.
pub open spec fn on_clipboard_written(s: BridgeModel, text: Seq<char>) -> (
    BridgeModel,
    ActionModel,
) {
    if s.phase == Phase::Running {
        (BridgeModel { snapshot: text, ..s }, ActionModel::Nothing)
    } else {
        (s, ActionModel::Nothing)
    }
}

/// The process exits: the watcher is stopped, once, and the bridge is done.
pub open spec fn on_shutdown(s: BridgeModel) -> (BridgeModel, ActionModel) {
    if s.phase == Phase::ShuttingDown {
        (s, ActionModel::Nothing)
    } else {
        (BridgeModel { phase: Phase::ShuttingDown, ..s }, ActionModel::StopWatcher)
    }
}

/// The transition function of the bridge: the state after `e` and the action
/// asked for.
pub open spec fn step(s: BridgeModel, e: EventModel) -> (BridgeModel, ActionModel) {
    match e {
        EventModel::Started => on_started(s),
        EventModel::ClipboardChanged(read) => on_clipboard_changed(s, read),
        EventModel::Inbound(payload) => on_inbound(s, payload),
        EventModel::ClipboardWritten(text) => on_clipboard_written(s, text),
        EventModel::Shutdown => on_shutdown(s),
    }
}

/// The bridge after a sequence of events, and the actions it asked for, one
/// for each event and in the order of the events.
pub open spec fn run(s: BridgeModel, events: Seq<EventModel>) -> (BridgeModel, Seq<ActionModel>)
    decreases events.len(),
{
    if events.len() == 0 {
        (s, Seq::empty())
    } else {
        let (before, actions) = run(s, events.drop_last());
        let (after, action) = step(before, events.last());
        (after, actions.push(action))
    }
}

/// A run answers each event with one action.
pub proof fn lemma_run_length(s: BridgeModel, events: Seq<EventModel>)
    ensures
        run(s, events).1.len() == events.len(),
    decreases events.len(),
{
    if events.len() > 0 {
        lemma_run_length(s, events.drop_last());
    }
}

/// A run of one more event is the run so far, followed by one step.
pub proof fn lemma_run_push(s: BridgeModel, events: Seq<EventModel>, e: EventModel)
    ensures
        run(s, events.push(e)) == ({
            let (before, actions) = run(s, events);
            let (after, action) = step(before, e);
            (after, actions.push(action))
        }),
{
    assert(events.push(e).drop_last() == events);
}

/// The run of a single event is one step.
pub proof fn lemma_run_one(s: BridgeModel, e: EventModel)
    ensures
        run(s, seq![e]) == (step(s, e).0, seq![step(s, e).1]),
{
    lemma_run_push(s, Seq::empty(), e);
    assert(Seq::<EventModel>::empty().push(e) == seq![e]);
}

/// The run of two events is two steps, the second from where the first led.
pub proof fn lemma_run_two(s: BridgeModel, e1: EventModel, e2: EventModel)
    ensures
        run(s, seq![e1, e2]) == ({
            let (s1, a1) = step(s, e1);
            let (s2, a2) = step(s1, e2);
            (s2, seq![a1, a2])
        }),
{
    lemma_run_one(s, e1);
    lemma_run_push(s, seq![e1], e2);
    assert(seq![e1].push(e2) == seq![e1, e2]);
}

/// The run of three events is three steps, each from where the one before
/// led.
pub proof fn lemma_run_three(s: BridgeModel, e1: EventModel, e2: EventModel, e3: EventModel)
    ensures
        run(s, seq![e1, e2, e3]) == ({
            let (s1, a1) = step(s, e1);
            let (s2, a2) = step(s1, e2);
            let (s3, a3) = step(s2, e3);
            (s3, seq![a1, a2, a3])
        }),
{
    lemma_run_two(s, e1, e2);
    lemma_run_push(s, seq![e1, e2], e3);
    assert(seq![e1, e2].push(e3) == seq![e1, e2, e3]);
}

/// The state that a run reaches after the first `k + 1` events is one step
/// from the state after the first `k`.
pub proof fn lemma_run_prefix(s: BridgeModel, events: Seq<EventModel>, k: int)
    requires
        0 <= k < events.len(),
    ensures
        run(s, events.take(k + 1)).0 == step(run(s, events.take(k)).0, events[k]).0,
{
    assert(events.take(k + 1).drop_last() == events.take(k));
}

} // verus!
