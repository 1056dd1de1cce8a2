//! The synchronisation bridge: a state machine that takes what happened
//! (the clipboard changed, the broker delivered a payload, a clipboard write
//! went through) and answers with what is to be done (publish, write the
//! clipboard, stop the watcher).
//!
//! The bridge performs no input or output itself. Its caller performs each
//! action and reports back what happened, one event at a time. Text that the
//! bridge wrote to the clipboard is recorded in its snapshot, so that the
//! change notification caused by that write is not taken for a local change.

use vstd::prelude::*;
use vstd::string::*;

use crate::config::{topic_for_user, QoS};
use crate::dedup::should_forward;
use crate::message::{ClipboardSnapshot, InboundMessage, OutboundMessage};
use crate::model::{
    initial, on_clipboard_changed, on_clipboard_written, on_inbound, on_shutdown, on_started, run,
    step, ActionModel, BridgeModel, EventModel, Phase,
};

verus! {

/// Something that happened outside the bridge.
#[derive(Debug, PartialEq, Eq)]
pub enum Event {
    /// The clipboard watcher and the broker connection are up.
    Started,
    /// The clipboard changed. Carries the text read from it, or nothing where
    /// the clipboard holds no text or could not be read.
    ClipboardChanged(Option<String>),
    /// The broker delivered a payload on the bridge's topic.
    Inbound(InboundMessage),
    /// A clipboard write asked for by the bridge succeeded. Carries the text
    /// that was written.
    ClipboardWritten(String),
    /// The process is about to exit.
    Shutdown,
}

/// What the bridge asks its caller to do.
#[derive(Debug, PartialEq, Eq)]
pub enum Action {
    /// Nothing is to be done.
    Nothing,
    /// Subscribe to `topic`.
    Subscribe { topic: String, qos: QoS },
    /// Publish `message` on `topic`.
    Publish { topic: String, qos: QoS, message: OutboundMessage },
    /// Replace the clipboard's contents by this text, then report
    /// `Event::ClipboardWritten` if the write succeeded.
    WriteClipboard(String),
    /// Stop the clipboard watcher.
    StopWatcher,
}

impl View for Event {
    type V = EventModel;

    open spec fn view(&self) -> EventModel {
        match self {
            Event::Started => EventModel::Started,
            Event::ClipboardChanged(Some(text)) => EventModel::ClipboardChanged(Some(text@)),
            Event::ClipboardChanged(None) => EventModel::ClipboardChanged(None),
            Event::Inbound(message) => EventModel::Inbound(message@),
            Event::ClipboardWritten(text) => EventModel::ClipboardWritten(text@),
            Event::Shutdown => EventModel::Shutdown,
        }
    }
}

impl Clone for Event {
    fn clone(&self) -> (copy: Event)
        ensures
            copy@ == self@,
    {
        match self {
            Event::Started => Event::Started,
            Event::ClipboardChanged(Some(text)) => Event::ClipboardChanged(Some(text.clone())),
            Event::ClipboardChanged(None) => Event::ClipboardChanged(None),
            Event::Inbound(message) => Event::Inbound(message.clone()),
            Event::ClipboardWritten(text) => Event::ClipboardWritten(text.clone()),
            Event::Shutdown => Event::Shutdown,
        }
    }
}

impl View for Action {
    type V = ActionModel;

    open spec fn view(&self) -> ActionModel {
        match self {
            Action::Nothing => ActionModel::Nothing,
            Action::Subscribe { topic, qos } => ActionModel::Subscribe { topic: topic@, qos: *qos },
            Action::Publish { topic, qos, message } => ActionModel::Publish {
                topic: topic@,
                qos: *qos,
                content: message@,
            },
            Action::WriteClipboard(text) => ActionModel::WriteClipboard(text@),
            Action::StopWatcher => ActionModel::StopWatcher,
        }
    }
}

impl Clone for Action {
    fn clone(&self) -> (copy: Action)
        ensures
            copy@ == self@,
    {
        match self {
            Action::Nothing => Action::Nothing,
            Action::Subscribe { topic, qos } => Action::Subscribe {
                topic: topic.clone(),
                qos: *qos,
            },
            Action::Publish { topic, qos, message } => Action::Publish {
                topic: topic.clone(),
                qos: *qos,
                message: message.clone(),
            },
            Action::WriteClipboard(text) => Action::WriteClipboard(text.clone()),
            Action::StopWatcher => Action::StopWatcher,
        }
    }
}

/// The bridge. It owns the snapshot; nothing but its own transitions changes
/// it.
#[derive(Debug)]
pub struct SyncBridge {
    phase: Phase,
    snapshot: ClipboardSnapshot,
    topic: String,
}

impl View for SyncBridge {
    type V = BridgeModel;

    closed spec fn view(&self) -> BridgeModel {
        BridgeModel { phase: self.phase, snapshot: self.snapshot@, topic: self.topic@ }
    }
}

impl SyncBridge {
    /// An idle bridge for the devices of `user`, with an empty snapshot.
    pub fn new(user: &str) -> (bridge: SyncBridge)
        ensures
            bridge@ == initial(user@),
    {
        SyncBridge {
            phase: Phase::Idle,
            snapshot: ClipboardSnapshot::empty(),
            topic: topic_for_user(user),
        }
    }

    /// The phase the bridge is in.
    pub fn phase(&self) -> (phase: Phase)
        ensures
            phase == self@.phase,
    {
        self.phase
    }

    /// The clipboard text last known to the bridge.
    pub fn snapshot(&self) -> (snapshot: &ClipboardSnapshot)
        ensures
            snapshot@ == self@.snapshot,
    {
        &self.snapshot
    }

    /// The topic to which the bridge subscribes and on which it publishes.
    pub fn topic(&self) -> (topic: &String)
        ensures
            topic@ == self@.topic,
    {
        &self.topic
    }

    /// Reports that the watcher and the broker connection are up.
    pub fn start(&mut self) -> (action: Action)
        ensures
            (final(self)@, action@) == on_started(old(self)@),
    {
        match self.phase {
            Phase::Idle => {
                self.phase = Phase::Running;
                Action::Subscribe { topic: self.topic.clone(), qos: QoS::AtMostOnce }
            },
            _ => Action::Nothing,
        }
    }

    /// Applies the outbound rule to what was read from the clipboard after a
    /// change notification.
    pub fn on_clipboard_change(&mut self, read: Option<String>) -> (action: Action)
        ensures
            (final(self)@, action@) == on_clipboard_changed(
                old(self)@,
                match read {
                    Some(text) => Some(text@),
                    None => None,
                },
            ),
    {
        match read {
            Some(text) => {
                if self.phase == Phase::Running && should_forward(&text, &self.snapshot.text) {
                    self.snapshot.text = text.clone();
                    Action::Publish {
                        topic: self.topic.clone(),
                        qos: QoS::AtLeastOnce,
                        message: OutboundMessage { content: text },
                    }
                } else {
                    Action::Nothing
                }
            },
            None => Action::Nothing,
        }
    }

    /// Applies the first half of the inbound rule to a delivered payload.
    pub fn on_inbound(&self, message: InboundMessage) -> (action: Action)
        ensures
            action@ == on_inbound(self@, message@).1,
    {
        if self.phase == Phase::Running {
            match message.decode() {
                Some(text) => Action::WriteClipboard(text),
                None => Action::Nothing,
            }
        } else {
            Action::Nothing
        }
    }

    /// Applies the second half of the inbound rule: `text` is now on the
    /// clipboard, put there by the bridge's caller.
    pub fn on_clipboard_written(&mut self, text: String)
        ensures
            final(self)@ == on_clipboard_written(old(self)@, text@).0,
    {
        if self.phase == Phase::Running {
            self.snapshot.text = text;
        }
    }

    /// Reports that the process is about to exit.
    pub fn shutdown(&mut self) -> (action: Action)
        ensures
            (final(self)@, action@) == on_shutdown(old(self)@),
    {
        match self.phase {
            Phase::ShuttingDown => Action::Nothing,
            _ => {
                self.phase = Phase::ShuttingDown;
                Action::StopWatcher
            },
        }
    }

    /// Takes one event and answers with the action to perform.
    pub fn step(&mut self, event: Event) -> (action: Action)
        ensures
            (final(self)@, action@) == step(old(self)@, event@),
    {
        match event {
            Event::Started => self.start(),
            Event::ClipboardChanged(read) => self.on_clipboard_change(read),
            Event::Inbound(message) => self.on_inbound(message),
            Event::ClipboardWritten(text) => {
                self.on_clipboard_written(text);
                Action::Nothing
            },
            Event::Shutdown => self.shutdown(),
        }
    }

    /// Takes the events one after the other and answers with the actions, one
    /// for each event and in the order of the events.
    pub fn run(&mut self, events: Vec<Event>) -> (actions: Vec<Action>)
        ensures
            (final(self)@, action_models(actions@)) == run(old(self)@, event_models(events@)),
    {
        let ghost all = event_models(events@);
        let mut actions: Vec<Action> = Vec::new();
        for event in it: events
            invariant
                all == event_models(it.seq()),
                (self@, action_models(actions@)) == run(old(self)@, all.take(it.index() as int)),
        {
            let ghost done = action_models(actions@);
            let ghost i = it.index() as int;
            let action = self.step(event);
            actions.push(action);
            proof {
                assert(all.take(i + 1).drop_last() == all.take(i));
                assert(all.take(i + 1).last() == event@);
                assert(action_models(actions@) == done.push(action@));
            }
        }
        proof {
            assert(all.take(all.len() as int) == all);
        }
        actions
    }
}

/// The models of a sequence of events.
pub open spec fn event_models(events: Seq<Event>) -> Seq<EventModel> {
    events.map_values(|e: Event| e@)
}

/// The models of a sequence of actions.
pub open spec fn action_models(actions: Seq<Action>) -> Seq<ActionModel> {
    actions.map_values(|a: Action| a@)
}

} // verus!
