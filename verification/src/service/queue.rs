//! How the service forwards table changes to the message streams.
use vstd::prelude::*;
use crate::executor::receiver::task_stream;
use crate::notifier::models::TypeNotification;
use crate::notifier::redis_stream::stream_of;
use crate::stream::{inserts_stream, owned, updates_stream};

verus! {

/// A row inserted into or updated in the tasks table, as the database
/// announced it: the channel it came on, the decoded payload, and the
/// payload's text, which is forwarded as it came.
pub struct TableChange<P> {
    pub channel: String,
    pub payload: P,
    pub payload_for_send: String,
}

/// One `XADD` call: the stream key, the entry id to ask for, and the fields.
pub struct StreamAppend {
    pub key: String,
    pub id: String,
    pub fields: Vec<(String, String)>,
}

/// What the table listener's loop can be woken by.
pub enum ListenerEvent<P> {
    /// The service is shutting down.
    Cancelled,
    /// Receiving from the database failed.
    RecvFailed,
    /// The database announced a change on `channel`; `parsed` is the payload
    /// read from `payload`, if it could be read.
    Notified { channel: String, payload: String, parsed: Option<P> },
}

/// What the table listener does next.
pub enum ListenerAction<P> {
    /// Leave the loop.
    Stop,
    /// Report the failed receive and wait for the next change.
    ReportRecvError,
    /// Hand the change to the stream publisher.
    Forward(TableChange<P>),
    /// Report the unreadable payload and wait for the next change.
    ReportBadPayload,
}

/// One turn of the table listener: stop on shutdown, forward each readable
/// change with its payload text as it came, report anything else.
pub fn listener_step<P>(event: ListenerEvent<P>) -> (a: ListenerAction<P>)
    ensures
        match event {
            ListenerEvent::Cancelled => a is Stop,
            ListenerEvent::RecvFailed => a is ReportRecvError,
            ListenerEvent::Notified { channel, payload, parsed } => match parsed {
                Some(p) => a matches ListenerAction::Forward(t) && t.channel@ == channel@
                    && t.payload == p && t.payload_for_send@ == payload@,
                None => a is ReportBadPayload,
            },
        },
{
    match event {
        ListenerEvent::Cancelled => ListenerAction::Stop,
        ListenerEvent::RecvFailed => ListenerAction::ReportRecvError,
        ListenerEvent::Notified { channel, payload, parsed } => match parsed {
            Some(p) => ListenerAction::Forward(TableChange::new(channel.as_str(), p, payload.as_str())),
            None => ListenerAction::ReportBadPayload,
        },
    }
}

/// The database channels the service listens on: inserts, then updates.
pub fn listened_channels() -> (c: Vec<String>)
    ensures
        c@.len() == 2,
        c@[0]@ == inserts_stream(),
        c@[1]@ == updates_stream(),
{
    let mut c: Vec<String> = Vec::new();
    c.push(owned("inserts"));
    c.push(owned("updates"));
    c
}

impl<P> TableChange<P> {
    /// A change announced on `channel`.
    pub fn new(channel: &str, payload: P, payload_for_send: &str) -> (t: Self)
        ensures
            t.channel@ == channel@,
            t.payload == payload,
            t.payload_for_send@ == payload_for_send@,
    {
        TableChange { channel: owned(channel), payload, payload_for_send: owned(payload_for_send) }
    }

    /// The append that publishes the change: to the stream named like the
    /// channel, under a fresh id (`*`), as the single field `task`.
    pub fn stream_append(&self) -> (a: StreamAppend)
        ensures
            a.key@ == self.channel@,
            a.id@ == "*"@,
            a.fields@.len() == 1,
            a.fields@[0].0@ == "task"@,
            a.fields@[0].1@ == self.payload_for_send@,
    {
        let mut fields: Vec<(String, String)> = Vec::new();
        fields.push((owned("task"), self.payload_for_send.clone()));
        StreamAppend { key: self.channel.clone(), id: owned("*"), fields }
    }
}

/// The service publishes each change to the stream named like its channel;
/// what it publishes from the inserts channel is what the executor runs and
/// what the notifier reports as not completed, and what it publishes from
/// the updates channel is what the notifier reports as completed.
pub proof fn lemma_channels_feed_readers()
    ensures
        task_stream() == inserts_stream(),
        stream_of(TypeNotification::NonCompleted) == inserts_stream(),
        stream_of(TypeNotification::Completed) == updates_stream(),
        inserts_stream() != updates_stream(),
{
    reveal_strlit("inserts");
    reveal_strlit("updates");
    assert(inserts_stream()[0] != updates_stream()[0]);
}

} // verus!
