//! What the notifier's stream reader decides: which stream feeds which kind
//! of notification, where to resume after a restart, and which position to
//! keep once notifications are queued.
use vstd::prelude::*;
use crate::notifier::models::{position, with_position, LastTasksRedis, TypeNotification};
use crate::stream::{
    backlog_limit, cursor_after, inserts_stream, owned, reply_values, unpack_reply, updates_stream,
    ReadRequest, StreamReply,
};

verus! {

/// The stream that feeds a kind of notification: completed tasks come from
/// the updates stream, new tasks from the inserts stream.
pub open spec fn stream_of(kind: TypeNotification) -> Seq<char> {
    match kind {
        TypeNotification::Completed => updates_stream(),
        TypeNotification::NonCompleted => inserts_stream(),
    }
}

/// The key of the stream that feeds `kind`.
pub fn stream_key(kind: &TypeNotification) -> (k: String)
    ensures
        k@ == stream_of(*kind),
{
    match kind {
        TypeNotification::Completed => owned("updates"),
        TypeNotification::NonCompleted => owned("inserts"),
    }
}

/// The read of the entries of `kind` published after the kept position, if
/// a position is kept.
pub fn read_unprocessed_notifications(last: &LastTasksRedis, kind: &TypeNotification) -> (r: Option<
    ReadRequest,
>)
    ensures
        r is None <==> position(last@, *kind).len() == 0,
        r matches Some(q) ==> {
            &&& q.key@ == stream_of(*kind)
            &&& q.id@ == position(last@, *kind)
            &&& q.count == backlog_limit()
            &&& q.block is None
        },
{
    let id = last.get(kind);
    if id.as_str().is_empty() {
        None
    } else {
        Some(ReadRequest { key: stream_key(kind), id, count: 2147483647, block: None })
    }
}

/// The blocking read of the next new entry of `kind`.
pub fn live_read(kind: &TypeNotification) -> (q: ReadRequest)
    ensures
        q.key@ == stream_of(*kind),
        q.id@ == "$"@,
        q.count == 1,
        q.block == Some(0usize),
{
    ReadRequest { key: stream_key(kind), id: owned("$"), count: 1, block: Some(0) }
}

/// Takes a reply for `kind`: the tasks to queue, in stream order; the
/// position of `kind` moves to the reply's last entry, the other stays.
pub fn send_notifications<T>(
    last: &mut LastTasksRedis,
    message: StreamReply<T>,
    kind: &TypeNotification,
) -> (tasks: Vec<T>)
    ensures
        tasks@ == reply_values(message@),
        final(last)@ == with_position(
            old(last)@,
            *kind,
            cursor_after(position(old(last)@, *kind), message@),
        ),
{
    let current = last.get(kind);
    let (new_last, tasks) = unpack_reply(message, Some(current));
    if let Some(id) = new_last {
        last.update(kind, id);
    }
    proof {
        assert(with_position(old(last)@, *kind, position(old(last)@, *kind)) == old(last)@);
    }
    tasks
}

} // verus!
