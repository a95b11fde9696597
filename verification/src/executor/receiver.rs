//! What the executor's queue reader decides: where to resume after a
//! restart, what to read, and which id to remember once tasks are handed on.
use vstd::prelude::*;
use crate::stream::{
    backlog_limit, cursor_after, inserts_stream, owned, reply_values, unpack_reply, ReadRequest,
    StreamReply,
};

verus! {

/// The stream that new tasks are published to.
pub open spec fn task_stream() -> Seq<char> {
    inserts_stream()
}

/// The reader's cursor: the id of the last stream entry whose tasks were
/// handed to the workers (empty before anything was ever read).
pub struct ReceiverState {
    last_task_id: String,
}

impl View for ReceiverState {
    type V = Seq<char>;

    closed spec fn view(&self) -> Seq<char> {
        self.last_task_id@
    }
}

impl ReceiverState {
    /// Starts from the id saved by the previous run.
    pub fn new(last_task_id: String) -> (s: Self)
        ensures
            s@ == last_task_id@,
    {
        ReceiverState { last_task_id }
    }

    /// The saved id, or `None` when nothing was read yet.
    pub fn get_last_task_id(&self) -> (r: Option<String>)
        ensures
            r is None <==> self@.len() == 0,
            r matches Some(id) ==> id@ == self@,
    {
        if self.last_task_id.as_str().is_empty() {
            None
        } else {
            Some(self.last_task_id.clone())
        }
    }

    /// The read of the entries published after the saved id, if there is a
    /// saved id.
    pub fn unprocessed_read(&self) -> (r: Option<ReadRequest>)
        ensures
            r is None <==> self@.len() == 0,
            r matches Some(q) ==> {
                &&& q.key@ == task_stream()
                &&& q.id@ == self@
                &&& q.count == backlog_limit()
                &&& q.block is None
            },
    {
        match self.get_last_task_id() {
            None => None,
            Some(id) => Some(
                ReadRequest { key: owned("inserts"), id, count: 2147483647, block: None },
            ),
        }
    }

    /// The blocking read of the next new entry.
    pub fn live_read() -> (q: ReadRequest)
        ensures
            q.key@ == task_stream(),
            q.id@ == "$"@,
            q.count == 1,
            q.block == Some(0usize),
    {
        ReadRequest { key: owned("inserts"), id: owned("$"), count: 1, block: Some(0) }
    }

    /// Takes a reply: the tasks to hand to the workers, in stream order; the
    /// cursor moves to the reply's last entry.
    pub fn send<T>(&mut self, message: StreamReply<T>) -> (tasks: Vec<T>)
        ensures
            tasks@ == reply_values(message@),
            final(self)@ == cursor_after(old(self)@, message@),
    {
        let (new_last, tasks) = unpack_reply(message, Some(self.last_task_id.clone()));
        if let Some(id) = new_last {
            self.last_task_id = id;
        }
        tasks
    }

    /// Stops reading: the id to save for the next run.
    pub fn stop(self) -> (r: String)
        ensures
            r@ == self@,
    {
        self.last_task_id
    }
}

} // verus!
