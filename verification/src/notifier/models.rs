//! The notifier's kinds of notification and the stream positions it keeps.
use vstd::prelude::*;
use vstd::std_specs::convert::FromSpecImpl;

verus! {

/// The two kinds of notification a client can ask for.
pub enum TypeNotification {
    /// Tasks that were completed.
    Completed,
    /// Tasks that were created and are not completed yet.
    NonCompleted,
}

/// The ids of the last entries read from the two streams, as they are saved
/// between runs (empty: nothing read yet).
pub struct LastTasks {
    pub completed: String,
    pub non_completed: String,
}

impl LastTasks {
    pub fn new(completed: String, non_completed: String) -> (r: Self)
        ensures
            r.completed == completed,
            r.non_completed == non_completed,
    {
        LastTasks { completed, non_completed }
    }
}

impl Default for LastTasks {
    /// Nothing read yet from either stream.
    fn default() -> (r: Self)
        ensures
            r.completed@.len() == 0,
            r.non_completed@.len() == 0,
    {
        LastTasks { completed: String::new(), non_completed: String::new() }
    }
}

/// The position kept for one kind of notification: `(completed, non_completed)`.
pub open spec fn position(v: (Seq<char>, Seq<char>), kind: TypeNotification) -> Seq<char> {
    match kind {
        TypeNotification::Completed => v.0,
        TypeNotification::NonCompleted => v.1,
    }
}

/// The positions after the one of `kind` moved to `id`.
pub open spec fn with_position(
    v: (Seq<char>, Seq<char>),
    kind: TypeNotification,
    id: Seq<char>,
) -> (Seq<char>, Seq<char>) {
    match kind {
        TypeNotification::Completed => (id, v.1),
        TypeNotification::NonCompleted => (v.0, id),
    }
}

/// The position of a kind reads back what was last written for it, and
/// writing the position of one kind leaves the other's alone.
pub proof fn lemma_positions_independent(
    v: (Seq<char>, Seq<char>),
    kind: TypeNotification,
    other: TypeNotification,
    id: Seq<char>,
)
    ensures
        position(with_position(v, kind, id), kind) == id,
        other != kind ==> position(with_position(v, kind, id), other) == position(v, other),
        with_position(v, kind, position(v, kind)) == v,
{
}

/// The positions of a saved record.
pub open spec fn saved_positions(t: LastTasks) -> (Seq<char>, Seq<char>) {
    (t.completed@, t.non_completed@)
}

/// A notifier that resumes from a saved record and reads nothing saves the
/// same record again: the live positions start as the record's
/// (`LastTasksRedis::from`), and the saved record holds the live positions
/// (`LastTasksRedis::snapshot`).
pub proof fn lemma_resume_without_reads(t: LastTasks, live: (Seq<char>, Seq<char>), saved: LastTasks)
    requires
        live == saved_positions(t),
        saved_positions(saved) == live,
    ensures
        saved.completed@ == t.completed@,
        saved.non_completed@ == t.non_completed@,
{
}

/// The live positions of the two streams while the notifier runs.
pub struct LastTasksRedis {
    completed: String,
    non_completed: String,
}

impl View for LastTasksRedis {
    type V = (Seq<char>, Seq<char>);

    closed spec fn view(&self) -> (Seq<char>, Seq<char>) {
        (self.completed@, self.non_completed@)
    }
}

impl From<LastTasks> for LastTasksRedis {
    /// Resumes from a saved record.
    fn from(value: LastTasks) -> (r: LastTasksRedis)
        ensures
            r@ == saved_positions(value),
    {
        LastTasksRedis { completed: value.completed, non_completed: value.non_completed }
    }
}

impl FromSpecImpl<LastTasks> for LastTasksRedis {
    open spec fn obeys_from_spec() -> bool {
        true
    }

    closed spec fn from_spec(v: LastTasks) -> LastTasksRedis {
        LastTasksRedis { completed: v.completed, non_completed: v.non_completed }
    }
}

impl LastTasksRedis {
    pub fn get_completed(&self) -> (r: String)
        ensures
            r@ == self@.0,
    {
        self.completed.clone()
    }

    pub fn get_non_compeleted(&self) -> (r: String)
        ensures
            r@ == self@.1,
    {
        self.non_completed.clone()
    }

    pub fn update_completed(&mut self, data: String)
        ensures
            final(self)@ == (data@, old(self)@.1),
    {
        self.completed = data;
    }

    pub fn update_non_completed(&mut self, data: String)
        ensures
            final(self)@ == (old(self)@.0, data@),
    {
        self.non_completed = data;
    }

    /// The position kept for `kind`.
    pub fn get(&self, kind: &TypeNotification) -> (r: String)
        ensures
            r@ == position(self@, *kind),
    {
        match kind {
            TypeNotification::Completed => self.get_completed(),
            TypeNotification::NonCompleted => self.get_non_compeleted(),
        }
    }

    /// Moves the position kept for `kind` to `id`.
    pub fn update(&mut self, kind: &TypeNotification, id: String)
        ensures
            final(self)@ == with_position(old(self)@, *kind, id@),
    {
        match kind {
            TypeNotification::Completed => self.update_completed(id),
            TypeNotification::NonCompleted => self.update_non_completed(id),
        }
    }

    /// The record to save: both positions as they stand.
    pub fn snapshot(&self) -> (r: LastTasks)
        ensures
            saved_positions(r) == self@,
    {
        LastTasks::new(self.get_completed(), self.get_non_compeleted())
    }
}

} // verus!
