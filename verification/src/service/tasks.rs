//! A new task as the service stores it, and what a finished update means.
use vstd::prelude::*;
use crate::executor::worker::{hex_digit, nibble, uuid_text};
use crate::service::requests::CreateTaskRequest;

verus! {

/// A point in time: whole seconds since the Unix epoch and the nanoseconds
/// past them.
pub struct Timestamp {
    pub secs: i64,
    pub nanos: u32,
}

/// A task about to be stored: its id, its description, when it was created,
/// and when it was completed (never, yet).
pub struct NewTask {
    pub id: u128,
    pub description: String,
    pub created_at: Timestamp,
    pub completed_at: Option<Timestamp>,
}

/// An id of version 4 ("random"), RFC 4122 variant: the version field holds
/// 4 and the two variant bits hold `10`.
pub open spec fn is_random_uuid(id: u128) -> bool {
    &&& (id >> 76u128) & 15u128 == 4u128
    &&& (id >> 62u128) & 3u128 == 2u128
}

/// `uuid::Uuid::new_v4` (its 128 bits): random, so nothing is claimed of the
/// value but the version and variant bits that the crate's source sets.
#[verifier::external_body]
fn new_task_id() -> (id: u128)
    ensures
        is_random_uuid(id),
{
    uuid::Uuid::new_v4().as_u128()
}

/// A time the clock can give: at or after the Unix epoch, with fewer than a
/// second of nanoseconds.
pub open spec fn is_clock_time(t: Timestamp) -> bool {
    t.secs >= 0 && t.nanos < 1_000_000_000
}

/// `chrono::Utc::now`, as seconds and nanoseconds: it reads the clock, so
/// the contract claims only what its source builds the time from, a
/// duration since the Unix epoch (`as_secs`, `subsec_nanos`).
#[verifier::external_body]
fn utc_now() -> (t: Timestamp)
    ensures
        is_clock_time(t),
{
    let now = chrono::Utc::now();
    Timestamp { secs: now.timestamp(), nanos: now.timestamp_subsec_nanos() }
}

impl NewTask {
    /// The task a valid request describes, under the given id and creation
    /// time.
    pub fn pending(req: CreateTaskRequest, id: u128, now: Timestamp) -> (t: NewTask)
        ensures
            t.id == id,
            t.description == req.description,
            t.created_at == now,
            t.completed_at is None,
    {
        NewTask { id, description: req.description, created_at: now, completed_at: None }
    }

    /// The task a valid request describes: a fresh random id, created now,
    /// not completed. Which id and which time are not stated beyond their
    /// form: they come from the random source and the clock.
    pub fn from_request(req: CreateTaskRequest) -> (t: NewTask)
        ensures
            is_random_uuid(t.id),
            is_clock_time(t.created_at),
            t.description == req.description,
            t.completed_at is None,
    {
        let id = new_task_id();
        let now = utc_now();
        NewTask::pending(req, id, now)
    }
}

/// Whether an update that marks a task completed found its task: it changed
/// at least one row. No changed row means that no uncompleted task has that
/// id, which the service reports as "not found".
pub fn completion_found(rows_affected: u64) -> (found: bool)
    ensures
        found <==> rows_affected > 0,
{
    rows_affected > 0
}

/// The text of a new task's id (as the executor puts it in the completion
/// address) shows the version digit `4` and a variant digit `8`, `9`, `a` or
/// `b`.
pub proof fn lemma_random_id_text(id: u128)
    requires
        is_random_uuid(id),
    ensures
        uuid_text(id).len() == 36,
        uuid_text(id)[14] == '4',
        uuid_text(id)[19] == '8' || uuid_text(id)[19] == '9' || uuid_text(id)[19] == 'a'
            || uuid_text(id)[19] == 'b',
{
    let version = nibble(id, 12);
    let variant = nibble(id, 16);
    assert(version == ((id >> 76u128) & 15u128) as int);
    assert(variant == ((id >> 60u128) & 15u128) as int);
    assert((id >> 76u128) & 15u128 == 4u128);
    assert(((id >> 62u128) & 3u128 == 2u128) ==> (8u128 <= ((id >> 60u128) & 15u128) && ((id
        >> 60u128) & 15u128) <= 11u128)) by (bit_vector);
    assert(uuid_text(id)[14] == hex_digit(version));
    assert(uuid_text(id)[19] == hex_digit(variant));
    assert(hex_digit(4) == '4');
    assert(hex_digit(8) == '8');
    assert(hex_digit(9) == '9');
    assert(hex_digit(10) == 'a');
    assert(hex_digit(11) == 'b');
}

} // verus!
