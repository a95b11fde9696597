//! What the notifier answers: the queued tasks of a kind, and the saved
//! positions it starts from.
use vstd::prelude::*;
use crate::notifier::models::{LastTasks, TypeNotification};

verus! {

/// The query of a notification request: which kind is asked for.
pub struct Params {
    pub notification_type: TypeNotification,
}

/// The answer to a notification request: the tasks that were queued.
pub struct Notification<T> {
    pub tasks: Vec<T>,
}

impl<T> Notification<T> {
    pub fn new(tasks: Vec<T>) -> (n: Self)
        ensures
            n.tasks@ == tasks@,
    {
        Notification { tasks }
    }

    /// The HTTP status of the answer: `200` with the tasks, or `204` when no
    /// task was queued.
    pub fn status_code(&self) -> (c: u16)
        ensures
            c == (if self.tasks@.len() > 0 { 200u16 } else { 204u16 }),
    {
        if self.tasks.len() > 0 {
            200
        } else {
            204
        }
    }
}

/// The kinds of failure of `serde_json`, as `serde_json::error::Category`
/// names them.
pub enum JsonCategory {
    Io,
    Syntax,
    Data,
    Eof,
}

#[verifier::external_type_specification]
#[verifier::external_body]
pub struct ExJsonError(serde_json::Error);

/// The category `serde_json` gives a failure (`serde_json::Error::classify`),
/// which is fixed when the error is made.
pub uninterp spec fn json_error_category(e: serde_json::Error) -> JsonCategory;

/// `serde_json::Error::classify`, one variant for each variant of
/// `serde_json::error::Category`; the contract names the category.
#[verifier::external_body]
fn json_category(e: &serde_json::Error) -> (r: JsonCategory)
    ensures
        r == json_error_category(*e),
{
    match e.classify() {
        serde_json::error::Category::Io => JsonCategory::Io,
        serde_json::error::Category::Syntax => JsonCategory::Syntax,
        serde_json::error::Category::Data => JsonCategory::Data,
        serde_json::error::Category::Eof => JsonCategory::Eof,
    }
}

/// The saved positions read back: a record that parsed is used as it is; a
/// file that ended before any record (empty, as on the first run) means that
/// nothing was read yet; any other failure is reported.
pub fn recover_last_tasks(parsed: Result<LastTasks, JsonCategory>) -> (r: Result<
    LastTasks,
    JsonCategory,
>)
    ensures
        parsed is Ok ==> r == parsed,
        parsed matches Err(c) ==> (c is Eof <==> r is Ok),
        parsed matches Err(c) ==> (c is Eof ==> (r matches Ok(t) && t.completed@.len() == 0
            && t.non_completed@.len() == 0)),
        r matches Err(c) ==> parsed == Err::<LastTasks, JsonCategory>(c),
{
    match parsed {
        Ok(t) => Ok(t),
        Err(JsonCategory::Eof) => Ok(LastTasks::default()),
        Err(c) => Err(c),
    }
}

/// The saved positions from what `serde_json` made of the file's text: a
/// record is used as it is; a failure that `serde_json` classes as the end
/// of the input means nothing was read yet; any other failure is handed on.
pub fn last_tasks_from_parse(parsed: Result<LastTasks, serde_json::Error>) -> (r: Result<
    LastTasks,
    serde_json::Error,
>)
    ensures
        parsed is Ok ==> r == parsed,
        parsed matches Err(e) ==> (json_error_category(e) is Eof <==> r is Ok),
        r is Err ==> r == parsed,
        parsed is Err ==> (r matches Ok(t) ==> t.completed@.len() == 0 && t.non_completed@.len()
            == 0),
{
    match parsed {
        Ok(t) => Ok(t),
        Err(e) => {
            let c = json_category(&e);
            match recover_last_tasks(Err(c)) {
                Ok(t) => Ok(t),
                Err(_) => Err(e),
            }
        },
    }
}

} // verus!
