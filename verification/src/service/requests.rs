//! The bodies the task service accepts, and the rule a new task's body obeys.
use vstd::prelude::*;
use crate::stream::owned;

verus! {

/// The body of a request that creates a task.
pub struct CreateTaskRequest {
    /// What the task is about; at least one character.
    pub description: String,
}

/// A broken `length` rule: the field, the least length it asks for, and the
/// value that was too short.
pub struct LengthViolation {
    pub field: String,
    pub min: u64,
    pub value: String,
}

/// The `length` rule of the validator crate, with `len` counting characters.
pub open spec fn length_ok(len: nat, min: Option<u64>, max: Option<u64>, equal: Option<u64>) -> bool {
    match equal {
        Some(e) => len == e,
        None => {
            &&& (min matches Some(m) ==> len >= m)
            &&& (max matches Some(m) ==> len <= m)
        },
    }
}

/// `validator::ValidateLength::validate_length` on a `String`: the crate's
/// source counts the string's characters and compares the count with the
/// bounds (only with `equal` when it is given); the contract claims that. The
/// count is taken as `u64`, which no string in memory exceeds.
#[verifier::external_body]
fn validate_length(s: &String, min: Option<u64>, max: Option<u64>, equal: Option<u64>) -> (r: bool)
    ensures
        r == length_ok(s@.len(), min, max, equal),
{
    validator::ValidateLength::validate_length(s, min, max, equal)
}

impl CreateTaskRequest {
    /// Checks the body: the description holds at least one character.
    pub fn validate(&self) -> (r: Result<(), LengthViolation>)
        ensures
            r is Ok <==> self.description@.len() >= 1,
            r matches Err(v) ==> {
                &&& v.field@ == "description"@
                &&& v.min == 1
                &&& v.value@ == self.description@
            },
    {
        if validate_length(&self.description, Some(1), None, None) {
            Ok(())
        } else {
            Err(LengthViolation { field: owned("description"), min: 1, value: self.description.clone() })
        }
    }
}

} // verus!
