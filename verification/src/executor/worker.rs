//! What the executor's worker pool decides: how many workers run and under
//! which ids, and where a finished task is reported.
use vstd::prelude::*;
use crate::stream::owned;

verus! {

/// The ids the pool gives its workers: `1` to `num_workers`.
pub fn worker_ids(num_workers: usize) -> (ids: Vec<usize>)
    ensures
        ids@.len() == num_workers,
        forall|i: int| 0 <= i < num_workers ==> ids@[i] == i + 1,
{
    let mut ids: Vec<usize> = Vec::new();
    let mut n: usize = 0;
    while n < num_workers
        invariant
            n <= num_workers,
            ids@.len() == n,
            forall|i: int| 0 <= i < n ==> ids@[i] == i + 1,
        decreases num_workers - n,
    {
        n = n + 1;
        ids.push(n);
    }
    ids
}

/// The lowercase hexadecimal digit of `d` (`0 <= d < 16`).
pub open spec fn hex_digit(d: int) -> char {
    if d < 10 {
        (48 + d) as char
    } else {
        (87 + d) as char
    }
}

/// The `j`-th of the 32 hexadecimal digits of `v`, most significant first.
pub open spec fn nibble(v: u128, j: int) -> int {
    ((v >> ((4 * (31 - j)) as u128)) & 15u128) as int
}

/// How many hyphens the canonical text of a UUID holds before position `i`.
pub open spec fn hyphens_before(i: int) -> int {
    if i <= 8 {
        0
    } else if i <= 13 {
        1
    } else if i <= 18 {
        2
    } else if i <= 23 {
        3
    } else {
        4
    }
}

/// The canonical text of the UUID whose 128 bits are `v`: 32 lowercase
/// hexadecimal digits, most significant first, grouped 8-4-4-4-12 by hyphens.
pub open spec fn uuid_text(v: u128) -> Seq<char> {
    Seq::new(
        36,
        |i: int|
            if i == 8 || i == 13 || i == 18 || i == 23 {
                '-'
            } else {
                hex_digit(nibble(v, i - hyphens_before(i)))
            },
    )
}

/// `uuid::Uuid::from_u128` followed by its `Display` (`to_string`): the
/// contract claims the canonical hyphenated lowercase text, as the crate's
/// `fmt.rs` writes it (`format_hyphenated` over `format_simple`).
#[verifier::external_body]
fn uuid_to_text(v: u128) -> (r: String)
    ensures
        r@ == uuid_text(v),
{
    uuid::Uuid::from_u128(v).to_string()
}

/// The address a worker posts a finished task to:
/// `<base>/tasks/<task id>/complete`.
pub fn complete_task_url(base: &str, task_id: u128) -> (url: String)
    ensures
        url@ == base@ + "/tasks/"@ + uuid_text(task_id) + "/complete"@,
{
    let id = uuid_to_text(task_id);
    let mut url = owned(base);
    url.append("/tasks/");
    url.append(id.as_str());
    url.append("/complete");
    url
}

} // verus!
