//! The shape of a Redis `XREAD` reply, and the walk over it that every
//! consumer in the system performs: collect the items in order and remember
//! the id of the last entry seen.
use vstd::prelude::*;

verus! {

/// One stream entry: its id and its `(field, value)` pairs.
pub type StreamEntry<T> = (String, Vec<(String, T)>);

/// The entries read from one stream key.
pub type StreamBatch<T> = (String, Vec<StreamEntry<T>>);

/// A whole `XREAD` reply: one batch per stream key.
pub type StreamReply<T> = Vec<StreamBatch<T>>;

/// The stream (and the database notification channel) of newly created tasks.
pub open spec fn inserts_stream() -> Seq<char> {
    "inserts"@
}

/// The stream (and the database notification channel) of completed tasks.
pub open spec fn updates_stream() -> Seq<char> {
    "updates"@
}

/// How many entries a backlog read after a restart asks for at most.
pub open spec fn backlog_limit() -> usize {
    2147483647
}

/// The values of one entry, in field order.
pub open spec fn entry_values<T>(fields: Seq<(String, T)>) -> Seq<T> {
    fields.map_values(|f: (String, T)| f.1)
}

/// The values of all entries of one batch, in entry order.
pub open spec fn batch_values<T>(entries: Seq<StreamEntry<T>>) -> Seq<T>
    decreases entries.len(),
{
    if entries.len() == 0 {
        Seq::empty()
    } else {
        entry_values(entries[0].1@) + batch_values(entries.drop_first())
    }
}

/// The values of a whole reply, batch after batch.
pub open spec fn reply_values<T>(reply: Seq<StreamBatch<T>>) -> Seq<T>
    decreases reply.len(),
{
    if reply.len() == 0 {
        Seq::empty()
    } else {
        batch_values(reply[0].1@) + reply_values(reply.drop_first())
    }
}

/// The ids of the entries of one batch, in order.
pub open spec fn batch_ids<T>(entries: Seq<StreamEntry<T>>) -> Seq<Seq<char>> {
    entries.map_values(|e: StreamEntry<T>| e.0@)
}

/// The ids of all entries of a reply, batch after batch.
pub open spec fn reply_ids<T>(reply: Seq<StreamBatch<T>>) -> Seq<Seq<char>>
    decreases reply.len(),
{
    if reply.len() == 0 {
        Seq::empty()
    } else {
        batch_ids(reply[0].1@) + reply_ids(reply.drop_first())
    }
}

/// The last of `ids`, or `prev` when `ids` is empty.
pub open spec fn last_or(prev: Option<Seq<char>>, ids: Seq<Seq<char>>) -> Option<Seq<char>> {
    if ids.len() == 0 {
        prev
    } else {
        Some(ids.last())
    }
}

/// Where a cursor stands after a reply: on the id of the reply's last entry,
/// or where it stood when the reply holds no entry.
pub open spec fn cursor_after<T>(cursor: Seq<char>, reply: Seq<StreamBatch<T>>) -> Seq<char> {
    let ids = reply_ids(reply);
    if ids.len() == 0 {
        cursor
    } else {
        ids.last()
    }
}

/// The view of an optional string.
pub open spec fn opt_view(o: Option<String>) -> Option<Seq<char>> {
    match o {
        Some(s) => Some(s@),
        None => None,
    }
}

proof fn lemma_last_or_cons(prev: Option<Seq<char>>, first: Seq<char>, rest: Seq<Seq<char>>)
    ensures
        last_or(prev, seq![first] + rest) == last_or(Some(first), rest),
{
    if rest.len() > 0 {
        assert((seq![first] + rest).last() == rest.last());
    }
}

proof fn lemma_last_or_concat(prev: Option<Seq<char>>, a: Seq<Seq<char>>, b: Seq<Seq<char>>)
    ensures
        last_or(prev, a + b) == last_or(last_or(prev, a), b),
{
    if b.len() > 0 {
        assert((a + b).last() == b.last());
    } else {
        assert(a + b =~= a);
    }
}

fn unpack_entry<T>(fields: Vec<(String, T)>, items: &mut Vec<T>)
    ensures
        final(items)@ == old(items)@ + entry_values(fields@),
{
    let ghost all = fields@;
    let mut rest = fields;
    while rest.len() > 0
        invariant
            items@ + entry_values(rest@) == old(items)@ + entry_values(all),
        decreases rest.len(),
    {
        let ghost before = rest@;
        let field = rest.remove(0);
        proof {
            assert(entry_values(before) =~= seq![field.1] + entry_values(rest@));
        }
        items.push(field.1);
        proof {
            assert(items@ + entry_values(rest@) =~= old(items)@ + entry_values(all));
        }
    }
    proof {
        assert(entry_values(rest@) =~= Seq::<T>::empty());
    }
}

fn unpack_batch<T>(entries: Vec<StreamEntry<T>>, last: &mut Option<String>, items: &mut Vec<T>)
    ensures
        final(items)@ == old(items)@ + batch_values(entries@),
        opt_view(*final(last)) == last_or(opt_view(*old(last)), batch_ids(entries@)),
{
    let ghost all = entries@;
    let mut rest = entries;
    while rest.len() > 0
        invariant
            items@ + batch_values(rest@) == old(items)@ + batch_values(all),
            last_or(opt_view(*last), batch_ids(rest@)) == last_or(opt_view(*old(last)), batch_ids(all)),
        decreases rest.len(),
    {
        let ghost before = rest@;
        let entry = rest.remove(0);
        proof {
            assert(rest@ =~= before.drop_first());
            assert(batch_ids(before) =~= seq![entry.0@] + batch_ids(rest@));
            lemma_last_or_cons(opt_view(*last), entry.0@, batch_ids(rest@));
        }
        let (id, fields) = entry;
        *last = Some(id);
        unpack_entry(fields, items);
    }
    proof {
        assert(batch_ids(rest@) =~= Seq::<Seq<char>>::empty());
    }
}

/// Walks a whole reply: every value in order, and the id of the last entry
/// (or `last` unchanged when the reply holds no entry).
pub fn unpack_reply<T>(reply: StreamReply<T>, last: Option<String>) -> (r: (Option<String>, Vec<T>))
    ensures
        r.1@ == reply_values(reply@),
        opt_view(r.0) == last_or(opt_view(last), reply_ids(reply@)),
{
    let ghost all = reply@;
    let mut items: Vec<T> = Vec::new();
    let mut last = last;
    let ghost last0 = opt_view(last);
    let mut rest = reply;
    while rest.len() > 0
        invariant
            items@ + reply_values(rest@) == reply_values(all),
            last_or(opt_view(last), reply_ids(rest@)) == last_or(last0, reply_ids(all)),
        decreases rest.len(),
    {
        let ghost before = rest@;
        let batch = rest.remove(0);
        let ghost prev = opt_view(last);
        proof {
            assert(rest@ =~= before.drop_first());
            lemma_last_or_concat(prev, batch_ids(batch.1@), reply_ids(rest@));
        }
        let (_key, entries) = batch;
        unpack_batch(entries, &mut last, &mut items);
        proof {
            assert(items@ + reply_values(rest@) =~= reply_values(all));
        }
    }
    proof {
        assert(items@ =~= reply_values(all));
    }
    (last, items)
}

/// Reading a stream in two replies hands on the same values, in the same
/// order, and leaves the cursor at the same entry, as reading it in one.
pub proof fn lemma_replies_compose<T>(
    cursor: Seq<char>,
    a: Seq<StreamBatch<T>>,
    b: Seq<StreamBatch<T>>,
)
    ensures
        reply_values(a + b) == reply_values(a) + reply_values(b),
        reply_ids(a + b) == reply_ids(a) + reply_ids(b),
        cursor_after(cursor_after(cursor, a), b) == cursor_after(cursor, a + b),
    decreases a.len(),
{
    if a.len() == 0 {
        assert(a + b =~= b);
        assert(reply_values(a) + reply_values(b) =~= reply_values(b));
        assert(reply_ids(a) + reply_ids(b) =~= reply_ids(b));
    } else {
        assert((a + b).drop_first() =~= a.drop_first() + b);
        assert((a + b)[0] == a[0]);
        lemma_replies_compose(cursor, a.drop_first(), b);
        assert(reply_values(a + b) =~= reply_values(a) + reply_values(b));
        assert(reply_ids(a + b) =~= reply_ids(a) + reply_ids(b));
        let ia = reply_ids(a);
        let ib = reply_ids(b);
        if ib.len() > 0 {
            assert((ia + ib).last() == ib.last());
        } else {
            assert(ia + ib =~= ia);
        }
    }
}

/// Where a cursor stands after several replies, consumed one after another.
pub open spec fn cursor_after_each<T>(cursor: Seq<char>, replies: Seq<Seq<StreamBatch<T>>>) -> Seq<
    char,
>
    decreases replies.len(),
{
    if replies.len() == 0 {
        cursor
    } else {
        cursor_after_each(cursor_after(cursor, replies[0]), replies.drop_first())
    }
}

/// The ids of the entries of several replies, one reply after another.
pub open spec fn ids_of_replies<T>(replies: Seq<Seq<StreamBatch<T>>>) -> Seq<Seq<char>>
    decreases replies.len(),
{
    if replies.len() == 0 {
        Seq::empty()
    } else {
        reply_ids(replies[0]) + ids_of_replies(replies.drop_first())
    }
}

/// After any number of replies the cursor stands on the last entry of the
/// last reply that held an entry, or where it started if none did.
pub proof fn lemma_cursor_after_each<T>(cursor: Seq<char>, replies: Seq<Seq<StreamBatch<T>>>)
    ensures
        cursor_after_each(cursor, replies) == (if ids_of_replies(replies).len() == 0 {
            cursor
        } else {
            ids_of_replies(replies).last()
        }),
    decreases replies.len(),
{
    if replies.len() > 0 {
        let first = reply_ids(replies[0]);
        let rest = ids_of_replies(replies.drop_first());
        lemma_cursor_after_each(cursor_after(cursor, replies[0]), replies.drop_first());
        if rest.len() > 0 {
            assert((first + rest).last() == rest.last());
        } else {
            assert(first + rest =~= first);
        }
    }
}

/// A reply without entries hands nothing on and leaves the cursor alone.
pub proof fn lemma_empty_reply_keeps_cursor<T>(cursor: Seq<char>, reply: Seq<StreamBatch<T>>)
    requires
        forall|i: int| 0 <= i < reply.len() ==> (#[trigger] reply[i]).1@.len() == 0,
    ensures
        reply_values(reply) == Seq::<T>::empty(),
        cursor_after(cursor, reply) == cursor,
    decreases reply.len(),
{
    if reply.len() > 0 {
        assert(reply[0].1@.len() == 0);
        assert forall|i: int| 0 <= i < reply.drop_first().len() implies (
        #[trigger] reply.drop_first()[i]).1@.len() == 0 by {
            assert(reply.drop_first()[i] == reply[i + 1]);
        }
        lemma_empty_reply_keeps_cursor(cursor, reply.drop_first());
        assert(batch_ids(reply[0].1@) =~= Seq::<Seq<char>>::empty());
        assert(reply_ids(reply) =~= reply_ids(reply.drop_first()));
        assert(reply_values(reply) =~= reply_values(reply.drop_first()));
    }
}

/// What a live stream reader's loop can be woken by.
pub enum ReaderEvent<M> {
    /// The program is shutting down.
    Cancelled,
    /// The read failed.
    ReadFailed,
    /// The read returned a reply.
    Replied(M),
}

/// What a live stream reader does next.
pub enum ReaderAction<M> {
    /// Leave the loop.
    Stop,
    /// Read again.
    Skip,
    /// Hand the reply on, then read again.
    Deliver(M),
}

/// One turn of a live stream reader: stop on shutdown, hand each reply on,
/// and read again after a failed read.
pub fn reader_step<M>(event: ReaderEvent<M>) -> (a: ReaderAction<M>)
    ensures
        match event {
            ReaderEvent::Cancelled => a is Stop,
            ReaderEvent::ReadFailed => a is Skip,
            ReaderEvent::Replied(m) => a == ReaderAction::Deliver(m),
        },
{
    match event {
        ReaderEvent::Cancelled => ReaderAction::Stop,
        ReaderEvent::ReadFailed => ReaderAction::Skip,
        ReaderEvent::Replied(m) => ReaderAction::Deliver(m),
    }
}

/// The parameters of one `XREAD` call on a single stream key.
pub struct ReadRequest {
    /// The stream key.
    pub key: String,
    /// The id after which entries are read (`$` for new entries only).
    pub id: String,
    /// The largest number of entries to return.
    pub count: usize,
    /// How long to block for new entries, in milliseconds (`Some(0)`: forever).
    pub block: Option<usize>,
}

/// `c` has the Unicode property `White_Space` (what `char::is_whitespace`
/// and `str::trim` go by).
pub open spec fn is_white_space(c: char) -> bool {
    ||| ('\u{9}' <= c && c <= '\u{d}')
    ||| c == ' '
    ||| c == '\u{85}'
    ||| c == '\u{a0}'
    ||| c == '\u{1680}'
    ||| ('\u{2000}' <= c && c <= '\u{200a}')
    ||| c == '\u{2028}'
    ||| c == '\u{2029}'
    ||| c == '\u{202f}'
    ||| c == '\u{205f}'
    ||| c == '\u{3000}'
}

/// `r` is `s` with its leading and trailing white space removed: a run of
/// `s` that is empty or starts and ends with other characters, with only
/// white space around it.
pub open spec fn is_trim_of(r: Seq<char>, s: Seq<char>) -> bool {
    exists|i: int, j: int|
        #![trigger s.subrange(i, j)]
        {
            &&& 0 <= i <= j <= s.len()
            &&& r == s.subrange(i, j)
            &&& forall|k: int| 0 <= k < i ==> is_white_space(#[trigger] s[k])
            &&& forall|k: int| j <= k < s.len() ==> is_white_space(#[trigger] s[k])
            &&& r.len() > 0 ==> !is_white_space(r[0]) && !is_white_space(r.last())
        }
}

/// `str::trim`, copied into an owned string: the documentation says it
/// removes the leading and trailing characters that have the Unicode
/// property `White_Space`; the contract claims that.
#[verifier::external_body]
fn trim_text(s: &str) -> (r: String)
    ensures
        is_trim_of(r@, s@),
{
    s.trim().to_owned()
}

/// The record saved in a file between runs, read from the file's text:
/// the text without its surrounding white space.
pub fn saved_record(contents: &str) -> (r: String)
    ensures
        is_trim_of(r@, contents@),
{
    trim_text(contents)
}

/// A record that neither starts nor ends with white space (as a stream id
/// never does) is read back exactly as it was saved.
pub proof fn lemma_saved_record_round_trip(r: Seq<char>, s: Seq<char>)
    requires
        s.len() > 0 ==> !is_white_space(s[0]) && !is_white_space(s.last()),
        is_trim_of(r, s),
    ensures
        r == s,
{
    let (i, j) = choose|i: int, j: int|
        #![trigger s.subrange(i, j)]
        {
            &&& 0 <= i <= j <= s.len()
            &&& r == s.subrange(i, j)
            &&& forall|k: int| 0 <= k < i ==> is_white_space(#[trigger] s[k])
            &&& forall|k: int| j <= k < s.len() ==> is_white_space(#[trigger] s[k])
            &&& r.len() > 0 ==> !is_white_space(r[0]) && !is_white_space(r.last())
        };
    if i > 0 {
        assert(is_white_space(s[0]));
    }
    if j < s.len() {
        assert(is_white_space(s[s.len() - 1]));
    }
    assert(r =~= s);
}

/// Copies a string slice into an owned string.
pub fn owned(s: &str) -> (r: String)
    ensures
        r@ == s@,
{
    s.to_string()
}

} // verus!
