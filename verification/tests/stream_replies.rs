use task_services::stream::{
    reader_step, saved_record, unpack_reply, ReaderAction, ReaderEvent, StreamReply,
};

fn s(x: &str) -> String {
    x.to_string()
}

fn sample() -> StreamReply<char> {
    vec![
        (
            s("inserts"),
            vec![
                (s("1-0"), vec![(s("task"), 'a'), (s("task"), 'b')]),
                (s("2-0"), vec![(s("task"), 'c')]),
            ],
        ),
        (s("updates"), vec![(s("3-0"), vec![(s("task"), 'd')])]),
    ]
}

#[test]
fn reply_values_come_in_stream_order() {
    let (last, items) = unpack_reply(sample(), Some(s("0-0")));
    assert_eq!(items, vec!['a', 'b', 'c', 'd']);
    assert_eq!(last, Some(s("3-0")));
}

#[test]
fn reply_without_entries_keeps_cursor() {
    let reply: StreamReply<char> = vec![(s("inserts"), vec![])];
    let (last, items) = unpack_reply(reply, Some(s("7-1")));
    assert!(items.is_empty());
    assert_eq!(last, Some(s("7-1")));
    let (none, nothing) = unpack_reply(Vec::<(String, Vec<(String, Vec<(String, char)>)>)>::new(), None);
    assert!(nothing.is_empty());
    assert_eq!(none, None);
}

#[test]
fn entry_without_fields_still_moves_cursor() {
    let reply: StreamReply<char> = vec![(s("inserts"), vec![(s("9-0"), vec![])])];
    let (last, items) = unpack_reply(reply, Some(s("1-0")));
    assert!(items.is_empty());
    assert_eq!(last, Some(s("9-0")));
}

#[test]
fn replies_read_in_two_parts_compose() {
    let mut all = sample();
    let second = all.split_off(1);
    let (mid, first_items) = unpack_reply(all, Some(s("0-0")));
    let (end, second_items) = unpack_reply(second, mid);
    let (whole_end, whole_items) = unpack_reply(sample(), Some(s("0-0")));
    let mut joined = first_items;
    joined.extend(second_items);
    assert_eq!(joined, whole_items);
    assert_eq!(end, whole_end);
}

#[test]
fn reader_stops_delivers_or_reads_again() {
    assert!(matches!(reader_step::<u8>(ReaderEvent::Cancelled), ReaderAction::Stop));
    assert!(matches!(reader_step::<u8>(ReaderEvent::ReadFailed), ReaderAction::Skip));
    assert!(matches!(reader_step(ReaderEvent::Replied(7u8)), ReaderAction::Deliver(7)));
}

#[test]
fn saved_record_trims_unicode_white_space_only() {
    assert_eq!(saved_record("\u{3000}\t1700-0 \u{85}"), "1700-0");
    assert_eq!(saved_record("1700-0"), "1700-0");
    assert_eq!(saved_record("a b"), "a b");
    assert_eq!(saved_record("\u{200b}x"), "\u{200b}x");
    assert_eq!(saved_record(" \n "), "");
}
