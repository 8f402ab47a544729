//! Tests of the line codec: status lines, dot-unstuffing, terminator
//! handling and the size budget, all through `ReplyReader`.

use pop3::codec::{ReplyReader, ReplyUnit, Status, MAX_RESPONSE_BYTES};
use pop3::error::ErrorKind;

fn feed_all(reader: &mut ReplyReader, lines: &[&[u8]]) -> bool {
    let mut done = false;
    for l in lines {
        assert!(!done, "reader said done before all lines were fed");
        done = reader.feed_line(l.to_vec()).expect("feed_line failed");
    }
    done
}

fn read_reply(expect_multiline: bool, lines: &[&[u8]]) -> ReplyUnit {
    let mut reader = ReplyReader::new(expect_multiline);
    let done = feed_all(&mut reader, lines);
    assert!(done, "reply unit incomplete after all lines");
    reader.take()
}

#[test]
fn reader_single_positive() {
    let r = read_reply(false, &[b"+OK POP3 ready\r\n"]);
    assert_eq!(r, ReplyUnit::SingleLine(Status::Positive, b"POP3 ready".to_vec()));
}

#[test]
fn reader_single_negative() {
    let r = read_reply(false, &[b"-ERR no mailbox\r\n"]);
    assert_eq!(r, ReplyUnit::SingleLine(Status::Negative, b"no mailbox".to_vec()));
}

#[test]
fn reader_bare_status_words() {
    let r = read_reply(false, &[b"+OK\r\n"]);
    assert_eq!(r, ReplyUnit::SingleLine(Status::Positive, Vec::new()));
    let r = read_reply(false, &[b"-ERR\r\n"]);
    assert_eq!(r, ReplyUnit::SingleLine(Status::Negative, Vec::new()));
}

#[test]
fn reader_rejects_unknown_status_token() {
    let mut reader = ReplyReader::new(false);
    let e = reader.feed_line(b"*BAD stuff\r\n".to_vec()).unwrap_err();
    assert_eq!(*e.kind(), ErrorKind::InvalidResponse);
}

#[test]
fn reader_rejects_status_token_run_together() {
    let mut reader = ReplyReader::new(false);
    let e = reader.feed_line(b"+OKAY\r\n".to_vec()).unwrap_err();
    assert_eq!(*e.kind(), ErrorKind::InvalidResponse);
}

#[test]
fn reader_rejects_line_without_crlf() {
    let mut reader = ReplyReader::new(false);
    let e = reader.feed_line(b"+OK".to_vec()).unwrap_err();
    assert_eq!(*e.kind(), ErrorKind::InvalidResponse);
}

#[test]
fn reader_multiline_unstuffs_dots() {
    let r = read_reply(true, &[b"+OK\r\n", b".foo\r\n", b"..bar\r\n", b"x\r\n", b".\r\n"]);
    match r {
        ReplyUnit::MultiLine(st, txt, body) => {
            assert_eq!(st, Status::Positive);
            assert_eq!(txt, Vec::new());
            assert_eq!(body, vec![b"foo".to_vec(), b".bar".to_vec(), b"x".to_vec()]);
        }
        _ => unreachable!(),
    }
}

#[test]
fn reader_empty_body_is_empty_not_error() {
    let r = read_reply(true, &[b"+OK\r\n", b".\r\n"]);
    match r {
        ReplyUnit::MultiLine(st, _, body) => {
            assert_eq!(st, Status::Positive);
            assert_eq!(body.len(), 0);
        }
        _ => unreachable!(),
    }
}

#[test]
fn reader_terminator_never_in_body() {
    let r = read_reply(true, &[b"+OK\r\n", b"..\r\n", b".\r\n"]);
    match r {
        // the stuffed ".." decodes to "."; the bare terminator is consumed
        ReplyUnit::MultiLine(_, _, body) => assert_eq!(body, vec![b".".to_vec()]),
        _ => unreachable!(),
    }
}

#[test]
fn reader_negative_multiline_stays_single() {
    let r = read_reply(true, &[b"-ERR nope\r\n"]);
    assert_eq!(r, ReplyUnit::SingleLine(Status::Negative, b"nope".to_vec()));
}

#[test]
fn wire_list_reply_round_trips_to_items() {
    // the full path: raw CRLF lines in, scan listings out
    let reply = read_reply(true, &[b"+OK 2 messages\r\n", b"1 120\r\n", b"2 230\r\n", b".\r\n"]);
    let mut client = pop3::Client::new(ReplyUnit::SingleLine(
        Status::Positive,
        b"ready".to_vec(),
    ))
    .unwrap();
    client.user_response(ReplyUnit::SingleLine(Status::Positive, Vec::new())).unwrap();
    client.pass_response(ReplyUnit::SingleLine(Status::Positive, Vec::new())).unwrap();
    match client.list_all_response(reply).unwrap() {
        pop3::response::list::ListResponse::Multiple(items) => {
            assert_eq!(items.len(), 2);
            assert_eq!((items[0].num, items[0].size), (1, 120));
            assert_eq!((items[1].num, items[1].size), (2, 230));
        }
        _ => unreachable!(),
    }
}

#[test]
fn reader_body_over_budget_fails() {
    let mut reader = ReplyReader::new(true);
    assert!(!reader.feed_line(b"+OK\r\n".to_vec()).unwrap());
    let mut big = vec![b'a'; MAX_RESPONSE_BYTES + 1];
    big.push(b'\r');
    big.push(b'\n');
    let e = reader.feed_line(big).unwrap_err();
    assert_eq!(*e.kind(), ErrorKind::ResponseTooLarge);
}
