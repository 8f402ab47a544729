//! Tests of the session state machine and command façade: legality gates,
//! login sequencing, state transitions, deletion marks and the capability
//! cache.

use pop3::codec::{ReplyUnit, Status};
use pop3::error::{Error, ErrorKind};
use pop3::response::list::ListResponse;
use pop3::response::uidl::UidlResponse;
use pop3::{Client, ClientState};

fn ok_line(text: &[u8]) -> ReplyUnit {
    ReplyUnit::SingleLine(Status::Positive, text.to_vec())
}

fn err_line(text: &[u8]) -> ReplyUnit {
    ReplyUnit::SingleLine(Status::Negative, text.to_vec())
}

fn ok_multi(lines: &[&[u8]]) -> ReplyUnit {
    ReplyUnit::MultiLine(Status::Positive, Vec::new(), lines.iter().map(|l| l.to_vec()).collect())
}

fn connected() -> Client {
    Client::new(ok_line(b"POP3 ready")).expect("greeting refused")
}

fn logged_in() -> Client {
    let mut c = connected();
    c.user_request("alice").unwrap();
    c.user_response(ok_line(b"")).unwrap();
    c.pass_request("pw").unwrap();
    c.pass_response(ok_line(b"")).unwrap();
    c
}

#[test]
fn greeting_is_captured() {
    let c = connected();
    assert_eq!(c.get_state(), &ClientState::Authorization);
    assert_eq!(c.greeting(), Some(&b"POP3 ready".to_vec()));
}

#[test]
fn negative_greeting_is_refused() {
    let e = Client::new(err_line(b"busy")).unwrap_err();
    assert_eq!(*e.kind(), ErrorKind::ServerFailedToGreet);
}

#[test]
fn stat_in_authorization_fails_locally() {
    let c = connected();
    let e = c.stat_request().unwrap_err();
    assert_eq!(*e.kind(), ErrorKind::IncorrectStateForCommand);
}

#[test]
fn commands_after_quit_fail_with_not_connected() {
    let mut c = logged_in();
    c.quit_request().unwrap();
    c.quit_response(ok_line(b"bye")).unwrap();
    assert_eq!(c.get_state(), &ClientState::Update);
    let e = c.stat_request().unwrap_err();
    assert_eq!(*e.kind(), ErrorKind::NotConnected);
}

#[test]
fn login_rejected_password_stays_in_authorization() {
    let mut c = connected();
    c.user_request("alice").unwrap();
    c.user_response(ok_line(b"")).unwrap();
    c.pass_request("wrong").unwrap();
    let e = c.pass_response(err_line(b"invalid password")).unwrap_err();
    assert_eq!(*e.kind(), ErrorKind::ServerError(b"invalid password".to_vec()));
    assert_eq!(c.get_state(), &ClientState::Authorization);
}

#[test]
fn login_accepted_password_reaches_transaction() {
    let c = logged_in();
    assert_eq!(c.get_state(), &ClientState::Transaction);
}

#[test]
fn login_rejected_user_is_server_error() {
    let mut c = connected();
    c.user_request("nobody").unwrap();
    let e = c.user_response(err_line(b"unknown user")).unwrap_err();
    assert_eq!(*e.kind(), ErrorKind::ServerError(b"unknown user".to_vec()));
    assert_eq!(c.get_state(), &ClientState::Authorization);
}

#[test]
fn request_wire_bytes_are_exact() {
    let c = connected();
    assert_eq!(c.user_request("alice").unwrap(), b"USER alice\r\n".to_vec());
    assert_eq!(c.pass_request("pw").unwrap(), b"PASS pw\r\n".to_vec());
    assert_eq!(c.quit_request().unwrap(), b"QUIT\r\n".to_vec());
    let t = logged_in();
    assert_eq!(t.stat_request().unwrap(), b"STAT\r\n".to_vec());
    assert_eq!(t.noop_request().unwrap(), b"NOOP\r\n".to_vec());
    assert_eq!(t.rset_request().unwrap(), b"RSET\r\n".to_vec());
    assert_eq!(t.capa_request().unwrap(), b"CAPA\r\n".to_vec());
    assert_eq!(t.list_request(None).unwrap(), b"LIST\r\n".to_vec());
    assert_eq!(t.list_request(Some(12)).unwrap(), b"LIST 12\r\n".to_vec());
    assert_eq!(t.uidl_request(None).unwrap(), b"UIDL\r\n".to_vec());
    assert_eq!(t.uidl_request(Some(7)).unwrap(), b"UIDL 7\r\n".to_vec());
    assert_eq!(t.retr_request(2).unwrap(), b"RETR 2\r\n".to_vec());
    assert_eq!(t.top_request(3, 0).unwrap(), b"TOP 3 0\r\n".to_vec());
    assert_eq!(t.dele_request(1).unwrap(), b"DELE 1\r\n".to_vec());
}

#[test]
fn stat_parses_count_and_size() {
    let mut c = logged_in();
    let st = c.stat_response(ok_line(b"2 320")).unwrap();
    assert_eq!(st.count, 2);
    assert_eq!(st.size, 320);
    assert_eq!(c.get_state(), &ClientState::Transaction);
}

#[test]
fn stat_zero_zero() {
    let mut c = logged_in();
    let st = c.stat_response(ok_line(b"0 0")).unwrap();
    assert_eq!(st.count, 0);
    assert_eq!(st.size, 0);
}

#[test]
fn stat_without_two_fields_is_invalid_response() {
    let mut c = logged_in();
    let e = c.stat_response(ok_line(b"12")).unwrap_err();
    assert_eq!(*e.kind(), ErrorKind::InvalidResponse);
    assert_eq!(c.get_state(), &ClientState::Disconnected);
}

#[test]
fn stat_with_garbled_number_is_parse_int() {
    let mut c = logged_in();
    let e = c.stat_response(ok_line(b"x 320")).unwrap_err();
    assert_eq!(*e.kind(), ErrorKind::ParseInt);
    assert_eq!(c.get_state(), &ClientState::Disconnected);
}

#[test]
fn stat_declined_keeps_session() {
    let mut c = logged_in();
    let e = c.stat_response(err_line(b"later")).unwrap_err();
    assert_eq!(*e.kind(), ErrorKind::ServerError(b"later".to_vec()));
    assert_eq!(c.get_state(), &ClientState::Transaction);
}

#[test]
fn list_parses_ordered_items() {
    let mut c = logged_in();
    let r = c.list_all_response(ok_multi(&[b"1 120", b"2 230"])).unwrap();
    match r {
        ListResponse::Multiple(items) => {
            assert_eq!(items.len(), 2);
            assert_eq!((items[0].num, items[0].size), (1, 120));
            assert_eq!((items[1].num, items[1].size), (2, 230));
        }
        _ => unreachable!(),
    }
}

#[test]
fn list_empty_body_is_empty_list() {
    let mut c = logged_in();
    let r = c.list_all_response(ok_multi(&[])).unwrap();
    match r {
        ListResponse::Multiple(items) => assert_eq!(items.len(), 0),
        _ => unreachable!(),
    }
}

#[test]
fn list_malformed_line_aborts() {
    let mut c = logged_in();
    let e = c.list_all_response(ok_multi(&[b"1 120", b"oops"])).unwrap_err();
    assert_eq!(*e.kind(), ErrorKind::InvalidResponse);
    assert_eq!(c.get_state(), &ClientState::Disconnected);
}

#[test]
fn list_message_number_zero_is_invalid() {
    let mut c = logged_in();
    let e = c.list_all_response(ok_multi(&[b"0 5"])).unwrap_err();
    assert_eq!(*e.kind(), ErrorKind::InvalidResponse);
}

#[test]
fn list_single_item() {
    let mut c = logged_in();
    let r = c.list_one_response(ok_line(b"4 120")).unwrap();
    match r {
        ListResponse::Single(it) => assert_eq!((it.num, it.size), (4, 120)),
        _ => unreachable!(),
    }
}

#[test]
fn uidl_parses_ids_verbatim() {
    let mut c = logged_in();
    let r = c
        .uidl_all_response(ok_multi(&[b"1 whqtswO00WBw418f9t5JxYwZ", b"2 QhdPYR:00WBw1Ph7x7"]))
        .unwrap();
    match r {
        UidlResponse::Multiple(items) => {
            assert_eq!(items.len(), 2);
            assert_eq!(items[0].num, 1);
            assert_eq!(items[0].id, b"whqtswO00WBw418f9t5JxYwZ".to_vec());
            assert_eq!(items[1].num, 2);
            assert_eq!(items[1].id, b"QhdPYR:00WBw1Ph7x7".to_vec());
        }
        _ => unreachable!(),
    }
}

#[test]
fn uidl_single_item() {
    let mut c = logged_in();
    let r = c.uidl_one_response(ok_line(b"1 whqtswO00WBw418f9t5JxYwZ")).unwrap();
    match r {
        UidlResponse::Single(it) => {
            assert_eq!(it.num, 1);
            assert_eq!(it.id, b"whqtswO00WBw418f9t5JxYwZ".to_vec());
        }
        _ => unreachable!(),
    }
}

#[test]
fn uidl_id_with_space_is_invalid() {
    let mut c = logged_in();
    let e = c.uidl_all_response(ok_multi(&[b"1 two words"])).unwrap_err();
    assert_eq!(*e.kind(), ErrorKind::InvalidResponse);
}

#[test]
fn uidl_garbled_number_is_parse_int() {
    let mut c = logged_in();
    let e = c.uidl_one_response(ok_line(b"abc xyz")).unwrap_err();
    assert_eq!(*e.kind(), ErrorKind::ParseInt);
}

#[test]
fn retr_returns_body_lines() {
    let mut c = logged_in();
    let body = c
        .fetch_response(ok_multi(&[b"From: a@example.org", b"", b"hello"]))
        .unwrap();
    assert_eq!(body, vec![b"From: a@example.org".to_vec(), b"".to_vec(), b"hello".to_vec()]);
}

#[test]
fn dele_marks_message_and_blocks_it() {
    let mut c = logged_in();
    c.dele_request(1).unwrap();
    c.dele_response(1, ok_line(b"")).unwrap();
    assert!(c.is_deleted(1));
    let e = c.retr_request(1).unwrap_err();
    assert_eq!(*e.kind(), ErrorKind::MessageIsDeleted);
    let e = c.top_request(1, 5).unwrap_err();
    assert_eq!(*e.kind(), ErrorKind::MessageIsDeleted);
    let e = c.dele_request(1).unwrap_err();
    assert_eq!(*e.kind(), ErrorKind::MessageIsDeleted);
    assert!(c.retr_request(2).is_ok());
}

#[test]
fn rset_clears_deletion_marks() {
    let mut c = logged_in();
    c.dele_response(1, ok_line(b"")).unwrap();
    c.rset_request().unwrap();
    c.rset_response(ok_line(b"")).unwrap();
    assert!(!c.is_deleted(1));
    assert!(c.retr_request(1).is_ok());
}

#[test]
fn quit_moves_to_update_from_authorization() {
    let mut c = connected();
    c.quit_request().unwrap();
    c.quit_response(ok_line(b"bye")).unwrap();
    assert_eq!(c.get_state(), &ClientState::Update);
}

#[test]
fn quit_moves_to_update_from_transaction() {
    let mut c = logged_in();
    c.quit_request().unwrap();
    c.quit_response(ok_line(b"bye")).unwrap();
    assert_eq!(c.get_state(), &ClientState::Update);
}

#[test]
fn marked_disconnected_session_rejects_commands() {
    let mut c = logged_in();
    c.mark_disconnected();
    assert_eq!(c.get_state(), &ClientState::Disconnected);
    let e = c.stat_request().unwrap_err();
    assert_eq!(*e.kind(), ErrorKind::NotConnected);
    let e = c.quit_request().unwrap_err();
    assert_eq!(*e.kind(), ErrorKind::NotConnected);
}

#[test]
fn error_accessors() {
    let e = Error::new(ErrorKind::ConnectionClosed, "gone".to_owned());
    assert_eq!(e.message(), "gone");
    assert_eq!(*e.kind(), ErrorKind::ConnectionClosed);
}

#[test]
fn full_session_scenario() {
    let mut c = Client::new(ok_line(b"POP3 ready")).unwrap();
    assert_eq!(c.greeting(), Some(&b"POP3 ready".to_vec()));
    assert_eq!(c.user_request("alice").unwrap(), b"USER alice\r\n".to_vec());
    c.user_response(ok_line(b"")).unwrap();
    assert_eq!(c.pass_request("pw").unwrap(), b"PASS pw\r\n".to_vec());
    c.pass_response(ok_line(b"")).unwrap();
    assert_eq!(c.get_state(), &ClientState::Transaction);
    let st = c.stat_response(ok_line(b"0 0")).unwrap();
    assert_eq!((st.count, st.size), (0, 0));
    match c.list_all_response(ok_multi(&[])).unwrap() {
        ListResponse::Multiple(items) => assert_eq!(items.len(), 0),
        _ => unreachable!(),
    }
    c.quit_response(ok_line(b"bye")).unwrap();
    assert_eq!(c.get_state(), &ClientState::Update);
}
