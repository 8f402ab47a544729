//! Tests of capability parsing and the capability cache.

use pop3::codec::{ReplyUnit, Status};
use pop3::error::ErrorKind;
use pop3::response::capability::{arg_type, Capability, DataType};
use pop3::{Client, ClientState};

fn ok_line(text: &[u8]) -> ReplyUnit {
    ReplyUnit::SingleLine(Status::Positive, text.to_vec())
}

fn ok_multi(lines: &[&[u8]]) -> ReplyUnit {
    ReplyUnit::MultiLine(Status::Positive, Vec::new(), lines.iter().map(|l| l.to_vec()).collect())
}

fn logged_in() -> Client {
    let mut c = Client::new(ok_line(b"ready")).unwrap();
    c.user_response(ok_line(b"")).unwrap();
    c.pass_response(ok_line(b"")).unwrap();
    c
}

#[test]
fn capa_parses_known_and_unknown_names() {
    let mut c = logged_in();
    let caps = c
        .capa_response(ok_multi(&[
            b"TOP",
            b"USER",
            b"SASL PLAIN KERBEROS_V4",
            b"RESP-CODES",
            b"LOGIN-DELAY 180",
            b"PIPELINING",
            b"EXPIRE 60",
            b"UIDL",
            b"IMPLEMENTATION Shlemazle-Plotz-v302",
            b"XFOO BAR",
        ]))
        .unwrap();
    assert_eq!(caps.len(), 10);
    assert_eq!(caps[0], Capability::Top);
    assert_eq!(caps[1], Capability::User);
    assert_eq!(caps[2], Capability::Sasl(b"PLAIN KERBEROS_V4".to_vec()));
    assert_eq!(caps[3], Capability::RespCodes);
    assert_eq!(caps[4], Capability::LoginDelay(180));
    assert_eq!(caps[5], Capability::Pipelining);
    assert_eq!(caps[6], Capability::Expire(60));
    assert_eq!(caps[7], Capability::Uidl);
    assert_eq!(caps[8], Capability::Implementation(b"Shlemazle-Plotz-v302".to_vec()));
    assert_eq!(caps[9], Capability::Other(b"XFOO BAR".to_vec()));
}

#[test]
fn capa_login_delay_carries_seconds() {
    let mut c = logged_in();
    let caps = c.capa_response(ok_multi(&[b"LOGIN-DELAY 180"])).unwrap();
    match &caps[0] {
        Capability::LoginDelay(secs) => assert_eq!(*secs, 180),
        _ => unreachable!(),
    }
}

#[test]
fn capa_unknown_name_is_preserved_not_dropped() {
    let mut c = logged_in();
    let caps = c.capa_response(ok_multi(&[b"XFOO BAR"])).unwrap();
    assert_eq!(caps.len(), 1);
    assert_eq!(caps[0], Capability::Other(b"XFOO BAR".to_vec()));
}

#[test]
fn capa_known_name_with_bad_argument_is_kept_verbatim() {
    let mut c = logged_in();
    let caps = c.capa_response(ok_multi(&[b"LOGIN-DELAY soon"])).unwrap();
    assert_eq!(caps[0], Capability::Other(b"LOGIN-DELAY soon".to_vec()));
}

#[test]
fn capa_is_case_sensitive() {
    let mut c = logged_in();
    let caps = c.capa_response(ok_multi(&[b"pipelining"])).unwrap();
    assert_eq!(caps[0], Capability::Other(b"pipelining".to_vec()));
}

#[test]
fn capa_allowed_in_authorization() {
    let mut c = Client::new(ok_line(b"ready")).unwrap();
    assert_eq!(c.get_state(), &ClientState::Authorization);
    assert_eq!(c.capa_request().unwrap(), b"CAPA\r\n".to_vec());
    let caps = c.capa_response(ok_multi(&[b"UIDL"])).unwrap();
    assert_eq!(caps[0], Capability::Uidl);
}

#[test]
fn capability_check_uses_the_cache() {
    let mut c = logged_in();
    let e = c.require_capability(b"PIPELINING").unwrap_err();
    assert_eq!(*e.kind(), ErrorKind::FeatureUnsupported);
    c.capa_response(ok_multi(&[b"PIPELINING", b"XFOO BAR"])).unwrap();
    assert!(c.require_capability(b"PIPELINING").is_ok());
    assert!(c.require_capability(b"XFOO").is_ok());
    let e = c.require_capability(b"STLS").unwrap_err();
    assert_eq!(*e.kind(), ErrorKind::FeatureUnsupported);
}

#[test]
fn argument_kinds_of_recognized_names() {
    assert_eq!(arg_type(b"LOGIN-DELAY"), Some(DataType::Duration));
    assert_eq!(arg_type(b"EXPIRE"), Some(DataType::Number));
    assert_eq!(arg_type(b"SASL"), Some(DataType::Text));
    assert_eq!(arg_type(b"IMPLEMENTATION"), Some(DataType::Text));
    assert_eq!(arg_type(b"TOP"), None);
    assert_eq!(arg_type(b"XFOO"), None);
}

#[test]
fn capability_name_of_each_variant() {
    assert_eq!(Client::capability_name(&Capability::Top), b"TOP".to_vec());
    assert_eq!(Client::capability_name(&Capability::User), b"USER".to_vec());
    assert_eq!(Client::capability_name(&Capability::Sasl(b"PLAIN".to_vec())), b"SASL".to_vec());
    assert_eq!(Client::capability_name(&Capability::RespCodes), b"RESP-CODES".to_vec());
    assert_eq!(Client::capability_name(&Capability::LoginDelay(1)), b"LOGIN-DELAY".to_vec());
    assert_eq!(Client::capability_name(&Capability::Pipelining), b"PIPELINING".to_vec());
    assert_eq!(Client::capability_name(&Capability::Expire(2)), b"EXPIRE".to_vec());
    assert_eq!(Client::capability_name(&Capability::Uidl), b"UIDL".to_vec());
    assert_eq!(
        Client::capability_name(&Capability::Implementation(b"x".to_vec())),
        b"IMPLEMENTATION".to_vec()
    );
    assert_eq!(
        Client::capability_name(&Capability::Other(b"XFOO BAR".to_vec())),
        b"XFOO".to_vec()
    );
}
