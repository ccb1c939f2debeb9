use socks5_core::session::method_reply;
use socks5_core::session::start;
use socks5_core::session::step;
use socks5_core::session::success_reply;
use socks5_core::session::Action;
use socks5_core::session::Event;
use socks5_core::session::SessionError;
use socks5_core::session::State;

fn bytes(data: Vec<u8>) -> Event {
    Event::Bytes { data }
}

#[test]
fn greeting_with_methods_gets_no_auth_reply() {
    let (s, a) = start();
    assert_eq!(s, State::Greeting);
    assert_eq!(a, Action::Read { count: 2 });
    let (s, a) = step(s, bytes(vec![0x05, 0x02]));
    assert_eq!(s, State::Methods { count: 2 });
    assert_eq!(a, Action::Read { count: 2 });
    let (s, a) = step(s, bytes(vec![0x00, 0xFF]));
    assert_eq!(s, State::MethodReply);
    assert_eq!(a, Action::Write { bytes: vec![0x05, 0x00] });
}

#[test]
fn greeting_with_no_methods_gets_no_auth_reply() {
    let (s, _) = start();
    let (s, a) = step(s, bytes(vec![0x05, 0x00]));
    assert_eq!(s, State::Methods { count: 0 });
    assert_eq!(a, Action::Read { count: 0 });
    let (_, a) = step(s, bytes(vec![]));
    assert_eq!(a, Action::Write { bytes: vec![0x05, 0x00] });
}

#[test]
fn non_socks5_greeting_closes_without_reply() {
    let (s, _) = start();
    let (s, a) = step(s, bytes(vec![0x04, 0x01]));
    assert_eq!(s, State::Closed { error: Some(SessionError::ProtocolVersion) });
    assert_eq!(a, Action::Close { error: Some(SessionError::ProtocolVersion) });
}

#[test]
fn ipv4_connect_dials_dotted_quad_target() {
    let (s, _) = start();
    let (s, _) = step(s, bytes(vec![0x05, 0x01]));
    let (s, _) = step(s, bytes(vec![0x00]));
    let (s, a) = step(s, Event::WriteOk);
    assert_eq!(s, State::Request);
    assert_eq!(a, Action::Read { count: 4 });
    let (s, a) = step(s, bytes(vec![0x05, 0x01, 0x00, 0x01]));
    assert_eq!(s, State::Ipv4Addr);
    assert_eq!(a, Action::Read { count: 4 });
    let (s, a) = step(s, bytes(vec![127, 0, 0, 1]));
    assert_eq!(s, State::PortBytes { host: b"127.0.0.1".to_vec() });
    assert_eq!(a, Action::Read { count: 2 });
    let (s, a) = step(s, bytes(vec![0x00, 0x50]));
    assert_eq!(s, State::Connecting);
    assert_eq!(a, Action::Dial { target: b"127.0.0.1:80".to_vec() });
}

#[test]
fn domain_connect_dials_name_and_port() {
    let (s, a) = step(State::Request, bytes(vec![0x05, 0x01, 0x00, 0x03]));
    assert_eq!(s, State::DomainLen);
    assert_eq!(a, Action::Read { count: 1 });
    let (s, a) = step(s, bytes(vec![9]));
    assert_eq!(s, State::DomainName { len: 9 });
    assert_eq!(a, Action::Read { count: 9 });
    let (s, a) = step(s, bytes(b"localhost".to_vec()));
    assert_eq!(s, State::PortBytes { host: b"localhost".to_vec() });
    assert_eq!(a, Action::Read { count: 2 });
    let (s, a) = step(s, bytes(vec![0x1F, 0x90]));
    assert_eq!(s, State::Connecting);
    assert_eq!(a, Action::Dial { target: b"localhost:8080".to_vec() });
}

#[test]
fn empty_domain_name_is_taken_as_is() {
    let (s, _) = step(State::DomainLen, bytes(vec![0]));
    assert_eq!(s, State::DomainName { len: 0 });
    let (s, a) = step(s, bytes(vec![]));
    assert_eq!(s, State::PortBytes { host: vec![] });
    assert_eq!(a, Action::Read { count: 2 });
}

#[test]
fn non_ascii_utf8_domain_is_accepted() {
    let (s, _) = step(State::DomainLen, bytes(vec![2]));
    let (s, a) = step(s, bytes(vec![0xC3, 0xA9]));
    assert_eq!(s, State::PortBytes { host: vec![0xC3, 0xA9] });
    assert_eq!(a, Action::Read { count: 2 });
}

#[test]
fn invalid_utf8_domain_closes_session() {
    let (s, _) = step(State::DomainLen, bytes(vec![2]));
    let (s, a) = step(s, bytes(vec![0xFF, 0xFE]));
    assert_eq!(s, State::Closed { error: Some(SessionError::InvalidEncoding) });
    assert_eq!(a, Action::Close { error: Some(SessionError::InvalidEncoding) });
}

#[test]
fn bind_command_is_rejected() {
    let (s, a) = step(State::Request, bytes(vec![0x05, 0x02, 0x00, 0x01]));
    assert_eq!(s, State::Closed { error: Some(SessionError::InvalidRequest) });
    assert_eq!(a, Action::Close { error: Some(SessionError::InvalidRequest) });
}

#[test]
fn wrong_request_version_is_rejected() {
    let (s, a) = step(State::Request, bytes(vec![0x04, 0x01, 0x00, 0x01]));
    assert_eq!(s, State::Closed { error: Some(SessionError::InvalidRequest) });
    assert_eq!(a, Action::Close { error: Some(SessionError::InvalidRequest) });
}

#[test]
fn ipv6_address_type_closes_without_reply() {
    let (s, a) = step(State::Request, bytes(vec![0x05, 0x01, 0x00, 0x04]));
    assert_eq!(s, State::Closed { error: Some(SessionError::UnsupportedAddressType) });
    assert_eq!(a, Action::Close { error: Some(SessionError::UnsupportedAddressType) });
}

#[test]
fn unknown_address_type_closes_without_reply() {
    let (s, a) = step(State::Request, bytes(vec![0x05, 0x01, 0x00, 0x00]));
    assert_eq!(s, State::Closed { error: Some(SessionError::UnsupportedAddressType) });
    assert_eq!(a, Action::Close { error: Some(SessionError::UnsupportedAddressType) });
}

#[test]
fn successful_dial_writes_fixed_reply_then_relays() {
    let (s, a) = step(State::Connecting, Event::DialOk);
    assert_eq!(s, State::SuccessReply);
    assert_eq!(
        a,
        Action::Write { bytes: vec![0x05, 0x00, 0x00, 0x01, 0, 0, 0, 0, 0, 0] }
    );
    let (s, a) = step(s, Event::WriteOk);
    assert_eq!(s, State::Relaying);
    assert_eq!(a, Action::StartRelay);
}

#[test]
fn failed_dial_closes_with_upstream_error() {
    let (s, a) = step(State::Connecting, Event::Failed);
    assert_eq!(s, State::Closed { error: Some(SessionError::UpstreamDial) });
    assert_eq!(a, Action::Close { error: Some(SessionError::UpstreamDial) });
}

#[test]
fn failed_method_reply_write_closes_with_handshake_error() {
    let (s, a) = step(State::MethodReply, Event::Failed);
    assert_eq!(s, State::Closed { error: Some(SessionError::HandshakeWrite) });
    assert_eq!(a, Action::Close { error: Some(SessionError::HandshakeWrite) });
}

#[test]
fn failed_read_closes_with_io_error() {
    let (s, a) = step(State::Greeting, Event::Failed);
    assert_eq!(s, State::Closed { error: Some(SessionError::Io) });
    assert_eq!(a, Action::Close { error: Some(SessionError::Io) });
}

#[test]
fn relay_end_closes_cleanly() {
    let (s, a) = step(State::Relaying, Event::RelayDone);
    assert_eq!(s, State::Closed { error: None });
    assert_eq!(a, Action::Close { error: None });
}

#[test]
fn relay_error_still_closes_cleanly() {
    let (s, a) = step(State::Relaying, Event::Failed);
    assert_eq!(s, State::Closed { error: None });
    assert_eq!(a, Action::Close { error: None });
}

#[test]
fn fixed_replies_are_byte_exact() {
    assert_eq!(method_reply(), vec![0x05, 0x00]);
    assert_eq!(
        success_reply(),
        vec![0x05, 0x00, 0x00, 0x01, 0x00, 0x00, 0x00, 0x00, 0x00, 0x00]
    );
}
