//! The per-session SOCKS5 protocol state machine.
//!
//! A session owns one client connection end-to-end and progresses strictly
//! through handshake, request parsing, dialing, relaying and closing. The
//! machine itself performs no I/O: [`step`] maps the current [`State`] and
//! the outcome of the last operation (an [`Event`]) to the next state and the
//! next [`Action`] for the surrounding program to perform. The transition
//! relation [`transition`] is the machine's specification, and [`step`] is
//! proved to follow it exactly.

use vstd::prelude::*;

use crate::target::dec_spec;
use crate::target::dotted_quad;
use crate::target::dotted_quad_spec;
use crate::target::is_utf8;
use crate::target::make_target;
use crate::target::port_val;
use crate::target::target_spec;
use crate::target::utf8_check;

verus! {

/// Why a session ended.
#[derive(Clone, Copy, Debug, PartialEq, Eq, Structural)]
pub enum SessionError {
    /// the greeting version byte was not 0x05
    ProtocolVersion,
    /// the request version/command pair was not (0x05, 0x01)
    InvalidRequest,
    /// the request named an address type other than 0x01 or 0x03
    UnsupportedAddressType,
    /// the domain name bytes were not valid UTF-8
    InvalidEncoding,
    /// the method reply could not be written
    HandshakeWrite,
    /// the outbound connection could not be opened
    UpstreamDial,
    /// a read or write on the client connection failed
    Io,
}

/// The protocol stage a session stands in, together with what it waits for.
#[derive(Debug, PartialEq, Eq)]
pub enum State {
    /// awaiting the 2-byte greeting: version and method count
    Greeting,
    /// awaiting `count` offered authentication method bytes
    Methods { count: u8 },
    /// awaiting completion of the no-authentication method reply write
    MethodReply,
    /// awaiting the 4-byte request header: version, command, reserved, ATYP
    Request,
    /// awaiting the 4 raw IPv4 address bytes
    Ipv4Addr,
    /// awaiting the 1-byte domain name length
    DomainLen,
    /// awaiting `len` domain name bytes
    DomainName { len: u8 },
    /// awaiting the 2 big-endian port bytes; `host` is the rendered address
    PortBytes { host: Vec<u8> },
    /// awaiting the outcome of the outbound dial
    Connecting,
    /// awaiting completion of the 10-byte success reply write
    SuccessReply,
    /// relaying raw bytes in both directions
    Relaying,
    /// the session is over; `error` says why it failed, if it did
    Closed { error: Option<SessionError> },
}

/// The outcome of the operation the last action asked for.
#[derive(Debug, PartialEq, Eq)]
pub enum Event {
    /// a requested read completed with exactly the requested bytes
    Bytes { data: Vec<u8> },
    /// a requested write completed in full
    WriteOk,
    /// a requested dial produced a connection
    DialOk,
    /// the first of the two relay directions finished
    RelayDone,
    /// the pending read, write, dial or relay failed
    Failed,
}

/// What the surrounding program must do next.
#[derive(Debug, PartialEq, Eq)]
pub enum Action {
    /// read exactly `count` bytes from the client
    Read { count: usize },
    /// write `bytes` to the client
    Write { bytes: Vec<u8> },
    /// open an outbound TCP connection to `target` (`host:port` bytes)
    Dial { target: Vec<u8> },
    /// both endpoints stand: relay bytes verbatim in both directions
    StartRelay,
    /// close the connections; `error` says why the session failed, if it did
    Close { error: Option<SessionError> },
}

/// The method-selection reply: version 5, no authentication required.
pub open spec fn method_reply_spec() -> Seq<u8> {
    seq![5u8, 0u8]
}

/// The fixed success reply: version 5, succeeded, IPv4 bound address
/// 0.0.0.0:0 — sent regardless of the real bound endpoint.
pub open spec fn success_reply_spec() -> Seq<u8> {
    seq![5u8, 0u8, 0u8, 1u8, 0u8, 0u8, 0u8, 0u8, 0u8, 0u8]
}

/// The events a state can take: exactly the outcomes of the operation its
/// pending action asked for. `Closed` takes no further event.
pub open spec fn expects(s: State, e: Event) -> bool {
    match s {
        State::Greeting => e is Failed || (e matches Event::Bytes { data } && data@.len() == 2),
        State::Methods { count } => e is Failed || (e matches Event::Bytes { data }
            && data@.len() == count as int),
        State::MethodReply => e is Failed || e is WriteOk,
        State::Request => e is Failed || (e matches Event::Bytes { data } && data@.len() == 4),
        State::Ipv4Addr => e is Failed || (e matches Event::Bytes { data } && data@.len() == 4),
        State::DomainLen => e is Failed || (e matches Event::Bytes { data } && data@.len() == 1),
        State::DomainName { len } => e is Failed || (e matches Event::Bytes { data }
            && data@.len() == len as int),
        State::PortBytes { .. } => e is Failed || (e matches Event::Bytes { data }
            && data@.len() == 2),
        State::Connecting => e is Failed || e is DialOk,
        State::SuccessReply => e is Failed || e is WriteOk,
        State::Relaying => e is Failed || e is RelayDone,
        State::Closed { .. } => false,
    }
}

/// The error recorded when the operation pending in `s` fails. A failure
/// while relaying still closes the session without an error of its own: the
/// relay has served until one side went away.
pub open spec fn fail_error(s: State) -> Option<SessionError> {
    match s {
        State::MethodReply => Some(SessionError::HandshakeWrite),
        State::Connecting => Some(SessionError::UpstreamDial),
        State::Relaying => None,
        _ => Some(SessionError::Io),
    }
}

/// Both the state and the action record the session's end with error `err`.
pub open spec fn closes(s2: State, a: Action, err: Option<SessionError>) -> bool {
    &&& s2 matches State::Closed { error } && error == err
    &&& a matches Action::Close { error } && error == err
}

/// The transition relation of the session machine: from state `s`, event `e`
/// leads to state `s2` with next action `a`. This is the machine's whole
/// specification; [`step`] satisfies it for every state and expected event.
pub open spec fn transition(s: State, e: Event, s2: State, a: Action) -> bool {
    if e is Failed {
        closes(s2, a, fail_error(s))
    } else {
        match s {
            State::Greeting => {
                let data = e->data;
                if data@[0] == 5 {
                    &&& s2 matches State::Methods { count } && count == data@[1]
                    &&& a matches Action::Read { count } && count == data@[1] as usize
                } else {
                    closes(s2, a, Some(SessionError::ProtocolVersion))
                }
            },
            State::Methods { .. } => {
                &&& s2 is MethodReply
                &&& a matches Action::Write { bytes } && bytes@ == method_reply_spec()
            },
            State::MethodReply => {
                &&& s2 is Request
                &&& a matches Action::Read { count } && count == 4
            },
            State::Request => {
                let data = e->data;
                if data@[0] != 5 || data@[1] != 1 {
                    closes(s2, a, Some(SessionError::InvalidRequest))
                } else if data@[3] == 1 {
                    &&& s2 is Ipv4Addr
                    &&& a matches Action::Read { count } && count == 4
                } else if data@[3] == 3 {
                    &&& s2 is DomainLen
                    &&& a matches Action::Read { count } && count == 1
                } else {
                    closes(s2, a, Some(SessionError::UnsupportedAddressType))
                }
            },
            State::Ipv4Addr => {
                let data = e->data;
                &&& s2 matches State::PortBytes { host } && host@ == dotted_quad_spec(
                    data@[0],
                    data@[1],
                    data@[2],
                    data@[3],
                )
                &&& a matches Action::Read { count } && count == 2
            },
            State::DomainLen => {
                let data = e->data;
                &&& s2 matches State::DomainName { len } && len == data@[0]
                &&& a matches Action::Read { count } && count == data@[0] as usize
            },
            State::DomainName { .. } => {
                let data = e->data;
                if is_utf8(data@) {
                    &&& s2 matches State::PortBytes { host } && host@ == data@
                    &&& a matches Action::Read { count } && count == 2
                } else {
                    closes(s2, a, Some(SessionError::InvalidEncoding))
                }
            },
            State::PortBytes { host } => {
                let data = e->data;
                &&& s2 is Connecting
                &&& a matches Action::Dial { target } && target@ == target_spec(
                    host@,
                    data@[0],
                    data@[1],
                )
            },
            State::Connecting => {
                &&& s2 is SuccessReply
                &&& a matches Action::Write { bytes } && bytes@ == success_reply_spec()
            },
            State::SuccessReply => s2 is Relaying && a is StartRelay,
            State::Relaying => closes(s2, a, None),
            State::Closed { .. } => false,
        }
    }
}

/// The two bytes of the method-selection reply.
pub fn method_reply() -> (r: Vec<u8>)
    ensures
        r@ == method_reply_spec(),
{
    let mut v: Vec<u8> = Vec::new();
    v.push(5);
    v.push(0);
    proof {
        assert(v@ =~= method_reply_spec());
    }
    v
}

/// The ten bytes of the fixed success reply.
pub fn success_reply() -> (r: Vec<u8>)
    ensures
        r@ == success_reply_spec(),
{
    let mut v: Vec<u8> = Vec::new();
    v.push(5);
    v.push(0);
    v.push(0);
    v.push(1);
    v.push(0);
    v.push(0);
    v.push(0);
    v.push(0);
    v.push(0);
    v.push(0);
    proof {
        assert(v@ =~= success_reply_spec());
    }
    v
}

/// A fresh session: in the greeting stage, with the first read to issue.
pub fn start() -> (r: (State, Action))
    ensures
        r.0 is Greeting,
        r.1 matches Action::Read { count } && count == 2,
{
    (State::Greeting, Action::Read { count: 2 })
}

/// The closed state and closing action for error `error`.
fn close_with(error: Option<SessionError>) -> (r: (State, Action))
    ensures
        closes(r.0, r.1, error),
{
    (State::Closed { error }, Action::Close { error })
}

/// Advances the session by one protocol step: given the outcome of the last
/// action, returns the next state and the next action to perform.
pub fn step(s: State, e: Event) -> (r: (State, Action))
    requires
        expects(s, e),
    ensures
        transition(s, e, r.0, r.1),
{
    if let Event::Failed = e {
        let error = match s {
            State::MethodReply => Some(SessionError::HandshakeWrite),
            State::Connecting => Some(SessionError::UpstreamDial),
            State::Relaying => None,
            _ => Some(SessionError::Io),
        };
        return close_with(error);
    }
    match (s, e) {
        (State::Greeting, Event::Bytes { data }) => {
            if data[0] == 5 {
                let count: u8 = data[1];
                (State::Methods { count }, Action::Read { count: count as usize })
            } else {
                close_with(Some(SessionError::ProtocolVersion))
            }
        },
        (State::Methods { .. }, Event::Bytes { .. }) => {
            (State::MethodReply, Action::Write { bytes: method_reply() })
        },
        (State::MethodReply, Event::WriteOk) => (State::Request, Action::Read { count: 4 }),
        (State::Request, Event::Bytes { data }) => {
            if data[0] != 5 || data[1] != 1 {
                close_with(Some(SessionError::InvalidRequest))
            } else if data[3] == 1 {
                (State::Ipv4Addr, Action::Read { count: 4 })
            } else if data[3] == 3 {
                (State::DomainLen, Action::Read { count: 1 })
            } else {
                close_with(Some(SessionError::UnsupportedAddressType))
            }
        },
        (State::Ipv4Addr, Event::Bytes { data }) => {
            let host = dotted_quad(data[0], data[1], data[2], data[3]);
            (State::PortBytes { host }, Action::Read { count: 2 })
        },
        (State::DomainLen, Event::Bytes { data }) => {
            let len: u8 = data[0];
            (State::DomainName { len }, Action::Read { count: len as usize })
        },
        (State::DomainName { .. }, Event::Bytes { data }) => {
            if utf8_check(&data) {
                (State::PortBytes { host: data }, Action::Read { count: 2 })
            } else {
                close_with(Some(SessionError::InvalidEncoding))
            }
        },
        (State::PortBytes { host }, Event::Bytes { data }) => {
            let target = make_target(host, data[0], data[1]);
            (State::Connecting, Action::Dial { target })
        },
        (State::Connecting, Event::DialOk) => {
            (State::SuccessReply, Action::Write { bytes: success_reply() })
        },
        (State::SuccessReply, Event::WriteOk) => (State::Relaying, Action::StartRelay),
        (State::Relaying, Event::RelayDone) => close_with(None),
        (_, _) => {
            // `expects` admits no other pairing of state and event.
            proof {
                assert(false);
            }
            close_with(None)
        },
    }
}

/// Law: for every greeting with version byte 0x05, once the offered method
/// bytes arrive — whatever they hold — the machine's next action writes
/// exactly the two bytes 0x05 0x00.
pub proof fn lemma_no_auth_reply(
    greeting: Event,
    methods: Event,
    s1: State,
    a1: Action,
    s2: State,
    a2: Action,
)
    requires
        greeting matches Event::Bytes { data } && data@.len() == 2 && data@[0] == 5u8,
        transition(State::Greeting, greeting, s1, a1),
        methods is Bytes,
        transition(s1, methods, s2, a2),
    ensures
        s2 is MethodReply,
        a2 matches Action::Write { bytes } && bytes@ == method_reply_spec(),
{
}

/// Law: a greeting whose version byte is not 0x05 closes the session at
/// once: no write action is issued, and the machine takes no further event.
pub proof fn lemma_bad_version_closes(greeting: Event, s1: State, a1: Action)
    requires
        greeting matches Event::Bytes { data } && data@.len() == 2 && data@[0] != 5u8,
        transition(State::Greeting, greeting, s1, a1),
    ensures
        s1 matches State::Closed { error } && error == Some(SessionError::ProtocolVersion),
        a1 matches Action::Close { error } && error == Some(SessionError::ProtocolVersion),
        a1 !is Write,
        forall|e2: Event| !expects(s1, e2),
{
}

/// Law: a request naming an address type other than IPv4 (0x01) or domain
/// (0x03) closes the session without any reply being sent: the action is a
/// close, not a write, and the machine takes no further event.
pub proof fn lemma_unsupported_atyp_closes(request: Event, s1: State, a1: Action)
    requires
        request matches Event::Bytes { data } && data@.len() == 4 && data@[0] == 5u8
            && data@[1] == 1u8 && data@[3] != 1u8 && data@[3] != 3u8,
        transition(State::Request, request, s1, a1),
    ensures
        s1 matches State::Closed { error } && error == Some(SessionError::UnsupportedAddressType),
        a1 matches Action::Close { error } && error == Some(SessionError::UnsupportedAddressType),
        a1 !is Write,
        forall|e2: Event| !expects(s1, e2),
{
}

/// Law: a successful dial is answered, before relaying begins, by a write of
/// the fixed ten-byte success reply; only after that write completes does
/// the machine start the relay.
pub proof fn lemma_success_reply_before_relay(s1: State, a1: Action, s2: State, a2: Action)
    requires
        transition(State::Connecting, Event::DialOk, s1, a1),
        transition(s1, Event::WriteOk, s2, a2),
    ensures
        s1 is SuccessReply,
        a1 matches Action::Write { bytes } && bytes@ == success_reply_spec(),
        s2 is Relaying,
        a2 is StartRelay,
{
}

/// Law: a session never relays before both endpoints are established. The
/// only transition into `Relaying` is the completed success-reply write,
/// which itself follows only a successful dial; and a dial is asked for only
/// once a full request, address and port have been parsed.
pub proof fn lemma_relay_needs_established_endpoints(s: State, e: Event, s2: State, a: Action)
    requires
        expects(s, e),
        transition(s, e, s2, a),
    ensures
        s2 is Relaying ==> s is SuccessReply && e is WriteOk,
        s2 is SuccessReply ==> s is Connecting && e is DialOk,
        a is Dial ==> s is PortBytes && e is Bytes,
{
}

/// Law: an IPv4 request dials the dotted-decimal address with the big-endian
/// port: after the four address octets and the two port bytes arrive, the
/// dial target is `a.b.c.d:port`.
pub proof fn lemma_ipv4_dial_target(
    addr: Event,
    port: Event,
    s1: State,
    a1: Action,
    s2: State,
    a2: Action,
)
    requires
        addr matches Event::Bytes { data } && data@.len() == 4,
        transition(State::Ipv4Addr, addr, s1, a1),
        port matches Event::Bytes { data } && data@.len() == 2,
        transition(s1, port, s2, a2),
    ensures
        s2 is Connecting,
        a2 matches Action::Dial { target } && target@ == dotted_quad_spec(
            addr->data@[0],
            addr->data@[1],
            addr->data@[2],
            addr->data@[3],
        ) + seq![58u8] + dec_spec(port_val(port->data@[0], port->data@[1])),
{
}

/// Law: a domain request dials the domain bytes themselves, unchanged,
/// followed by `:` and the big-endian port — provided the name is valid
/// UTF-8.
pub proof fn lemma_domain_dial_target(
    s0: State,
    name: Event,
    port: Event,
    s1: State,
    a1: Action,
    s2: State,
    a2: Action,
)
    requires
        s0 is DomainName,
        name matches Event::Bytes { data } && is_utf8(data@),
        transition(s0, name, s1, a1),
        port matches Event::Bytes { data } && data@.len() == 2,
        transition(s1, port, s2, a2),
    ensures
        s2 is Connecting,
        a2 matches Action::Dial { target } && target@ == name->data@ + seq![58u8] + dec_spec(
            port_val(port->data@[0], port->data@[1]),
        ),
{
}

} // verus!
