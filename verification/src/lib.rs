//! Verified core of a minimal SOCKS5 proxy server.
//!
//! The library holds the per-session protocol logic: the negotiation
//! handshake, the CONNECT request parser that builds the dial target, the
//! fixed wire replies, and a model of the bidirectional byte relay. All I/O
//! is left to the surrounding program, which performs each
//! [`session::Action`] and feeds the outcome back as a [`session::Event`].

pub mod relay;
pub mod session;
pub mod target;
