//! Rendering of the dial target: decimal numbers, the IPv4 dotted quad, and
//! the `host:port` byte string handed to the outbound dial.

use vstd::prelude::*;

verus! {

/// The decimal digits of `n`, most significant first, as ASCII bytes.
pub open spec fn dec_spec(n: nat) -> Seq<u8>
    decreases n,
{
    if n < 10 {
        seq![(n + 48) as u8]
    } else {
        dec_spec(n / 10).push((n % 10 + 48) as u8)
    }
}

/// The port encoded by two big-endian bytes.
pub open spec fn port_val(hi: u8, lo: u8) -> nat {
    hi as nat * 256 + lo as nat
}

/// The four IPv4 octets rendered in dotted-decimal notation.
pub open spec fn dotted_quad_spec(a: u8, b: u8, c: u8, d: u8) -> Seq<u8> {
    dec_spec(a as nat) + seq![46u8] + dec_spec(b as nat) + seq![46u8] + dec_spec(c as nat)
        + seq![46u8] + dec_spec(d as nat)
}

/// The dial target `host:port`, with the port taken from its two big-endian
/// wire bytes.
pub open spec fn target_spec(host: Seq<u8>, hi: u8, lo: u8) -> Seq<u8> {
    host + seq![58u8] + dec_spec(port_val(hi, lo))
}

/// Appends the decimal rendering of `n` to `out`.
pub fn push_decimal(n: u16, out: &mut Vec<u8>)
    ensures
        final(out)@ == old(out)@ + dec_spec(n as nat),
    decreases n,
{
    if n >= 10 {
        proof {
            assert(n as nat / 10 < n as nat) by (nonlinear_arith)
                requires
                    n >= 10,
            ;
        }
        push_decimal(n / 10, out);
    }
    out.push((n % 10) as u8 + 48);
    proof {
        assert(out@ =~= old(out)@ + dec_spec(n as nat));
    }
}

/// Renders the four IPv4 address octets as a dotted-decimal host.
pub fn dotted_quad(a: u8, b: u8, c: u8, d: u8) -> (r: Vec<u8>)
    ensures
        r@ == dotted_quad_spec(a, b, c, d),
{
    let mut out: Vec<u8> = Vec::new();
    push_decimal(a as u16, &mut out);
    out.push(46);
    push_decimal(b as u16, &mut out);
    out.push(46);
    push_decimal(c as u16, &mut out);
    out.push(46);
    push_decimal(d as u16, &mut out);
    proof {
        assert(out@ =~= dotted_quad_spec(a, b, c, d));
    }
    out
}

/// Appends `:` and the decimal port to the host bytes, yielding the dial
/// target.
pub fn make_target(host: Vec<u8>, hi: u8, lo: u8) -> (r: Vec<u8>)
    ensures
        r@ == target_spec(host@, hi, lo),
{
    let ghost h0: Seq<u8> = host@;
    let mut out = host;
    out.push(58);
    let port: u16 = (hi as u16) * 256 + (lo as u16);
    push_decimal(port, &mut out);
    proof {
        assert(out@ =~= target_spec(h0, hi, lo));
    }
    out
}

/// Whether a byte sequence is well-formed UTF-8; the name stands for what
/// `core::str::from_utf8` accepts.
pub uninterp spec fn is_utf8(s: Seq<u8>) -> bool;

/// Relies on core::str::from_utf8: it returns `Ok` exactly on well-formed
/// UTF-8, and every all-ASCII byte sequence is well-formed.
#[verifier::external_body]
pub(crate) fn utf8_check(b: &Vec<u8>) -> (r: bool)
    ensures
        r == is_utf8(b@),
        (forall|i: int| 0 <= i < b@.len() ==> b@[i] < 128) ==> r,
{
    core::str::from_utf8(b.as_slice()).is_ok()
}

} // verus!
