//! The centralized responder: it turns a failure into its wire status and a
//! sanitized single-field JSON error envelope, and answers the health
//! probe. The envelope is framed and escaped here, byte by byte.

use vstd::prelude::*;
use vstd::string::*;
use vstd::utf8::encode_utf8;

use crate::errors::{message_of, status_of, AppError};

verus! {

/// The ASCII hex digit (lowercase) standing for a nibble.
pub open spec fn hex_digit_byte(n: u8) -> u8
    recommends
        n < 16,
{
    if n < 10 {
        (48 + n) as u8
    } else {
        (87 + n) as u8
    }
}

/// The JSON string encoding of one byte of message text: a quote or a
/// backslash is escaped with a backslash, a control byte becomes a
/// six-byte `\u00..` escape, and every other byte (including the bytes of
/// a multi-byte UTF-8 character) passes through unchanged.
pub open spec fn escaped_byte(b: u8) -> Seq<u8> {
    if b == 34 {
        seq![92u8, 34u8]
    } else if b == 92 {
        seq![92u8, 92u8]
    } else if b < 32 {
        seq![92u8, 117u8, 48u8, 48u8, hex_digit_byte(b / 16), hex_digit_byte(b % 16)]
    } else {
        seq![b]
    }
}

/// The JSON string encoding of message text, byte by byte.
pub open spec fn json_escaped(s: Seq<u8>) -> Seq<u8>
    decreases s.len(),
{
    if s.len() == 0 {
        Seq::empty()
    } else {
        json_escaped(s.drop_last()) + escaped_byte(s.last())
    }
}

/// The bytes of `{"error":"`.
pub open spec fn envelope_prefix() -> Seq<u8> {
    seq![123u8, 34u8, 101u8, 114u8, 114u8, 111u8, 114u8, 34u8, 58u8, 34u8]
}

/// The bytes of `"}`.
pub open spec fn envelope_suffix() -> Seq<u8> {
    seq![34u8, 125u8]
}

/// The uniform error body: a single-field JSON object `{"error": <m>}`
/// with the message escaped as a JSON string.
pub open spec fn error_envelope_bytes(msg: Seq<u8>) -> Seq<u8> {
    envelope_prefix() + json_escaped(msg) + envelope_suffix()
}

/// The ASCII hex digit (lowercase) of a nibble, computed at run time.
fn hex_digit(n: u8) -> (r: u8)
    requires
        n < 16,
    ensures
        r == hex_digit_byte(n),
{
    if n < 10 {
        48 + n
    } else {
        87 + n
    }
}

/// The uniform error body for a message: `{"error": <msg>}` with the
/// message escaped as a JSON string.
pub fn error_envelope(msg: &str) -> (r: Vec<u8>)
    ensures
        r@ == error_envelope_bytes(encode_utf8(msg@)),
{
    let bytes = msg.as_bytes();
    let n = bytes.len();
    let mut out: Vec<u8> = Vec::new();
    // {"error":"
    out.push(123);
    out.push(34);
    out.push(101);
    out.push(114);
    out.push(114);
    out.push(111);
    out.push(114);
    out.push(34);
    out.push(58);
    out.push(34);
    proof {
        assert(out@ =~= envelope_prefix());
        assert(bytes@.take(0) =~= Seq::<u8>::empty());
    }
    let mut i: usize = 0;
    while i < n
        invariant
            n == bytes@.len(),
            i <= n,
            out@ == envelope_prefix() + json_escaped(bytes@.take(i as int)),
        decreases n - i,
    {
        let b = bytes[i];
        let ghost before = out@;
        if b == 34 {
            out.push(92);
            out.push(34);
        } else if b == 92 {
            out.push(92);
            out.push(92);
        } else if b < 32 {
            out.push(92);
            out.push(117);
            out.push(48);
            out.push(48);
            out.push(hex_digit(b / 16));
            out.push(hex_digit(b % 16));
        } else {
            out.push(b);
        }
        proof {
            assert(out@ =~= before + escaped_byte(b));
            assert(bytes@.take(i + 1).drop_last() =~= bytes@.take(i as int));
            assert(bytes@.take(i + 1).last() == b);
            assert(json_escaped(bytes@.take(i + 1)) == json_escaped(bytes@.take(i as int))
                + escaped_byte(b));
            assert(out@ =~= envelope_prefix() + json_escaped(bytes@.take(i + 1)));
        }
        i += 1;
    }
    out.push(34);
    out.push(125);
    proof {
        assert(bytes@.take(n as int) =~= bytes@);
        assert(out@ =~= error_envelope_bytes(encode_utf8(msg@)));
    }
    out
}

/// The full response owed to a failure: its wire status and the sanitized
/// JSON error envelope. Internal detail never reaches the body: the
/// envelope holds exactly the user-facing message of the failure kind.
pub fn respond(e: &AppError) -> (r: (u16, Vec<u8>))
    ensures
        r.0 == status_of(*e),
        r.1@ == error_envelope_bytes(encode_utf8(message_of(*e))),
{
    let status = e.status_code();
    let message = e.user_message();
    let body = error_envelope(message.as_str());
    (status, body)
}

/// The health probe: always status 200 with body `{"status":"ok"}`. It
/// takes no store handle and performs no store call, so it succeeds
/// whatever the store's availability.
pub fn health_check() -> (r: (u16, String))
    ensures
        r.0 == 200,
        r.1@ == "{\"status\":\"ok\"}"@,
{
    (200, String::from_str("{\"status\":\"ok\"}"))
}

} // verus!
