//! Session handshake: password digest exchange and the authentication check.
//!
//! Opening a session goes through four steps in order: parse the address,
//! connect with a timeout, send the password digest, read the server's first
//! line.  The digest is the lowercase-hex MD5 of the password bytes; the
//! handshake succeeds exactly when the first line contains `Authenticated=1`.

use vstd::prelude::*;

verus! {

use vstd::string::StrSliceExecFns;
use vstd::string::StringSliceAdditionalSpecFns;
use crate::errors::{BotErrorKind, PavlovError};
use crate::text::{contains_seq, str_contains};

pub open spec fn hex_digit_char(d: u8) -> char {
    if d == 0 {
        '0'
    } else if d == 1 {
        '1'
    } else if d == 2 {
        '2'
    } else if d == 3 {
        '3'
    } else if d == 4 {
        '4'
    } else if d == 5 {
        '5'
    } else if d == 6 {
        '6'
    } else if d == 7 {
        '7'
    } else if d == 8 {
        '8'
    } else if d == 9 {
        '9'
    } else if d == 10 {
        'a'
    } else if d == 11 {
        'b'
    } else if d == 12 {
        'c'
    } else if d == 13 {
        'd'
    } else if d == 14 {
        'e'
    } else {
        'f'
    }
}

/// Lowercase hex rendering: two digits per byte, high nibble first.
pub open spec fn hex_of(bytes: Seq<u8>) -> Seq<char> {
    Seq::new(
        2 * bytes.len(),
        |i: int|
            if i % 2 == 0 {
                hex_digit_char(bytes[i / 2] / 16)
            } else {
                hex_digit_char(bytes[i / 2] % 16)
            },
    )
}

/// What `md5::compute` returns: a function of the input bytes alone.
pub uninterp spec fn md5_of(data: Seq<u8>) -> Seq<u8>;

/// Relies on md5::compute: the 16-byte MD5 digest of the input, depending on
/// the input bytes alone.
#[verifier::external_body]
fn md5_digest(data: &Vec<u8>) -> (r: Vec<u8>)
    ensures
        r@ == md5_of(data@),
        r@.len() == 16,
{
    md5::compute(data.as_slice()).0.to_vec()
}

/// Relies on hex::encode: each byte becomes two lowercase hex digits, high
/// nibble first.
#[verifier::external_body]
fn hex_encode(data: &Vec<u8>) -> (r: String)
    ensures
        r@ == hex_of(data@),
{
    hex::encode(data.as_slice())
}

/// The digest sent during the handshake: lowercase-hex MD5 of the UTF-8
/// password bytes.
pub open spec fn spec_password_digest(password: &str) -> Seq<char> {
    hex_of(md5_of(password.spec_bytes()))
}

pub fn hash_password(password: &str) -> (r: String)
    ensures
        r@ == spec_password_digest(password),
{
    let bytes = password.as_bytes_vec();
    let digest = md5_digest(&bytes);
    hex_encode(&digest)
}

/// The handshake succeeds exactly when the server's first line contains this.
pub open spec fn spec_auth_token() -> Seq<char> {
    "Authenticated=1"@
}

/// Whether the server's first line authenticates the session.
pub fn check_auth_response(line: &str) -> (r: bool)
    ensures
        r == contains_seq(line@, spec_auth_token()),
{
    str_contains(line, "Authenticated=1")
}

/// The authentication step of the handshake: succeeds iff the first line
/// contains `Authenticated=1`; otherwise fails with `Authentication`,
/// carrying the digest (never the plaintext password) for diagnostics.
pub fn auth_result(line: &str, digest: String) -> (r: Result<(), PavlovError>)
    ensures
        r is Ok <==> contains_seq(line@, spec_auth_token()),
        r matches Err(e) ==> e.kind == BotErrorKind::Authentication && e.input@ == digest@,
{
    if check_auth_response(line) {
        Ok(())
    } else {
        Err(PavlovError { input: digest, kind: BotErrorKind::Authentication })
    }
}

/// The credentials a session is opened with; the relay keeps them to
/// reconnect after a fatal failure.
pub struct LoginData {
    pub ip: String,
    pub password: String,
}

/// The steps of opening a session, in order.
pub enum HandshakeStep {
    ParseAddress,
    Connect,
    SendDigest,
    ReadGreeting,
}

/// The error kind a failure at each handshake step surfaces: a bad address
/// is `InvalidConnectionAddress` (no network I/O was attempted); every later
/// failure is `ConnectionError`.
pub fn handshake_failure(step: HandshakeStep, input: String) -> (e: PavlovError)
    ensures
        step is ParseAddress ==> e.kind == BotErrorKind::InvalidConnectionAddress,
        !(step is ParseAddress) ==> e.kind == BotErrorKind::ConnectionError,
        e.input@ == input@,
{
    match step {
        HandshakeStep::ParseAddress => PavlovError {
            input,
            kind: BotErrorKind::InvalidConnectionAddress,
        },
        _ => PavlovError { input, kind: BotErrorKind::ConnectionError },
    }
}

} // verus!
