//! The length-prefixed envelope that the pipe and the native-messaging
//! channel share: four bytes that give the body's length, least significant
//! byte first, then exactly that many bytes of JSON.
//!
//! A body is valid when it is not empty, holds at most [`MAX_MESSAGE_LEN`]
//! bytes and is JSON text.  Everything else is a [`FramingError`]; a stream
//! that produced one cannot be realigned and has to be closed.

use vstd::prelude::*;
use vstd::slice::slice_subrange;

verus! {

/// The number of bytes of the length prefix.
pub const HEADER_LEN: usize = 4;

/// The largest body a peer may advertise: one mebibyte, the browser's ceiling.
pub const MAX_MESSAGE_LEN: u32 = 1048576;

/// Why an envelope was refused.
#[derive(Debug, Clone, Copy, PartialEq, Eq, Structural)]
pub enum FramingError {
    /// The input ends before the prefix or the advertised body is complete.
    Truncated,
    /// The prefix advertises a body of no bytes.
    EmptyBody,
    /// The prefix advertises more than [`MAX_MESSAGE_LEN`] bytes.
    Oversize,
    /// The body is not JSON text.
    InvalidJson,
}

/// Whether a run of bytes is JSON text, as `serde_json` judges it.
pub uninterp spec fn is_json(body: Seq<u8>) -> bool;

/// The four bytes that stand for `length`, least significant first.
pub open spec fn length_prefix(length: u32) -> Seq<u8> {
    seq![
        (length % 256) as u8,
        ((length / 256) % 256) as u8,
        ((length / 65536) % 256) as u8,
        ((length / 16777216) % 256) as u8,
    ]
}

/// The number that the first four bytes of `bytes` stand for.
pub open spec fn prefix_value(bytes: Seq<u8>) -> int
    recommends
        bytes.len() >= 4,
{
    bytes[0] as int + 256 * (bytes[1] as int) + 65536 * (bytes[2] as int) + 16777216 * (
    bytes[3] as int)
}

/// What the check of an advertised length answers: the length itself when a
/// body of that size is allowed.
pub open spec fn checked_length(length: int) -> Result<u32, FramingError> {
    if length == 0 {
        Err(FramingError::EmptyBody)
    } else if length > MAX_MESSAGE_LEN {
        Err(FramingError::Oversize)
    } else {
        Ok(length as u32)
    }
}

/// A body that an envelope may carry.
pub open spec fn valid_body(body: Seq<u8>) -> bool {
    0 < body.len() <= MAX_MESSAGE_LEN && is_json(body)
}

/// The envelope of a body: its length prefix, then the body.
pub open spec fn encoded(body: Seq<u8>) -> Seq<u8>
    recommends
        body.len() <= u32::MAX,
{
    length_prefix(body.len() as u32) + body
}

/// The bytes between the prefix and the end of the advertised body, when the
/// prefix is acceptable and the input long enough.  What follows the body is
/// not looked at.
pub open spec fn framed_body(input: Seq<u8>) -> Result<Seq<u8>, FramingError> {
    if input.len() < 4 {
        Err(FramingError::Truncated)
    } else {
        match checked_length(prefix_value(input)) {
            Err(e) => Err(e),
            Ok(length) => if input.len() < 4 + length {
                Err(FramingError::Truncated)
            } else {
                Ok(input.subrange(4, 4 + length))
            },
        }
    }
}

/// What is made of a framed body once it is known whether it is JSON.
pub open spec fn checked_body(body: Seq<u8>, json: bool) -> Result<Seq<u8>, FramingError> {
    if json {
        Ok(body)
    } else {
        Err(FramingError::InvalidJson)
    }
}

/// The body of the first envelope in `input`, or the reason for which there
/// is none.
pub open spec fn decoded(input: Seq<u8>) -> Result<Seq<u8>, FramingError> {
    match framed_body(input) {
        Err(e) => Err(e),
        Ok(body) => checked_body(body, is_json(body)),
    }
}

/// Wraps `serde_json::from_slice`, asked for a `serde_json::Value`.  The
/// contract names the answer: the result is `true` exactly when the call
/// accepts the bytes, which is what `is_json` stands for.
#[verifier::external_body]
pub(crate) fn body_is_json(body: &[u8]) -> (r: bool)
    ensures
        r == is_json(body@),
{
    serde_json::from_slice::<serde_json::Value>(body).is_ok()
}

/// Puts `body` into an envelope.
///
/// The length has to fit the four bytes of the prefix.
pub fn encode(body: &[u8]) -> (r: Vec<u8>)
    requires
        body@.len() <= u32::MAX,
    ensures
        r@ == encoded(body@),
{
    let length: u32 = body.len() as u32;
    let mut out: Vec<u8> = Vec::new();
    out.push((length % 256) as u8);
    out.push(((length / 256) % 256) as u8);
    out.push(((length / 65536) % 256) as u8);
    out.push(((length / 16777216) % 256) as u8);
    out.extend_from_slice(body);
    out
}

/// Checks an advertised body length: zero and anything above
/// [`MAX_MESSAGE_LEN`] are refused.
pub fn check_length(length: u32) -> (r: Result<u32, FramingError>)
    ensures
        r == checked_length(length as int),
{
    if length == 0 {
        Err(FramingError::EmptyBody)
    } else if length > MAX_MESSAGE_LEN {
        Err(FramingError::Oversize)
    } else {
        Ok(length)
    }
}

/// Reads the length that a prefix advertises and checks it.  A reader calls
/// this on the four bytes of the prefix, before it reads any of the body.
pub fn decode_header(header: [u8; 4]) -> (r: Result<u32, FramingError>)
    ensures
        r == checked_length(prefix_value(header@)),
{
    let length: u32 = header[0] as u32 + 256 * (header[1] as u32) + 65536 * (header[2] as u32)
        + 16777216 * (header[3] as u32);
    check_length(length)
}

/// Cuts the body of the first envelope out of `input`.
pub fn split_frame(input: &[u8]) -> (r: Result<Vec<u8>, FramingError>)
    ensures
        match framed_body(input@) {
            Ok(body) => r is Ok && r->Ok_0@ == body,
            Err(e) => r == Err::<Vec<u8>, FramingError>(e),
        },
{
    if input.len() < HEADER_LEN {
        return Err(FramingError::Truncated);
    }
    let header: [u8; 4] = [input[0], input[1], input[2], input[3]];
    match decode_header(header) {
        Err(e) => Err(e),
        Ok(length) => {
            let length: usize = length as usize;
            if input.len() - HEADER_LEN < length {
                Err(FramingError::Truncated)
            } else {
                let body = slice_subrange(input, HEADER_LEN, HEADER_LEN + length);
                let mut out: Vec<u8> = Vec::new();
                out.extend_from_slice(body);
                Ok(out)
            }
        },
    }
}

/// Accepts a framed body when it is JSON and refuses it otherwise.
pub fn check_body(body: Vec<u8>, json: bool) -> (r: Result<Vec<u8>, FramingError>)
    ensures
        match checked_body(body@, json) {
            Ok(b) => r is Ok && r->Ok_0@ == b,
            Err(e) => r == Err::<Vec<u8>, FramingError>(e),
        },
{
    if json {
        Ok(body)
    } else {
        Err(FramingError::InvalidJson)
    }
}

/// Accepts a body that was read from a stream when it is JSON and refuses
/// it otherwise.
pub fn accept_body(body: Vec<u8>) -> (r: Result<Vec<u8>, FramingError>)
    ensures
        match checked_body(body@, is_json(body@)) {
            Ok(b) => r is Ok && r->Ok_0@ == b,
            Err(e) => r == Err::<Vec<u8>, FramingError>(e),
        },
{
    let json = body_is_json(body.as_slice());
    check_body(body, json)
}

/// Takes the first envelope of `input` apart and returns its body.
///
/// The prefix is checked first, then the body's presence, then the body
/// itself; bytes after the body are left for the next call.
pub fn decode(input: &[u8]) -> (r: Result<Vec<u8>, FramingError>)
    ensures
        match decoded(input@) {
            Ok(body) => r is Ok && r->Ok_0@ == body,
            Err(e) => r == Err::<Vec<u8>, FramingError>(e),
        },
{
    match split_frame(input) {
        Err(e) => Err(e),
        Ok(body) => accept_body(body),
    }
}

/// The prefix of a length stands for that length.
pub proof fn lemma_prefix_value(length: u32)
    ensures
        length_prefix(length).len() == 4,
        prefix_value(length_prefix(length)) == length,
{
}

/// What follows the prefix plays no part in the number it stands for.
pub proof fn lemma_prefix_value_of_start(header: Seq<u8>, rest: Seq<u8>)
    requires
        header.len() == 4,
    ensures
        prefix_value(header + rest) == prefix_value(header),
{
}

/// Round trip: what `encode` makes of a valid body, `decode` turns back
/// into that body, whatever follows the envelope in the input.
pub proof fn lemma_decode_encode(body: Seq<u8>, rest: Seq<u8>)
    requires
        valid_body(body),
    ensures
        decoded(encoded(body)) == Ok::<Seq<u8>, FramingError>(body),
        decoded(encoded(body) + rest) == Ok::<Seq<u8>, FramingError>(body),
{
    let length = body.len() as u32;
    lemma_prefix_value(length);
    lemma_prefix_value_of_start(length_prefix(length), body);
    lemma_prefix_value_of_start(length_prefix(length), body + rest);
    assert(encoded(body).subrange(4, 4 + length) =~= body);
    assert((encoded(body) + rest).subrange(4, 4 + length) =~= body);
}

/// Oversize rejection: a prefix that advertises more than
/// [`MAX_MESSAGE_LEN`] bytes is refused on the prefix alone.  Whatever
/// follows it, and whether anything follows it at all, the answer is
/// [`FramingError::Oversize`].
pub proof fn lemma_oversize_rejected(length: u32, rest: Seq<u8>)
    requires
        length > MAX_MESSAGE_LEN,
    ensures
        checked_length(prefix_value(length_prefix(length))) == Err::<u32, FramingError>(
            FramingError::Oversize,
        ),
        decoded(length_prefix(length) + rest) == Err::<Seq<u8>, FramingError>(
            FramingError::Oversize,
        ),
{
    lemma_prefix_value(length);
    lemma_prefix_value_of_start(length_prefix(length), rest);
}

} // verus!
