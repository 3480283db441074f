//! Decoding of completion payloads, one function per completion shape, and the
//! mapping of a completed call to its outcome.
use vstd::prelude::*;
use crate::codec::{
    decode_utf8_bytes, encode_base58, spec_decode_base58, spec_decode_utf8, base58_of,
    DecodeError, MAX_BASE58_BYTES, MAX_ROUND_TRIP_BYTES,
};
use crate::registry::BridgeError;

verus! {

/// A status code of the native service; 0 is success.
#[derive(Clone, Copy, Debug, PartialEq, Eq, Structural)]
pub struct ErrorCode {
    pub code: i32,
}

impl ErrorCode {
    pub open spec fn spec_is_success(&self) -> bool {
        self.code == 0
    }

    pub fn success() -> (r: ErrorCode)
        ensures
            r.spec_is_success(),
    {
        ErrorCode { code: 0 }
    }

    #[verifier::when_used_as_spec(spec_is_success)]
    pub fn is_success(&self) -> (r: bool)
        ensures
            r == self.spec_is_success(),
    {
        self.code == 0
    }
}

/// Why a call through the bridge did not give a value.
#[derive(Clone, Copy, Debug, PartialEq, Eq, Structural)]
pub enum CallError {
    /// The native service refused the call, or completed it with a failure.
    Native(ErrorCode),
    /// A buffer could not be decoded.
    Decode(DecodeError),
    /// The correlation of calls and completions was broken.
    Bridge(BridgeError),
    /// A text that must cross as a C string holds a NUL byte.
    InteriorNul,
    /// A buffer is longer than the native interface can describe.
    TooLong,
}

/// The outcome of a completed call: a failing status wins over the payload.
pub open spec fn spec_outcome<T>(status: ErrorCode, payload: Result<T, DecodeError>) -> Result<
    T,
    CallError,
> {
    if !status.spec_is_success() {
        Err(CallError::Native(status))
    } else {
        match payload {
            Ok(v) => Ok(v),
            Err(e) => Err(CallError::Decode(e)),
        }
    }
}

/// Maps a completion (status and decoded payload) to the caller's result.
pub fn result_to_value<T>(status: ErrorCode, payload: Result<T, DecodeError>) -> (r: Result<
    T,
    CallError,
>)
    ensures
        r == spec_outcome(status, payload),
{
    if !status.is_success() {
        Err(CallError::Native(status))
    } else {
        match payload {
            Ok(v) => Ok(v),
            Err(e) => Err(CallError::Decode(e)),
        }
    }
}

/// Maps the status with which the native service took a call: anything but
/// success means no completion will come.
pub fn accepted(status: ErrorCode) -> (r: Result<(), CallError>)
    ensures
        status.spec_is_success() <==> r is Ok,
        !status.spec_is_success() ==> r == Err::<(), CallError>(CallError::Native(status)),
{
    if status.is_success() {
        Ok(())
    } else {
        Err(CallError::Native(status))
    }
}

/// Payload of a string completion: the bytes of the C string, without its NUL.
pub fn decode_string(raw: Vec<u8>) -> (r: Result<String, DecodeError>)
    ensures
        r is Ok <==> spec_decode_utf8(raw@) is Some,
        r is Ok ==> Some(r->Ok_0@) == spec_decode_utf8(raw@),
        r is Err ==> r == Err::<String, DecodeError>(DecodeError::InvalidUtf8),
{
    decode_utf8_bytes(raw)
}

/// Payload of a completion with two C strings, in order.
pub fn decode_string_pair(first: Vec<u8>, second: Vec<u8>) -> (r: Result<
    (String, String),
    DecodeError,
>)
    ensures
        r is Ok <==> spec_decode_utf8(first@) is Some && spec_decode_utf8(second@) is Some,
        r matches Ok(p) ==> Some(p.0@) == spec_decode_utf8(first@) && Some(p.1@)
            == spec_decode_utf8(second@),
        r is Err ==> r == Err::<(String, String), DecodeError>(DecodeError::InvalidUtf8),
{
    let a = decode_utf8_bytes(first)?;
    let b = decode_utf8_bytes(second)?;
    Ok((a, b))
}

/// Payload of a binary completion handed on as base58 text.
pub fn decode_message58(raw: &[u8]) -> (r: Result<String, DecodeError>)
    ensures
        raw@.len() <= MAX_BASE58_BYTES ==> r is Ok && r->Ok_0@ == base58_of(raw@),
        raw@.len() > MAX_BASE58_BYTES ==> r == Err::<String, DecodeError>(DecodeError::TooLong),
        raw@.len() <= MAX_ROUND_TRIP_BYTES ==> r is Ok && spec_decode_base58(r->Ok_0@) == Some(
            raw@,
        ),
{
    encode_base58(raw)
}

/// Payload of a binary completion that holds UTF-8 text.
pub fn decode_message(raw: Vec<u8>) -> (r: Result<String, DecodeError>)
    ensures
        r is Ok <==> spec_decode_utf8(raw@) is Some,
        r is Ok ==> Some(r->Ok_0@) == spec_decode_utf8(raw@),
        r is Err ==> r == Err::<String, DecodeError>(DecodeError::InvalidUtf8),
{
    decode_utf8_bytes(raw)
}

/// Payload of a completion with a key (a C string) and a UTF-8 message buffer;
/// the message comes first in the result, then the key.
pub fn decode_message_withkey(their_vk: Vec<u8>, msg: Vec<u8>) -> (r: Result<
    (String, String),
    DecodeError,
>)
    ensures
        r is Ok <==> spec_decode_utf8(msg@) is Some && spec_decode_utf8(their_vk@) is Some,
        r matches Ok(p) ==> Some(p.0@) == spec_decode_utf8(msg@) && Some(p.1@) == spec_decode_utf8(
            their_vk@,
        ),
        r is Err ==> r == Err::<(String, String), DecodeError>(DecodeError::InvalidUtf8),
{
    let m = decode_utf8_bytes(msg)?;
    let k = decode_utf8_bytes(their_vk)?;
    Ok((m, k))
}

} // verus!
