//! The cryptographic facade: what is handed to the native service for each
//! operation, and key composition, which needs no native call.
use vstd::prelude::*;
use vstd::slice::slice_to_vec;
use vstd::string::StrSliceExecFns;
use vstd::utf8::*;
use crate::codec::{
    decode_base58, encode_base58, spec_decode_base58, spec_decode_utf8, base58_of,
    lemma_utf8_round_trip, DecodeError, MAX_BASE58_BYTES, MAX_ROUND_TRIP_BYTES,
};
use crate::callbacks::CallError;

verus! {

/// Largest buffer length the native interface can carry (a `u32`).
pub const MAX_BUFFER_LEN: usize = 4294967295;

/// The bytes of a text sent as a C string; a text with a NUL byte cannot be.
pub open spec fn spec_c_string(s: Seq<char>) -> Option<Seq<u8>> {
    if encode_utf8(s).contains(0u8) {
        None
    } else {
        Some(encode_utf8(s))
    }
}

/// The bytes of a text sent as a length-prefixed buffer.
pub open spec fn spec_buffer(s: Seq<char>) -> Option<Seq<u8>> {
    if encode_utf8(s).len() <= MAX_BUFFER_LEN {
        Some(encode_utf8(s))
    } else {
        None
    }
}

/// A text without its leading `~`, if it has one.
pub open spec fn strip_sigil(s: Seq<char>) -> Seq<char> {
    if s.len() > 0 && s[0] == '~' {
        s.subrange(1, s.len() as int)
    } else {
        s
    }
}

/// The bytes of `s` as a C string, without the terminating NUL.
fn c_string_bytes(s: &str) -> (r: Result<Vec<u8>, CallError>)
    ensures
        r is Ok <==> spec_c_string(s@) is Some,
        r is Ok ==> Some(r->Ok_0@) == spec_c_string(s@),
        r is Err ==> r == Err::<Vec<u8>, CallError>(CallError::InteriorNul),
{
    let bytes = s.as_bytes();
    let mut i: usize = 0;
    while i < bytes.len()
        invariant
            bytes@ == encode_utf8(s@),
            i <= bytes@.len(),
            forall|j: int| 0 <= j < i ==> bytes@[j] != 0u8,
        decreases bytes@.len() - i,
    {
        if bytes[i] == 0u8 {
            assert(bytes@[i as int] == 0u8);
            return Err(CallError::InteriorNul);
        }
        i = i + 1;
    }
    Ok(slice_to_vec(bytes))
}

/// The bytes of `s` as a length-prefixed buffer.
fn buffer_bytes(s: &str) -> (r: Result<Vec<u8>, CallError>)
    ensures
        r is Ok <==> spec_buffer(s@) is Some,
        r is Ok ==> Some(r->Ok_0@) == spec_buffer(s@),
        r is Err ==> r == Err::<Vec<u8>, CallError>(CallError::TooLong),
{
    let bytes = s.as_bytes();
    if bytes.len() > MAX_BUFFER_LEN {
        Err(CallError::TooLong)
    } else {
        Ok(slice_to_vec(bytes))
    }
}

/// Decoded base58 text, as a length-prefixed buffer.
fn base58_buffer(s: &str) -> (r: Result<Vec<u8>, CallError>)
    ensures
        spec_decode_base58(s@) is None ==> r == Err::<Vec<u8>, CallError>(
            CallError::Decode(DecodeError::InvalidBase58),
        ),
        spec_decode_base58(s@) matches Some(b) ==> (b.len() <= MAX_BUFFER_LEN ==> r is Ok
            && r->Ok_0@ == b) && (b.len() > MAX_BUFFER_LEN ==> r == Err::<Vec<u8>, CallError>(
            CallError::TooLong,
        )),
{
    match decode_base58(s) {
        Ok(v) => {
            if v.len() > MAX_BUFFER_LEN {
                Err(CallError::TooLong)
            } else {
                Ok(v)
            }
        },
        Err(e) => Err(CallError::Decode(e)),
    }
}

/// Input of anonymous encryption: the recipient's key and the plaintext.
pub struct AnonCryptRequest {
    pub their_vk: Vec<u8>,
    pub msg: Vec<u8>,
}

/// Input of anonymous decryption.
pub struct AnonDecryptRequest {
    pub wallet_handle: i32,
    pub my_vk: Vec<u8>,
    pub encrypted: Vec<u8>,
}

/// Input of encryption under the secret shared by a local and a remote key.
pub struct AuthCryptRequest {
    pub wallet_handle: i32,
    pub my_vk: Vec<u8>,
    pub their_vk: Vec<u8>,
    pub msg: Vec<u8>,
}

/// Input of decryption under a shared secret; the remote key comes back with the plaintext.
pub struct AuthDecryptRequest {
    pub wallet_handle: i32,
    pub my_vk: Vec<u8>,
    pub encrypted: Vec<u8>,
}

/// Cryptographic operations of the native service.
pub struct Crypto {}

impl Crypto {
    /// What anonymous encryption of `msg` to `their_key` hands to the native
    /// service. The ciphertext comes back as base58 text.
    pub fn anon_crypt_request(their_key: &str, msg: &str) -> (r: Result<
        AnonCryptRequest,
        CallError,
    >)
        ensures
            spec_c_string(their_key@) is None ==> r == Err::<AnonCryptRequest, CallError>(
                CallError::InteriorNul,
            ),
            spec_c_string(their_key@) is Some && spec_buffer(msg@) is None ==> r == Err::<
                AnonCryptRequest,
                CallError,
            >(CallError::TooLong),
            r is Ok <==> spec_c_string(their_key@) is Some && spec_buffer(msg@) is Some,
            r matches Ok(q) ==> Some(q.their_vk@) == spec_c_string(their_key@) && Some(q.msg@)
                == spec_buffer(msg@),
    {
        let their_vk = c_string_bytes(their_key)?;
        let msg = buffer_bytes(msg)?;
        Ok(AnonCryptRequest { their_vk, msg })
    }

    /// What anonymous decryption of the base58 ciphertext `base58msg` with
    /// `my_key` of the open wallet hands to the native service. The plaintext
    /// comes back as a UTF-8 buffer.
    pub fn anon_decrypt_request(wallet_handle: i32, my_key: &str, base58msg: &str) -> (r: Result<
        AnonDecryptRequest,
        CallError,
    >)
        ensures
            spec_c_string(my_key@) is None ==> r == Err::<AnonDecryptRequest, CallError>(
                CallError::InteriorNul,
            ),
            spec_c_string(my_key@) is Some && spec_decode_base58(base58msg@) is None ==> r
                == Err::<AnonDecryptRequest, CallError>(
                CallError::Decode(DecodeError::InvalidBase58),
            ),
            r is Ok <==> spec_c_string(my_key@) is Some && spec_decode_base58(base58msg@) is Some
                && spec_decode_base58(base58msg@)->0.len() <= MAX_BUFFER_LEN,
            r matches Ok(q) ==> q.wallet_handle == wallet_handle && Some(q.my_vk@) == spec_c_string(
                my_key@,
            ) && Some(q.encrypted@) == spec_decode_base58(base58msg@),
    {
        let my_vk = c_string_bytes(my_key)?;
        let encrypted = base58_buffer(base58msg)?;
        Ok(AnonDecryptRequest { wallet_handle, my_vk, encrypted })
    }

    /// What encryption of `msg` from `my_key` to `their_key` hands to the native
    /// service. The ciphertext comes back as base58 text.
    pub fn auth_crypt_request(wallet_handle: i32, my_key: &str, their_key: &str, msg: &str) -> (r:
        Result<AuthCryptRequest, CallError>)
        ensures
            spec_c_string(my_key@) is None || spec_c_string(their_key@) is None ==> r == Err::<
                AuthCryptRequest,
                CallError,
            >(CallError::InteriorNul),
            spec_c_string(my_key@) is Some && spec_c_string(their_key@) is Some && spec_buffer(
                msg@,
            ) is None ==> r == Err::<AuthCryptRequest, CallError>(CallError::TooLong),
            r is Ok <==> spec_c_string(my_key@) is Some && spec_c_string(their_key@) is Some
                && spec_buffer(msg@) is Some,
            r matches Ok(q) ==> q.wallet_handle == wallet_handle && Some(q.my_vk@) == spec_c_string(
                my_key@,
            ) && Some(q.their_vk@) == spec_c_string(their_key@) && Some(q.msg@) == spec_buffer(
                msg@,
            ),
    {
        let my_vk = c_string_bytes(my_key)?;
        let their_vk = c_string_bytes(their_key)?;
        let msg = buffer_bytes(msg)?;
        Ok(AuthCryptRequest { wallet_handle, my_vk, their_vk, msg })
    }

    /// What decryption of the base58 ciphertext `base58msg` with `my_key` hands
    /// to the native service. The plaintext comes back with the remote key.
    pub fn auth_decrypt_request(wallet_handle: i32, my_key: &str, base58msg: &str) -> (r: Result<
        AuthDecryptRequest,
        CallError,
    >)
        ensures
            spec_c_string(my_key@) is None ==> r == Err::<AuthDecryptRequest, CallError>(
                CallError::InteriorNul,
            ),
            spec_c_string(my_key@) is Some && spec_decode_base58(base58msg@) is None ==> r
                == Err::<AuthDecryptRequest, CallError>(
                CallError::Decode(DecodeError::InvalidBase58),
            ),
            r is Ok <==> spec_c_string(my_key@) is Some && spec_decode_base58(base58msg@) is Some
                && spec_decode_base58(base58msg@)->0.len() <= MAX_BUFFER_LEN,
            r matches Ok(q) ==> q.wallet_handle == wallet_handle && Some(q.my_vk@) == spec_c_string(
                my_key@,
            ) && Some(q.encrypted@) == spec_decode_base58(base58msg@),
    {
        let my_vk = c_string_bytes(my_key)?;
        let encrypted = base58_buffer(base58msg)?;
        Ok(AuthDecryptRequest { wallet_handle, my_vk, encrypted })
    }

    /// The full key from its two base58 parts: the DID part's bytes followed by
    /// the version part's (a leading `~` on the version part is dropped), in base58.
    pub fn compose_key(did58: &str, ver58: &str) -> (r: Result<String, CallError>)
        ensures
            spec_decode_base58(did58@) is None || spec_decode_base58(strip_sigil(ver58@)) is None
                ==> r == Err::<String, CallError>(CallError::Decode(DecodeError::InvalidBase58)),
            spec_decode_base58(did58@) matches Some(d) ==> (spec_decode_base58(
                strip_sigil(ver58@),
            ) matches Some(v) ==> {
                &&& (d + v).len() <= MAX_BASE58_BYTES ==> r is Ok && r->Ok_0@ == base58_of(d + v)
                &&& (d + v).len() > MAX_BASE58_BYTES ==> r == Err::<String, CallError>(
                    CallError::Decode(DecodeError::TooLong),
                )
                &&& (d + v).len() <= MAX_ROUND_TRIP_BYTES ==> r is Ok && spec_decode_base58(
                    r->Ok_0@,
                ) == Some(d + v)
            }),
    {
        let n = ver58.unicode_len();
        let ver = if n > 0 && ver58.get_char(0) == '~' {
            ver58.substring_char(1, n)
        } else {
            ver58
        };
        assert(ver@ == strip_sigil(ver58@));
        let mut did = match decode_base58(did58) {
            Ok(b) => b,
            Err(e) => return Err(CallError::Decode(e)),
        };
        let mut tail = match decode_base58(ver) {
            Ok(b) => b,
            Err(e) => return Err(CallError::Decode(e)),
        };
        let ghost d = did@;
        let ghost v = tail@;
        did.append(&mut tail);
        assert(did@ == d + v);
        match encode_base58(did.as_slice()) {
            Ok(k) => Ok(k),
            Err(e) => Err(CallError::Decode(e)),
        }
    }
}

/// A plaintext that fits a buffer comes back as itself from the bytes that
/// carried it, so a service that returns those bytes returns the text.
pub proof fn lemma_plaintext_round_trip(m: Seq<char>)
    requires
        spec_buffer(m) is Some,
    ensures
        spec_decode_utf8(spec_buffer(m)->0) == Some(m),
{
    lemma_utf8_round_trip(m);
}

/// A composed key's bytes split back into its two parts at the first part's length.
pub proof fn lemma_composed_key_splits(did: Seq<u8>, ver: Seq<u8>)
    ensures
        (did + ver).subrange(0, did.len() as int) == did,
        (did + ver).subrange(did.len() as int, (did + ver).len() as int) == ver,
{
    assert((did + ver).subrange(0, did.len() as int) =~= did);
    assert((did + ver).subrange(did.len() as int, (did + ver).len() as int) =~= ver);
}

} // verus!
