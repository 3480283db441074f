//! Textual encodings at the native boundary: base58 and UTF-8.
use vstd::prelude::*;
use vstd::utf8::*;
use base58::{FromBase58, ToBase58};

verus! {

/// Longest byte string whose base58 text is guaranteed to decode back exactly:
/// the decoder's work buffer holds 132 bytes.
pub const MAX_ROUND_TRIP_BYTES: usize = 132;

/// Longest byte string the encoder's buffer sizing can handle without overflow.
pub const MAX_BASE58_BYTES: usize = usize::MAX / 138;

/// Base58 text of a byte string, as computed by the `base58` crate.
pub uninterp spec fn base58_of(b: Seq<u8>) -> Seq<char>;

/// Bytes that the `base58` crate decodes from a text that does not start with
/// `'1'`, or `None` where it reports an error.
pub uninterp spec fn base58_decoded(s: Seq<char>) -> Option<Seq<u8>>;

#[verifier::external_type_specification]
#[verifier::external_body]
pub struct ExFromBase58Error(base58::FromBase58Error);

/// Relies on `<[u8] as base58::ToBase58>::to_base58`: the text depends on the bytes
/// alone; an empty input gives an empty text; it writes one `'1'` per leading zero
/// byte, then digits that start with another character, which `from_base58` turns
/// back into the remaining bytes as long as they fit its 132-byte buffer.
#[verifier::external_body]
fn to_base58_text(b: &[u8]) -> (r: String)
    requires
        b@.len() <= MAX_BASE58_BYTES,
    ensures
        r@ == base58_of(b@),
        b@.len() == 0 ==> r@.len() == 0,
        b@.len() <= MAX_ROUND_TRIP_BYTES ==> spec_decode_base58(r@) == Some(b@),
{
    b.to_base58()
}

/// Relies on `<str as base58::FromBase58>::from_base58`: the outcome depends on the
/// text alone. The crate panics when leading `'1'`s outnumber the zero bytes left in
/// its buffer, so only texts without a leading `'1'` are admitted.
#[verifier::external_body]
fn from_base58_text(s: &str) -> (r: Result<Vec<u8>, base58::FromBase58Error>)
    requires
        s@.len() == 0 || s@[0] != '1',
    ensures
        r is Ok <==> base58_decoded(s@) is Some,
        r is Ok ==> Some(r->Ok_0@) == base58_decoded(s@),
{
    s.from_base58()
}

/// Relies on `String::from_utf8`: it fails exactly on bytes that are not UTF-8,
/// and otherwise holds those very bytes.
#[verifier::external_body]
fn string_from_utf8(b: Vec<u8>) -> (r: Option<String>)
    ensures
        r is Some <==> valid_utf8(b@),
        r is Some ==> encode_utf8(r->0@) == b@,
{
    String::from_utf8(b).ok()
}

/// Why decoding a buffer failed.
#[derive(Clone, Copy, Debug, PartialEq, Eq, Structural)]
pub enum DecodeError {
    /// The text is not base58, or stands for a number too large for the decoder.
    InvalidBase58,
    /// The buffer is not UTF-8.
    InvalidUtf8,
    /// The buffer is too long to encode.
    TooLong,
}

/// How many `'1'`s the text has from position `i` on, before any other character.
pub open spec fn ones_from(s: Seq<char>, i: int) -> nat
    decreases s.len() - i,
{
    if 0 <= i < s.len() && s[i] == '1' {
        1 + ones_from(s, i + 1)
    } else {
        0
    }
}

/// `n` zero bytes.
pub open spec fn zero_bytes(n: nat) -> Seq<u8> {
    Seq::new(n, |i: int| 0u8)
}

/// What base58 text decodes to: one zero byte per leading `'1'`, then the bytes
/// of the digits after them.
pub open spec fn spec_decode_base58(s: Seq<char>) -> Option<Seq<u8>> {
    let z = ones_from(s, 0);
    match base58_decoded(s.skip(z as int)) {
        Some(b) => Some(zero_bytes(z) + b),
        None => None,
    }
}

proof fn lemma_ones_from(s: Seq<char>, k: int, i: int)
    requires
        0 <= k <= i <= s.len(),
        forall|j: int| 0 <= j < i ==> s[j] == '1',
        i == s.len() || s[i] != '1',
    ensures
        ones_from(s, k) == i - k,
    decreases i - k,
{
    if k < i {
        lemma_ones_from(s, k + 1, i);
    }
}

/// The characters a byte buffer holds, where it is UTF-8.
pub open spec fn spec_decode_utf8(b: Seq<u8>) -> Option<Seq<char>> {
    if valid_utf8(b) {
        Some(decode_utf8(b))
    } else {
        None
    }
}

/// Base58 text of a byte buffer.
pub fn encode_base58(b: &[u8]) -> (r: Result<String, DecodeError>)
    ensures
        b@.len() <= MAX_BASE58_BYTES ==> r is Ok && r->Ok_0@ == base58_of(b@),
        b@.len() > MAX_BASE58_BYTES ==> r == Err::<String, DecodeError>(DecodeError::TooLong),
        b@.len() <= MAX_ROUND_TRIP_BYTES ==> r is Ok && spec_decode_base58(r->Ok_0@) == Some(b@),
{
    if b.len() > MAX_BASE58_BYTES {
        Err(DecodeError::TooLong)
    } else {
        Ok(to_base58_text(b))
    }
}

/// Bytes that base58 text stands for.
pub fn decode_base58(s: &str) -> (r: Result<Vec<u8>, DecodeError>)
    ensures
        r is Ok <==> spec_decode_base58(s@) is Some,
        r is Ok ==> Some(r->Ok_0@) == spec_decode_base58(s@),
        r is Err ==> r == Err::<Vec<u8>, DecodeError>(DecodeError::InvalidBase58),
{
    let n = s.unicode_len();
    let mut z: usize = 0;
    while z < n && s.get_char(z) == '1'
        invariant
            n == s@.len(),
            z <= n,
            forall|j: int| 0 <= j < z ==> s@[j] == '1',
        decreases n - z,
    {
        z = z + 1;
    }
    proof {
        lemma_ones_from(s@, 0, z as int);
    }
    let digits = s.substring_char(z, n);
    assert(digits@ == s@.skip(z as int));
    let tail = match from_base58_text(digits) {
        Ok(v) => v,
        Err(_) => return Err(DecodeError::InvalidBase58),
    };
    let mut out: Vec<u8> = Vec::new();
    let mut k: usize = 0;
    while k < z
        invariant
            k <= z,
            out@ == zero_bytes(k as nat),
        decreases z - k,
    {
        out.push(0u8);
        k = k + 1;
        assert(out@ =~= zero_bytes(k as nat));
    }
    let mut tail = tail;
    out.append(&mut tail);
    Ok(out)
}

/// Text that a UTF-8 buffer holds; any other buffer is refused, never truncated
/// or patched.
pub fn decode_utf8_bytes(b: Vec<u8>) -> (r: Result<String, DecodeError>)
    ensures
        r is Ok <==> spec_decode_utf8(b@) is Some,
        r is Ok ==> Some(r->Ok_0@) == spec_decode_utf8(b@),
        r is Err ==> r == Err::<String, DecodeError>(DecodeError::InvalidUtf8),
{
    match string_from_utf8(b) {
        Some(s) => {
            proof {
                encode_utf8_decode_utf8(s@);
            }
            Ok(s)
        },
        None => Err(DecodeError::InvalidUtf8),
    }
}

/// Text that travels as a UTF-8 buffer decodes back to itself.
pub proof fn lemma_utf8_round_trip(m: Seq<char>)
    ensures
        spec_decode_utf8(encode_utf8(m)) == Some(m),
{
    encode_utf8_valid_utf8(m);
    encode_utf8_decode_utf8(m);
}

} // verus!
