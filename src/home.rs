//! The home directory setting handed in as a C string.
use vstd::prelude::*;
use crate::codec::{decode_utf8_bytes, spec_decode_utf8, DecodeError};

verus! {

/// The home directory that a C string sets: `None` for an empty string, which
/// leaves the setting as it is.
pub fn home_path_to_set(raw: Vec<u8>) -> (r: Result<Option<String>, DecodeError>)
    ensures
        spec_decode_utf8(raw@) is None ==> r == Err::<Option<String>, DecodeError>(
            DecodeError::InvalidUtf8,
        ),
        raw@.len() == 0 ==> r == Ok::<Option<String>, DecodeError>(None),
        raw@.len() > 0 && spec_decode_utf8(raw@) is Some ==> (r matches Ok(Some(p)) && Some(p@)
            == spec_decode_utf8(raw@)),
{
    let empty = raw.len() == 0;
    let path = decode_utf8_bytes(raw)?;
    if empty {
        Ok(None)
    } else {
        Ok(Some(path))
    }
}

} // verus!
