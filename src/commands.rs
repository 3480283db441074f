//! The decisions of the `crypto` commands: a session-scoped command needs an
//! open wallet before anything reaches the native service, and each command
//! turns its parameters into one facade request.
use vstd::prelude::*;
use crate::callbacks::CallError;
use crate::codec::DecodeError;
use crate::crypto::{
    AnonCryptRequest, AnonDecryptRequest, AuthCryptRequest, AuthDecryptRequest, Crypto,
    spec_buffer, spec_c_string, MAX_BUFFER_LEN,
};
use crate::codec::spec_decode_base58;

verus! {

/// Why a command did not run.
#[derive(Clone, Copy, Debug, PartialEq, Eq, Structural)]
pub enum CommandError {
    /// The command works in a wallet and none is open.
    NoWalletOpened,
    /// The facade refused the parameters or the call failed.
    Call(CallError),
}

/// The wallet a session-scoped command works in.
pub fn opened_wallet(wallet: Option<i32>) -> (r: Result<i32, CommandError>)
    ensures
        wallet matches Some(h) ==> r == Ok::<i32, CommandError>(h),
        wallet is None ==> r == Err::<i32, CommandError>(CommandError::NoWalletOpened),
{
    match wallet {
        Some(h) => Ok(h),
        None => Err(CommandError::NoWalletOpened),
    }
}

/// `crypto dec`: anonymous decryption in the open wallet, which is checked first.
pub fn decrypt_command(wallet: Option<i32>, key: &str, base58msg: &str) -> (r: Result<
    AnonDecryptRequest,
    CommandError,
>)
    ensures
        wallet is None ==> r == Err::<AnonDecryptRequest, CommandError>(
            CommandError::NoWalletOpened,
        ),
        wallet is Some && spec_c_string(key@) is None ==> r == Err::<
            AnonDecryptRequest,
            CommandError,
        >(CommandError::Call(CallError::InteriorNul)),
        wallet is Some && spec_c_string(key@) is Some && spec_decode_base58(base58msg@) is None
            ==> r == Err::<AnonDecryptRequest, CommandError>(
            CommandError::Call(CallError::Decode(DecodeError::InvalidBase58)),
        ),
        r is Ok <==> wallet is Some && spec_c_string(key@) is Some && spec_decode_base58(
            base58msg@,
        ) is Some && spec_decode_base58(base58msg@)->0.len() <= MAX_BUFFER_LEN,
        r matches Ok(q) ==> Some(q.wallet_handle) == wallet && Some(q.my_vk@) == spec_c_string(
            key@,
        ) && Some(q.encrypted@) == spec_decode_base58(base58msg@),
{
    let h = opened_wallet(wallet)?;
    match Crypto::anon_decrypt_request(h, key, base58msg) {
        Ok(q) => Ok(q),
        Err(e) => Err(CommandError::Call(e)),
    }
}

/// `crypto encdh`: encryption under a shared secret in the open wallet, which
/// is checked first.
pub fn encrypt_dh_command(wallet: Option<i32>, mykey: &str, theirkey: &str, msg: &str) -> (r:
    Result<AuthCryptRequest, CommandError>)
    ensures
        wallet is None ==> r == Err::<AuthCryptRequest, CommandError>(
            CommandError::NoWalletOpened,
        ),
        wallet is Some && (spec_c_string(mykey@) is None || spec_c_string(theirkey@) is None)
            ==> r == Err::<AuthCryptRequest, CommandError>(
            CommandError::Call(CallError::InteriorNul),
        ),
        wallet is Some && spec_c_string(mykey@) is Some && spec_c_string(theirkey@) is Some
            && spec_buffer(msg@) is None ==> r == Err::<AuthCryptRequest, CommandError>(
            CommandError::Call(CallError::TooLong),
        ),
        r is Ok <==> wallet is Some && spec_c_string(mykey@) is Some && spec_c_string(
            theirkey@,
        ) is Some && spec_buffer(msg@) is Some,
        r matches Ok(q) ==> Some(q.wallet_handle) == wallet && Some(q.my_vk@) == spec_c_string(
            mykey@,
        ) && Some(q.their_vk@) == spec_c_string(theirkey@) && Some(q.msg@) == spec_buffer(msg@),
{
    let h = opened_wallet(wallet)?;
    match Crypto::auth_crypt_request(h, mykey, theirkey, msg) {
        Ok(q) => Ok(q),
        Err(e) => Err(CommandError::Call(e)),
    }
}

/// `crypto decdh`: decryption under a shared secret in the open wallet, which
/// is checked first.
pub fn decrypt_dh_command(wallet: Option<i32>, key: &str, base58msg: &str) -> (r: Result<
    AuthDecryptRequest,
    CommandError,
>)
    ensures
        wallet is None ==> r == Err::<AuthDecryptRequest, CommandError>(
            CommandError::NoWalletOpened,
        ),
        wallet is Some && spec_c_string(key@) is None ==> r == Err::<
            AuthDecryptRequest,
            CommandError,
        >(CommandError::Call(CallError::InteriorNul)),
        wallet is Some && spec_c_string(key@) is Some && spec_decode_base58(base58msg@) is None
            ==> r == Err::<AuthDecryptRequest, CommandError>(
            CommandError::Call(CallError::Decode(DecodeError::InvalidBase58)),
        ),
        r is Ok <==> wallet is Some && spec_c_string(key@) is Some && spec_decode_base58(
            base58msg@,
        ) is Some && spec_decode_base58(base58msg@)->0.len() <= MAX_BUFFER_LEN,
        r matches Ok(q) ==> Some(q.wallet_handle) == wallet && Some(q.my_vk@) == spec_c_string(
            key@,
        ) && Some(q.encrypted@) == spec_decode_base58(base58msg@),
{
    let h = opened_wallet(wallet)?;
    match Crypto::auth_decrypt_request(h, key, base58msg) {
        Ok(q) => Ok(q),
        Err(e) => Err(CommandError::Call(e)),
    }
}

} // verus!
