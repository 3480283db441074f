use indy_cli::callbacks::{decode_message, decode_message58, decode_message_withkey, result_to_value, CallError, ErrorCode};
use indy_cli::codec::{decode_base58, encode_base58, DecodeError};
use indy_cli::crypto::Crypto;

#[test]
fn compose_key_concatenates_decoded_parts() {
    let did = decode_base58("Th7MpTaRZVRYnPiabds81Y").unwrap();
    let ver = decode_base58("7TYfekw4GUagBnBVCqPjiC").unwrap();
    let full = Crypto::compose_key("Th7MpTaRZVRYnPiabds81Y", "~7TYfekw4GUagBnBVCqPjiC").unwrap();
    let mut joined = did.clone();
    joined.extend_from_slice(&ver);
    assert_eq!(full, encode_base58(&joined).unwrap());
    let back = decode_base58(&full).unwrap();
    assert_eq!(&back[..did.len()], &did[..]);
    assert_eq!(&back[did.len()..], &ver[..]);
}

#[test]
fn compose_key_known_value() {
    assert_eq!(
        Crypto::compose_key("Th7MpTaRZVRYnPiabds81Y", "~7TYfekw4GUagBnBVCqPjiC"),
        Ok("FYmoFw55GeQH7SRFa37dkx1d2dZ3zUF8ckg7wmL7ofN4".to_string())
    );
}

#[test]
fn long_base58_texts_decode() {
    let mut text: String = std::iter::repeat('1').take(40).collect();
    text.extend(std::iter::repeat('z').take(100));
    let bytes = decode_base58(&text).unwrap();
    assert_eq!(bytes.len(), 114);
    assert!(bytes[..40].iter().all(|b| *b == 0));
    assert_ne!(bytes[40], 0);
    assert_eq!(encode_base58(&bytes), Ok(text));
    let wide = vec![1u8; 100];
    let armored = encode_base58(&wide).unwrap();
    assert_eq!(armored.len(), 136);
    assert_eq!(decode_base58(&armored), Ok(wide));
    assert_eq!(encode_base58(&[0, 255]), Ok("15Q".to_string()));
}

#[test]
fn compose_key_sigil_is_optional() {
    assert_eq!(
        Crypto::compose_key("Th7MpTaRZVRYnPiabds81Y", "~7TYfekw4GUagBnBVCqPjiC"),
        Crypto::compose_key("Th7MpTaRZVRYnPiabds81Y", "7TYfekw4GUagBnBVCqPjiC")
    );
    assert_eq!(Crypto::compose_key("ZiCa", "~ZiCa"), Ok(encode_base58(b"abcabc").unwrap()));
}

#[test]
fn compose_key_rejects_invalid_base58() {
    assert_eq!(
        Crypto::compose_key("Th7MpTaRZVRYnPiabds81Y", "~0OIl"),
        Err(CallError::Decode(DecodeError::InvalidBase58))
    );
    assert_eq!(
        Crypto::compose_key("0", "ZiCa"),
        Err(CallError::Decode(DecodeError::InvalidBase58))
    );
}

#[test]
fn base58_decoding_known_values_and_limits() {
    assert_eq!(decode_base58("ZiCa"), Ok(b"abc".to_vec()));
    assert_eq!(decode_base58("11ZiCa"), Ok(b"\0\0abc".to_vec()));
    assert_eq!(decode_base58(""), Ok(Vec::new()));
    assert_eq!(decode_base58("3mJr0"), Err(DecodeError::InvalidBase58));
    let ones: String = std::iter::repeat('1').take(140).collect();
    assert_eq!(decode_base58(&ones), Ok(vec![0u8; 140]));
    let huge: String = std::iter::repeat('z').take(200).collect();
    assert_eq!(decode_base58(&huge), Err(DecodeError::InvalidBase58));
}

#[test]
fn request_builders_marshal_inputs() {
    let q = Crypto::anon_crypt_request("VsKV7grR1BUE29mG2Fm2kX", "hi é").unwrap();
    assert_eq!(q.their_vk, b"VsKV7grR1BUE29mG2Fm2kX".to_vec());
    assert_eq!(q.msg, "hi é".as_bytes().to_vec());
    assert!(matches!(Crypto::anon_crypt_request("bad\0key", "m"), Err(CallError::InteriorNul)));
    let d = Crypto::anon_decrypt_request(3, "key", "ZiCa").unwrap();
    assert_eq!(d.wallet_handle, 3);
    assert_eq!(d.my_vk, b"key".to_vec());
    assert_eq!(d.encrypted, b"abc".to_vec());
    assert!(matches!(
        Crypto::anon_decrypt_request(3, "key", "not base58!"),
        Err(CallError::Decode(DecodeError::InvalidBase58))
    ));
    let a = Crypto::auth_crypt_request(4, "mine", "theirs", "").unwrap();
    assert_eq!((a.wallet_handle, a.my_vk, a.their_vk, a.msg), (4, b"mine".to_vec(), b"theirs".to_vec(), Vec::new()));
    assert!(matches!(Crypto::auth_crypt_request(4, "mine", "the\0irs", "x"), Err(CallError::InteriorNul)));
    let b = Crypto::auth_decrypt_request(5, "mine", "1ZiCa").unwrap();
    assert_eq!((b.wallet_handle, b.my_vk, b.encrypted), (5, b"mine".to_vec(), b"\0abc".to_vec()));
}

/// A stand-in for the native service: "encryption" XORs every byte.
fn stub_cipher(bytes: &[u8]) -> Vec<u8> {
    bytes.iter().map(|b| b ^ 0x5a).collect()
}

fn anon_encrypt(key: &str, msg: &str) -> Result<String, CallError> {
    let q = Crypto::anon_crypt_request(key, msg)?;
    let cipher = stub_cipher(&q.msg);
    result_to_value(ErrorCode::success(), decode_message58(&cipher))
}

fn anon_decrypt(wallet: i32, key: &str, ct: &str) -> Result<String, CallError> {
    let q = Crypto::anon_decrypt_request(wallet, key, ct)?;
    let plain = stub_cipher(&q.encrypted);
    result_to_value(ErrorCode::success(), decode_message(plain))
}

#[test]
fn anonymous_round_trip_with_stub_service() {
    for msg in ["hello world", "", "\u{1}a\u{7f}é€ \u{10348}", "{ did: X ; nonce: 1 }"] {
        let ct = anon_encrypt("VsKV7grR1BUE29mG2Fm2kX", msg).unwrap();
        assert_eq!(anon_decrypt(1, "VsKV7grR1BUE29mG2Fm2kX", &ct), Ok(msg.to_string()));
    }
}

fn dh_encrypt(wallet: i32, my_key: &str, their_key: &str, msg: &str) -> Result<String, CallError> {
    let q = Crypto::auth_crypt_request(wallet, my_key, their_key, msg)?;
    let mut cipher = vec![q.their_vk.len() as u8];
    cipher.extend_from_slice(&q.their_vk);
    cipher.extend_from_slice(&stub_cipher(&q.msg));
    result_to_value(ErrorCode::success(), decode_message58(&cipher))
}

fn dh_decrypt(wallet: i32, my_key: &str, ct: &str) -> Result<(String, String), CallError> {
    let q = Crypto::auth_decrypt_request(wallet, my_key, ct)?;
    let n = q.encrypted[0] as usize;
    let remote = q.encrypted[1..1 + n].to_vec();
    let plain = stub_cipher(&q.encrypted[1 + n..]);
    result_to_value(ErrorCode::success(), decode_message_withkey(remote, plain))
}

#[test]
fn dh_round_trip_with_stub_service() {
    for msg in ["hello", "", "x\u{1}y"] {
        let ct = dh_encrypt(2, "LocalKey1", "RemoteKey2", msg).unwrap();
        assert_eq!(
            dh_decrypt(2, "LocalKey1", &ct),
            Ok((msg.to_string(), "RemoteKey2".to_string()))
        );
    }
}

#[test]
fn native_failure_surfaces_status() {
    let r = result_to_value(ErrorCode { code: 212 }, decode_message(b"ignored".to_vec()));
    assert_eq!(r, Err(CallError::Native(ErrorCode { code: 212 })));
}
