//! The cryptographic primitives and the Base64 codec, each behind one function.
//!
//! What these functions compute comes from the `getrandom`, `argon2`, `hkdf`,
//! `sha2`, `aes-gcm` and `base64` crates. Their contracts are taken on trust; everything
//! built on them is proved.

use vstd::prelude::*;

use aes_gcm::aead::{Aead, KeyInit};
use aes_gcm::Error as AeadError;
use argon2::Error as Argon2Error;
use base64::engine::general_purpose::STANDARD;
use base64::{DecodeError, Engine};
use getrandom::Error as GetrandomError;

use crate::crypto::{
    ARGON2_MAX_MEMORY_KIB, ARGON2_MAX_PASSWORD_BYTES, GCM_MAX_MESSAGE_BYTES, KEY_LEN, NONCE_LEN,
    TAG_LEN,
};

verus! {

#[verifier::external_type_specification]
#[verifier::external_body]
pub struct ExGetrandomError(GetrandomError);

#[verifier::external_type_specification]
#[verifier::external_body]
pub struct ExArgon2Error(Argon2Error);

#[verifier::external_type_specification]
#[verifier::external_body]
pub struct ExHkdfInvalidLength(hkdf::InvalidLength);

#[verifier::external_type_specification]
#[verifier::external_body]
pub struct ExAeadError(AeadError);

/// `getrandom::getrandom` fills the slice with bytes from the operating system.
/// Nothing is claimed of the bytes; the length stays, and an empty slice always
/// succeeds.
pub assume_specification[ getrandom::getrandom ](dest: &mut [u8]) -> (r: core::result::Result<
    (),
    GetrandomError,
>)
    ensures
        final(dest)@.len() == old(dest)@.len(),
        old(dest)@.len() == 0 ==> r is Ok,
;

/// The Argon2id (version 0x13) hash of a password: salt, memory in KiB, passes,
/// lanes and output length, in that order after the password.
pub uninterp spec fn argon2id(
    password: Seq<u8>,
    salt: Seq<u8>,
    memory_kib: u32,
    passes: u32,
    lanes: u32,
    len: nat,
) -> Seq<u8>;

/// `argon2::Argon2::hash_password_into` with parameters from
/// `argon2::Params::new`, algorithm Argon2id, version 0x13.
///
/// With parameters in range the only failure is a password above 4 GiB; on
/// success the output holds the hash, whose length is that of `out`.
#[verifier::external_body]
pub(crate) fn argon2id_into(
    password: &[u8],
    salt: &[u8],
    memory_kib: u32,
    passes: u32,
    lanes: u32,
    out: &mut [u8],
) -> (r: Result<(), Argon2Error>)
    requires
        1 <= lanes,
        8 * lanes <= memory_kib <= ARGON2_MAX_MEMORY_KIB,
        1 <= passes,
        8 <= salt@.len() <= 0xFFFF_FFFF,
        4 <= old(out)@.len() <= 0xFFFF_FFFF,
    ensures
        final(out)@.len() == old(out)@.len(),
        r is Ok <==> password@.len() <= ARGON2_MAX_PASSWORD_BYTES,
        r is Ok ==> final(out)@ == argon2id(
            password@,
            salt@,
            memory_kib,
            passes,
            lanes,
            old(out)@.len(),
        ),
{
    let params = argon2::Params::new(memory_kib, passes, lanes, Some(out.len()))?;
    argon2::Argon2::new(argon2::Algorithm::Argon2id, argon2::Version::V0x13, params)
        .hash_password_into(password, salt, out)
}

/// The first `len` bytes that HKDF-SHA256 expands from `ikm`, extracted without
/// a salt, for the context `info`.
pub uninterp spec fn hkdf_sha256(ikm: Seq<u8>, info: Seq<u8>, len: nat) -> Seq<u8>;

/// `hkdf::Hkdf::<sha2::Sha256>::expand` after an extraction without salt. It
/// succeeds for outputs of up to 255 blocks of 32 bytes.
#[verifier::external_body]
pub(crate) fn hkdf_sha256_into(ikm: &[u8], info: &[u8], okm: &mut [u8]) -> (r: Result<
    (),
    hkdf::InvalidLength,
>)
    ensures
        final(okm)@.len() == old(okm)@.len(),
        r is Ok <==> old(okm)@.len() <= 255 * 32,
        r is Ok ==> final(okm)@ == hkdf_sha256(ikm@, info@, old(okm)@.len()),
{
    hkdf::Hkdf::<sha2::Sha256>::new(None, ikm).expand(info, okm)
}

/// The ciphertext, tag included, that AES-256-GCM gives for a message.
pub uninterp spec fn gcm_seal(
    key: Seq<u8>,
    nonce: Seq<u8>,
    aad: Seq<u8>,
    message: Seq<u8>,
) -> Seq<u8>;

/// The message that AES-256-GCM recovers from a ciphertext, if the tag is
/// right.
pub uninterp spec fn gcm_open(
    key: Seq<u8>,
    nonce: Seq<u8>,
    aad: Seq<u8>,
    ciphertext: Seq<u8>,
) -> Option<Seq<u8>>;

/// `aes_gcm::Aes256Gcm::encrypt`. It succeeds unless the message or the
/// associated data is above the limit of the cipher; the ciphertext is the tag
/// longer than the message, and decrypting it with the same key, nonce and
/// associated data gives the message back.
#[verifier::external_body]
pub(crate) fn aes256_gcm_encrypt(key: &[u8], nonce: &[u8], aad: &[u8], message: &[u8]) -> (r: Result<Vec<u8>, AeadError>)
    requires
        key@.len() == KEY_LEN,
        nonce@.len() == NONCE_LEN,
    ensures
        (r is Ok) == (message@.len() <= GCM_MAX_MESSAGE_BYTES && aad@.len() <= GCM_MAX_MESSAGE_BYTES),
        r matches Ok(ct) ==> {
            &&& ct@ == gcm_seal(key@, nonce@, aad@, message@)
            &&& ct@.len() == message@.len() + TAG_LEN
            &&& gcm_open(key@, nonce@, aad@, ct@) == Some(message@)
        },
{
    let cipher = aes_gcm::Aes256Gcm::new(aes_gcm::Key::<aes_gcm::Aes256Gcm>::from_slice(key));
    let payload = aes_gcm::aead::Payload { msg: message, aad };
    cipher.encrypt(aes_gcm::Nonce::from_slice(nonce), payload)
}

/// `aes_gcm::Aes256Gcm::decrypt`. It succeeds exactly where the tag is right,
/// with a message that is the tag shorter than the ciphertext.
#[verifier::external_body]
pub(crate) fn aes256_gcm_decrypt(key: &[u8], nonce: &[u8], aad: &[u8], ciphertext: &[u8]) -> (r: Result<Vec<u8>, AeadError>)
    requires
        key@.len() == KEY_LEN,
        nonce@.len() == NONCE_LEN,
    ensures
        r is Ok <==> gcm_open(key@, nonce@, aad@, ciphertext@) is Some,
        r matches Ok(message) ==> {
            &&& gcm_open(key@, nonce@, aad@, ciphertext@) == Some(message@)
            &&& ciphertext@.len() == message@.len() + TAG_LEN
        },
{
    let cipher = aes_gcm::Aes256Gcm::new(aes_gcm::Key::<aes_gcm::Aes256Gcm>::from_slice(key));
    let payload = aes_gcm::aead::Payload { msg: ciphertext, aad };
    cipher.decrypt(aes_gcm::Nonce::from_slice(nonce), payload)
}

#[verifier::external_type_specification]
#[verifier::external_body]
pub struct ExDecodeError(DecodeError);

/// The Base64 text of bytes, in the standard alphabet with padding.
pub uninterp spec fn base64_text(bytes: Seq<u8>) -> Seq<char>;

/// The bytes that a Base64 text stands for, given the UTF-8 bytes of the text,
/// if it is one.
pub uninterp spec fn base64_bytes(text: Seq<u8>) -> Option<Seq<u8>>;

/// The length of the Base64 text of `n` bytes: four characters for every three
/// bytes begun.
pub open spec fn base64_len(n: nat) -> nat {
    (n + 2) / 3 * 4
}

/// `encode` of the standard engine of the `base64` crate. The text decodes to
/// the bytes it was made from. The `requires` is the longest text that fits in
/// memory.
#[verifier::external_body]
pub(crate) fn base64_encode(bytes: &[u8]) -> (s: String)
    requires
        base64_len(bytes@.len()) <= isize::MAX,
    ensures
        s@ == base64_text(bytes@),
        s@.len() == base64_len(bytes@.len()),
        base64_bytes(vstd::utf8::encode_utf8(s@)) == Some(bytes@),
{
    STANDARD.encode(bytes)
}

/// `decode` of the standard engine of the `base64` crate.
#[verifier::external_body]
pub(crate) fn base64_decode(text: &[u8]) -> (r: Result<Vec<u8>, DecodeError>)
    ensures
        r is Ok <==> base64_bytes(text@) is Some,
        r matches Ok(bytes) ==> base64_bytes(text@) == Some(bytes@),
{
    STANDARD.decode(text)
}

} // verus!
