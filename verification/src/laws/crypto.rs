//! What the key hierarchy computes.

use vstd::prelude::*;

use crate::crypto;
use crate::crypto::{KdfParams, KdfParamsView};
use crate::error::{Error, Result};
use crate::primitives;
use crate::security::SecureBuffer;

verus! {

/// The bytes `vault_key`.
pub open spec fn for_keys() -> Seq<u8> {
    seq![118u8, 97, 117, 108, 116, 95, 107, 101, 121]
}

/// The bytes `vault`.
pub open spec fn for_payloads() -> Seq<u8> {
    seq![118u8, 97, 117, 108, 116]
}

/// The bytes `vault-key-encryption`.
pub open spec fn for_the_kek() -> Seq<u8> {
    seq![
        118u8, 97, 117, 108, 116, 45, 107, 101, 121, 45, 101, 110, 99, 114, 121, 112, 116, 105, 111,
        110,
    ]
}

/// What the two uses of the cipher and the derivation of the KEK are bound to,
/// and the lengths of keys, nonces, salts and tags.
pub proof fn the_hierarchy_is_bound_to_these_bytes()
    ensures
        crypto::AAD_VAULT_KEY@ == for_keys(),
        crypto::AAD_VAULT@ == for_payloads(),
        crypto::HKDF_INFO_KEK@ == for_the_kek(),
        crypto::KEY_LEN == 32,
        crypto::NONCE_LEN == 12,
        crypto::SALT_LEN == 16,
        crypto::TAG_LEN == 16,
        crypto::GCM_MAX_MESSAGE_BYTES == 68_719_476_736,
{
    assert(crypto::AAD_VAULT_KEY@ =~= for_keys());
    assert(crypto::AAD_VAULT@ =~= for_payloads());
    assert(crypto::HKDF_INFO_KEK@ =~= for_the_kek());
}

/// Whether key-derivation parameters are within the bounds: one to sixteen
/// passes over 19 MiB to 1 GiB in one to four lanes, with a salt of sixteen bytes
/// and a hash of thirty-two.
pub open spec fn within_bounds(params: KdfParamsView) -> bool {
    &&& params.name == "argon2id"@
    &&& params.salt.len() == 16
    &&& 1 <= params.time_cost <= 16
    &&& 19_456 <= params.memory_cost <= 1_048_576
    &&& 1 <= params.parallelism <= 4
    &&& params.hash_len == 32
}

/// Parameters are accepted exactly within the bounds, and those of a new vault
/// are three passes over 64 MiB in one lane.
pub proof fn parameters_are_accepted_within_bounds(params: KdfParamsView, salt: Seq<u8>)
    ensures
        params.valid() <==> within_bounds(params),
        KdfParamsView::of_new_vault(salt) == (KdfParamsView {
            name: "argon2id"@,
            salt,
            time_cost: 3,
            memory_cost: 65_536,
            parallelism: 1,
            hash_len: 32,
        }),
{
}

/// Parameters are seen as they stand.
pub proof fn parameters_are_their_fields(params: KdfParams)
    ensures
        params@.name == params.name@,
        params@.salt == params.salt@,
        params@.time_cost == params.time_cost,
        params@.memory_cost == params.memory_cost,
        params@.parallelism == params.parallelism,
        params@.hash_len == params.hash_len,
{
}

/// The Master Key is the Argon2id hash of the password, byte for byte as it was
/// given, under exactly the salt and the costs of the parameters. Parameters out
/// of bounds give none, nor does a password of more than 4 GiB.
pub proof fn master_key_is_the_hash_of_the_password(password: Seq<u8>, params: KdfParamsView)
    ensures
        within_bounds(params) && password.len() <= 0xFFFF_FFFF ==> crypto::master_key(
            password,
            params,
        ) == Ok::<Seq<u8>, Error>(
            primitives::argon2id(
                password,
                params.salt,
                params.memory_cost,
                params.time_cost,
                params.parallelism,
                32,
            ),
        ),
        !within_bounds(params) ==> crypto::master_key(password, params) == Err::<Seq<u8>, Error>(
            Error::InvalidKdfParameters,
        ),
        within_bounds(params) && password.len() > 0xFFFF_FFFF ==> crypto::master_key(
            password,
            params,
        ) == Err::<Seq<u8>, Error>(Error::KeyDerivation),
{
}

/// The KEK is what HKDF-SHA256 expands the whole Master Key to.
pub proof fn kek_is_expanded_from_the_master_key(master_key: Seq<u8>)
    ensures
        master_key.len() == 32 ==> crypto::kek(master_key) == Ok::<Seq<u8>, Error>(
            primitives::hkdf_sha256(master_key, for_the_kek(), 32),
        ),
        master_key.len() != 32 ==> crypto::kek(master_key) == Err::<Seq<u8>, Error>(
            Error::KeyDerivation,
        ),
{
    the_hierarchy_is_bound_to_these_bytes();
}

/// A Vault Key is unwrapped exactly where the cipher opens the ciphertext, under
/// this KEK and nonce and for a wrapped key, to thirty-two bytes; then it is
/// those. Otherwise a KEK of the wrong length is told from everything else, and
/// nothing more.
pub proof fn unwrapping_is_opening(
    kek: Seq<u8>,
    nonce: Seq<u8>,
    ciphertext: Seq<u8>,
    outcome: Result<Seq<u8>>,
)
    requires
        outcome == crypto::unwrapped_key(kek, nonce, ciphertext),
    ensures
        outcome is Ok <==> {
            &&& kek.len() == 32
            &&& nonce.len() == 12
            &&& ciphertext.len() >= 16
            &&& primitives::gcm_open(kek, nonce, for_keys(), ciphertext) matches Some(key)
                && key.len() == 32
        },
        outcome matches Ok(key) ==> primitives::gcm_open(kek, nonce, for_keys(), ciphertext)
            == Some(key),
        outcome matches Err(e) ==> e == (if kek.len() != 32 {
            Error::Crypto
        } else {
            Error::Authentication
        }),
{
    the_hierarchy_is_bound_to_these_bytes();
}

/// A payload is decrypted exactly where the cipher opens the ciphertext, under
/// this key and nonce and for a payload; then it is what the cipher gives.
/// Otherwise there is one error for everything.
pub proof fn decrypting_is_opening(
    vault_key: Seq<u8>,
    nonce: Seq<u8>,
    ciphertext: Seq<u8>,
    outcome: Result<Seq<u8>>,
)
    requires
        outcome == crypto::decrypted_payload(vault_key, nonce, ciphertext),
    ensures
        outcome is Ok <==> {
            &&& vault_key.len() == 32
            &&& nonce.len() == 12
            &&& ciphertext.len() >= 16
            &&& primitives::gcm_open(vault_key, nonce, for_payloads(), ciphertext) is Some
        },
        outcome matches Ok(payload) ==> primitives::gcm_open(
            vault_key,
            nonce,
            for_payloads(),
            ciphertext,
        ) == Some(payload),
        outcome matches Err(e) ==> e == Error::Authentication,
{
    the_hierarchy_is_bound_to_these_bytes();
}

/// What the cipher recovered is taken for a key only at the key length, and for a
/// payload at any; nothing is changed in it.
pub proof fn what_was_recovered_is_taken_unchanged(opened: Option<Seq<u8>>)
    ensures
        crypto::accepted_key(opened) == (match opened {
            Some(key) => if key.len() == 32 {
                Ok::<Seq<u8>, Error>(key)
            } else {
                Err::<Seq<u8>, Error>(Error::Authentication)
            },
            None => Err::<Seq<u8>, Error>(Error::Authentication),
        }),
        crypto::accepted_payload(opened) == (match opened {
            Some(payload) => Ok::<Seq<u8>, Error>(payload),
            None => Err::<Seq<u8>, Error>(Error::Authentication),
        }),
{
}

/// Random bytes are what a call for them gave, and they were refused only if such
/// a call failed. The bytes of a call are what the operating system wrote.
pub proof fn random_bytes_come_from_the_system<const N: usize>(bytes: Seq<u8>)
    ensures
        crypto::given::<N>(bytes) <==> exists|b: [u8; N]|
            #[trigger] call_ensures(crypto::random_bytes::<N>, (), Ok::<[u8; N], Error>(b)) && b@
                == bytes,
        crypto::refused::<N>() <==> call_ensures(
            crypto::random_bytes::<N>,
            (),
            Err::<[u8; N], Error>(Error::Crypto),
        ),
        crypto::given::<N>(bytes) ==> exists|
            dest: &mut [u8],
            outcome: core::result::Result<(), getrandom::Error>,
        |
            {
                &&& #[trigger] call_ensures(getrandom::getrandom, (dest,), outcome)
                &&& outcome is Ok
                &&& final(dest)@ == bytes
            },
{
}

/// A nonce was drawn by wrapping a key, or by encrypting a payload, only if a call
/// with that key and that plaintext handed it back.
pub proof fn nonces_are_drawn_by_their_use(key: Seq<u8>, plaintext: Seq<u8>, nonce: Seq<u8>)
    ensures
        crypto::wrapping_draws(key, plaintext, nonce) ==> exists|
            k: &[u8],
            v: &[u8],
            sealed: crypto::Sealed,
        |
            {
                &&& #[trigger] call_ensures(
                    crypto::wrap_vault_key,
                    (k, v),
                    Ok::<crypto::Sealed, Error>(sealed),
                )
                &&& k@ == key
                &&& v@ == plaintext
                &&& sealed.0@ == nonce
            },
        crypto::encrypting_draws(key, plaintext, nonce) ==> exists|
            k: &[u8],
            p: &[u8],
            sealed: crypto::Sealed,
        |
            {
                &&& #[trigger] call_ensures(
                    crypto::encrypt_vault,
                    (k, p),
                    Ok::<crypto::Sealed, Error>(sealed),
                )
                &&& k@ == key
                &&& p@ == plaintext
                &&& sealed.0@ == nonce
            },
        crypto::wrapping_draws(key, plaintext, nonce) || crypto::encrypting_draws(
            key,
            plaintext,
            nonce,
        ) ==> crypto::given::<12>(nonce),
{
}

/// What a call for the Master Key hands back is the Argon2id hash of exactly the
/// bytes that it was given, and what a call for the KEK hands back is expanded
/// from exactly those.
pub proof fn derived_keys_depend_on_every_byte(
    password: &[u8],
    params: &KdfParams,
    derived: Result<SecureBuffer>,
    master_key: &[u8],
    expanded: Result<SecureBuffer>,
)
    requires
        call_ensures(crypto::derive_master_key, (password, params), derived),
        call_ensures(crypto::derive_kek, (master_key,), expanded),
    ensures
        derived matches Ok(key) ==> key@ == primitives::argon2id(
            password@,
            params.salt@,
            params.memory_cost,
            params.time_cost,
            params.parallelism,
            32,
        ),
        within_bounds(params@) && password@.len() <= 0xFFFF_FFFF ==> derived is Ok,
        expanded matches Ok(key) ==> key@ == primitives::hkdf_sha256(
            master_key@,
            for_the_kek(),
            32,
        ),
        master_key@.len() == 32 ==> expanded is Ok,
{
    the_hierarchy_is_bound_to_these_bytes();
}

/// What one call sealed another opens: a wrapped key unwraps, under the same KEK and
/// its nonce, to the key that went in, and an encrypted payload decrypts to the
/// payload that went in.
pub proof fn what_was_sealed_opens(
    kek: &[u8],
    vault_key: &[u8],
    wrapped: crypto::Sealed,
    kek_again: &[u8],
    wrap_nonce: &[u8],
    wrap_text: &[u8],
    unwrapped: Result<SecureBuffer>,
    plaintext: &[u8],
    encrypted: crypto::Sealed,
    key_again: &[u8],
    nonce: &[u8],
    ciphertext: &[u8],
    decrypted: Result<SecureBuffer>,
)
    requires
        call_ensures(
            crypto::wrap_vault_key,
            (kek, vault_key),
            Ok::<crypto::Sealed, Error>(wrapped),
        ),
        kek_again@ == kek@,
        wrap_nonce@ == wrapped.0@,
        wrap_text@ == wrapped.1@,
        call_ensures(crypto::unwrap_vault_key, (kek_again, wrap_nonce, wrap_text), unwrapped),
        call_ensures(
            crypto::encrypt_vault,
            (vault_key, plaintext),
            Ok::<crypto::Sealed, Error>(encrypted),
        ),
        key_again@ == vault_key@,
        nonce@ == encrypted.0@,
        ciphertext@ == encrypted.1@,
        call_ensures(crypto::decrypt_vault, (key_again, nonce, ciphertext), decrypted),
    ensures
        unwrapped matches Ok(key) && key@ == vault_key@,
        decrypted matches Ok(payload) && payload@ == plaintext@,
        wrapped.1@ == primitives::gcm_seal(kek@, wrapped.0@, for_keys(), vault_key@),
        encrypted.1@ == primitives::gcm_seal(
            vault_key@,
            encrypted.0@,
            for_payloads(),
            plaintext@,
        ),
        crypto::given::<12>(wrapped.0@),
        crypto::given::<12>(encrypted.0@),
{
    the_hierarchy_is_bound_to_these_bytes();
}

} // verus!
