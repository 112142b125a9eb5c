//! Cryptographic operations: Argon2id, HKDF-SHA256, AES-256-GCM.
//!
//! Every operation delegates to a vetted primitive; nothing here computes a
//! cipher, a key derivation, an authentication tag or a random number.
//!
//! ```text
//!   master password --Argon2id--> Master Key (32 bytes)
//!   Master Key      --HKDF-SHA256 (info "vault-key-encryption")--> KEK (32 bytes)
//!   random          ------------> Vault Key (32 bytes)
//!   KEK             --AES-256-GCM (AAD "vault_key")--> wrapped Vault Key
//!   Vault Key       --AES-256-GCM (AAD "vault")------> encrypted vault payload
//! ```
//!
//! HKDF runs with its default salt of zero bytes, because its input is already
//! a high-entropy Argon2id output. Every encryption takes a fresh 12-byte nonce
//! from the operating system, which is handed back to be stored beside the
//! ciphertext.

use vstd::prelude::*;
use vstd::slice::slice_to_vec;

use getrandom::Error as GetrandomError;

use crate::error::{Error, Result};
use crate::primitives;
use crate::security::SecureBuffer;

verus! {

/// Length of the Argon2id salt, in bytes.
pub const SALT_LEN: usize = 16;

/// Length of every AES-256-GCM nonce, in bytes.
pub const NONCE_LEN: usize = 12;

/// Length of the Master Key, KEK and Vault Key, in bytes.
pub const KEY_LEN: usize = 32;

/// Length of the AES-256-GCM tag at the end of every ciphertext, in bytes.
pub const TAG_LEN: usize = 16;

/// Associated data used when wrapping the Vault Key: `vault_key`.
pub const AAD_VAULT_KEY: [u8; 9] = [118, 97, 117, 108, 116, 95, 107, 101, 121];

/// Associated data used when encrypting the vault payload: `vault`.
pub const AAD_VAULT: [u8; 5] = [118, 97, 117, 108, 116];

/// HKDF `info` of the KEK derivation: `vault-key-encryption`.
pub const HKDF_INFO_KEK: [u8; 20] = [
    118, 97, 117, 108, 116, 45, 107, 101, 121, 45, 101, 110, 99, 114, 121, 112, 116, 105, 111, 110,
];

/// The only accepted KDF name.
pub const KDF_NAME_ARGON2ID: &'static str = "argon2id";

/// Minimum accepted `time_cost`.
pub const ARGON2_MIN_TIME_COST: u32 = 1;

/// Maximum accepted `time_cost`.
pub const ARGON2_MAX_TIME_COST: u32 = 16;

/// Minimum accepted `memory_cost`, in KiB.
pub const ARGON2_MIN_MEMORY_KIB: u32 = 19 * 1024;

/// Maximum accepted `memory_cost`, in KiB: one GiB, so that a hostile vault
/// file cannot exhaust memory.
pub const ARGON2_MAX_MEMORY_KIB: u32 = 1024 * 1024;

/// Minimum accepted `parallelism`.
pub const ARGON2_MIN_PARALLELISM: u32 = 1;

/// Maximum accepted `parallelism`.
pub const ARGON2_MAX_PARALLELISM: u32 = 4;

/// The only accepted `hash_len`.
pub const ARGON2_HASH_LEN: u32 = 32;

/// The longest password that Argon2id takes, in bytes.
pub const ARGON2_MAX_PASSWORD_BYTES: u64 = 0xFFFF_FFFF;

/// The longest message that AES-256-GCM encrypts, in bytes.
pub const GCM_MAX_MESSAGE_BYTES: u64 = 68_719_476_736;

// ---------------------------------------------------------------------------
// KdfParams
// ---------------------------------------------------------------------------

/// How the Master Key is derived from the master password. Stored in the vault
/// file, so that defaults can change without breaking old vaults.
#[derive(Debug)]
pub struct KdfParams {
    pub name: String,
    pub salt: Vec<u8>,
    pub time_cost: u32,
    pub memory_cost: u32,
    pub parallelism: u32,
    pub hash_len: u32,
}

/// What key-derivation parameters amount to.
pub ghost struct KdfParamsView {
    pub name: Seq<char>,
    pub salt: Seq<u8>,
    pub time_cost: u32,
    pub memory_cost: u32,
    pub parallelism: u32,
    pub hash_len: u32,
}

impl View for KdfParams {
    type V = KdfParamsView;

    open spec fn view(&self) -> KdfParamsView {
        KdfParamsView {
            name: self.name@,
            salt: self.salt@,
            time_cost: self.time_cost,
            memory_cost: self.memory_cost,
            parallelism: self.parallelism,
            hash_len: self.hash_len,
        }
    }
}

impl KdfParamsView {
    /// Whether this build accepts the parameters: the known name, the fixed
    /// salt and hash lengths, and costs within bounds.
    pub open spec fn valid(self) -> bool {
        &&& self.name == KDF_NAME_ARGON2ID@
        &&& self.salt.len() == SALT_LEN
        &&& self.hash_len == ARGON2_HASH_LEN
        &&& ARGON2_MIN_TIME_COST <= self.time_cost <= ARGON2_MAX_TIME_COST
        &&& ARGON2_MIN_MEMORY_KIB <= self.memory_cost <= ARGON2_MAX_MEMORY_KIB
        &&& ARGON2_MIN_PARALLELISM <= self.parallelism <= ARGON2_MAX_PARALLELISM
    }

    /// The parameters of a new vault with the given salt.
    pub open spec fn of_new_vault(salt: Seq<u8>) -> KdfParamsView {
        KdfParamsView {
            name: KDF_NAME_ARGON2ID@,
            salt,
            time_cost: 3,
            memory_cost: 65_536,
            parallelism: 1,
            hash_len: ARGON2_HASH_LEN,
        }
    }
}

impl Clone for KdfParams {
    fn clone(&self) -> (copy: Self)
        ensures
            copy@ == self@,
    {
        KdfParams {
            name: self.name.clone(),
            salt: slice_to_vec(self.salt.as_slice()),
            time_cost: self.time_cost,
            memory_cost: self.memory_cost,
            parallelism: self.parallelism,
            hash_len: self.hash_len,
        }
    }
}

impl KdfParams {
    /// The parameters of a new vault with the given salt.
    pub fn with_salt(salt: Vec<u8>) -> (p: Self)
        ensures
            p@ == KdfParamsView::of_new_vault(salt@),
    {
        KdfParams {
            name: KDF_NAME_ARGON2ID.to_owned(),
            salt,
            time_cost: 3,
            memory_cost: 65_536,
            parallelism: 1,
            hash_len: ARGON2_HASH_LEN,
        }
    }

    /// Parameters for a new vault, with a fresh random salt. Fails only when
    /// the operating system gives no random bytes.
    pub fn new_vault_default() -> (r: Result<Self>)
        ensures
            match r {
                Ok(p) => {
                    &&& given::<SALT_LEN>(p.salt@)
                    &&& p@ == KdfParamsView::of_new_vault(p.salt@)
                    &&& p@.valid()
                },
                Err(e) => e == Error::Crypto && refused::<SALT_LEN>(),
            },
    {
        let salt: [u8; SALT_LEN] = random_bytes::<SALT_LEN>()?;
        Ok(Self::with_salt(slice_to_vec(&salt)))
    }

    /// Validate parameters loaded from a vault file. Parameters outside the
    /// accepted range are refused, never weakened.
    pub fn validate(&self) -> (r: Result<()>)
        ensures
            r == (if self@.valid() {
                Ok::<(), Error>(())
            } else {
                Err::<(), Error>(Error::InvalidKdfParameters)
            }),
    {
        if *self.name.as_str() != *KDF_NAME_ARGON2ID {
            return Err(Error::InvalidKdfParameters);
        }
        if self.salt.len() != SALT_LEN {
            return Err(Error::InvalidKdfParameters);
        }
        if self.hash_len != ARGON2_HASH_LEN {
            return Err(Error::InvalidKdfParameters);
        }
        if self.time_cost < ARGON2_MIN_TIME_COST || self.time_cost > ARGON2_MAX_TIME_COST {
            return Err(Error::InvalidKdfParameters);
        }
        if self.memory_cost < ARGON2_MIN_MEMORY_KIB || self.memory_cost > ARGON2_MAX_MEMORY_KIB {
            return Err(Error::InvalidKdfParameters);
        }
        if self.parallelism < ARGON2_MIN_PARALLELISM || self.parallelism
            > ARGON2_MAX_PARALLELISM {
            return Err(Error::InvalidKdfParameters);
        }
        Ok(())
    }
}

// ---------------------------------------------------------------------------
// Randomness
// ---------------------------------------------------------------------------

/// Whether `bytes` are random bytes that a call of [`random_bytes`] gave.
pub open spec fn given<const N: usize>(bytes: Seq<u8>) -> bool {
    exists|b: [u8; N]|
        #[trigger] call_ensures(random_bytes::<N>, (), Ok::<[u8; N], Error>(b)) && b@ == bytes
}

/// Whether the operating system refused random bytes to a call of
/// [`random_bytes`].
pub open spec fn refused<const N: usize>() -> bool {
    call_ensures(random_bytes::<N>, (), Err::<[u8; N], Error>(Error::Crypto))
}

/// An array of bytes from the operating system: what a call of
/// `getrandom::getrandom` on a slice of that length left there. Fails with
/// [`Error::Crypto`] exactly when that call fails, which cannot happen for an
/// empty array.
pub fn random_bytes<const N: usize>() -> (r: Result<[u8; N]>)
    ensures
        exists|dest: &mut [u8], outcome: core::result::Result<(), GetrandomError>|
            {
                &&& #[trigger] call_ensures(getrandom::getrandom, (dest,), outcome)
                &&& (*dest)@.len() == N
                &&& match r {
                    Ok(bytes) => outcome is Ok && final(dest)@ == bytes@,
                    Err(_) => outcome is Err,
                }
            },
        N == 0 ==> r is Ok,
        r matches Err(e) ==> e == Error::Crypto,
{
    let mut out: [u8; N] = [0u8;N];
    match getrandom::getrandom(&mut out) {
        Ok(()) => Ok(out),
        Err(_) => Err(Error::Crypto),
    }
}

/// A fresh Vault Key: random bytes. Fails only when the operating system gives
/// none.
pub fn random_vault_key() -> (r: Result<SecureBuffer>)
    ensures
        match r {
            Ok(key) => given::<KEY_LEN>(key@) && key@.len() == KEY_LEN,
            Err(e) => e == Error::Crypto && refused::<KEY_LEN>(),
        },
{
    let bytes: [u8; KEY_LEN] = random_bytes::<KEY_LEN>()?;
    Ok(SecureBuffer::from_slice(&bytes))
}

// ---------------------------------------------------------------------------
// Key derivation
// ---------------------------------------------------------------------------

/// The Master Key of a password under the given parameters.
pub open spec fn master_key(password: Seq<u8>, params: KdfParamsView) -> Result<Seq<u8>> {
    if !params.valid() {
        Err(Error::InvalidKdfParameters)
    } else if password.len() > ARGON2_MAX_PASSWORD_BYTES {
        Err(Error::KeyDerivation)
    } else {
        Ok(
            primitives::argon2id(
                password,
                params.salt,
                params.memory_cost,
                params.time_cost,
                params.parallelism,
                KEY_LEN as nat,
            ),
        )
    }
}

/// Derive the Master Key from the master password.
pub fn derive_master_key(password: &[u8], params: &KdfParams) -> (r: Result<SecureBuffer>)
    ensures
        crate::error::viewed(r) == master_key(password@, params@),
        r matches Ok(key) ==> key@.len() == KEY_LEN && key@ == primitives::argon2id(
            password@,
            params.salt@,
            params.memory_cost,
            params.time_cost,
            params.parallelism,
            32,
        ),
        r is Ok <==> params@.valid() && password@.len() <= 0xFFFF_FFFF,
{
    params.validate()?;
    let mut out = vec![0u8; params.hash_len as usize];
    let hashed = primitives::argon2id_into(
        password,
        params.salt.as_slice(),
        params.memory_cost,
        params.time_cost,
        params.parallelism,
        out.as_mut_slice(),
    );
    match hashed {
        Ok(()) => Ok(SecureBuffer::from_vec(out)),
        Err(_) => Err(Error::KeyDerivation),
    }
}

/// The key-encryption key of a Master Key.
pub open spec fn kek(master_key: Seq<u8>) -> Result<Seq<u8>> {
    if master_key.len() != KEY_LEN {
        Err(Error::KeyDerivation)
    } else {
        Ok(primitives::hkdf_sha256(master_key, HKDF_INFO_KEK@, KEY_LEN as nat))
    }
}

/// Derive the key-encryption key from the Master Key.
pub fn derive_kek(master_key: &[u8]) -> (r: Result<SecureBuffer>)
    ensures
        crate::error::viewed(r) == kek(master_key@),
        r matches Ok(key) ==> key@.len() == KEY_LEN && key@ == primitives::hkdf_sha256(
            master_key@,
            HKDF_INFO_KEK@,
            32,
        ),
        r is Ok <==> master_key@.len() == 32,
{
    if master_key.len() != KEY_LEN {
        return Err(Error::KeyDerivation);
    }
    let info: [u8; 20] = HKDF_INFO_KEK;
    let mut okm = vec![0u8; KEY_LEN];
    match primitives::hkdf_sha256_into(master_key, &info, okm.as_mut_slice()) {
        Ok(()) => Ok(SecureBuffer::from_vec(okm)),
        Err(_) => Err(Error::KeyDerivation),
    }
}

// ---------------------------------------------------------------------------
// AES-256-GCM
// ---------------------------------------------------------------------------

/// A nonce and the ciphertext made with it.
pub type Sealed = ([u8; NONCE_LEN], Vec<u8>);

/// Wrap the Vault Key with the KEK under the given nonce.
pub fn wrap_vault_key_with(kek: &[u8], vault_key: &[u8], nonce: &[u8; NONCE_LEN]) -> (r: Result<
    Vec<u8>,
>)
    ensures
        r is Ok <==> kek@.len() == KEY_LEN && vault_key@.len() == KEY_LEN,
        r matches Err(e) ==> e == Error::Crypto,
        r matches Ok(ct) ==> {
            &&& ct@ == primitives::gcm_seal(kek@, nonce@, AAD_VAULT_KEY@, vault_key@)
            &&& ct@.len() == KEY_LEN + TAG_LEN
            &&& unwrapped_key(kek@, nonce@, ct@) == Ok::<Seq<u8>, Error>(vault_key@)
        },
{
    if kek.len() != KEY_LEN || vault_key.len() != KEY_LEN {
        return Err(Error::Crypto);
    }
    let aad: [u8; 9] = AAD_VAULT_KEY;
    match primitives::aes256_gcm_encrypt(kek, nonce, &aad, vault_key) {
        Ok(ciphertext) => Ok(ciphertext),
        Err(_) => Err(Error::Crypto),
    }
}

/// Wrap the Vault Key with the KEK under a fresh nonce, which is returned with
/// the ciphertext. With keys of the right length it fails only for want of
/// random bytes.
pub fn wrap_vault_key(kek: &[u8], vault_key: &[u8]) -> (r: Result<Sealed>)
    ensures
        kek@.len() != KEY_LEN || vault_key@.len() != KEY_LEN ==> r is Err,
        r matches Err(e) ==> e == Error::Crypto && (kek@.len() != KEY_LEN || vault_key@.len()
            != KEY_LEN || refused::<NONCE_LEN>()),
        r matches Ok((nonce, ct)) ==> {
            &&& given::<NONCE_LEN>(nonce@)
            &&& ct@ == primitives::gcm_seal(kek@, nonce@, AAD_VAULT_KEY@, vault_key@)
            &&& ct@.len() == KEY_LEN + TAG_LEN
            &&& unwrapped_key(kek@, nonce@, ct@) == Ok::<Seq<u8>, Error>(vault_key@)
        },
{
    if kek.len() != KEY_LEN || vault_key.len() != KEY_LEN {
        return Err(Error::Crypto);
    }
    let nonce: [u8; NONCE_LEN] = random_bytes::<NONCE_LEN>()?;
    let ciphertext = wrap_vault_key_with(kek, vault_key, &nonce)?;
    Ok((nonce, ciphertext))
}

/// Whether `nonce` is one that a call of [`wrap_vault_key`] with these keys drew.
pub open spec fn wrapping_draws(kek: Seq<u8>, vault_key: Seq<u8>, nonce: Seq<u8>) -> bool {
    exists|k: &[u8], v: &[u8], sealed: Sealed|
        {
            &&& #[trigger] call_ensures(wrap_vault_key, (k, v), Ok::<Sealed, Error>(sealed))
            &&& k@ == kek
            &&& v@ == vault_key
            &&& sealed.0@ == nonce
        }
}

/// The Vault Key that a wrapped key holds. Any failure that depends on the
/// nonce or the ciphertext is an authentication failure.
pub open spec fn unwrapped_key(kek: Seq<u8>, nonce: Seq<u8>, ciphertext: Seq<u8>) -> Result<
    Seq<u8>,
> {
    if kek.len() != KEY_LEN {
        Err(Error::Crypto)
    } else if nonce.len() != NONCE_LEN || ciphertext.len() < TAG_LEN {
        Err(Error::Authentication)
    } else {
        accepted_key(primitives::gcm_open(kek, nonce, AAD_VAULT_KEY@, ciphertext))
    }
}

/// What counts as a Vault Key: a decrypted value of exactly the key length.
pub open spec fn accepted_key(opened: Option<Seq<u8>>) -> Result<Seq<u8>> {
    match opened {
        Some(key) if key.len() == KEY_LEN => Ok(key),
        _ => Err(Error::Authentication),
    }
}

/// Take what the cipher recovered for the Vault Key. A value of another length
/// was not wrapped by this application.
pub fn accept_vault_key(opened: Option<Vec<u8>>) -> (r: Result<SecureBuffer>)
    ensures
        crate::error::viewed(r) == accepted_key(crate::error::viewed_option(opened)),
{
    match opened {
        Some(key) => {
            if key.len() != KEY_LEN {
                return Err(Error::Authentication);
            }
            Ok(SecureBuffer::from_vec(key))
        },
        None => Err(Error::Authentication),
    }
}

/// Unwrap the Vault Key. Wrong KEK, tampered ciphertext, wrong associated data
/// and wrong nonce are all reported as [`Error::Authentication`].
pub fn unwrap_vault_key(kek: &[u8], nonce: &[u8], ciphertext: &[u8]) -> (r: Result<SecureBuffer>)
    ensures
        crate::error::viewed(r) == unwrapped_key(kek@, nonce@, ciphertext@),
{
    if kek.len() != KEY_LEN {
        return Err(Error::Crypto);
    }
    if nonce.len() != NONCE_LEN {
        return Err(Error::Authentication);
    }
    // A ciphertext is at least its tag.
    if ciphertext.len() < TAG_LEN {
        return Err(Error::Authentication);
    }
    let aad: [u8; 9] = AAD_VAULT_KEY;
    match primitives::aes256_gcm_decrypt(kek, nonce, &aad, ciphertext) {
        Ok(plaintext) => accept_vault_key(Some(plaintext)),
        Err(_) => accept_vault_key(None),
    }
}

/// Encrypt the vault payload with the Vault Key under the given nonce.
pub fn encrypt_vault_with(vault_key: &[u8], plaintext: &[u8], nonce: &[u8; NONCE_LEN]) -> (r:
    Result<Vec<u8>>)
    ensures
        (r is Ok) == (vault_key@.len() == KEY_LEN && plaintext@.len() <= GCM_MAX_MESSAGE_BYTES),
        r matches Err(e) ==> e == Error::Crypto,
        r matches Ok(ct) ==> {
            &&& ct@ == primitives::gcm_seal(vault_key@, nonce@, AAD_VAULT@, plaintext@)
            &&& ct@.len() == plaintext@.len() + TAG_LEN
            &&& decrypted_payload(vault_key@, nonce@, ct@) == Ok::<Seq<u8>, Error>(plaintext@)
        },
{
    if vault_key.len() != KEY_LEN {
        return Err(Error::Crypto);
    }
    let aad: [u8; 5] = AAD_VAULT;
    match primitives::aes256_gcm_encrypt(vault_key, nonce, &aad, plaintext) {
        Ok(ciphertext) => Ok(ciphertext),
        Err(_) => Err(Error::Crypto),
    }
}

/// Encrypt the vault payload with the Vault Key under a fresh nonce, which is
/// returned with the ciphertext. With a key of the right length and a payload
/// that the cipher takes it fails only for want of random bytes.
pub fn encrypt_vault(vault_key: &[u8], plaintext: &[u8]) -> (r: Result<Sealed>)
    ensures
        vault_key@.len() != KEY_LEN || plaintext@.len() > GCM_MAX_MESSAGE_BYTES ==> r is Err,
        r matches Err(e) ==> e == Error::Crypto && (vault_key@.len() != KEY_LEN || plaintext@.len()
            > GCM_MAX_MESSAGE_BYTES || refused::<NONCE_LEN>()),
        r matches Ok((nonce, ct)) ==> {
            &&& given::<NONCE_LEN>(nonce@)
            &&& ct@ == primitives::gcm_seal(vault_key@, nonce@, AAD_VAULT@, plaintext@)
            &&& ct@.len() == plaintext@.len() + TAG_LEN
            &&& decrypted_payload(vault_key@, nonce@, ct@) == Ok::<Seq<u8>, Error>(plaintext@)
        },
{
    if vault_key.len() != KEY_LEN {
        return Err(Error::Crypto);
    }
    let nonce: [u8; NONCE_LEN] = random_bytes::<NONCE_LEN>()?;
    let ciphertext = encrypt_vault_with(vault_key, plaintext, &nonce)?;
    Ok((nonce, ciphertext))
}

/// Whether `nonce` is one that a call of [`encrypt_vault`] with this key and
/// plaintext drew.
pub open spec fn encrypting_draws(vault_key: Seq<u8>, plaintext: Seq<u8>, nonce: Seq<u8>) -> bool {
    exists|v: &[u8], p: &[u8], sealed: Sealed|
        {
            &&& #[trigger] call_ensures(encrypt_vault, (v, p), Ok::<Sealed, Error>(sealed))
            &&& v@ == vault_key
            &&& p@ == plaintext
            &&& sealed.0@ == nonce
        }
}

/// The payload that an encrypted vault holds. Any failure is an authentication
/// failure.
pub open spec fn decrypted_payload(
    vault_key: Seq<u8>,
    nonce: Seq<u8>,
    ciphertext: Seq<u8>,
) -> Result<Seq<u8>> {
    if vault_key.len() != KEY_LEN || nonce.len() != NONCE_LEN || ciphertext.len() < TAG_LEN {
        Err(Error::Authentication)
    } else {
        accepted_payload(primitives::gcm_open(vault_key, nonce, AAD_VAULT@, ciphertext))
    }
}

/// What counts as a payload: whatever the cipher recovered.
pub open spec fn accepted_payload(opened: Option<Seq<u8>>) -> Result<Seq<u8>> {
    match opened {
        Some(payload) => Ok(payload),
        None => Err(Error::Authentication),
    }
}

/// Take what the cipher recovered for the payload.
pub fn accept_payload(opened: Option<Vec<u8>>) -> (r: Result<SecureBuffer>)
    ensures
        crate::error::viewed(r) == accepted_payload(crate::error::viewed_option(opened)),
{
    match opened {
        Some(payload) => Ok(SecureBuffer::from_vec(payload)),
        None => Err(Error::Authentication),
    }
}

/// Decrypt the vault payload with the Vault Key. Any failure is reported as
/// [`Error::Authentication`]. The payload is handed back in a buffer that wipes
/// itself.
pub fn decrypt_vault(vault_key: &[u8], nonce: &[u8], ciphertext: &[u8]) -> (r: Result<
    SecureBuffer,
>)
    ensures
        crate::error::viewed(r) == decrypted_payload(vault_key@, nonce@, ciphertext@),
{
    if vault_key.len() != KEY_LEN {
        return Err(Error::Authentication);
    }
    if nonce.len() != NONCE_LEN {
        return Err(Error::Authentication);
    }
    if ciphertext.len() < TAG_LEN {
        return Err(Error::Authentication);
    }
    let aad: [u8; 5] = AAD_VAULT;
    match primitives::aes256_gcm_decrypt(vault_key, nonce, &aad, ciphertext) {
        Ok(plaintext) => accept_payload(Some(plaintext)),
        Err(_) => accept_payload(None),
    }
}

// ---------------------------------------------------------------------------
// Properties
// ---------------------------------------------------------------------------

/// The two uses of the cipher are bound to different associated data, so a
/// wrapped key cannot be passed off as a payload nor a payload as a key.
pub proof fn associated_data_differ()
    ensures
        AAD_VAULT@ != AAD_VAULT_KEY@,
{
    assert(AAD_VAULT@.len() != AAD_VAULT_KEY@.len());
}

/// With a KEK of the right length, unwrapping fails in one way only: nothing
/// about the nonce, the ciphertext or the reason shows in the error.
pub proof fn unwrap_failure_is_opaque(kek: Seq<u8>, nonce: Seq<u8>, ciphertext: Seq<u8>)
    requires
        kek.len() == KEY_LEN,
    ensures
        unwrapped_key(kek, nonce, ciphertext) matches Err(e) ==> e == Error::Authentication,
{
}

/// Decrypting fails in one way only, whatever the key, the nonce and the
/// ciphertext.
pub proof fn decrypt_failure_is_opaque(vault_key: Seq<u8>, nonce: Seq<u8>, ciphertext: Seq<u8>)
    ensures
        decrypted_payload(vault_key, nonce, ciphertext) matches Err(e) ==> e
            == Error::Authentication,
{
}

/// A wrapped key that the cipher does not open is refused: whatever was changed
/// in it, with whatever KEK of the right length, and whatever it was sealed for.
pub proof fn what_the_cipher_refuses_is_no_key(kek: Seq<u8>, nonce: Seq<u8>, ciphertext: Seq<u8>)
    requires
        kek.len() == KEY_LEN,
        primitives::gcm_open(kek, nonce, AAD_VAULT_KEY@, ciphertext) is None,
    ensures
        unwrapped_key(kek, nonce, ciphertext) == Err::<Seq<u8>, Error>(Error::Authentication),
{
}

/// A payload that the cipher does not open is refused: whatever was changed in
/// it, with whatever key, and whatever it was sealed for.
pub proof fn what_the_cipher_refuses_is_no_payload(
    vault_key: Seq<u8>,
    nonce: Seq<u8>,
    ciphertext: Seq<u8>,
)
    requires
        primitives::gcm_open(vault_key, nonce, AAD_VAULT@, ciphertext) is None,
    ensures
        decrypted_payload(vault_key, nonce, ciphertext) == Err::<Seq<u8>, Error>(
            Error::Authentication,
        ),
{
}

/// An unwrapped key always has the key length, so it can be used to decrypt.
pub proof fn unwrapped_key_has_key_length(kek: Seq<u8>, nonce: Seq<u8>, ciphertext: Seq<u8>)
    ensures
        unwrapped_key(kek, nonce, ciphertext) matches Ok(key) ==> key.len() == KEY_LEN,
{
}

} // verus!
