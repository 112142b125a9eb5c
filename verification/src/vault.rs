//! Vault model, on-disk format and lifecycle.
//!
//! A vault file holds the key-derivation parameters, the wrapped Vault Key and
//! the encrypted entries, each binary field in Base64. The JSON around these
//! fields, and the JSON of the entries inside the payload, are written and read
//! by functions that the caller hands in.

use vstd::prelude::*;
use vstd::slice::slice_to_vec;

use crate::crypto;
use crate::crypto::{
    KdfParams, KdfParamsView, KDF_NAME_ARGON2ID, KEY_LEN, NONCE_LEN, SALT_LEN, TAG_LEN,
};
use crate::error::{Error, Result};
use crate::entry::EntryView;
use crate::memory_lock::Platform;
use crate::primitives;
use crate::security::SecureBuffer;

pub use crate::entry::{
    find_entry, new_id, validate_entries, validate_entry, Entry, MAX_ENTRIES, MAX_ID_BYTES, MAX_NOTES_BYTES,
    MAX_PASSWORD_BYTES, MAX_TITLE_BYTES, MAX_TOTP_BYTES, MAX_URL_BYTES, MAX_USERNAME_BYTES,
};

verus! {

/// Maximum size of the vault file on disk.
pub const MAX_VAULT_FILE_BYTES: usize = 64 * 1024 * 1024;

/// Maximum size of the decrypted payload.
pub const MAX_DECRYPTED_BYTES: usize = 48 * 1024 * 1024;

/// The only supported version of the format.
pub const SUPPORTED_VERSION: u32 = 1;

/// The payload of a vault without entries: `[]`.
pub const EMPTY_PAYLOAD: [u8; 2] = [91, 93];

// ---------------------------------------------------------------------------
// KdfSection
// ---------------------------------------------------------------------------

/// The key-derivation parameters as the file holds them.
pub struct KdfSection {
    pub name: String,
    pub salt: String,
    pub time_cost: u32,
    pub memory_cost: u32,
    pub parallelism: u32,
    pub hash_len: u32,
}

/// What a key-derivation section amounts to.
pub ghost struct KdfSectionView {
    pub name: Seq<char>,
    pub salt: Seq<char>,
    pub time_cost: u32,
    pub memory_cost: u32,
    pub parallelism: u32,
    pub hash_len: u32,
}

impl View for KdfSection {
    type V = KdfSectionView;

    open spec fn view(&self) -> KdfSectionView {
        KdfSectionView {
            name: self.name@,
            salt: self.salt@,
            time_cost: self.time_cost,
            memory_cost: self.memory_cost,
            parallelism: self.parallelism,
            hash_len: self.hash_len,
        }
    }
}

impl KdfSectionView {
    /// The parameters that the section stands for, given what its salt decodes
    /// to.
    pub open spec fn params_with(self, salt: Option<Seq<u8>>) -> Result<KdfParamsView> {
        if self.name != KDF_NAME_ARGON2ID@ {
            Err(Error::InvalidKdfParameters)
        } else {
            match salt {
                None => Err(Error::InvalidEncoding),
                Some(salt) => {
                    let params = KdfParamsView {
                        name: self.name,
                        salt,
                        time_cost: self.time_cost,
                        memory_cost: self.memory_cost,
                        parallelism: self.parallelism,
                        hash_len: self.hash_len,
                    };
                    if params.valid() {
                        Ok(params)
                    } else {
                        Err(Error::InvalidKdfParameters)
                    }
                },
            }
        }
    }

    /// The parameters that the section stands for.
    pub open spec fn params(self) -> Result<KdfParamsView> {
        self.params_with(primitives::base64_bytes(vstd::utf8::encode_utf8(self.salt)))
    }

    /// The section of the given parameters.
    pub open spec fn of(params: KdfParamsView) -> KdfSectionView {
        KdfSectionView {
            name: params.name,
            salt: primitives::base64_text(params.salt),
            time_cost: params.time_cost,
            memory_cost: params.memory_cost,
            parallelism: params.parallelism,
            hash_len: params.hash_len,
        }
    }
}

impl Clone for KdfSection {
    fn clone(&self) -> (copy: Self)
        ensures
            copy@ == self@,
    {
        KdfSection {
            name: self.name.clone(),
            salt: self.salt.clone(),
            time_cost: self.time_cost,
            memory_cost: self.memory_cost,
            parallelism: self.parallelism,
            hash_len: self.hash_len,
        }
    }
}

impl KdfSection {
    /// Decode and validate the parameters.
    ///
    /// An unknown name, a salt of the wrong length and costs out of range are
    /// [`Error::InvalidKdfParameters`]; a salt that is not Base64 is
    /// [`Error::InvalidEncoding`].
    pub fn to_kdf_params(&self) -> (r: Result<KdfParams>)
        ensures
            crate::error::viewed(r) == self@.params(),
    {
        match primitives::base64_decode(self.salt.as_str().as_bytes()) {
            Ok(salt) => self.with_decoded_salt(Some(salt)),
            Err(_) => self.with_decoded_salt(None),
        }
    }

    /// Validate the parameters, given what the salt decodes to.
    pub fn with_decoded_salt(&self, salt: Option<Vec<u8>>) -> (r: Result<KdfParams>)
        ensures
            crate::error::viewed(r) == self@.params_with(crate::error::viewed_option(salt)),
    {
        if *self.name.as_str() != *KDF_NAME_ARGON2ID {
            return Err(Error::InvalidKdfParameters);
        }
        match salt {
            None => Err(Error::InvalidEncoding),
            Some(salt) => {
                let params = KdfParams {
                    name: self.name.clone(),
                    salt,
                    time_cost: self.time_cost,
                    memory_cost: self.memory_cost,
                    parallelism: self.parallelism,
                    hash_len: self.hash_len,
                };
                params.validate()?;
                Ok(params)
            },
        }
    }

    /// The section of the given parameters. Reading it back gives the
    /// parameters, if they are valid.
    pub fn from_kdf_params(params: &KdfParams) -> (section: Self)
        requires
            primitives::base64_len(params.salt@.len()) <= isize::MAX,
        ensures
            section@ == KdfSectionView::of(params@),
            section@.params() == (if params@.valid() {
                Ok::<KdfParamsView, Error>(params@)
            } else {
                Err::<KdfParamsView, Error>(Error::InvalidKdfParameters)
            }),
    {
        KdfSection {
            name: params.name.clone(),
            salt: primitives::base64_encode(params.salt.as_slice()),
            time_cost: params.time_cost,
            memory_cost: params.memory_cost,
            parallelism: params.parallelism,
            hash_len: params.hash_len,
        }
    }
}

// ---------------------------------------------------------------------------
// EncryptedBlob
// ---------------------------------------------------------------------------

/// A nonce and a ciphertext as the file holds them.
pub struct EncryptedBlob {
    pub nonce: String,
    pub ciphertext: String,
}

/// What an encrypted blob amounts to.
pub ghost struct BlobView {
    pub nonce: Seq<char>,
    pub ciphertext: Seq<char>,
}

impl View for EncryptedBlob {
    type V = BlobView;

    open spec fn view(&self) -> BlobView {
        BlobView { nonce: self.nonce@, ciphertext: self.ciphertext@ }
    }
}

/// What counts as a nonce, given what its text decodes to.
pub open spec fn accepted_nonce(decoded: Option<Seq<u8>>) -> Result<Seq<u8>> {
    match decoded {
        Some(nonce) if nonce.len() == NONCE_LEN => Ok(nonce),
        _ => Err(Error::InvalidEncoding),
    }
}

/// What counts as a ciphertext, given what its text decodes to: at least a tag.
pub open spec fn accepted_ciphertext(decoded: Option<Seq<u8>>) -> Result<Seq<u8>> {
    match decoded {
        Some(ciphertext) if ciphertext.len() >= TAG_LEN => Ok(ciphertext),
        _ => Err(Error::InvalidEncoding),
    }
}

impl BlobView {
    /// The nonce.
    pub open spec fn nonce_bytes(self) -> Result<Seq<u8>> {
        accepted_nonce(primitives::base64_bytes(vstd::utf8::encode_utf8(self.nonce)))
    }

    /// The ciphertext.
    pub open spec fn ciphertext_bytes(self) -> Result<Seq<u8>> {
        accepted_ciphertext(primitives::base64_bytes(vstd::utf8::encode_utf8(self.ciphertext)))
    }

    /// The blob of the given bytes.
    pub open spec fn of(nonce: Seq<u8>, ciphertext: Seq<u8>) -> BlobView {
        BlobView {
            nonce: primitives::base64_text(nonce),
            ciphertext: primitives::base64_text(ciphertext),
        }
    }
}

/// Take what the text of a nonce decodes to.
pub fn accept_nonce(decoded: Option<Vec<u8>>) -> (r: Result<Vec<u8>>)
    ensures
        crate::error::viewed(r) == accepted_nonce(crate::error::viewed_option(decoded)),
{
    match decoded {
        Some(nonce) => {
            if nonce.len() != NONCE_LEN {
                return Err(Error::InvalidEncoding);
            }
            Ok(nonce)
        },
        None => Err(Error::InvalidEncoding),
    }
}

/// Take what the text of a ciphertext decodes to.
pub fn accept_ciphertext(decoded: Option<Vec<u8>>) -> (r: Result<Vec<u8>>)
    ensures
        crate::error::viewed(r) == accepted_ciphertext(crate::error::viewed_option(decoded)),
{
    match decoded {
        Some(ciphertext) => {
            if ciphertext.len() < TAG_LEN {
                return Err(Error::InvalidEncoding);
            }
            Ok(ciphertext)
        },
        None => Err(Error::InvalidEncoding),
    }
}

impl Clone for EncryptedBlob {
    fn clone(&self) -> (copy: Self)
        ensures
            copy@ == self@,
    {
        EncryptedBlob { nonce: self.nonce.clone(), ciphertext: self.ciphertext.clone() }
    }
}

impl EncryptedBlob {
    /// Decode the nonce, which must have the nonce length.
    pub fn decode_nonce(&self) -> (r: Result<Vec<u8>>)
        ensures
            crate::error::viewed(r) == self@.nonce_bytes(),
    {
        match primitives::base64_decode(self.nonce.as_str().as_bytes()) {
            Ok(nonce) => accept_nonce(Some(nonce)),
            Err(_) => accept_nonce(None),
        }
    }

    /// Decode the ciphertext, which must hold at least a tag.
    pub fn decode_ciphertext(&self) -> (r: Result<Vec<u8>>)
        ensures
            crate::error::viewed(r) == self@.ciphertext_bytes(),
    {
        match primitives::base64_decode(self.ciphertext.as_str().as_bytes()) {
            Ok(ciphertext) => accept_ciphertext(Some(ciphertext)),
            Err(_) => accept_ciphertext(None),
        }
    }

    /// The blob of the given bytes. Decoding it gives them back, if they have
    /// acceptable lengths.
    pub fn from_raw(nonce: &[u8], ciphertext: &[u8]) -> (blob: Self)
        requires
            primitives::base64_len(nonce@.len()) <= isize::MAX,
            primitives::base64_len(ciphertext@.len()) <= isize::MAX,
        ensures
            blob@ == BlobView::of(nonce@, ciphertext@),
            blob@.nonce_bytes() == accepted_nonce(Some(nonce@)),
            blob@.ciphertext_bytes() == accepted_ciphertext(Some(ciphertext@)),
    {
        EncryptedBlob {
            nonce: primitives::base64_encode(nonce),
            ciphertext: primitives::base64_encode(ciphertext),
        }
    }
}

// ---------------------------------------------------------------------------
// VaultFile
// ---------------------------------------------------------------------------

/// A vault as the file holds it.
pub struct VaultFile {
    pub version: u32,
    pub kdf: KdfSection,
    pub wrapped_key: EncryptedBlob,
    pub vault: EncryptedBlob,
}

/// What a vault file amounts to.
pub ghost struct FileView {
    pub version: u32,
    pub kdf: KdfSectionView,
    pub wrapped_key: BlobView,
    pub vault: BlobView,
}

impl View for VaultFile {
    type V = FileView;

    open spec fn view(&self) -> FileView {
        FileView {
            version: self.version,
            kdf: self.kdf@,
            wrapped_key: self.wrapped_key@,
            vault: self.vault@,
        }
    }
}

/// The error of a result, if it is one.
pub open spec fn error_of<T>(r: Result<T>) -> Option<Error> {
    match r {
        Ok(_) => None,
        Err(e) => Some(e),
    }
}

impl FileView {
    /// The first defect of the file, in the order in which its fields are
    /// examined.
    pub open spec fn defect(self) -> Option<Error> {
        if self.version != SUPPORTED_VERSION {
            Some(Error::UnsupportedVersion)
        } else if self.kdf.params() is Err {
            error_of(self.kdf.params())
        } else if self.wrapped_key.nonce_bytes() is Err {
            error_of(self.wrapped_key.nonce_bytes())
        } else if self.wrapped_key.ciphertext_bytes() is Err {
            error_of(self.wrapped_key.ciphertext_bytes())
        } else if self.vault.nonce_bytes() is Err {
            error_of(self.vault.nonce_bytes())
        } else {
            error_of(self.vault.ciphertext_bytes())
        }
    }

    /// The Vault Key that a password gives access to, in a file without
    /// defects.
    pub open spec fn vault_key(self, password: Seq<u8>) -> Result<Seq<u8>> {
        match crypto::master_key(password, self.kdf.params()->Ok_0) {
            Err(e) => Err(e),
            Ok(master_key) => match crypto::kek(master_key) {
                Err(e) => Err(e),
                Ok(kek) => crypto::unwrapped_key(
                    kek,
                    self.wrapped_key.nonce_bytes()->Ok_0,
                    self.wrapped_key.ciphertext_bytes()->Ok_0,
                ),
            },
        }
    }

    /// The payload that a Vault Key decrypts, in a file without defects.
    pub open spec fn payload_under(self, vault_key: Seq<u8>) -> Result<Seq<u8>> {
        match crypto::decrypted_payload(
            vault_key,
            self.vault.nonce_bytes()->Ok_0,
            self.vault.ciphertext_bytes()->Ok_0,
        ) {
            Err(e) => Err(e),
            Ok(payload) => if payload.len() > MAX_DECRYPTED_BYTES {
                Err(Error::VaultFormat)
            } else {
                Ok(payload)
            },
        }
    }

    /// The Vault Key and the payload that a password gives access to.
    pub open spec fn opened(self, password: Seq<u8>) -> Result<(Seq<u8>, Seq<u8>)> {
        match self.defect() {
            Some(e) => Err(e),
            None => match self.vault_key(password) {
                Err(e) => Err(e),
                Ok(vault_key) => match self.payload_under(vault_key) {
                    Err(e) => Err(e),
                    Ok(payload) => Ok((vault_key, payload)),
                },
            },
        }
    }

    /// The file of a new vault with the given password (as UTF-8 bytes), salt,
    /// Vault Key and nonces.
    pub open spec fn created(
        password: Seq<u8>,
        salt: Seq<u8>,
        vault_key: Seq<u8>,
        wrap_nonce: Seq<u8>,
        vault_nonce: Seq<u8>,
    ) -> Result<FileView> {
        let params = KdfParamsView::of_new_vault(salt);
        if password.len() == 0 {
            Err(Error::PasswordTooShort { min: 12 })
        } else {
            match crypto::master_key(password, params) {
                Err(e) => Err(e),
                Ok(master_key) => if vault_key.len() != KEY_LEN {
                    Err(Error::Crypto)
                } else {
                    Ok(
                        FileView {
                            version: SUPPORTED_VERSION,
                            kdf: KdfSectionView::of(params),
                            wrapped_key: BlobView::of(
                                wrap_nonce,
                                primitives::gcm_seal(
                                    crypto::kek(master_key)->Ok_0,
                                    wrap_nonce,
                                    crypto::AAD_VAULT_KEY@,
                                    vault_key,
                                ),
                            ),
                            vault: BlobView::of(
                                vault_nonce,
                                primitives::gcm_seal(
                                    vault_key,
                                    vault_nonce,
                                    crypto::AAD_VAULT@,
                                    EMPTY_PAYLOAD@,
                                ),
                            ),
                        },
                    )
                },
            }
        }
    }

    /// Whether the file is one that was just created with the password (as UTF-8
    /// bytes), and `vault` what it opens to: the salt and the Vault Key are random
    /// bytes that the operating system gave, and wrapping the key and encrypting
    /// the payload each drew a nonce of its own.
    pub open spec fn is_new(self, password: Seq<u8>, vault: VaultView) -> bool {
        &&& exists|salt: Seq<u8>, wrap_nonce: Seq<u8>, vault_nonce: Seq<u8>|
            {
                &&& crypto::given::<SALT_LEN>(salt)
                &&& crypto::wrapping_draws(
                    crypto::kek(
                        crypto::master_key(password, KdfParamsView::of_new_vault(salt))->Ok_0,
                    )->Ok_0,
                    vault.vault_key,
                    wrap_nonce,
                )
                &&& crypto::encrypting_draws(vault.vault_key, EMPTY_PAYLOAD@, vault_nonce)
                &&& #[trigger] FileView::created(
                    password,
                    salt,
                    vault.vault_key,
                    wrap_nonce,
                    vault_nonce,
                ) == Ok::<FileView, Error>(self)
            }
        &&& crypto::given::<KEY_LEN>(vault.vault_key)
        &&& self.opens_empty(password, vault)
    }

    /// Whether the password opens the file, with the empty payload, to `vault`,
    /// which has no entries.
    pub open spec fn opens_empty(self, password: Seq<u8>, vault: VaultView) -> bool {
        &&& self.opened(password) == Ok::<(Seq<u8>, Seq<u8>), Error>(
            (vault.vault_key, EMPTY_PAYLOAD@),
        )
        &&& self.unlocked(vault.vault_key, Some(Seq::empty())) == Ok::<VaultView, Error>(vault)
    }

    /// The vault that opens from the file, given its key and what the payload
    /// decodes to.
    pub open spec fn unlocked(
        self,
        vault_key: Seq<u8>,
        decoded: Option<Seq<EntryView>>,
    ) -> Result<VaultView> {
        match admitted_entries(decoded) {
            Err(e) => Err(e),
            Ok(entries) => Ok(
                VaultView {
                    entries,
                    vault_key,
                    wrapped_key: self.wrapped_key,
                    kdf: self.kdf,
                    version: self.version,
                },
            ),
        }
    }
}

impl FileView {
    /// What counts as a vault file, given what the text parses to.
    pub open spec fn accepted(parsed: Option<FileView>) -> Result<FileView> {
        match parsed {
            None => Err(Error::VaultFormat),
            Some(file) => match file.defect() {
                Some(e) => Err(e),
                None => Ok(file),
            },
        }
    }

    /// Whether reading `bytes` with `parse` can come out as `outcome`: a file
    /// that is empty or too large is refused without parsing, and what parses
    /// is validated.
    pub open spec fn reads_as<P: FnOnce(&[u8]) -> Option<VaultFile>>(
        bytes: &[u8],
        parse: P,
        outcome: Result<FileView>,
    ) -> bool {
        if bytes@.len() == 0 || bytes@.len() > MAX_VAULT_FILE_BYTES {
            outcome == Err::<FileView, Error>(Error::VaultFormat)
        } else {
            exists|parsed: Option<VaultFile>| #[trigger]
                parse.ensures((bytes,), parsed) && outcome == Self::accepted(
                    crate::error::viewed_option(parsed),
                )
        }
    }

    /// Whether the password leads, in a file without defects, neither to the
    /// Vault Key nor through it to the payload: it is wrong, or something was
    /// tampered with.
    pub open spec fn withstands(self, password: Seq<u8>) -> bool {
        &&& self.defect() is None
        &&& password.len() <= crypto::ARGON2_MAX_PASSWORD_BYTES
        &&& match self.vault_key(password) {
            Err(_) => true,
            Ok(vault_key) => crypto::decrypted_payload(
                vault_key,
                self.vault.nonce_bytes()->Ok_0,
                self.vault.ciphertext_bytes()->Ok_0,
            ) is Err,
        }
    }

    /// Whether unlocking the file with the password (as UTF-8 bytes) and
    /// `decode` can come out as `outcome`: `decode` sees exactly the payload,
    /// and only if the password opens the file. A file that withstands the
    /// password says no more than that.
    pub open spec fn unlocks_as<D: FnOnce(&[u8]) -> Option<Vec<Entry>>>(
        self,
        password: Seq<u8>,
        decode: D,
        outcome: Result<VaultView>,
    ) -> bool {
        &&& self.withstands(password) ==> outcome == Err::<VaultView, Error>(Error::Authentication)
        &&& match self.opened(password) {
            Err(e) => outcome == Err::<VaultView, Error>(e),
            Ok((vault_key, payload)) => exists|bytes: &[u8], decoded: Option<Vec<Entry>>|
                bytes@ == payload && #[trigger] decode.ensures((bytes,), decoded) && outcome
                    == self.unlocked(vault_key, decoded_views(decoded)),
        }
    }
}

/// Whether creating a vault with a password that is not empty can fail with this
/// error: for want of random bytes, or because key derivation does not take so
/// long a password.
pub open spec fn creation_fails(password: Seq<u8>, e: Error) -> bool {
    ||| e == Error::Crypto && (crypto::refused::<SALT_LEN>() || crypto::refused::<KEY_LEN>()
        || crypto::refused::<NONCE_LEN>())
    ||| e == Error::KeyDerivation && password.len() > crypto::ARGON2_MAX_PASSWORD_BYTES
}

/// What counts as the entries of a vault, given what the payload decodes to.
pub open spec fn admitted_entries(decoded: Option<Seq<EntryView>>) -> Result<Seq<EntryView>> {
    match decoded {
        Some(entries) if crate::entry::valid_entries(entries) => Ok(entries),
        _ => Err(Error::InvalidEntry),
    }
}

/// The texts of decoded entries.
pub open spec fn decoded_views(decoded: Option<Vec<Entry>>) -> Option<Seq<EntryView>> {
    match decoded {
        Some(entries) => Some(crate::entry::entry_views(entries@)),
        None => None,
    }
}

/// Take what the payload decodes to. A payload that does not decode and entries
/// that may not stand in a vault are [`Error::InvalidEntry`].
pub fn admit_entries(decoded: Option<Vec<Entry>>) -> (r: Result<Vec<Entry>>)
    ensures
        match r {
            Ok(entries) => admitted_entries(decoded_views(decoded)) == Ok::<Seq<EntryView>, Error>(
                crate::entry::entry_views(entries@),
            ),
            Err(e) => admitted_entries(decoded_views(decoded)) == Err::<Seq<EntryView>, Error>(e),
        },
{
    match decoded {
        Some(entries) => {
            validate_entries(entries.as_slice())?;
            Ok(entries)
        },
        None => Err(Error::InvalidEntry),
    }
}

impl VaultFile {
    /// Create a vault without entries, protected by `password`, with a fresh
    /// salt, Vault Key and nonces.
    ///
    /// The file opens with the same password, and holds the empty payload. An
    /// empty password is refused; otherwise creation fails only when the
    /// operating system gives no random bytes, or the password is longer than
    /// key derivation takes.
    pub fn new(password: &str) -> (r: Result<(Self, UnlockedVault)>)
        ensures
            password@.len() == 0 ==> r == Err::<(Self, UnlockedVault), Error>(
                Error::PasswordTooShort { min: 12 },
            ),
            password@.len() > 0 ==> match r {
                Ok((file, vault)) => file@.is_new(vstd::utf8::encode_utf8(password@), vault@),
                Err(e) => creation_fails(vstd::utf8::encode_utf8(password@), e),
            },
    {
        if password.is_empty() {
            return Err(Error::PasswordTooShort { min: 12 });
        }
        let kdf_params = KdfParams::new_vault_default()?;
        let master_key = crypto::derive_master_key(password.as_bytes(), &kdf_params)?;
        let kek = crypto::derive_kek(master_key.as_slice())?;
        let vault_key = crypto::random_vault_key()?;
        let (wrap_nonce, wrap_ct) = crypto::wrap_vault_key(kek.as_slice(), vault_key.as_slice())?;
        let initial_payload: [u8; 2] = EMPTY_PAYLOAD;
        let (vault_nonce, vault_ct) = crypto::encrypt_vault(
            vault_key.as_slice(),
            &initial_payload,
        )?;
        proof {
            assert(crypto::wrapping_draws(kek@, vault_key@, wrap_nonce@));
            assert(crypto::encrypting_draws(vault_key@, EMPTY_PAYLOAD@, vault_nonce@));
        }
        let file = VaultFile {
            version: SUPPORTED_VERSION,
            kdf: KdfSection::from_kdf_params(&kdf_params),
            wrapped_key: EncryptedBlob::from_raw(&wrap_nonce, wrap_ct.as_slice()),
            vault: EncryptedBlob::from_raw(&vault_nonce, vault_ct.as_slice()),
        };
        assert(FileView::created(
            vstd::utf8::encode_utf8(password@),
            kdf_params@.salt,
            vault_key@,
            wrap_nonce@,
            vault_nonce@,
        ) == Ok::<FileView, Error>(file@));
        Ok(file.unlocked_empty(vault_key))
    }

    /// The file of a new vault, with the vault that it opens to.
    fn unlocked_empty(self, vault_key: SecureBuffer) -> (r: (Self, UnlockedVault))
        ensures
            r.0 == self,
            r.1@ == (VaultView {
                entries: Seq::empty(),
                vault_key: vault_key@,
                wrapped_key: self@.wrapped_key,
                kdf: self@.kdf,
                version: self@.version,
            }),
    {
        let entries: Vec<Entry> = Vec::new();
        let vault = UnlockedVault {
            entries,
            vault_key,
            wrapped_key: self.wrapped_key.clone(),
            kdf: self.kdf.clone(),
            version: self.version,
        };
        assert(vault@.entries =~= Seq::empty());
        (self, vault)
    }

    /// Create a vault without entries from the given salt, Vault Key and
    /// nonces.
    pub fn new_with(
        password: &str,
        salt: &[u8; SALT_LEN],
        vault_key: SecureBuffer,
        wrap_nonce: &[u8; NONCE_LEN],
        vault_nonce: &[u8; NONCE_LEN],
    ) -> (r: Result<(Self, UnlockedVault)>)
        ensures
            ({
                let created = FileView::created(
                    vstd::utf8::encode_utf8(password@),
                    salt@,
                    vault_key@,
                    wrap_nonce@,
                    vault_nonce@,
                );
                match r {
                    Err(e) => created == Err::<FileView, Error>(e),
                    Ok((file, vault)) => {
                        &&& created == Ok::<FileView, Error>(file@)
                        &&& vault@.vault_key == vault_key@
                        &&& file@.opens_empty(vstd::utf8::encode_utf8(password@), vault@)
                    },
                }
            }),
    {
        if password.is_empty() {
            return Err(Error::PasswordTooShort { min: 12 });
        }
        let kdf_params = KdfParams::with_salt(slice_to_vec(salt));
        let master_key = crypto::derive_master_key(password.as_bytes(), &kdf_params)?;
        let kek = crypto::derive_kek(master_key.as_slice())?;
        let wrap_ct = crypto::wrap_vault_key_with(
            kek.as_slice(),
            vault_key.as_slice(),
            wrap_nonce,
        )?;
        let initial_payload: [u8; 2] = EMPTY_PAYLOAD;
        let vault_ct = crypto::encrypt_vault_with(
            vault_key.as_slice(),
            &initial_payload,
            vault_nonce,
        )?;
        let file = VaultFile {
            version: SUPPORTED_VERSION,
            kdf: KdfSection::from_kdf_params(&kdf_params),
            wrapped_key: EncryptedBlob::from_raw(wrap_nonce, wrap_ct.as_slice()),
            vault: EncryptedBlob::from_raw(vault_nonce, vault_ct.as_slice()),
        };
        Ok(file.unlocked_empty(vault_key))
    }

    /// Read a vault file.
    ///
    /// `parse` turns the JSON text into a vault file, or refuses it; it is not
    /// called on a file that is empty or too large. What it accepts is then
    /// validated.
    pub fn from_bytes<P: FnOnce(&[u8]) -> Option<VaultFile>>(bytes: &[u8], parse: P) -> (r: Result<
        Self,
    >)
        requires
            0 < bytes@.len() <= MAX_VAULT_FILE_BYTES ==> parse.requires((bytes,)),
        ensures
            FileView::reads_as(bytes, parse, crate::error::viewed(r)),
    {
        if bytes.len() == 0 || bytes.len() > MAX_VAULT_FILE_BYTES {
            return Err(Error::VaultFormat);
        }
        let parsed = parse(bytes);
        Self::accept(parsed)
    }

    /// Take what the text of a file parses to.
    pub fn accept(parsed: Option<VaultFile>) -> (r: Result<Self>)
        ensures
            crate::error::viewed(r) == FileView::accepted(crate::error::viewed_option(parsed)),
    {
        match parsed {
            Some(file) => {
                file.validate()?;
                Ok(file)
            },
            None => Err(Error::VaultFormat),
        }
    }

    /// Write a vault file.
    ///
    /// `render` turns the file into JSON text; if it cannot, the file is
    /// [`Error::VaultFormat`].
    pub fn to_bytes<R: FnOnce(&VaultFile) -> Option<Vec<u8>>>(&self, render: R) -> (r: Result<
        Vec<u8>,
    >)
        requires
            render.requires((self,)),
        ensures
            match r {
                Ok(bytes) => render.ensures((self,), Some(bytes)),
                Err(e) => e == Error::VaultFormat && render.ensures((self,), None),
            },
    {
        match render(self) {
            Some(bytes) => Ok(bytes),
            None => Err(Error::VaultFormat),
        }
    }

    /// Check the version, the parameters and every encoded field.
    pub fn validate(&self) -> (r: Result<()>)
        ensures
            error_of(r) == self@.defect(),
    {
        if self.version != SUPPORTED_VERSION {
            return Err(Error::UnsupportedVersion);
        }
        let _ = self.kdf.to_kdf_params()?;
        let _ = self.wrapped_key.decode_nonce()?;
        let _ = self.wrapped_key.decode_ciphertext()?;
        let _ = self.vault.decode_nonce()?;
        let _ = self.vault.decode_ciphertext()?;
        Ok(())
    }

    /// Decrypt the vault with the master password.
    ///
    /// `decode` turns the payload into entries, or refuses it. In a file without
    /// defects a password that does not lead to the payload is
    /// [`Error::Authentication`], whatever the reason.
    pub fn unlock<D: FnOnce(&[u8]) -> Option<Vec<Entry>>>(&self, password: &str, decode: D) -> (r:
        Result<UnlockedVault>)
        requires
            forall|payload: &[u8]|
                self@.opened(vstd::utf8::encode_utf8(password@)) matches Ok(parts) && parts.1
                    == payload@ ==> decode.requires((payload,)),
        ensures
            self@.unlocks_as(vstd::utf8::encode_utf8(password@), decode, crate::error::viewed(r)),
    {
        self.validate()?;
        let kdf_params = self.kdf.to_kdf_params()?;
        let master_key = crypto::derive_master_key(password.as_bytes(), &kdf_params)?;
        let kek = crypto::derive_kek(master_key.as_slice())?;
        let wrap_nonce = self.wrapped_key.decode_nonce()?;
        let wrap_ct = self.wrapped_key.decode_ciphertext()?;
        let vault_key = crypto::unwrap_vault_key(
            kek.as_slice(),
            wrap_nonce.as_slice(),
            wrap_ct.as_slice(),
        )?;
        let payload_nonce = self.vault.decode_nonce()?;
        let payload_ct = self.vault.decode_ciphertext()?;
        let payload = crypto::decrypt_vault(
            vault_key.as_slice(),
            payload_nonce.as_slice(),
            payload_ct.as_slice(),
        )?;
        if payload.len() > MAX_DECRYPTED_BYTES {
            return Err(Error::VaultFormat);
        }
        let decoded = decode(payload.as_slice());
        let entries = admit_entries(decoded)?;
        Ok(
            UnlockedVault {
                entries,
                vault_key,
                wrapped_key: self.wrapped_key.clone(),
                kdf: self.kdf.clone(),
                version: self.version,
            },
        )
    }
}

// ---------------------------------------------------------------------------
// UnlockedVault
// ---------------------------------------------------------------------------

/// The in-memory, unlocked vault.
pub struct UnlockedVault {
    entries: Vec<Entry>,
    vault_key: SecureBuffer,
    wrapped_key: EncryptedBlob,
    kdf: KdfSection,
    version: u32,
}

/// What an unlocked vault amounts to.
pub ghost struct VaultView {
    pub entries: Seq<EntryView>,
    pub vault_key: Seq<u8>,
    pub wrapped_key: BlobView,
    pub kdf: KdfSectionView,
    pub version: u32,
}

impl View for UnlockedVault {
    type V = VaultView;

    closed spec fn view(&self) -> VaultView {
        VaultView {
            entries: crate::entry::entry_views(self.entries@),
            vault_key: self.vault_key@,
            wrapped_key: self.wrapped_key@,
            kdf: self.kdf@,
            version: self.version,
        }
    }
}

impl VaultView {
    /// Whether the vault has an entry with this id.
    pub open spec fn has_id(self, id: Seq<char>) -> bool {
        crate::entry::has_id(self.entries, id)
    }

    /// Whether `i` is the place of the first entry with this id.
    pub open spec fn is_first(self, id: Seq<char>, i: int) -> bool {
        crate::entry::is_first(self.entries, id, i)
    }

    /// The vault with other entries.
    pub open spec fn with_entries(self, entries: Seq<EntryView>) -> VaultView {
        VaultView { entries, ..self }
    }

    /// The vault with another entry in one place.
    pub open spec fn updated(self, i: int, entry: EntryView) -> VaultView {
        self.with_entries(self.entries.update(i, entry))
    }

    /// The vault without the entries that have this id.
    pub open spec fn without(self, id: Seq<char>) -> VaultView {
        self.with_entries(self.entries.filter(|e: EntryView| e.id != id))
    }

    /// Whether an entry may be added: it is valid, its id is new, and there is
    /// room.
    pub open spec fn accepts(self, entry: EntryView) -> bool {
        &&& entry.valid()
        &&& !self.has_id(entry.id)
        &&& self.entries.len() < MAX_ENTRIES
    }

    /// The file of the vault with its payload sealed under the given nonce.
    pub open spec fn sealed(self, payload: Seq<u8>, nonce: Seq<u8>) -> Result<FileView> {
        if payload.len() > MAX_DECRYPTED_BYTES {
            Err(Error::VaultFormat)
        } else if self.vault_key.len() != KEY_LEN {
            Err(Error::Crypto)
        } else {
            Ok(
                FileView {
                    version: self.version,
                    kdf: self.kdf,
                    wrapped_key: self.wrapped_key,
                    vault: BlobView::of(
                        nonce,
                        primitives::gcm_seal(self.vault_key, nonce, crypto::AAD_VAULT@, payload),
                    ),
                },
            )
        }
    }

    /// Whether the file is one that the vault seals to with this payload: it
    /// keeps the version, the parameters and the wrapped key, and its payload
    /// decrypts with the Vault Key to exactly this one.
    pub open spec fn seals_to(self, file: FileView, payload: Seq<u8>) -> bool {
        &&& file.version == self.version
        &&& file.kdf == self.kdf
        &&& file.wrapped_key == self.wrapped_key
        &&& file.vault.nonce_bytes() is Ok
        &&& file.vault.ciphertext_bytes() is Ok
        &&& file.payload_under(self.vault_key) == Ok::<Seq<u8>, Error>(payload)
    }

    /// Whether sealing a payload under a fresh nonce can come out as `outcome`:
    /// where the payload and the key are in order it fails only for want of
    /// random bytes.
    pub open spec fn seals_payload_as(self, payload: Seq<u8>, outcome: Result<FileView>) -> bool {
        match outcome {
            Ok(file) => {
                &&& exists|nonce: Seq<u8>|
                    crypto::given::<NONCE_LEN>(nonce) && #[trigger] self.sealed(payload, nonce)
                        == Ok::<FileView, Error>(file)
                &&& self.seals_to(file, payload)
            },
            Err(e) => if payload.len() > MAX_DECRYPTED_BYTES {
                e == Error::VaultFormat
            } else {
                e == Error::Crypto && (self.vault_key.len() != KEY_LEN || crypto::refused::<
                    NONCE_LEN,
                >())
            },
        }
    }

    /// Whether sealing the vault with `encode` can come out as `outcome`:
    /// `encode` sees exactly the entries, and what it makes of them is sealed.
    pub open spec fn seals_as<E: FnOnce(&[Entry]) -> Option<Vec<u8>>>(
        self,
        encode: E,
        outcome: Result<FileView>,
    ) -> bool {
        exists|entries: &[Entry], encoded: Option<Vec<u8>>|
            {
                &&& crate::entry::entry_views(entries@) == self.entries
                &&& #[trigger] encode.ensures((entries,), encoded)
                &&& match encoded {
                    None => outcome == Err::<FileView, Error>(Error::VaultFormat),
                    Some(payload) => self.seals_payload_as(payload@, outcome),
                }
            }
    }

    /// Whether the password gives access to the Vault Key through the wrapped
    /// key that the vault carries.
    pub open spec fn is_opened_by(self, password: Seq<u8>) -> bool {
        let file = FileView {
            version: self.version,
            kdf: self.kdf,
            wrapped_key: self.wrapped_key,
            vault: self.wrapped_key,
        };
        &&& file.defect() is None
        &&& file.vault_key(password) == Ok::<Seq<u8>, Error>(self.vault_key)
    }
}

impl UnlockedVault {
    /// The entries.
    pub fn entries(&self) -> (s: &[Entry])
        ensures
            crate::entry::entry_views(s@) == self@.entries,
    {
        self.entries.as_slice()
    }

    /// The buffer that holds the Vault Key.
    pub closed spec fn key(&self) -> SecureBuffer {
        self.vault_key
    }

    /// Attempt to keep the Vault Key in RAM (best-effort). A refusal is never an
    /// error.
    pub fn protect_key(&mut self, platform: Platform) -> (r: Result<bool>)
        ensures
            final(self)@ == old(self)@,
            r matches Ok(granted) && old(self).key().locks_as(
                platform@,
                granted,
                final(self).key(),
            ),
    {
        self.vault_key.try_lock(platform)
    }

    /// The length of the Vault Key, which is nothing once the vault was locked.
    pub fn key_len(&self) -> (n: usize)
        ensures
            n == self@.vault_key.len(),
    {
        self.vault_key.len()
    }

    /// Mutable access to the entries, without validation.
    pub fn entries_mut(&mut self) -> (v: &mut Vec<Entry>)
        ensures
            crate::entry::entry_views(v@) == old(self)@.entries,
            final(self)@ == old(self)@.with_entries(crate::entry::entry_views(final(v)@)),
    {
        &mut self.entries
    }

    /// Add an entry at the end. An invalid entry, an id that is already there
    /// and a full vault are [`Error::InvalidEntry`], and change nothing.
    pub fn add_entry(&mut self, entry: Entry) -> (r: Result<()>)
        ensures
            r == (if old(self)@.accepts(entry@) {
                Ok::<(), Error>(())
            } else {
                Err::<(), Error>(Error::InvalidEntry)
            }),
            final(self)@ == (if old(self)@.accepts(entry@) {
                old(self)@.with_entries(old(self)@.entries.push(entry@))
            } else {
                old(self)@
            }),
    {
        validate_entry(&entry)?;
        let found = find_entry(self.entries.as_slice(), entry.id.as_str());
        match found {
            Some(i) => {
                assert(self@.entries[i as int].id == entry@.id);
                return Err(Error::InvalidEntry);
            },
            None => {},
        }
        if self.entries.len() >= MAX_ENTRIES {
            return Err(Error::InvalidEntry);
        }
        let ghost view = entry@;
        self.entries.push(entry);
        assert(self@.entries =~= old(self)@.entries.push(view));
        Ok(())
    }

    /// Replace the entry that has the same id. An invalid entry is
    /// [`Error::InvalidEntry`]; if no entry has the id, the answer is `false`.
    /// Either way nothing changes then.
    pub fn update_entry(&mut self, entry: Entry) -> (r: Result<bool>)
        ensures
            r == (if !entry@.valid() {
                Err::<bool, Error>(Error::InvalidEntry)
            } else {
                Ok::<bool, Error>(old(self)@.has_id(entry@.id))
            }),
            if entry@.valid() && old(self)@.has_id(entry@.id) {
                exists|i: int| #[trigger]
                    old(self)@.is_first(entry@.id, i) && final(self)@ == old(self)@.updated(
                        i,
                        entry@,
                    )
            } else {
                final(self)@ == old(self)@
            },
    {
        validate_entry(&entry)?;
        let found = find_entry(self.entries.as_slice(), entry.id.as_str());
        match found {
            Some(i) => {
                let ghost view = entry@;
                assert(self@.entries[i as int].id == view.id);
                assert(old(self)@.is_first(view.id, i as int));
                self.entries[i] = entry;
                assert(self@.entries =~= old(self)@.entries.update(i as int, view));
                Ok(true)
            },
            None => Ok(false),
        }
    }

    /// Remove every entry with the given id. The answer is whether there was
    /// one.
    pub fn remove_entry(&mut self, id: &str) -> (r: bool)
        ensures
            final(self)@ == old(self)@.without(id@),
            r == old(self)@.has_id(id@),
    {
        let ghost before = self@.entries;
        let ghost keep = |e: EntryView| e.id != id@;
        let ghost mut k: int = 0;
        let mut i: usize = 0;
        let mut removed = false;
        proof {
            assert(before.take(0).filter(keep) =~= Seq::empty()) by {
                reveal(Seq::filter);
            }
            assert(before.skip(0) =~= before);
            assert(self@.entries =~= before.take(0).filter(keep) + before.skip(0));
        }
        while i < self.entries.len()
            invariant
                before == old(self)@.entries,
                keep == (|e: EntryView| e.id != id@),
                0 <= k <= before.len(),
                i == before.take(k).filter(keep).len(),
                self@ == old(self)@.with_entries(
                    before.take(k).filter(keep) + before.skip(k),
                ),
                removed == exists|j: int| 0 <= j < k && (#[trigger] before[j]).id == id@,
            decreases before.len() - k,
        {
            let ghost now = self@.entries;
            proof {
                assert(self.entries@.len() == self@.entries.len());
                assert(k < before.len());
                assert(now[i as int] == before[k]);
                assert(self.entries@[i as int]@ == before[k]);
                let longer = before.take(k + 1);
                assert(longer.drop_last() =~= before.take(k));
                assert(longer.last() == before[k]);
                reveal(Seq::filter);
                assert(longer.filter(keep) == if keep(before[k]) {
                    before.take(k).filter(keep).push(before[k])
                } else {
                    before.take(k).filter(keep)
                });
            }
            if *self.entries[i].id.as_str() == *id {
                let _ = self.entries.remove(i);
                removed = true;
                proof {
                    assert(self@.entries =~= now.remove(i as int));
                    k = k + 1;
                    assert(self@.entries =~= before.take(k).filter(keep) + before.skip(k));
                }
            } else {
                i += 1;
                proof {
                    k = k + 1;
                    assert(self@.entries =~= before.take(k).filter(keep) + before.skip(k));
                }
            }
        }
        proof {
            assert(self.entries@.len() == self@.entries.len());
            assert(k == before.len());
            assert(before.take(k) =~= before);
            assert(before.skip(k) =~= Seq::empty());
            assert(self@.entries =~= before.filter(keep));
        }
        removed
    }

    /// Encrypt the entries under a fresh nonce.
    ///
    /// `encode` turns the entries into the JSON payload. If it cannot, or the
    /// payload is too large, the outcome is [`Error::VaultFormat`]; without a
    /// Vault Key or random bytes it is [`Error::Crypto`].
    pub fn seal<E: FnOnce(&[Entry]) -> Option<Vec<u8>>>(&self, encode: E) -> (r: Result<VaultFile>)
        requires
            forall|entries: &[Entry]|
                crate::entry::entry_views(entries@) == self@.entries ==> encode.requires(
                    (entries,),
                ),
        ensures
            self@.seals_as(encode, crate::error::viewed(r)),
    {
        let encoded = encode(self.entries.as_slice());
        match encoded {
            Some(payload) => {
                let json = SecureBuffer::from_vec(payload);
                if json.len() > MAX_DECRYPTED_BYTES {
                    return Err(Error::VaultFormat);
                }
                if self.vault_key.len() != KEY_LEN {
                    return Err(Error::Crypto);
                }
                let nonce: [u8; NONCE_LEN] = crypto::random_bytes::<NONCE_LEN>()?;
                self.seal_payload(json.as_slice(), &nonce)
            },
            None => Err(Error::VaultFormat),
        }
    }

    /// Encrypt a payload under the given nonce. The file decrypts to the
    /// payload.
    pub fn seal_payload(&self, payload: &[u8], nonce: &[u8; NONCE_LEN]) -> (r: Result<VaultFile>)
        ensures
            crate::error::viewed(r) == self@.sealed(payload@, nonce@),
            r matches Ok(file) ==> self@.seals_to(file@, payload@),
    {
        if payload.len() > MAX_DECRYPTED_BYTES {
            return Err(Error::VaultFormat);
        }
        let ciphertext = crypto::encrypt_vault_with(self.vault_key.as_slice(), payload, nonce)?;
        Ok(
            VaultFile {
                version: self.version,
                kdf: self.kdf.clone(),
                wrapped_key: self.wrapped_key.clone(),
                vault: EncryptedBlob::from_raw(nonce, ciphertext.as_slice()),
            },
        )
    }

    /// Forget the entries and the Vault Key. Both are wiped.
    pub fn lock(&mut self)
        ensures
            final(self)@ == (VaultView {
                entries: Seq::empty(),
                vault_key: Seq::empty(),
                ..old(self)@
            }),
    {
        self.entries = Vec::new();
        self.vault_key = SecureBuffer::new();
        assert(self@.entries =~= Seq::empty());
    }

    /// Diagnostic text, which shows nothing of the vault.
    pub fn debug_string(&self) -> (s: String)
        ensures
            s@ == "UnlockedVault([REDACTED])"@,
    {
        "UnlockedVault([REDACTED])".to_owned()
    }
}

// ---------------------------------------------------------------------------
// Properties
// ---------------------------------------------------------------------------

/// What a vault seals to opens with the password of the vault, and gives back
/// exactly the payload.
pub proof fn sealed_vault_opens(
    vault: VaultView,
    file: FileView,
    payload: Seq<u8>,
    password: Seq<u8>,
)
    requires
        vault.is_opened_by(password),
        vault.seals_to(file, payload),
    ensures
        file.defect() is None,
        file.opened(password) == Ok::<(Seq<u8>, Seq<u8>), Error>((vault.vault_key, payload)),
{
}

/// A vault comes back from its sealed file as it was: with a payload that
/// decodes to the entries it was made from, unlocking with the password gives a
/// vault with the same entries, key, wrapped key, parameters and version.
pub proof fn sealing_then_unlocking_restores_the_vault(
    vault: VaultView,
    file: FileView,
    payload: Seq<u8>,
    password: Seq<u8>,
)
    requires
        vault.is_opened_by(password),
        crate::entry::valid_entries(vault.entries),
        vault.seals_to(file, payload),
    ensures
        file.opened(password) == Ok::<(Seq<u8>, Seq<u8>), Error>((vault.vault_key, payload)),
        file.unlocked(vault.vault_key, Some(vault.entries)) == Ok::<VaultView, Error>(vault),
{
}

/// Unlocking a file without defects is refused in one way only: whether the
/// password is wrong, the wrapped key was tampered with or the payload was, the
/// answer is [`Error::Authentication`], and the payload is not looked at.
pub proof fn refused_unlocking_is_opaque<D: FnOnce(&[u8]) -> Option<Vec<Entry>>>(
    file: FileView,
    password: Seq<u8>,
    decode: D,
    outcome: Result<VaultView>,
)
    requires
        file.withstands(password),
        file.unlocks_as(password, decode, outcome),
    ensures
        outcome == Err::<VaultView, Error>(Error::Authentication),
{
}

/// A new vault comes back from its file, if its payload decodes to no entries.
pub proof fn new_vault_comes_back<D: FnOnce(&[u8]) -> Option<Vec<Entry>>>(
    file: FileView,
    password: Seq<u8>,
    vault: VaultView,
    decode: D,
    outcome: Result<VaultView>,
)
    requires
        file.opens_empty(password, vault),
        forall|bytes: &[u8], decoded: Option<Vec<Entry>>|
            bytes@ == EMPTY_PAYLOAD@ && #[trigger] decode.ensures((bytes,), decoded)
                ==> decoded_views(decoded) == Some(Seq::<EntryView>::empty()),
        file.unlocks_as(password, decode, outcome),
    ensures
        outcome == Ok::<VaultView, Error>(vault),
{
}

/// Whether `decode` reads back what `encode` writes.
pub open spec fn inverse<E, D>(encode: E, decode: D) -> bool where
    E: FnOnce(&[Entry]) -> Option<Vec<u8>>,
    D: FnOnce(&[u8]) -> Option<Vec<Entry>>,
 {
    forall|entries: &[Entry], payload: Vec<u8>, bytes: &[u8], decoded: Option<Vec<Entry>>|
        #[trigger] encode.ensures((entries,), Some(payload)) && bytes@ == payload@
            && #[trigger] decode.ensures((bytes,), decoded) ==> decoded_views(decoded) == Some(
            crate::entry::entry_views(entries@),
        )
}

/// What a vault is sealed to is a file without defects.
pub proof fn sealed_file_is_valid<E: FnOnce(&[Entry]) -> Option<Vec<u8>>>(
    vault: VaultView,
    encode: E,
    file: FileView,
    password: Seq<u8>,
)
    requires
        vault.is_opened_by(password),
        vault.seals_as(encode, Ok(file)),
    ensures
        file.defect() is None,
{
}

/// A vault comes back from the file that it was sealed to, entries and all, if
/// the payload is decoded by the inverse of what encoded it.
pub proof fn sealed_vault_comes_back<E, D>(
    vault: VaultView,
    encode: E,
    file: FileView,
    password: Seq<u8>,
    decode: D,
    outcome: Result<VaultView>,
) where
    E: FnOnce(&[Entry]) -> Option<Vec<u8>>,
    D: FnOnce(&[u8]) -> Option<Vec<Entry>>,

    requires
        vault.is_opened_by(password),
        crate::entry::valid_entries(vault.entries),
        inverse(encode, decode),
        vault.seals_as(encode, Ok(file)),
        file.unlocks_as(password, decode, outcome),
    ensures
        outcome == Ok::<VaultView, Error>(vault),
{
    let (entries, encoded) = choose|entries: &[Entry], encoded: Option<Vec<u8>>|
        {
            &&& crate::entry::entry_views(entries@) == vault.entries
            &&& #[trigger] encode.ensures((entries,), encoded)
            &&& match encoded {
                None => false,
                Some(payload) => vault.seals_payload_as(payload@, Ok(file)),
            }
        };
    let payload = encoded->0;
    assert(encode.ensures((entries,), Some(payload)));
    sealed_vault_opens(vault, file, payload@, password);
}

/// A vault whose entries may not stand together, which only unvalidated access
/// can bring about, does not come back from the file that it was sealed to.
pub proof fn invalid_entries_do_not_come_back<E, D>(
    vault: VaultView,
    encode: E,
    file: FileView,
    password: Seq<u8>,
    decode: D,
    outcome: Result<VaultView>,
) where
    E: FnOnce(&[Entry]) -> Option<Vec<u8>>,
    D: FnOnce(&[u8]) -> Option<Vec<Entry>>,

    requires
        vault.is_opened_by(password),
        !crate::entry::valid_entries(vault.entries),
        inverse(encode, decode),
        vault.seals_as(encode, Ok(file)),
        file.unlocks_as(password, decode, outcome),
    ensures
        outcome == Err::<VaultView, Error>(Error::InvalidEntry),
{
    let (entries, encoded) = choose|entries: &[Entry], encoded: Option<Vec<u8>>|
        {
            &&& crate::entry::entry_views(entries@) == vault.entries
            &&& #[trigger] encode.ensures((entries,), encoded)
            &&& match encoded {
                None => false,
                Some(payload) => vault.seals_payload_as(payload@, Ok(file)),
            }
        };
    let payload = encoded->0;
    assert(encode.ensures((entries,), Some(payload)));
    sealed_vault_opens(vault, file, payload@, password);
}

/// A password whose key does not open the wrapped key is refused.
pub proof fn password_that_the_cipher_refuses<D: FnOnce(&[u8]) -> Option<Vec<Entry>>>(
    file: FileView,
    password: Seq<u8>,
    decode: D,
    outcome: Result<VaultView>,
)
    requires
        file.defect() is None,
        password.len() <= crypto::ARGON2_MAX_PASSWORD_BYTES,
        ({
            let master_key = crypto::master_key(password, file.kdf.params()->Ok_0)->Ok_0;
            primitives::gcm_open(
                crypto::kek(master_key)->Ok_0,
                file.wrapped_key.nonce_bytes()->Ok_0,
                crypto::AAD_VAULT_KEY@,
                file.wrapped_key.ciphertext_bytes()->Ok_0,
            ) is None
        }),
        file.unlocks_as(password, decode, outcome),
    ensures
        outcome == Err::<VaultView, Error>(Error::Authentication),
{
}

/// Every vault that a password opens carries a wrapped key that the same
/// password opens, holds valid entries, and so can be sealed and opened again.
pub proof fn unlocked_vault_can_be_opened_again(
    file: FileView,
    password: Seq<u8>,
    decoded: Option<Seq<EntryView>>,
)
    ensures
        file.opened(password) matches Ok((vault_key, payload)) ==> (file.unlocked(
            vault_key,
            decoded,
        ) matches Ok(vault) ==> vault.is_opened_by(password) && crate::entry::valid_entries(
            vault.entries,
        ) && vault.vault_key.len() == KEY_LEN && vault.seals_to(file, payload)),
{
}

/// A new vault carries a wrapped key that its password opens.
pub proof fn new_vault_can_be_opened_again(file: FileView, password: Seq<u8>, vault: VaultView)
    requires
        file.opens_empty(password, vault),
    ensures
        vault.is_opened_by(password),
        crate::entry::valid_entries(vault.entries),
        vault.entries.len() == 0,
{
}

/// Changing the entries of a vault keeps it openable by its password.
pub proof fn editing_keeps_the_password(
    vault: VaultView,
    entries: Seq<EntryView>,
    password: Seq<u8>,
)
    requires
        vault.is_opened_by(password),
    ensures
        vault.with_entries(entries).is_opened_by(password),
{
}

/// Adding an acceptable entry to a valid vault leaves it valid, and the entries
/// that were there in their places.
pub proof fn adding_keeps_entries_valid(vault: VaultView, entry: EntryView)
    requires
        crate::entry::valid_entries(vault.entries),
        vault.accepts(entry),
    ensures
        crate::entry::valid_entries(vault.entries.push(entry)),
        vault.with_entries(vault.entries.push(entry)).has_id(entry.id),
{
    let longer = vault.with_entries(vault.entries.push(entry));
    assert(longer.entries[vault.entries.len() as int].id == entry.id);
}

/// Replacing an entry by a valid one with the same id leaves a valid vault
/// valid.
pub proof fn updating_keeps_entries_valid(vault: VaultView, entry: EntryView, i: int)
    requires
        crate::entry::valid_entries(vault.entries),
        entry.valid(),
        vault.is_first(entry.id, i),
    ensures
        crate::entry::valid_entries(vault.entries.update(i, entry)),
{
}

/// Removing an id leaves no entry with it, keeps every other entry, and leaves
/// a valid vault valid.
pub proof fn removing_keeps_entries_valid(vault: VaultView, id: Seq<char>)
    requires
        crate::entry::valid_entries(vault.entries),
    ensures
        crate::entry::valid_entries(vault.without(id).entries),
        !vault.without(id).has_id(id),
        forall|e: EntryView|
            vault.entries.contains(e) && e.id != id <==> #[trigger] vault.without(
                id,
            ).entries.contains(e),
{
    filtering_keeps_entries_valid(vault.entries, id);
    let kept = vault.without(id).entries;
    assert forall|i: int| 0 <= i < kept.len() implies (#[trigger] kept[i]).id != id by {
        assert(kept.contains(kept[i]));
    }
}

/// The induction behind removal.
proof fn filtering_keeps_entries_valid(entries: Seq<EntryView>, id: Seq<char>)
    requires
        crate::entry::each_valid(entries),
        crate::entry::distinct_ids(entries),
    ensures
        ({
            let kept = entries.filter(|e: EntryView| e.id != id);
            &&& kept.len() <= entries.len()
            &&& crate::entry::each_valid(kept)
            &&& crate::entry::distinct_ids(kept)
            &&& forall|e: EntryView|
                entries.contains(e) && e.id != id <==> #[trigger] kept.contains(e)
        }),
    decreases entries.len(),
{
    let keep = |e: EntryView| e.id != id;
    reveal(Seq::filter);
    let kept = entries.filter(keep);
    if entries.len() > 0 {
        let shorter = entries.drop_last();
        let last = entries.last();
        filtering_keeps_entries_valid(shorter, id);
        let before = shorter.filter(keep);
        assert(kept == if keep(last) {
            before.push(last)
        } else {
            before
        });
        assert forall|i: int| 0 <= i < before.len() implies (#[trigger] before[i]).id
            != last.id by {
            assert(before.contains(before[i]));
            let j = choose|j: int| 0 <= j < shorter.len() && shorter[j] == before[i];
            assert(entries[j] == before[i]);
            assert(entries[entries.len() - 1] == last);
        }
        assert forall|e: EntryView| entries.contains(e) && e.id != id <==> #[trigger] kept.contains(
            e,
        ) by {
            if entries.contains(e) && e.id != id {
                let j = choose|j: int| 0 <= j < entries.len() && entries[j] == e;
                if j < shorter.len() {
                    assert(shorter[j] == e);
                    assert(shorter.contains(e));
                    assert(before.contains(e));
                    let k = choose|k: int| 0 <= k < before.len() && before[k] == e;
                    assert(kept[k] == e);
                } else {
                    assert(kept[before.len() as int] == e);
                }
            }
            if kept.contains(e) {
                let k = choose|k: int| 0 <= k < kept.len() && kept[k] == e;
                if k < before.len() {
                    assert(before.contains(e));
                    assert(shorter.contains(e));
                    let j = choose|j: int| 0 <= j < shorter.len() && shorter[j] == e;
                    assert(entries[j] == e);
                } else {
                    assert(entries[entries.len() - 1] == e);
                }
            }
        }
    } else {
        assert(kept =~= Seq::empty());
    }
}

/// The buffer of the Vault Key holds the key that the vault was opened with.
pub proof fn the_key_buffer_holds_the_key(vault: UnlockedVault)
    ensures
        vault.key()@ == vault@.vault_key,
{
}

} // verus!
