//! What a vault file is, opens to and is sealed from.

use vstd::prelude::*;

use crate::crypto::KdfParamsView;
use crate::entry;
use crate::entry::{Entry, EntryView};
use crate::error::{Error, Result};
use crate::primitives;
use crate::vault;
use crate::vault::{
    BlobView, EncryptedBlob, FileView, KdfSection, KdfSectionView, UnlockedVault, VaultFile,
    VaultView,
};

use super::crypto as keys;

verus! {

/// What a Base64 text stands for.
pub open spec fn decoded(text: Seq<char>) -> Option<Seq<u8>> {
    primitives::base64_bytes(vstd::utf8::encode_utf8(text))
}

/// The fields of a file are seen as they stand.
pub proof fn a_file_is_its_fields(file: VaultFile, kdf: KdfSection, blob: EncryptedBlob)
    ensures
        file@.version == file.version,
        file@.kdf == file.kdf@,
        file@.wrapped_key == file.wrapped_key@,
        file@.vault == file.vault@,
        kdf@.name == kdf.name@,
        kdf@.salt == kdf.salt@,
        kdf@.time_cost == kdf.time_cost,
        kdf@.memory_cost == kdf.memory_cost,
        kdf@.parallelism == kdf.parallelism,
        kdf@.hash_len == kdf.hash_len,
        blob@.nonce == blob.nonce@,
        blob@.ciphertext == blob.ciphertext@,
{
}

/// The limits and the version of the format.
pub proof fn the_format_has_these_limits()
    ensures
        vault::MAX_VAULT_FILE_BYTES == 67_108_864,
        vault::MAX_DECRYPTED_BYTES == 50_331_648,
        vault::SUPPORTED_VERSION == 1,
        vault::EMPTY_PAYLOAD@ == seq![91u8, 93],
{
    assert(vault::EMPTY_PAYLOAD@ =~= seq![91u8, 93]);
}

/// A nonce is read exactly where its text is Base64 of twelve bytes, and a
/// ciphertext where its text is Base64 of at least sixteen; each is those bytes.
pub proof fn a_blob_is_read(blob: BlobView)
    ensures
        decoded(blob.nonce) matches Some(nonce) ==> (nonce.len() == 12 ==> blob.nonce_bytes()
            == Ok::<Seq<u8>, Error>(nonce)),
        !(decoded(blob.nonce) matches Some(nonce) && nonce.len() == 12) ==> blob.nonce_bytes()
            == Err::<Seq<u8>, Error>(Error::InvalidEncoding),
        decoded(blob.ciphertext) matches Some(ciphertext) ==> (ciphertext.len() >= 16
            ==> blob.ciphertext_bytes() == Ok::<Seq<u8>, Error>(ciphertext)),
        !(decoded(blob.ciphertext) matches Some(ciphertext) && ciphertext.len() >= 16)
            ==> blob.ciphertext_bytes() == Err::<Seq<u8>, Error>(Error::InvalidEncoding),
{
}

/// A blob is written as the Base64 texts of its nonce and its ciphertext, each in
/// its own field.
pub proof fn a_blob_is_written(nonce: Seq<u8>, ciphertext: Seq<u8>)
    ensures
        BlobView::of(nonce, ciphertext).nonce == primitives::base64_text(nonce),
        BlobView::of(nonce, ciphertext).ciphertext == primitives::base64_text(ciphertext),
{
}

/// The parameters that a section stands for have its name, its costs and its
/// hash length, and the salt that its text is Base64 of. They are refused out of
/// bounds, and for a salt that is not Base64 with an error of its own.
pub proof fn a_section_is_read(section: KdfSectionView)
    ensures
        ({
            let named = section.name == "argon2id"@;
            let salt = decoded(section.salt);
            let costs = 1 <= section.time_cost <= 16 && 19_456 <= section.memory_cost <= 1_048_576
                && 1 <= section.parallelism <= 4 && section.hash_len == 32;
            &&& section.params() matches Ok(params) ==> {
                &&& params.name == section.name
                &&& Some(params.salt) == salt
                &&& params.time_cost == section.time_cost
                &&& params.memory_cost == section.memory_cost
                &&& params.parallelism == section.parallelism
                &&& params.hash_len == section.hash_len
            }
            &&& section.params() is Ok <==> named && costs && (salt matches Some(bytes)
                && bytes.len() == 16)
            &&& section.params() matches Err(e) ==> e == (if named && salt is None {
                Error::InvalidEncoding
            } else {
                Error::InvalidKdfParameters
            })
        }),
{
}

/// Parameters are written field by field, with the salt in Base64.
pub proof fn a_section_is_written(params: KdfParamsView)
    ensures
        KdfSectionView::of(params).name == params.name,
        KdfSectionView::of(params).salt == primitives::base64_text(params.salt),
        KdfSectionView::of(params).time_cost == params.time_cost,
        KdfSectionView::of(params).memory_cost == params.memory_cost,
        KdfSectionView::of(params).parallelism == params.parallelism,
        KdfSectionView::of(params).hash_len == params.hash_len,
{
}

/// A file is without defects exactly if it has version one, its parameters can
/// be read, and so can both nonces and both ciphertexts. The first defect is
/// reported: the version, then the parameters, then the encoded fields.
pub proof fn defects_are_found(file: FileView)
    ensures
        ({
            let encoded = file.wrapped_key.nonce_bytes() is Ok
                && file.wrapped_key.ciphertext_bytes() is Ok && file.vault.nonce_bytes() is Ok
                && file.vault.ciphertext_bytes() is Ok;
            &&& file.defect() is None <==> file.version == 1 && file.kdf.params() is Ok && encoded
            &&& file.version != 1 ==> file.defect() == Some(Error::UnsupportedVersion)
            &&& file.version == 1 && file.kdf.params() is Err ==> file.defect() == Some(
                file.kdf.params()->Err_0,
            )
            &&& file.version == 1 && file.kdf.params() is Ok && !encoded ==> file.defect() == Some(
                Error::InvalidEncoding,
            )
        }),
{
}

/// The key-encryption key of a password under given parameters: HKDF-SHA256 of
/// Argon2id of the password.
pub open spec fn kek_of(password: Seq<u8>, params: KdfParamsView) -> Seq<u8> {
    primitives::hkdf_sha256(hash_of(password, params), keys::for_the_kek(), 32)
}

/// The Argon2id hash of a password under given parameters.
pub open spec fn hash_of(password: Seq<u8>, params: KdfParamsView) -> Seq<u8> {
    primitives::argon2id(
        password,
        params.salt,
        params.memory_cost,
        params.time_cost,
        params.parallelism,
        32,
    )
}

/// What a password opens is what the cipher gives, twice: the wrapped key opens
/// under the key-encryption key of that password to the Vault Key, and the
/// payload opens under the Vault Key. Nothing else is ever handed out.
pub proof fn opening_goes_through_both_keys(
    file: FileView,
    password: Seq<u8>,
    vault_key: Seq<u8>,
    payload: Seq<u8>,
)
    requires
        file.opened(password) == Ok::<(Seq<u8>, Seq<u8>), Error>((vault_key, payload)),
    ensures
        file.defect() is None,
        password.len() <= 0xFFFF_FFFF,
        primitives::gcm_open(
            kek_of(password, file.kdf.params()->Ok_0),
            file.wrapped_key.nonce_bytes()->Ok_0,
            keys::for_keys(),
            file.wrapped_key.ciphertext_bytes()->Ok_0,
        ) == Some(vault_key),
        vault_key.len() == 32,
        primitives::gcm_open(
            vault_key,
            file.vault.nonce_bytes()->Ok_0,
            keys::for_payloads(),
            file.vault.ciphertext_bytes()->Ok_0,
        ) == Some(payload),
        payload.len() <= 50_331_648,
{
    keys::the_hierarchy_is_bound_to_these_bytes();
}

/// Whatever the cipher opens both times is opened, unless the payload is too
/// large. Where it does not open, the answer is the one authentication error.
pub proof fn whatever_both_keys_open_is_opened(file: FileView, password: Seq<u8>)
    requires
        file.defect() is None,
        password.len() <= 0xFFFF_FFFF,
        hash_of(password, file.kdf.params()->Ok_0).len() == 32,
        kek_of(password, file.kdf.params()->Ok_0).len() == 32,
    ensures
        ({
            let unwrapped = primitives::gcm_open(
                kek_of(password, file.kdf.params()->Ok_0),
                file.wrapped_key.nonce_bytes()->Ok_0,
                keys::for_keys(),
                file.wrapped_key.ciphertext_bytes()->Ok_0,
            );
            let payload = primitives::gcm_open(
                unwrapped->0,
                file.vault.nonce_bytes()->Ok_0,
                keys::for_payloads(),
                file.vault.ciphertext_bytes()->Ok_0,
            );
            let opens = unwrapped is Some && unwrapped->0.len() == 32 && payload is Some;
            &&& opens && payload->0.len() <= 50_331_648 ==> file.opened(password) == Ok::<
                (Seq<u8>, Seq<u8>),
                Error,
            >((unwrapped->0, payload->0))
            &&& opens && payload->0.len() > 50_331_648 ==> file.opened(password) == Err::<
                (Seq<u8>, Seq<u8>),
                Error,
            >(Error::VaultFormat)
            &&& !opens ==> file.opened(password) == Err::<(Seq<u8>, Seq<u8>), Error>(
                Error::Authentication,
            )
        }),
{
    keys::the_hierarchy_is_bound_to_these_bytes();
}

/// A file with a defect is opened by no password, and a password that is too
/// long opens no file.
pub proof fn nothing_opens_a_defective_file(file: FileView, password: Seq<u8>)
    ensures
        file.defect() matches Some(e) ==> file.opened(password) == Err::<
            (Seq<u8>, Seq<u8>),
            Error,
        >(e),
        file.defect() is None && password.len() > 0xFFFF_FFFF ==> file.opened(password) == Err::<
            (Seq<u8>, Seq<u8>),
            Error,
        >(Error::KeyDerivation),
{
}

/// The file of a new vault has version one, the parameters of new vaults with
/// its salt, the Vault Key sealed under the key-encryption key of the password,
/// and an empty list sealed under the Vault Key, each beside its own nonce.
pub proof fn a_new_file_holds(
    password: Seq<u8>,
    salt: Seq<u8>,
    vault_key: Seq<u8>,
    wrap_nonce: Seq<u8>,
    vault_nonce: Seq<u8>,
    file: FileView,
)
    requires
        FileView::created(password, salt, vault_key, wrap_nonce, vault_nonce) == Ok::<
            FileView,
            Error,
        >(file),
        hash_of(password, KdfParamsView::of_new_vault(salt)).len() == 32,
    ensures
        0 < password.len() <= 0xFFFF_FFFF,
        salt.len() == 16,
        vault_key.len() == 32,
        file.version == 1,
        file.kdf == (KdfSectionView {
            name: "argon2id"@,
            salt: primitives::base64_text(salt),
            time_cost: 3,
            memory_cost: 65_536,
            parallelism: 1,
            hash_len: 32,
        }),
        file.wrapped_key.nonce == primitives::base64_text(wrap_nonce),
        file.wrapped_key.ciphertext == primitives::base64_text(
            primitives::gcm_seal(
                kek_of(password, KdfParamsView::of_new_vault(salt)),
                wrap_nonce,
                keys::for_keys(),
                vault_key,
            ),
        ),
        file.vault.nonce == primitives::base64_text(vault_nonce),
        file.vault.ciphertext == primitives::base64_text(
            primitives::gcm_seal(vault_key, vault_nonce, keys::for_payloads(), seq![91u8, 93]),
        ),
{
    keys::the_hierarchy_is_bound_to_these_bytes();
    the_format_has_these_limits();
}

/// A new file is made for every password that is neither empty nor too long, with
/// a salt and a Vault Key of the right lengths.
pub proof fn a_new_file_is_made(
    password: Seq<u8>,
    salt: Seq<u8>,
    vault_key: Seq<u8>,
    wrap_nonce: Seq<u8>,
    vault_nonce: Seq<u8>,
)
    ensures
        ({
            let outcome = FileView::created(password, salt, vault_key, wrap_nonce, vault_nonce);
            &&& outcome is Ok <==> 0 < password.len() <= 0xFFFF_FFFF && salt.len() == 16
                && vault_key.len() == 32
            &&& password.len() == 0 ==> outcome == Err::<FileView, Error>(
                Error::PasswordTooShort { min: 12 },
            )
        }),
{
}

/// What was created is random where it has to be: the salt and the Vault Key are
/// bytes that the operating system gave, and the two nonces were drawn when the
/// key was wrapped and when the payload was encrypted.
pub proof fn a_new_vault_is_random(file: FileView, password: Seq<u8>, vault: VaultView)
    requires
        file.is_new(password, vault),
    ensures
        crate::crypto::given::<32>(vault.vault_key),
        vault.entries.len() == 0,
        vault.wrapped_key == file.wrapped_key,
        vault.kdf == file.kdf,
        vault.version == file.version,
        file.opened(password) == Ok::<(Seq<u8>, Seq<u8>), Error>(
            (vault.vault_key, seq![91u8, 93]),
        ),
        exists|salt: Seq<u8>, wrap_nonce: Seq<u8>, vault_nonce: Seq<u8>|
            {
                &&& crate::crypto::given::<16>(salt)
                &&& crate::crypto::wrapping_draws(
                    crate::crypto::kek(
                        crate::crypto::master_key(
                            password,
                            KdfParamsView::of_new_vault(salt),
                        )->Ok_0,
                    )->Ok_0,
                    vault.vault_key,
                    wrap_nonce,
                )
                &&& crate::crypto::encrypting_draws(
                    vault.vault_key,
                    seq![91u8, 93],
                    vault_nonce,
                )
                &&& #[trigger] FileView::created(
                    password,
                    salt,
                    vault.vault_key,
                    wrap_nonce,
                    vault_nonce,
                ) == Ok::<FileView, Error>(file)
            },
{
    the_format_has_these_limits();
}

/// Creating a vault fails only for want of random bytes, or because the password
/// is longer than Argon2id takes.
pub proof fn creation_fails_only_for(password: Seq<u8>, e: Error)
    requires
        vault::creation_fails(password, e),
    ensures
        e == Error::Crypto || e == Error::KeyDerivation,
        e == Error::KeyDerivation ==> password.len() > 0xFFFF_FFFF,
        e == Error::Crypto ==> crate::crypto::refused::<16>() || crate::crypto::refused::<32>()
            || crate::crypto::refused::<12>(),
{
}

/// A payload is admitted exactly if it decodes to entries that may stand
/// together, and then as those; the vault carries the key and every field of the
/// file on.
pub proof fn what_unlocks_is_the_decoded_entries(
    file: FileView,
    vault_key: Seq<u8>,
    decoded: Option<Seq<EntryView>>,
)
    ensures
        decoded matches Some(entries) ==> (entry::valid_entries(entries) ==> file.unlocked(
            vault_key,
            decoded,
        ) == Ok::<VaultView, Error>(
            VaultView {
                entries,
                vault_key,
                wrapped_key: file.wrapped_key,
                kdf: file.kdf,
                version: file.version,
            },
        )),
        !(decoded matches Some(entries) && entry::valid_entries(entries)) ==> file.unlocked(
            vault_key,
            decoded,
        ) == Err::<VaultView, Error>(Error::InvalidEntry),
{
}

/// What is read is what was parsed, and only without defects. Nothing is parsed
/// of a file that is empty or larger than 64 MiB.
pub proof fn reading_gives_what_was_parsed<P: FnOnce(&[u8]) -> Option<VaultFile>>(
    bytes: &[u8],
    parse: P,
    outcome: Result<FileView>,
)
    requires
        FileView::reads_as(bytes, parse, outcome),
    ensures
        bytes@.len() == 0 || bytes@.len() > 67_108_864 ==> outcome == Err::<FileView, Error>(
            Error::VaultFormat,
        ),
        outcome matches Ok(file) ==> {
            &&& 0 < bytes@.len() <= 67_108_864
            &&& file.defect() is None
            &&& exists|parsed: VaultFile| #[trigger]
                parse.ensures((bytes,), Some(parsed)) && parsed@ == file
        },
        outcome matches Err(e) ==> (0 < bytes@.len() <= 67_108_864 ==> {
            ||| e == Error::VaultFormat && parse.ensures((bytes,), None)
            ||| exists|parsed: VaultFile| #[trigger]
                parse.ensures((bytes,), Some(parsed)) && parsed@.defect() == Some(e)
        }),
{
    if 0 < bytes@.len() <= 67_108_864 {
        let parsed = choose|parsed: Option<VaultFile>| #[trigger]
            parse.ensures((bytes,), parsed) && outcome == FileView::accepted(
                crate::error::viewed_option(parsed),
            );
        if let Some(file) = parsed {
            assert(parse.ensures((bytes,), Some(file)));
        }
    }
}

/// Unlocking hands exactly the payload that the password opens to `decode`, and
/// gives the entries that came of it; a file that the password does not open is
/// refused with the reason, and one that withstands it with the one
/// authentication error.
pub proof fn unlocking_gives_the_entries<D: FnOnce(&[u8]) -> Option<Vec<Entry>>>(
    file: FileView,
    password: Seq<u8>,
    decode: D,
    outcome: Result<VaultView>,
)
    requires
        file.unlocks_as(password, decode, outcome),
    ensures
        file.opened(password) matches Err(e) ==> outcome == Err::<VaultView, Error>(e),
        outcome matches Ok(vault) ==> {
            &&& file.opened(password) is Ok
            &&& vault.vault_key == file.opened(password)->Ok_0.0
            &&& vault.wrapped_key == file.wrapped_key
            &&& vault.kdf == file.kdf
            &&& vault.version == file.version
            &&& entry::valid_entries(vault.entries)
            &&& exists|payload: &[u8], entries: Vec<Entry>|
                {
                    &&& payload@ == file.opened(password)->Ok_0.1
                    &&& #[trigger] decode.ensures((payload,), Some(entries))
                    &&& vault.entries == entry::entry_views(entries@)
                }
        },
        outcome matches Err(e) ==> (file.opened(password) is Ok ==> e == Error::InvalidEntry
            && exists|payload: &[u8], refused: Option<Vec<Entry>>|
            {
                &&& payload@ == file.opened(password)->Ok_0.1
                &&& #[trigger] decode.ensures((payload,), refused)
                &&& refused matches Some(entries) ==> !entry::valid_entries(
                    entry::entry_views(entries@),
                )
            }),
{
    if let Ok((vault_key, payload)) = file.opened(password) {
        let (bytes, decoded) = choose|bytes: &[u8], decoded: Option<Vec<Entry>>|
            bytes@ == payload && #[trigger] decode.ensures((bytes,), decoded) && outcome
                == file.unlocked(vault_key, vault::decoded_views(decoded));
        assert(decode.ensures((bytes,), decoded));
        if let Some(entries) = decoded {
            assert(decode.ensures((bytes,), Some(entries)));
        }
    }
}

/// A sealed vault keeps its version, its parameters and its wrapped key, and
/// holds the payload sealed under its key beside the nonce. Only a payload that
/// is too large and a key that is gone are refused.
pub proof fn sealing_replaces_only_the_payload(vault: VaultView, payload: Seq<u8>, nonce: Seq<u8>)
    ensures
        payload.len() <= 50_331_648 && vault.vault_key.len() == 32 ==> vault.sealed(payload, nonce)
            == Ok::<FileView, Error>(
            FileView {
                version: vault.version,
                kdf: vault.kdf,
                wrapped_key: vault.wrapped_key,
                vault: BlobView {
                    nonce: primitives::base64_text(nonce),
                    ciphertext: primitives::base64_text(
                        primitives::gcm_seal(vault.vault_key, nonce, keys::for_payloads(), payload),
                    ),
                },
            },
        ),
        payload.len() > 50_331_648 ==> vault.sealed(payload, nonce) == Err::<FileView, Error>(
            Error::VaultFormat,
        ),
        payload.len() <= 50_331_648 && vault.vault_key.len() != 32 ==> vault.sealed(payload, nonce)
            == Err::<FileView, Error>(Error::Crypto),
{
    keys::the_hierarchy_is_bound_to_these_bytes();
}

/// A vault is sealed under a nonce that the operating system gave, from what
/// `encode` made of exactly its entries; the file decrypts to that again.
pub proof fn a_vault_is_sealed_from_its_entries<E: FnOnce(&[Entry]) -> Option<Vec<u8>>>(
    vault: VaultView,
    encode: E,
    file: FileView,
)
    requires
        vault.seals_as(encode, Ok(file)),
    ensures
        file.version == vault.version,
        file.kdf == vault.kdf,
        file.wrapped_key == vault.wrapped_key,
        vault.vault_key.len() == 32,
        exists|entries: &[Entry], payload: Vec<u8>|
            {
                &&& entry::entry_views(entries@) == vault.entries
                &&& #[trigger] encode.ensures((entries,), Some(payload))
                &&& payload@.len() <= 50_331_648
                &&& primitives::gcm_open(
                    vault.vault_key,
                    file.vault.nonce_bytes()->Ok_0,
                    keys::for_payloads(),
                    file.vault.ciphertext_bytes()->Ok_0,
                ) == Some(payload@)
                &&& exists|nonce: Seq<u8>|
                    {
                        &&& #[trigger] crate::crypto::given::<12>(nonce)
                        &&& file.vault.nonce == primitives::base64_text(nonce)
                        &&& file.vault.ciphertext == primitives::base64_text(
                            primitives::gcm_seal(
                                vault.vault_key,
                                nonce,
                                keys::for_payloads(),
                                payload@,
                            ),
                        )
                    }
            },
{
    keys::the_hierarchy_is_bound_to_these_bytes();
    let (entries, encoded) = choose|entries: &[Entry], encoded: Option<Vec<u8>>|
        {
            &&& entry::entry_views(entries@) == vault.entries
            &&& #[trigger] encode.ensures((entries,), encoded)
            &&& match encoded {
                None => false,
                Some(payload) => vault.seals_payload_as(payload@, Ok(file)),
            }
        };
    let payload = encoded->0;
    assert(encode.ensures((entries,), Some(payload)));
    let nonce = choose|nonce: Seq<u8>|
        crate::crypto::given::<12>(nonce) && #[trigger] vault.sealed(payload@, nonce) == Ok::<
            FileView,
            Error,
        >(file);
    sealing_replaces_only_the_payload(vault, payload@, nonce);
    assert(crate::crypto::given::<12>(nonce));
}

/// Sealing fails only if the entries cannot be encoded or are too large then, if
/// the key is gone, or for want of random bytes.
pub proof fn sealing_fails_only_for<E: FnOnce(&[Entry]) -> Option<Vec<u8>>>(
    vault: VaultView,
    encode: E,
    e: Error,
)
    requires
        vault.seals_as(encode, Err(e)),
    ensures
        e == Error::VaultFormat || (e == Error::Crypto && (vault.vault_key.len() != 32
            || crate::crypto::refused::<12>())),
        e == Error::VaultFormat ==> exists|entries: &[Entry], encoded: Option<Vec<u8>>|
            {
                &&& entry::entry_views(entries@) == vault.entries
                &&& #[trigger] encode.ensures((entries,), encoded)
                &&& encoded matches Some(payload) ==> payload@.len() > 50_331_648
            },
{
    let (entries, encoded) = choose|entries: &[Entry], encoded: Option<Vec<u8>>|
        {
            &&& entry::entry_views(entries@) == vault.entries
            &&& #[trigger] encode.ensures((entries,), encoded)
            &&& match encoded {
                None => Err::<FileView, Error>(e) == Err::<FileView, Error>(Error::VaultFormat),
                Some(payload) => vault.seals_payload_as(payload@, Err(e)),
            }
        };
    assert(encode.ensures((entries,), encoded));
}

/// An entry may be added exactly if it is valid, no entry has its id, and there
/// are fewer than a hundred thousand. Other entries change nothing else of a
/// vault.
pub proof fn adding_asks_for(vault: VaultView, e: EntryView, entries: Seq<EntryView>)
    ensures
        vault.accepts(e) <==> {
            &&& e.valid()
            &&& vault.entries.len() < 100_000
            &&& forall|i: int| 0 <= i < vault.entries.len() ==> (#[trigger] vault.entries[i]).id
                != e.id
        },
        vault.with_entries(entries).entries == entries,
        vault.with_entries(entries).vault_key == vault.vault_key,
        vault.with_entries(entries).wrapped_key == vault.wrapped_key,
        vault.with_entries(entries).kdf == vault.kdf,
        vault.with_entries(entries).version == vault.version,
{
}

/// Replacing the entry in one place leaves every other entry in its place, and
/// everything else of the vault.
pub proof fn replacing_touches_one_place(vault: VaultView, i: int, e: EntryView)
    requires
        0 <= i < vault.entries.len(),
    ensures
        vault.updated(i, e).entries.len() == vault.entries.len(),
        vault.updated(i, e).entries[i] == e,
        forall|j: int|
            0 <= j < vault.entries.len() && j != i ==> #[trigger] vault.updated(i, e).entries[j]
                == vault.entries[j],
        vault.updated(i, e) == vault.with_entries(vault.updated(i, e).entries),
{
}

/// Removing goes through the entries in their order: one with the id is left
/// out, and every other one kept behind those before it.
pub proof fn removing_keeps_the_order(vault: VaultView, id: Seq<char>, last: EntryView)
    ensures
        vault.with_entries(Seq::empty()).without(id).entries == Seq::<EntryView>::empty(),
        vault.with_entries(vault.entries.push(last)).without(id).entries == (if last.id == id {
            vault.without(id).entries
        } else {
            vault.without(id).entries.push(last)
        }),
        vault.without(id) == vault.with_entries(vault.without(id).entries),
{
    reveal(Seq::filter);
    let keep = |e: EntryView| e.id != id;
    assert(Seq::<EntryView>::empty().filter(keep) =~= Seq::empty());
    assert(vault.entries.push(last).drop_last() =~= vault.entries);
    assert(vault.with_entries(vault.entries.push(last)).entries.last() == last);
}

/// Adding to an unlocked vault puts the entry behind the others or changes nothing,
/// replacing puts it where its id first stands, removing takes every entry with
/// the id, and locking leaves neither entries nor key.
pub proof fn an_unlocked_vault_changes_only_as_asked()
    ensures
        forall|vault: &mut UnlockedVault, e: Entry, r: Result<()>|
            #[trigger] call_ensures(UnlockedVault::add_entry, (vault, e), r) ==> {
                &&& r is Ok <==> {
                    &&& e@.valid()
                    &&& (*vault)@.entries.len() < 100_000
                    &&& !entry::has_id((*vault)@.entries, e@.id)
                }
                &&& r is Ok ==> final(vault)@ == (VaultView {
                    entries: (*vault)@.entries.push(e@),
                    ..(*vault)@
                })
                &&& r is Err ==> r == Err::<(), Error>(Error::InvalidEntry) && final(vault)@
                    == (*vault)@
            },
        forall|vault: &mut UnlockedVault, e: Entry, r: Result<bool>|
            #[trigger] call_ensures(UnlockedVault::update_entry, (vault, e), r) ==> {
                &&& !e@.valid() ==> r == Err::<bool, Error>(Error::InvalidEntry)
                &&& e@.valid() ==> r == Ok::<bool, Error>(
                    entry::has_id((*vault)@.entries, e@.id),
                )
                &&& r == Ok::<bool, Error>(true) ==> exists|i: int|
                    {
                        &&& #[trigger] super::app::first_at((*vault)@.entries, e@.id, i)
                        &&& final(vault)@ == (VaultView {
                            entries: (*vault)@.entries.update(i, e@),
                            ..(*vault)@
                        })
                    }
                &&& r != Ok::<bool, Error>(true) ==> final(vault)@ == (*vault)@
            },
        forall|vault: &mut UnlockedVault, id: &str, r: bool|
            #[trigger] call_ensures(UnlockedVault::remove_entry, (vault, id), r) ==> {
                &&& r <==> entry::has_id((*vault)@.entries, id@)
                &&& final(vault)@ == (*vault)@.without(id@)
            },
        forall|vault: &mut UnlockedVault, done: ()|
            #[trigger] call_ensures(UnlockedVault::lock, (vault,), done) ==> {
                &&& final(vault)@.entries.len() == 0
                &&& final(vault)@.vault_key.len() == 0
                &&& final(vault)@.wrapped_key == (*vault)@.wrapped_key
                &&& final(vault)@.kdf == (*vault)@.kdf
                &&& final(vault)@.version == (*vault)@.version
            },
{
    assert forall|vault: &mut UnlockedVault, e: Entry, r: Result<bool>|
        #[trigger] call_ensures(UnlockedVault::update_entry, (vault, e), r) && r == Ok::<
            bool,
            Error,
        >(true) implies exists|i: int|
        {
            &&& #[trigger] super::app::first_at((*vault)@.entries, e@.id, i)
            &&& final(vault)@ == (VaultView {
                entries: (*vault)@.entries.update(i, e@),
                ..(*vault)@
            })
        } by {
        let i = choose|i: int| #[trigger]
            (*vault)@.is_first(e@.id, i) && final(vault)@ == (*vault)@.updated(i, e@);
        assert(super::app::first_at((*vault)@.entries, e@.id, i));
    }
}

} // verus!
