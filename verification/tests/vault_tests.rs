use base64::engine::general_purpose::STANDARD as B64;
use base64::Engine;
use offline_vault::crypto;
use offline_vault::crypto::{KdfParams, KDF_NAME_ARGON2ID, KEY_LEN, SALT_LEN};
use offline_vault::error::Error;
use offline_vault::security::SecureBuffer;
use offline_vault::vault;
use offline_vault::vault::{
    validate_entries, validate_entry, EncryptedBlob, Entry, KdfSection, UnlockedVault, VaultFile,
    EMPTY_PAYLOAD, MAX_DECRYPTED_BYTES, MAX_ID_BYTES, MAX_NOTES_BYTES, MAX_PASSWORD_BYTES,
    MAX_TITLE_BYTES, MAX_TOTP_BYTES, MAX_URL_BYTES, MAX_USERNAME_BYTES, MAX_VAULT_FILE_BYTES,
    SUPPORTED_VERSION,
};
use serde_json::Value;

// ---------------------------------------------------------------------------
// The JSON codec that the library is used with
// ---------------------------------------------------------------------------

fn text(object: &serde_json::Map<String, Value>, field: &str) -> Option<String> {
    object.get(field)?.as_str().map(|s| s.to_string())
}

fn number(object: &serde_json::Map<String, Value>, field: &str) -> Option<u32> {
    u32::try_from(object.get(field)?.as_u64()?).ok()
}

fn object(value: &Value, fields: usize) -> Option<&serde_json::Map<String, Value>> {
    value.as_object().filter(|o| o.len() == fields)
}

fn blob(value: &Value) -> Option<EncryptedBlob> {
    let o = object(value, 2)?;
    Some(EncryptedBlob {
        nonce: text(o, "nonce")?,
        ciphertext: text(o, "ciphertext")?,
    })
}

fn parse(bytes: &[u8]) -> Option<VaultFile> {
    let value: Value = serde_json::from_slice(bytes).ok()?;
    let o = object(&value, 4)?;
    let kdf = object(o.get("kdf")?, 6)?;
    Some(VaultFile {
        version: number(o, "version")?,
        kdf: KdfSection {
            name: text(kdf, "name")?,
            salt: text(kdf, "salt")?,
            time_cost: number(kdf, "time_cost")?,
            memory_cost: number(kdf, "memory_cost")?,
            parallelism: number(kdf, "parallelism")?,
            hash_len: number(kdf, "hash_len")?,
        },
        wrapped_key: blob(o.get("wrapped_key")?)?,
        vault: blob(o.get("vault")?)?,
    })
}

fn record(fields: &[(&str, Value)]) -> Value {
    Value::Object(
        fields
            .iter()
            .map(|(k, v)| (k.to_string(), v.clone()))
            .collect(),
    )
}

fn blob_value(b: &EncryptedBlob) -> Value {
    record(&[
        ("nonce", Value::from(b.nonce.as_str())),
        ("ciphertext", Value::from(b.ciphertext.as_str())),
    ])
}

fn render(file: &VaultFile) -> Option<Vec<u8>> {
    let kdf = record(&[
        ("name", Value::from(file.kdf.name.as_str())),
        ("salt", Value::from(file.kdf.salt.as_str())),
        ("time_cost", Value::from(file.kdf.time_cost)),
        ("memory_cost", Value::from(file.kdf.memory_cost)),
        ("parallelism", Value::from(file.kdf.parallelism)),
        ("hash_len", Value::from(file.kdf.hash_len)),
    ]);
    let value = record(&[
        ("version", Value::from(file.version)),
        ("kdf", kdf),
        ("wrapped_key", blob_value(&file.wrapped_key)),
        ("vault", blob_value(&file.vault)),
    ]);
    serde_json::to_vec(&value).ok()
}

fn decode(payload: &[u8]) -> Option<Vec<Entry>> {
    let value: Value = serde_json::from_slice(payload).ok()?;
    value
        .as_array()?
        .iter()
        .map(|v| {
            let o = object(v, 7)?;
            Some(Entry {
                id: text(o, "id")?,
                title: text(o, "title")?,
                username: text(o, "username")?,
                password: text(o, "password")?,
                url: text(o, "url")?,
                totp: text(o, "totp")?,
                notes: text(o, "notes")?,
            })
        })
        .collect()
}

fn encode(entries: &[Entry]) -> Option<Vec<u8>> {
    let list: Vec<Value> = entries
        .iter()
        .map(|e| {
            record(&[
                ("id", Value::from(e.id.as_str())),
                ("title", Value::from(e.title.as_str())),
                ("username", Value::from(e.username.as_str())),
                ("password", Value::from(e.password.as_str())),
                ("url", Value::from(e.url.as_str())),
                ("totp", Value::from(e.totp.as_str())),
                ("notes", Value::from(e.notes.as_str())),
            ])
        })
        .collect();
    serde_json::to_vec(&Value::Array(list)).ok()
}

/// Cheap-but-valid KDF parameters for tests. They satisfy
/// `KdfParams::validate`; they are not the production defaults.
fn fast_params(salt: [u8; SALT_LEN]) -> KdfParams {
    KdfParams {
        name: KDF_NAME_ARGON2ID.to_string(),
        salt: salt.to_vec(),
        time_cost: 1,
        memory_cost: 19 * 1024,
        parallelism: 1,
        hash_len: KEY_LEN as u32,
    }
}

/// Build a vault with the given password and empty entry list, using fast
/// KDF parameters. Returns the serialized file bytes and the unlocked vault.
fn create_fast(password: &str) -> (Vec<u8>, UnlockedVault) {
    let params = fast_params([0x5au8; SALT_LEN]);
    let mk = crypto::derive_master_key(password.as_bytes(), &params).unwrap();
    let kek = crypto::derive_kek(mk.as_slice()).unwrap();
    let vk = crypto::random_vault_key().unwrap();

    let (wn, wc) = crypto::wrap_vault_key(kek.as_slice(), vk.as_slice()).unwrap();
    let (vn, vc) = crypto::encrypt_vault(vk.as_slice(), b"[]").unwrap();

    let file = VaultFile {
        version: SUPPORTED_VERSION,
        kdf: KdfSection::from_kdf_params(&params),
        wrapped_key: EncryptedBlob::from_raw(&wn, &wc),
        vault: EncryptedBlob::from_raw(&vn, &vc),
    };
    let unlocked = file.unlock(password, decode).unwrap();
    (file.to_bytes(render).unwrap(), unlocked)
}

/// Flip the first Base64 character of a string to its neighbour. Used to
/// corrupt a Base64 field while keeping it syntactically valid, so the
/// failure we observe is authentication, not decoding.
fn corrupt_b64(s: &str) -> String {
    let mut chars: Vec<char> = s.chars().collect();
    chars[0] = if chars[0] == 'A' { 'B' } else { 'A' };
    chars.into_iter().collect()
}


fn fast_create(password: &str) -> Result<(VaultFile, UnlockedVault), Error> {
    let kdf_params = KdfParams {
        name: KDF_NAME_ARGON2ID.to_string(),
        salt: crypto::random_bytes::<SALT_LEN>()?.to_vec(),
        time_cost: 1,
        memory_cost: 19 * 1024,
        parallelism: 1,
        hash_len: KEY_LEN as u32,
    };
    let master_key = crypto::derive_master_key(password.as_bytes(), &kdf_params)?;
    let kek = crypto::derive_kek(master_key.as_slice())?;
    let vault_key = crypto::random_vault_key()?;
    let (wrap_nonce, wrap_ct) = crypto::wrap_vault_key(kek.as_slice(), vault_key.as_slice())?;
    let (vault_nonce, vault_ct) = crypto::encrypt_vault(vault_key.as_slice(), b"[]")?;
    let file = VaultFile {
        version: SUPPORTED_VERSION,
        kdf: KdfSection::from_kdf_params(&kdf_params),
        wrapped_key: EncryptedBlob::from_raw(&wrap_nonce, &wrap_ct),
        vault: EncryptedBlob::from_raw(&vault_nonce, &vault_ct),
    };
    let unlocked = file.unlock(password, decode)?;
    Ok((file, unlocked))
}

/// A minimal, structurally valid vault JSON value with placeholder Base64
/// fields.
fn minimal_valid_json() -> Value {
    let salt = B64.encode([0u8; 16]);
    let nonce = B64.encode([0u8; 12]);
    let ct = B64.encode([0u8; 17]);
    let blob = record(&[
        ("nonce", Value::from(nonce)),
        ("ciphertext", Value::from(ct)),
    ]);
    record(&[
        ("version", Value::from(SUPPORTED_VERSION)),
        (
            "kdf",
            record(&[
                ("name", Value::from("argon2id")),
                ("salt", Value::from(salt)),
                ("time_cost", Value::from(1)),
                ("memory_cost", Value::from(19 * 1024)),
                ("parallelism", Value::from(1)),
                ("hash_len", Value::from(32)),
            ]),
        ),
        ("wrapped_key", blob.clone()),
        ("vault", blob),
    ])
}

fn from_json(v: &Value) -> Result<VaultFile, Error> {
    let bytes = serde_json::to_vec(v).expect("serialize test value");
    VaultFile::from_bytes(&bytes, parse)
}

#[test]
fn create_then_unlock_roundtrip() {
    let (file, _) = fast_create("correct horse battery staple").unwrap();
    let bytes = file.to_bytes(render).unwrap();
    let parsed = VaultFile::from_bytes(&bytes, parse).unwrap();
    let vault = parsed.unlock("correct horse battery staple", decode).unwrap();
    assert_eq!(vault.entries().len(), 0);
}

#[test]
fn wrong_password_is_rejected() {
    let (file, _) = fast_create("correct horse battery staple").unwrap();
    let err = file.unlock("wrong password entirely", decode).err().unwrap();
    assert!(matches!(err, Error::Authentication));
}

#[test]
fn tampered_wrapped_key_is_rejected() {
    let (mut file, _) = fast_create("correct horse battery staple").unwrap();
    let mut chars: Vec<char> = file.wrapped_key.ciphertext.chars().collect();
    chars[0] = if chars[0] == 'A' { 'B' } else { 'A' };
    file.wrapped_key.ciphertext = chars.into_iter().collect();

    let err = file.unlock("correct horse battery staple", decode).err().unwrap();
    assert!(matches!(
        err,
        Error::Authentication | Error::InvalidEncoding
    ));
}

#[test]
fn tampered_vault_payload_is_rejected() {
    let (mut file, _) = fast_create("correct horse battery staple").unwrap();
    let mut chars: Vec<char> = file.vault.ciphertext.chars().collect();
    chars[0] = if chars[0] == 'A' { 'B' } else { 'A' };
    file.vault.ciphertext = chars.into_iter().collect();

    let err = file.unlock("correct horse battery staple", decode).err().unwrap();
    assert!(matches!(
        err,
        Error::Authentication | Error::InvalidEncoding
    ));
}

#[test]
fn roundtrip_with_entries_preserves_content() {
    let (_, mut unlocked) = fast_create("correct horse battery staple").unwrap();
    let entry = Entry::new(
        "Example",
        "alice",
        "hunter2hunter2",
        "https://example.com",
        "JBSWY3DPEHPK3PXP",
        "notes",
    )
    .unwrap();
    let id = entry.id.clone();
    unlocked.add_entry(entry).unwrap();

    let sealed = unlocked.seal(encode).unwrap();
    let bytes = sealed.to_bytes(render).unwrap();
    let parsed = VaultFile::from_bytes(&bytes, parse).unwrap();
    let reopened = parsed.unlock("correct horse battery staple", decode).unwrap();

    assert_eq!(reopened.entries().len(), 1);
    let e = &reopened.entries()[0];
    assert_eq!(e.id, id);
    assert_eq!(e.title, "Example");
    assert_eq!(e.username, "alice");
    assert_eq!(e.password, "hunter2hunter2");
    assert_eq!(e.url, "https://example.com");
    assert_eq!(e.totp, "JBSWY3DPEHPK3PXP");
    assert_eq!(e.notes, "notes");
}

#[test]
fn validation_rejects_bad_versions_and_fields() {
    let (mut file, _) = fast_create("correct horse battery staple").unwrap();
    file.version = 2;
    assert!(matches!(
        VaultFile::from_bytes(&file.to_bytes(render).unwrap(), parse),
        Err(Error::UnsupportedVersion)
    ));

    let (file, _) = fast_create("correct horse battery staple").unwrap();
    let mut v: Value = serde_json::from_slice(&file.to_bytes(render).unwrap()).unwrap();
    v.as_object_mut().unwrap().remove("vault");
    let bytes = serde_json::to_vec(&v).unwrap();
    assert!(matches!(
        VaultFile::from_bytes(&bytes, parse),
        Err(Error::VaultFormat)
    ));
}

#[test]
fn validation_rejects_weak_kdf_parameters() {
    let (mut file, _) = fast_create("correct horse battery staple").unwrap();
    file.kdf.memory_cost = 1024;
    assert!(matches!(
        VaultFile::from_bytes(&file.to_bytes(render).unwrap(), parse),
        Err(Error::InvalidKdfParameters)
    ));
}

#[test]
fn entry_validation_rejects_oversized_fields() {
    let mut e = Entry::new("t", "u", "p", "u", "t", "n").unwrap();
    e.title = "x".repeat(MAX_TITLE_BYTES + 1);
    assert!(matches!(validate_entry(&e), Err(Error::InvalidEntry)));
}

#[test]
fn entry_validation_rejects_duplicate_ids() {
    let e1 = Entry::new("t1", "u", "p", "u", "t", "n").unwrap();
    let mut e2 = Entry::new("t2", "u", "p", "u", "t", "n").unwrap();
    e2.id = e1.id.clone();
    let v = vec![e1, e2];
    assert!(matches!(validate_entries(&v), Err(Error::InvalidEntry)));
}

#[test]
fn locking_clears_state() {
    let (_, mut unlocked) = fast_create("correct horse battery staple").unwrap();
    let entry = Entry::new("t", "u", "p", "u", "t", "n").unwrap();
    unlocked.add_entry(entry).unwrap();
    assert_eq!(unlocked.entries().len(), 1);
    unlocked.lock();
    assert_eq!(unlocked.entries().len(), 0);
    assert_eq!(unlocked.key_len(), 0);
}

#[test]
fn create_then_unlock_roundtrip_empty_vault() {
    let (bytes, _) = create_fast("correct horse battery staple");
    let parsed = VaultFile::from_bytes(&bytes, parse).unwrap();
    let vault = parsed.unlock("correct horse battery staple", decode).unwrap();
    assert_eq!(vault.entries().len(), 0);
}

#[test]
fn create_then_unlock_roundtrip_with_entries() {
    let (_, mut unlocked) = create_fast("correct horse battery staple");
    let entry = Entry::new(
        "Example",
        "alice",
        "the-password",
        "https://example.com",
        "JBSWY3DPEHPK3PXP",
        "some notes",
    )
    .unwrap();
    let id = entry.id.clone();
    unlocked.add_entry(entry).unwrap();

    let sealed = unlocked.seal(encode).unwrap();
    let reopened_bytes = sealed.to_bytes(render).unwrap();
    let parsed = VaultFile::from_bytes(&reopened_bytes, parse).unwrap();
    let reopened = parsed.unlock("correct horse battery staple", decode).unwrap();

    assert_eq!(reopened.entries().len(), 1);
    let e = &reopened.entries()[0];
    assert_eq!(e.id, id);
    assert_eq!(e.title, "Example");
    assert_eq!(e.username, "alice");
    assert_eq!(e.password, "the-password");
    assert_eq!(e.url, "https://example.com");
    assert_eq!(e.totp, "JBSWY3DPEHPK3PXP");
    assert_eq!(e.notes, "some notes");
}

#[test]
fn reopening_the_same_file_bytes_is_deterministic() {
    let (bytes, _) = create_fast("passphrase-value-1");
    let a = VaultFile::from_bytes(&bytes, parse)
        .unwrap()
        .unlock("passphrase-value-1", decode)
        .unwrap();
    let b = VaultFile::from_bytes(&bytes, parse)
        .unwrap()
        .unlock("passphrase-value-1", decode)
        .unwrap();
    assert_eq!(a.entries().len(), b.entries().len());
}

#[test]
fn vault_file_new_uses_production_defaults() {
    let (file, _) = VaultFile::new("correct horse battery staple").unwrap();
    file.validate().unwrap();
    assert_eq!(file.version, SUPPORTED_VERSION);
    assert_eq!(file.kdf.name, KDF_NAME_ARGON2ID);
    assert_eq!(file.kdf.time_cost, 3);
    assert_eq!(file.kdf.memory_cost, 65_536);
    assert_eq!(file.kdf.parallelism, 1);
    assert_eq!(file.kdf.hash_len, KEY_LEN as u32);
}

#[test]
fn wrong_password_is_rejected_opaque() {
    let (bytes, _) = create_fast("correct horse battery staple");
    let file = VaultFile::from_bytes(&bytes, parse).unwrap();
    let err = file.unlock("not the right password", decode).err().unwrap();
    assert!(matches!(err, Error::Authentication));
    let msg = err.to_string().to_lowercase();
    for forbidden in ["nonce", "tag", "gcm", "argon", "kdf", "key"] {
        assert!(
            !msg.contains(forbidden),
            "error message leaked `{forbidden}`: {msg}"
        );
    }
}

#[test]
fn empty_password_is_rejected() {
    let (bytes, _) = create_fast("correct horse battery staple");
    let file = VaultFile::from_bytes(&bytes, parse).unwrap();
    assert!(matches!(file.unlock("", decode), Err(Error::Authentication)));
}

#[test]
fn tampered_wrapped_key_nonce_is_rejected() {
    let (bytes, _) = create_fast("correct horse battery staple");
    let mut file = VaultFile::from_bytes(&bytes, parse).unwrap();
    file.wrapped_key.nonce = corrupt_b64(&file.wrapped_key.nonce);
    assert!(matches!(
        file.unlock("correct horse battery staple", decode),
        Err(Error::Authentication | Error::InvalidEncoding)
    ));
}

#[test]
fn tampered_wrapped_key_ciphertext_is_rejected() {
    let (bytes, _) = create_fast("correct horse battery staple");
    let mut file = VaultFile::from_bytes(&bytes, parse).unwrap();
    file.wrapped_key.ciphertext = corrupt_b64(&file.wrapped_key.ciphertext);
    assert!(matches!(
        file.unlock("correct horse battery staple", decode),
        Err(Error::Authentication | Error::InvalidEncoding)
    ));
}

#[test]
fn tampered_vault_nonce_is_rejected() {
    let (bytes, _) = create_fast("correct horse battery staple");
    let mut file = VaultFile::from_bytes(&bytes, parse).unwrap();
    file.vault.nonce = corrupt_b64(&file.vault.nonce);
    assert!(matches!(
        file.unlock("correct horse battery staple", decode),
        Err(Error::Authentication | Error::InvalidEncoding)
    ));
}

#[test]
fn tampered_vault_ciphertext_is_rejected() {
    let (bytes, _) = create_fast("correct horse battery staple");
    let mut file = VaultFile::from_bytes(&bytes, parse).unwrap();
    file.vault.ciphertext = corrupt_b64(&file.vault.ciphertext);
    assert!(matches!(
        file.unlock("correct horse battery staple", decode),
        Err(Error::Authentication | Error::InvalidEncoding)
    ));
}

#[test]
fn swapped_ciphertexts_are_rejected_by_aad_binding() {
    // Move the wrapped-key ciphertext into the vault slot and vice versa.
    // Because the two use different AADs, both must fail authentication.
    let (bytes, _) = create_fast("correct horse battery staple");
    let mut file = VaultFile::from_bytes(&bytes, parse).unwrap();
    std::mem::swap(&mut file.wrapped_key, &mut file.vault);
    assert!(matches!(
        file.unlock("correct horse battery staple", decode),
        Err(Error::Authentication)
    ));
}

#[test]
fn rejects_empty_input() {
    assert!(matches!(
        VaultFile::from_bytes(b"", parse),
        Err(Error::VaultFormat)
    ));
}

#[test]
fn rejects_non_json_input() {
    assert!(matches!(
        VaultFile::from_bytes(b"this is not json", parse),
        Err(Error::VaultFormat)
    ));
}

#[test]
fn rejects_json_of_wrong_type() {
    assert!(matches!(
        VaultFile::from_bytes(b"[1, 2, 3]", parse),
        Err(Error::VaultFormat)
    ));
    assert!(matches!(
        VaultFile::from_bytes(b"\"a string\"", parse),
        Err(Error::VaultFormat)
    ));
}

#[test]
fn rejects_missing_required_fields() {
    let (bytes, _) = create_fast("correct horse battery staple");
    let base: Value = serde_json::from_slice(&bytes).unwrap();
    for missing in ["version", "kdf", "wrapped_key", "vault"] {
        let mut v = base.clone();
        v.as_object_mut().unwrap().remove(missing);
        let bad = serde_json::to_vec(&v).unwrap();
        assert!(
            matches!(VaultFile::from_bytes(&bad, parse), Err(Error::VaultFormat)),
            "missing `{missing}` was accepted"
        );
    }
}

#[test]
fn vault_tests_rejects_unknown_top_level_field() {
    let (bytes, _) = create_fast("correct horse battery staple");
    let mut v: Value = serde_json::from_slice(&bytes).unwrap();
    v.as_object_mut()
        .unwrap()
        .insert("surprise".into(), Value::from(1));
    let bad = serde_json::to_vec(&v).unwrap();
    assert!(matches!(
        VaultFile::from_bytes(&bad, parse),
        Err(Error::VaultFormat)
    ));
}

#[test]
fn rejects_wrong_field_types() {
    let (bytes, _) = create_fast("correct horse battery staple");

    let mut v: Value = serde_json::from_slice(&bytes).unwrap();
    v["version"] = Value::from("one");
    let bad = serde_json::to_vec(&v).unwrap();
    assert!(matches!(
        VaultFile::from_bytes(&bad, parse),
        Err(Error::VaultFormat)
    ));

    let mut v: Value = serde_json::from_slice(&bytes).unwrap();
    v["kdf"]["salt"] = Value::from(42);
    let bad = serde_json::to_vec(&v).unwrap();
    assert!(matches!(
        VaultFile::from_bytes(&bad, parse),
        Err(Error::VaultFormat)
    ));
}

#[test]
fn rejects_unsupported_version() {
    let (bytes, _) = create_fast("correct horse battery staple");
    let mut v: Value = serde_json::from_slice(&bytes).unwrap();
    v["version"] = Value::from(2);
    let bad = serde_json::to_vec(&v).unwrap();
    assert!(matches!(
        VaultFile::from_bytes(&bad, parse),
        Err(Error::UnsupportedVersion)
    ));
}

#[test]
fn rejects_invalid_base64_in_salt() {
    let (bytes, _) = create_fast("correct horse battery staple");
    let mut v: Value = serde_json::from_slice(&bytes).unwrap();
    v["kdf"]["salt"] = Value::from("!!! not base64 !!!");
    let bad = serde_json::to_vec(&v).unwrap();
    assert!(matches!(
        VaultFile::from_bytes(&bad, parse),
        Err(Error::InvalidEncoding)
    ));
}

#[test]
fn rejects_wrong_salt_length() {
    let (bytes, _) = create_fast("correct horse battery staple");
    let mut v: Value = serde_json::from_slice(&bytes).unwrap();
    let short_salt = B64.encode([0u8; 8]);
    v["kdf"]["salt"] = Value::from(short_salt);
    let bad = serde_json::to_vec(&v).unwrap();
    assert!(matches!(
        VaultFile::from_bytes(&bad, parse),
        Err(Error::InvalidKdfParameters)
    ));
}

#[test]
fn rejects_invalid_base64_in_ciphertext() {
    let (bytes, _) = create_fast("correct horse battery staple");
    let mut v: Value = serde_json::from_slice(&bytes).unwrap();
    v["vault"]["ciphertext"] = Value::from("%%%");
    let bad = serde_json::to_vec(&v).unwrap();
    assert!(matches!(
        VaultFile::from_bytes(&bad, parse),
        Err(Error::InvalidEncoding)
    ));
}

#[test]
fn rejects_wrong_nonce_length() {
    let (bytes, _) = create_fast("correct horse battery staple");
    let mut v: Value = serde_json::from_slice(&bytes).unwrap();
    let short_nonce = B64.encode([0u8; 8]);
    v["vault"]["nonce"] = Value::from(short_nonce);
    let bad = serde_json::to_vec(&v).unwrap();
    assert!(matches!(
        VaultFile::from_bytes(&bad, parse),
        Err(Error::InvalidEncoding)
    ));
}

#[test]
fn rejects_truncated_ciphertext() {
    let (bytes, _) = create_fast("correct horse battery staple");
    let mut v: Value = serde_json::from_slice(&bytes).unwrap();
    // 15 bytes is one short of the 16-byte GCM tag.
    let tiny = B64.encode([0u8; 15]);
    v["vault"]["ciphertext"] = Value::from(tiny);
    let bad = serde_json::to_vec(&v).unwrap();
    assert!(matches!(
        VaultFile::from_bytes(&bad, parse),
        Err(Error::InvalidEncoding)
    ));
}

#[test]
fn rejects_weak_kdf_parameters_in_file() {
    let (bytes, _) = create_fast("correct horse battery staple");

    let mut v: Value = serde_json::from_slice(&bytes).unwrap();
    v["kdf"]["memory_cost"] = Value::from(1024);
    let bad = serde_json::to_vec(&v).unwrap();
    assert!(matches!(
        VaultFile::from_bytes(&bad, parse),
        Err(Error::InvalidKdfParameters)
    ));

    let mut v: Value = serde_json::from_slice(&bytes).unwrap();
    v["kdf"]["time_cost"] = Value::from(0);
    let bad = serde_json::to_vec(&v).unwrap();
    assert!(matches!(
        VaultFile::from_bytes(&bad, parse),
        Err(Error::InvalidKdfParameters)
    ));

    let mut v: Value = serde_json::from_slice(&bytes).unwrap();
    v["kdf"]["name"] = Value::from("scrypt");
    let bad = serde_json::to_vec(&v).unwrap();
    assert!(matches!(
        VaultFile::from_bytes(&bad, parse),
        Err(Error::InvalidKdfParameters)
    ));
}

#[test]
fn rejects_wrong_hash_len_in_file() {
    let (bytes, _) = create_fast("correct horse battery staple");
    let mut v: Value = serde_json::from_slice(&bytes).unwrap();
    v["kdf"]["hash_len"] = Value::from(16);
    let bad = serde_json::to_vec(&v).unwrap();
    assert!(matches!(
        VaultFile::from_bytes(&bad, parse),
        Err(Error::InvalidKdfParameters)
    ));
}

#[test]
fn entry_new_produces_valid_entry() {
    let e = Entry::new("t", "u", "p", "u", "totp", "notes").unwrap();
    assert!(!e.id.is_empty());
    assert!(e.id.bytes().all(|b| b.is_ascii_hexdigit()));
    assert_eq!(e.title, "t");
    assert_eq!(e.username, "u");
    assert_eq!(e.password, "p");
}

#[test]
fn entry_new_rejects_oversized_title() {
    let big = "x".repeat(MAX_TITLE_BYTES + 1);
    assert!(Entry::new(&big, "u", "p", "u", "t", "n").is_err());
}

#[test]
fn entry_validation_rejects_each_oversized_field() {
    let cases: [(&str, usize); 6] = [
        ("title", MAX_TITLE_BYTES),
        ("username", MAX_USERNAME_BYTES),
        ("password", MAX_PASSWORD_BYTES),
        ("url", MAX_URL_BYTES),
        ("totp", MAX_TOTP_BYTES),
        ("notes", MAX_NOTES_BYTES),
    ];
    for (field, max) in cases {
        let mut e = Entry::new("t", "u", "p", "u", "t", "n").unwrap();
        let big = "x".repeat(max + 1);
        match field {
            "title" => e.title = big,
            "username" => e.username = big,
            "password" => e.password = big,
            "url" => e.url = big,
            "totp" => e.totp = big,
            "notes" => e.notes = big,
            _ => unreachable!(),
        }
        let (_, mut vault) = create_fast("correct horse battery staple");
        assert!(vault.add_entry(e).is_err(), "accepted oversized {field}");
    }
}

#[test]
fn entry_id_must_be_ascii_hex() {
    let mut e = Entry::new("t", "u", "p", "u", "t", "n").unwrap();
    e.id = "not hex!!!".into();
    let (_, mut vault) = create_fast("correct horse battery staple");
    assert!(vault.add_entry(e).is_err());
}

#[test]
fn entry_id_must_not_exceed_max_id_bytes() {
    let mut e = Entry::new("t", "u", "p", "u", "t", "n").unwrap();
    e.id = "a".repeat(MAX_ID_BYTES + 1);
    let (_, mut vault) = create_fast("correct horse battery staple");
    assert!(vault.add_entry(e).is_err());
}

#[test]
fn duplicate_ids_are_rejected_on_add() {
    let (_, mut vault) = create_fast("correct horse battery staple");
    let e1 = Entry::new("t1", "u", "p", "u", "t", "n").unwrap();
    let id = e1.id.clone();
    vault.add_entry(e1).unwrap();

    let mut e2 = Entry::new("t2", "u", "p", "u", "t", "n").unwrap();
    e2.id = id;
    assert!(vault.add_entry(e2).is_err());
}

#[test]
fn duplicate_ids_are_rejected_on_load() {
    // Craft a vault whose decrypted payload contains two entries with the
    // same id by pushing directly through `entries_mut`, bypassing
    // `add_entry`'s check. The loader must reject the result on reopen.
    let (_, mut unlocked) = create_fast("correct horse battery staple");
    let e1 = Entry::new("t1", "u", "p", "u", "t", "n").unwrap();
    let mut e2 = Entry::new("t2", "u", "p", "u", "t", "n").unwrap();
    e2.id = e1.id.clone();
    unlocked.entries_mut().push(e1);
    unlocked.entries_mut().push(e2);

    let sealed = unlocked.seal(encode).unwrap();
    let bytes = sealed.to_bytes(render).unwrap();
    let parsed = VaultFile::from_bytes(&bytes, parse).unwrap();
    assert!(matches!(
        parsed.unlock("correct horse battery staple", decode),
        Err(Error::InvalidEntry)
    ));
}

#[test]
fn update_replaces_entry_by_id() {
    let (_, mut vault) = create_fast("correct horse battery staple");
    let e = Entry::new("old", "u", "p", "u", "t", "n").unwrap();
    let id = e.id.clone();
    vault.add_entry(e).unwrap();

    let mut updated = Entry::new("new", "u", "p2", "u", "t", "n").unwrap();
    updated.id = id.clone();
    assert!(vault.update_entry(updated).unwrap());

    let stored = vault.entries().iter().find(|e| e.id == id).unwrap();
    assert_eq!(stored.title, "new");
    assert_eq!(stored.password, "p2");
}

#[test]
fn update_missing_id_returns_false() {
    let (_, mut vault) = create_fast("correct horse battery staple");
    let mut e = Entry::new("t", "u", "p", "u", "t", "n").unwrap();
    e.id = "ffffffffffffffffffffffffffffffff".into();
    assert!(!vault.update_entry(e).unwrap());
}

#[test]
fn remove_returns_true_only_when_present() {
    let (_, mut vault) = create_fast("correct horse battery staple");
    let e = Entry::new("t", "u", "p", "u", "t", "n").unwrap();
    let id = e.id.clone();
    vault.add_entry(e).unwrap();
    assert!(vault.remove_entry(&id));
    assert!(!vault.remove_entry(&id));
}

#[test]
fn lock_clears_entries() {
    let (_, mut vault) = create_fast("correct horse battery staple");
    vault
        .add_entry(Entry::new("t", "u", "p", "u", "t", "n").unwrap())
        .unwrap();
    assert_eq!(vault.entries().len(), 1);
    vault.lock();
    assert_eq!(vault.entries().len(), 0);
}

#[test]
fn entry_debug_redacts_secrets() {
    let e = Entry::new(
        "Visible Title",
        "visible-user",
        "SUPER-SECRET-PASSWORD",
        "https://visible.example.com",
        "SUPER-SECRET-TOTP",
        "SECRET-NOTES",
    )
    .unwrap();
    let dump = e.debug_string();
    assert!(!dump.contains("SUPER-SECRET-PASSWORD"));
    assert!(!dump.contains("SUPER-SECRET-TOTP"));
    assert!(!dump.contains("SECRET-NOTES"));
    assert!(dump.contains("[REDACTED]"));
    assert!(dump.contains("Visible Title"));
}

#[test]
fn accepts_the_minimal_well_formed_shape() {
    // Sanity: if this fails, every other test in this file is meaningless.
    let v = minimal_valid_json();
    VaultFile::from_bytes(&serde_json::to_vec(&v).unwrap(), parse)
        .expect("minimal shape must parse");
}

#[test]
fn rejects_empty_bytes() {
    assert!(matches!(
        VaultFile::from_bytes(&[], parse),
        Err(Error::VaultFormat)
    ));
}

#[test]
fn rejects_whitespace_only() {
    assert!(matches!(
        VaultFile::from_bytes(b"   \n\t  ", parse),
        Err(Error::VaultFormat)
    ));
}

#[test]
fn rejects_non_utf8_bytes() {
    // 0xFF is never valid UTF-8 at the top level.
    assert!(matches!(
        VaultFile::from_bytes(&[0xff, 0xfe, 0xfd], parse),
        Err(Error::VaultFormat)
    ));
}

#[test]
fn rejects_top_level_array() {
    assert!(matches!(
        VaultFile::from_bytes(b"[]", parse),
        Err(Error::VaultFormat)
    ));
}

#[test]
fn rejects_top_level_string() {
    assert!(matches!(
        VaultFile::from_bytes(b"\"vault\"", parse),
        Err(Error::VaultFormat)
    ));
}

#[test]
fn rejects_top_level_number() {
    assert!(matches!(
        VaultFile::from_bytes(b"42", parse),
        Err(Error::VaultFormat)
    ));
}

#[test]
fn rejects_top_level_null() {
    assert!(matches!(
        VaultFile::from_bytes(b"null", parse),
        Err(Error::VaultFormat)
    ));
}

#[test]
fn rejects_oversized_input() {
    // Build a syntactically fine file, then pad it past MAX_VAULT_FILE_BYTES.
    // The loader checks length before parsing, so the content does not matter
    // as long as it exceeds the cap.
    let mut buf = Vec::with_capacity(MAX_VAULT_FILE_BYTES + 64);
    buf.extend_from_slice(b"{");
    buf.resize(MAX_VAULT_FILE_BYTES + 1, b' ');
    assert!(buf.len() > MAX_VAULT_FILE_BYTES);
    assert!(matches!(
        VaultFile::from_bytes(&buf, parse),
        Err(Error::VaultFormat)
    ));
}

#[test]
fn validation_tests_rejects_unknown_top_level_field() {
    let mut v = minimal_valid_json();
    v.as_object_mut().unwrap().insert("extra".into(), Value::from(1));
    assert!(matches!(from_json(&v), Err(Error::VaultFormat)));
}

#[test]
fn rejects_unknown_kdf_field() {
    let mut v = minimal_valid_json();
    v["kdf"]["extra"] = Value::from("value");
    assert!(matches!(from_json(&v), Err(Error::VaultFormat)));
}

#[test]
fn rejects_unknown_encrypted_blob_field() {
    let mut v = minimal_valid_json();
    v["vault"]["extra"] = Value::from("value");
    assert!(matches!(from_json(&v), Err(Error::VaultFormat)));
}

#[test]
fn rejects_missing_top_level_fields() {
    for field in ["version", "kdf", "wrapped_key", "vault"] {
        let mut v = minimal_valid_json();
        v.as_object_mut().unwrap().remove(field);
        assert!(
            matches!(from_json(&v), Err(Error::VaultFormat)),
            "missing top-level `{field}` was accepted"
        );
    }
}

#[test]
fn rejects_missing_kdf_fields() {
    for field in ["name", "salt", "time_cost", "memory_cost", "parallelism", "hash_len"] {
        let mut v = minimal_valid_json();
        v["kdf"].as_object_mut().unwrap().remove(field);
        assert!(
            matches!(from_json(&v), Err(Error::VaultFormat)),
            "missing kdf.`{field}` was accepted"
        );
    }
}

#[test]
fn rejects_missing_encrypted_blob_fields() {
    for section in ["wrapped_key", "vault"] {
        for field in ["nonce", "ciphertext"] {
            let mut v = minimal_valid_json();
            v[section].as_object_mut().unwrap().remove(field);
            assert!(
                matches!(from_json(&v), Err(Error::VaultFormat)),
                "missing `{section}.{field}` was accepted"
            );
        }
    }
}

#[test]
fn rejects_wrong_version_type() {
    let mut v = minimal_valid_json();
    v["version"] = Value::from("one");
    assert!(matches!(from_json(&v), Err(Error::VaultFormat)));

    let mut v = minimal_valid_json();
    v["version"] = Value::Null;
    assert!(matches!(from_json(&v), Err(Error::VaultFormat)));
}

#[test]
fn rejects_wrong_kdf_numeric_types() {
    for field in ["time_cost", "memory_cost", "parallelism", "hash_len"] {
        let mut v = minimal_valid_json();
        v["kdf"][field] = Value::from("not-a-number");
        assert!(
            matches!(from_json(&v), Err(Error::VaultFormat)),
            "kdf.`{field}` with string type was accepted"
        );

        let mut v = minimal_valid_json();
        v["kdf"][field] = Value::from(-1);
        assert!(
            matches!(from_json(&v), Err(Error::VaultFormat)),
            "kdf.`{field}` with negative value was accepted"
        );
    }
}

#[test]
fn rejects_wrong_salt_type() {
    let mut v = minimal_valid_json();
    v["kdf"]["salt"] = Value::from(42);
    assert!(matches!(from_json(&v), Err(Error::VaultFormat)));
}

#[test]
fn rejects_wrong_encrypted_blob_types() {
    for section in ["wrapped_key", "vault"] {
        for field in ["nonce", "ciphertext"] {
            let mut v = minimal_valid_json();
            v[section][field] = Value::from(123);
            assert!(
                matches!(from_json(&v), Err(Error::VaultFormat)),
                "`{section}.{field}` with number type was accepted"
            );
        }
    }
}

#[test]
fn rejects_kdf_as_array() {
    let mut v = minimal_valid_json();
    v["kdf"] = Value::Array(Vec::new());
    assert!(matches!(from_json(&v), Err(Error::VaultFormat)));
}

#[test]
fn rejects_encrypted_blob_as_string() {
    let mut v = minimal_valid_json();
    v["vault"] = Value::from("not an object");
    assert!(matches!(from_json(&v), Err(Error::VaultFormat)));
}

#[test]
fn rejects_unsupported_version_zero() {
    let mut v = minimal_valid_json();
    v["version"] = Value::from(0);
    assert!(matches!(from_json(&v), Err(Error::UnsupportedVersion)));
}

#[test]
fn rejects_unsupported_version_two() {
    let mut v = minimal_valid_json();
    v["version"] = Value::from(2);
    assert!(matches!(from_json(&v), Err(Error::UnsupportedVersion)));
}

#[test]
fn rejects_huge_version() {
    let mut v = minimal_valid_json();
    v["version"] = Value::from(u32::MAX);
    assert!(matches!(from_json(&v), Err(Error::UnsupportedVersion)));
}

#[test]
fn rejects_unknown_kdf_name() {
    for name in ["scrypt", "pbkdf2", "bcrypt", "argon2i", "argon2d", "ARGON2ID", ""] {
        let mut v = minimal_valid_json();
        v["kdf"]["name"] = Value::from(name);
        assert!(
            matches!(from_json(&v), Err(Error::InvalidKdfParameters)),
            "kdf name `{name}` was accepted"
        );
    }
}

#[test]
fn rejects_zero_time_cost() {
    let mut v = minimal_valid_json();
    v["kdf"]["time_cost"] = Value::from(0);
    assert!(matches!(from_json(&v), Err(Error::InvalidKdfParameters)));
}

#[test]
fn rejects_extreme_time_cost() {
    let mut v = minimal_valid_json();
    v["kdf"]["time_cost"] = Value::from(1_000_000);
    assert!(matches!(from_json(&v), Err(Error::InvalidKdfParameters)));
}

#[test]
fn rejects_low_memory_cost() {
    // Below the 19 MiB floor.
    let mut v = minimal_valid_json();
    v["kdf"]["memory_cost"] = Value::from(1024);
    assert!(matches!(from_json(&v), Err(Error::InvalidKdfParameters)));
}

#[test]
fn rejects_high_memory_cost() {
    // Above the 1 GiB ceiling.
    let mut v = minimal_valid_json();
    v["kdf"]["memory_cost"] = Value::from(8 * 1024 * 1024);
    assert!(matches!(from_json(&v), Err(Error::InvalidKdfParameters)));
}

#[test]
fn rejects_zero_parallelism() {
    let mut v = minimal_valid_json();
    v["kdf"]["parallelism"] = Value::from(0);
    assert!(matches!(from_json(&v), Err(Error::InvalidKdfParameters)));
}

#[test]
fn rejects_extreme_parallelism() {
    let mut v = minimal_valid_json();
    v["kdf"]["parallelism"] = Value::from(1024);
    assert!(matches!(from_json(&v), Err(Error::InvalidKdfParameters)));
}

#[test]
fn rejects_hash_len_other_than_32() {
    for len in [0u32, 16, 31, 33, 64, 128] {
        let mut v = minimal_valid_json();
        v["kdf"]["hash_len"] = Value::from(len);
        assert!(
            matches!(from_json(&v), Err(Error::InvalidKdfParameters)),
            "hash_len {len} was accepted"
        );
    }
}

#[test]
fn rejects_salt_wrong_length() {
    for len in [0usize, 1, 8, 15, 17, 32, 64] {
        let mut v = minimal_valid_json();
        v["kdf"]["salt"] = Value::from(B64.encode(vec![0u8; len]));
        assert!(
            matches!(from_json(&v), Err(Error::InvalidKdfParameters)),
            "salt length {len} was accepted"
        );
    }
}

#[test]
fn accepts_exact_salt_length() {
    let mut v = minimal_valid_json();
    v["kdf"]["salt"] = Value::from(B64.encode(vec![0u8; 16]));
    assert!(from_json(&v).is_ok());
}

#[test]
fn rejects_non_base64_salt() {
    let mut v = minimal_valid_json();
    v["kdf"]["salt"] = Value::from("!!! not base64 !!!");
    assert!(matches!(from_json(&v), Err(Error::InvalidEncoding)));
}

#[test]
fn rejects_non_base64_nonce() {
    for section in ["wrapped_key", "vault"] {
        let mut v = minimal_valid_json();
        v[section]["nonce"] = Value::from("###");
        assert!(
            matches!(from_json(&v), Err(Error::InvalidEncoding)),
            "`{section}.nonce` invalid base64 was accepted"
        );
    }
}

#[test]
fn rejects_non_base64_ciphertext() {
    for section in ["wrapped_key", "vault"] {
        let mut v = minimal_valid_json();
        v[section]["ciphertext"] = Value::from("%%%");
        assert!(
            matches!(from_json(&v), Err(Error::InvalidEncoding)),
            "`{section}.ciphertext` invalid base64 was accepted"
        );
    }
}

#[test]
fn rejects_nonce_wrong_length() {
    for section in ["wrapped_key", "vault"] {
        for len in [0usize, 8, 11, 13, 16, 32] {
            let mut v = minimal_valid_json();
            v[section]["nonce"] = Value::from(B64.encode(vec![0u8; len]));
            assert!(
                matches!(from_json(&v), Err(Error::InvalidEncoding)),
                "`{section}.nonce` length {len} was accepted"
            );
        }
    }
}

#[test]
fn rejects_ciphertext_shorter_than_gcm_tag() {
    for section in ["wrapped_key", "vault"] {
        for len in [0usize, 1, 8, 15] {
            let mut v = minimal_valid_json();
            v[section]["ciphertext"] = Value::from(B64.encode(vec![0u8; len]));
            assert!(
                matches!(from_json(&v), Err(Error::InvalidEncoding)),
                "`{section}.ciphertext` length {len} was accepted"
            );
        }
    }
}

#[test]
fn accepts_ciphertext_exactly_gcm_tag_length() {
    for section in ["wrapped_key", "vault"] {
        let mut v = minimal_valid_json();
        v[section]["ciphertext"] = Value::from(B64.encode(vec![0u8; 16]));
        assert!(
            from_json(&v).is_ok(),
            "`{section}.ciphertext` of 16 bytes was rejected"
        );
    }
}

#[test]
fn a_real_serialized_file_parses_cleanly() {
    // Build a real file using the same shape helpers exposed by the loader,
    // then confirm it round-trips through `from_bytes` without modification.
    // This proves the shape tests above are not accidentally rejecting the
    // actual on-disk format.
    let salt = B64.encode([1u8; 16]);
    let nonce = B64.encode([2u8; 12]);
    let ct = B64.encode([3u8; 48]);

    let file = VaultFile {
        version: SUPPORTED_VERSION,
        kdf: KdfSection {
            name: "argon2id".into(),
            salt,
            time_cost: 3,
            memory_cost: 65_536,
            parallelism: 1,
            hash_len: 32,
        },
        wrapped_key: EncryptedBlob {
            nonce: nonce.clone(),
            ciphertext: ct.clone(),
        },
        vault: EncryptedBlob {
            nonce,
            ciphertext: ct,
        },
    };
    let bytes = file.to_bytes(render).unwrap();
    let reparsed = VaultFile::from_bytes(&bytes, parse).unwrap();
    assert_eq!(reparsed.version, SUPPORTED_VERSION);
    assert_eq!(reparsed.kdf.name, "argon2id");
    assert_eq!(reparsed.kdf.time_cost, 3);
    assert_eq!(reparsed.kdf.memory_cost, 65_536);
    assert_eq!(reparsed.kdf.hash_len, 32);
}

// ---------------------------------------------------------------------------
// Exact values
// ---------------------------------------------------------------------------

#[test]
fn blob_fields_are_standard_base64() {
    let blob = EncryptedBlob::from_raw(&[0u8; 12], &[0xffu8; 17]);
    assert_eq!(blob.nonce, "AAAAAAAAAAAAAAAA");
    assert_eq!(blob.ciphertext, "//////////////////////8=");
    assert_eq!(blob.decode_nonce().unwrap(), vec![0u8; 12]);
    assert_eq!(blob.decode_ciphertext().unwrap(), vec![0xffu8; 17]);

    let short = EncryptedBlob::from_raw(&[0u8; 11], &[0u8; 15]);
    assert_eq!(short.decode_nonce(), Err(Error::InvalidEncoding));
    assert_eq!(short.decode_ciphertext(), Err(Error::InvalidEncoding));
}

#[test]
fn decoded_fields_are_checked() {
    assert_eq!(vault::accept_nonce(None), Err(Error::InvalidEncoding));
    assert_eq!(vault::accept_nonce(Some(vec![1; 13])), Err(Error::InvalidEncoding));
    assert_eq!(vault::accept_nonce(Some(vec![1; 12])), Ok(vec![1; 12]));
    assert_eq!(vault::accept_ciphertext(None), Err(Error::InvalidEncoding));
    assert_eq!(vault::accept_ciphertext(Some(vec![1; 15])), Err(Error::InvalidEncoding));
    assert_eq!(vault::accept_ciphertext(Some(vec![1; 16])), Ok(vec![1; 16]));
}

#[test]
fn kdf_section_round_trips_valid_parameters() {
    let params = fast_params([7u8; SALT_LEN]);
    let section = KdfSection::from_kdf_params(&params);
    assert_eq!(section.salt, "BwcHBwcHBwcHBwcHBwcHBw==");
    let back = section.to_kdf_params().unwrap();
    assert_eq!(back.salt, vec![7u8; 16]);
    assert_eq!(back.name, "argon2id");
    assert_eq!(back.memory_cost, 19 * 1024);
    assert!(matches!(
        section.with_decoded_salt(None),
        Err(Error::InvalidEncoding)
    ));
    assert!(matches!(
        section.with_decoded_salt(Some(vec![0; 8])),
        Err(Error::InvalidKdfParameters)
    ));
}

#[test]
fn vault_from_given_material_is_deterministic() {
    let make = || {
        VaultFile::new_with(
            "correct horse battery staple",
            &[1u8; SALT_LEN],
            SecureBuffer::from_slice(&[2u8; KEY_LEN]),
            &[3u8; 12],
            &[4u8; 12],
        )
        .unwrap()
    };
    let (a, vault_a) = make();
    let (b, _) = make();
    assert_eq!(render(&a), render(&b));
    assert_eq!(a.wrapped_key.decode_nonce().unwrap(), vec![3u8; 12]);
    assert_eq!(a.vault.decode_nonce().unwrap(), vec![4u8; 12]);
    assert_eq!(
        crypto::decrypt_vault(&[2u8; 32], &[4u8; 12], &a.vault.decode_ciphertext().unwrap())
            .unwrap()
            .as_slice(),
        &EMPTY_PAYLOAD
    );
    assert_eq!(vault_a.key_len(), 32);
    assert!(matches!(
        VaultFile::new_with("pw", &[1; 16], SecureBuffer::new(), &[3; 12], &[4; 12]),
        Err(Error::Crypto)
    ));
}

#[test]
fn new_vault_needs_a_password() {
    assert!(matches!(
        VaultFile::new(""),
        Err(Error::PasswordTooShort { min: 12 })
    ));
}

#[test]
fn a_new_vault_opens_with_its_password() {
    let (file, vault) = VaultFile::new("correct horse battery staple").unwrap();
    assert!(vault.entries().is_empty());
    let opened = file.unlock("correct horse battery staple", decode).unwrap();
    assert!(opened.entries().is_empty());
    assert_eq!(vault.debug_string(), "UnlockedVault([REDACTED])");
}

#[test]
fn sealing_keeps_everything_but_the_payload() {
    let (bytes, mut vault) = create_fast("correct horse battery staple");
    let before = VaultFile::from_bytes(&bytes, parse).unwrap();
    vault
        .add_entry(Entry::new("t", "u", "p", "u", "t", "n").unwrap())
        .unwrap();
    let after = vault.seal(encode).unwrap();
    assert_eq!(after.version, before.version);
    assert_eq!(after.kdf.salt, before.kdf.salt);
    assert_eq!(after.wrapped_key.ciphertext, before.wrapped_key.ciphertext);
    assert_ne!(after.vault.ciphertext, before.vault.ciphertext);

    let a = vault.seal_payload(b"[]", &[9u8; 12]).unwrap();
    let b = vault.seal_payload(b"[]", &[9u8; 12]).unwrap();
    assert_eq!(render(&a), render(&b));
}

#[test]
fn sealing_failures_are_told_apart() {
    let (_, mut vault) = create_fast("correct horse battery staple");
    assert!(matches!(vault.seal(|_| None), Err(Error::VaultFormat)));
    assert!(matches!(
        vault.seal(|_| Some(vec![b' '; MAX_DECRYPTED_BYTES + 1])),
        Err(Error::VaultFormat)
    ));
    vault.lock();
    assert!(matches!(vault.seal(encode), Err(Error::Crypto)));
}

#[test]
fn payload_that_does_not_decode_is_an_invalid_entry() {
    let (bytes, _) = create_fast("correct horse battery staple");
    let file = VaultFile::from_bytes(&bytes, parse).unwrap();
    assert!(matches!(
        file.unlock("correct horse battery staple", |_| None),
        Err(Error::InvalidEntry)
    ));
    // The payload that is decoded is exactly the one that was sealed.
    file.unlock("correct horse battery staple", |payload| {
        assert_eq!(payload, b"[]");
        Some(Vec::new())
    })
    .unwrap();
    assert!(matches!(vault::admit_entries(None), Err(Error::InvalidEntry)));
}

#[test]
fn file_that_cannot_be_rendered_is_refused() {
    let (file, _) = fast_create("correct horse battery staple").unwrap();
    assert_eq!(file.to_bytes(|_| None), Err(Error::VaultFormat));
    assert!(matches!(VaultFile::accept(None), Err(Error::VaultFormat)));
}

#[test]
fn ids_are_thirty_two_hexadecimal_characters() {
    let id = vault::new_id().unwrap();
    assert_eq!(id.len(), 32);
    assert_eq!(
        offline_vault::entry::id_from(&[
            0x00, 0x01, 0x23, 0x45, 0x67, 0x89, 0xab, 0xcd, 0xef, 0xff, 0x10, 0x0a, 0xa0, 0x9f,
            0xf9, 0x7e,
        ]),
        "000123456789abcdefff100aa09ff97e"
    );
}

#[test]
fn entries_keep_their_order() {
    let (_, mut vault) = create_fast("correct horse battery staple");
    for id in ["aa", "bb", "cc"] {
        vault
            .add_entry(Entry::with_id(id.to_string(), id, "", "", "", "", "").unwrap())
            .unwrap();
    }
    let mut updated = Entry::with_id("bb".to_string(), "new", "", "", "", "", "").unwrap();
    assert!(vault.update_entry(updated).unwrap());
    let titles: Vec<&str> = vault.entries().iter().map(|e| e.title.as_str()).collect();
    assert_eq!(titles, ["aa", "new", "cc"]);
    assert!(vault.remove_entry("aa"));
    let ids: Vec<&str> = vault.entries().iter().map(|e| e.id.as_str()).collect();
    assert_eq!(ids, ["bb", "cc"]);

    updated = Entry::with_id("cc".to_string(), "t", "", "", "", "", "").unwrap();
    updated.title = "x".repeat(MAX_TITLE_BYTES + 1);
    assert_eq!(vault.update_entry(updated), Err(Error::InvalidEntry));
    assert_eq!(vault::find_entry(vault.entries(), "cc"), Some(1));
    assert_eq!(vault::find_entry(vault.entries(), "dd"), None);
}

#[test]
fn entry_limits_count_bytes() {
    // Two bytes for each character.
    let title = "é".repeat(MAX_TITLE_BYTES / 2);
    assert!(Entry::with_id("AbC1".to_string(), &title, "", "", "", "", "").is_ok());
    let longer = "é".repeat(MAX_TITLE_BYTES / 2 + 1);
    assert!(Entry::with_id("AbC1".to_string(), &longer, "", "", "", "", "").is_err());
    assert!(Entry::with_id(String::new(), "", "", "", "", "", "").is_err());
    assert!(Entry::with_id("g0".to_string(), "", "", "", "", "", "").is_err());
    assert!(Entry::with_id("a".repeat(MAX_ID_BYTES), "", "", "", "", "", "").is_ok());
}

#[test]
fn entry_debug_text_is_quoted() {
    let e = Entry::with_id("0a".to_string(), "say \"hi\"", "u", "pw", "url", "totp", "").unwrap();
    assert_eq!(
        e.debug_string(),
        "Entry { id: \"0a\", title: \"say \\\"hi\\\"\", username: \"u\", \
         password: \"[REDACTED]\", url: \"url\", totp: \"[REDACTED]\", notes: \"[REDACTED]\" }"
    );
}
