use std::path::PathBuf;
use std::sync::{Arc, Mutex};

use offline_vault::app::{
    default_vault_path, resolve_vault_path, App, AppState, EnvPath, SaveRequest, VAULT_PATH_ENV,
};
use offline_vault::autolock::InputEvent;
use offline_vault::clipboard::{ClipboardBackend, ClipboardGuard};
use offline_vault::clock::Duration;
use offline_vault::crypto;
use offline_vault::crypto::{KdfParams, KDF_NAME_ARGON2ID, KEY_LEN, SALT_LEN};
use offline_vault::error::Error;
use offline_vault::memory_lock::{MemoryLocker, NoLocking, Platform};
use offline_vault::ui::{rows_matching, truncate, EntryDraft, Pending, Row, Screen, VaultApp};
use offline_vault::vault::{EncryptedBlob, Entry, KdfSection, VaultFile, SUPPORTED_VERSION};
use serde_json::Value;

// ---------------------------------------------------------------------------
// The JSON codec that the library is used with
// ---------------------------------------------------------------------------

fn text(object: &serde_json::Map<String, Value>, field: &str) -> Option<String> {
    object.get(field)?.as_str().map(|s| s.to_string())
}

fn number(object: &serde_json::Map<String, Value>, field: &str) -> Option<u32> {
    u32::try_from(object.get(field)?.as_u64()?).ok()
}

fn object(value: &Value, fields: usize) -> Option<&serde_json::Map<String, Value>> {
    value.as_object().filter(|o| o.len() == fields)
}

fn blob(value: &Value) -> Option<EncryptedBlob> {
    let o = object(value, 2)?;
    Some(EncryptedBlob {
        nonce: text(o, "nonce")?,
        ciphertext: text(o, "ciphertext")?,
    })
}

fn parse(bytes: &[u8]) -> Option<VaultFile> {
    let value: Value = serde_json::from_slice(bytes).ok()?;
    let o = object(&value, 4)?;
    let kdf = object(o.get("kdf")?, 6)?;
    Some(VaultFile {
        version: number(o, "version")?,
        kdf: KdfSection {
            name: text(kdf, "name")?,
            salt: text(kdf, "salt")?,
            time_cost: number(kdf, "time_cost")?,
            memory_cost: number(kdf, "memory_cost")?,
            parallelism: number(kdf, "parallelism")?,
            hash_len: number(kdf, "hash_len")?,
        },
        wrapped_key: blob(o.get("wrapped_key")?)?,
        vault: blob(o.get("vault")?)?,
    })
}

fn record(fields: &[(&str, Value)]) -> Value {
    Value::Object(
        fields
            .iter()
            .map(|(k, v)| (k.to_string(), v.clone()))
            .collect(),
    )
}

fn blob_value(b: &EncryptedBlob) -> Value {
    record(&[
        ("nonce", Value::from(b.nonce.as_str())),
        ("ciphertext", Value::from(b.ciphertext.as_str())),
    ])
}

fn render(file: &VaultFile) -> Option<Vec<u8>> {
    let kdf = record(&[
        ("name", Value::from(file.kdf.name.as_str())),
        ("salt", Value::from(file.kdf.salt.as_str())),
        ("time_cost", Value::from(file.kdf.time_cost)),
        ("memory_cost", Value::from(file.kdf.memory_cost)),
        ("parallelism", Value::from(file.kdf.parallelism)),
        ("hash_len", Value::from(file.kdf.hash_len)),
    ]);
    let value = record(&[
        ("version", Value::from(file.version)),
        ("kdf", kdf),
        ("wrapped_key", blob_value(&file.wrapped_key)),
        ("vault", blob_value(&file.vault)),
    ]);
    serde_json::to_vec(&value).ok()
}

fn decode(payload: &[u8]) -> Option<Vec<Entry>> {
    let value: Value = serde_json::from_slice(payload).ok()?;
    value
        .as_array()?
        .iter()
        .map(|v| {
            let o = object(v, 7)?;
            Some(Entry {
                id: text(o, "id")?,
                title: text(o, "title")?,
                username: text(o, "username")?,
                password: text(o, "password")?,
                url: text(o, "url")?,
                totp: text(o, "totp")?,
                notes: text(o, "notes")?,
            })
        })
        .collect()
}

fn encode(entries: &[Entry]) -> Option<Vec<u8>> {
    let list: Vec<Value> = entries
        .iter()
        .map(|e| {
            record(&[
                ("id", Value::from(e.id.as_str())),
                ("title", Value::from(e.title.as_str())),
                ("username", Value::from(e.username.as_str())),
                ("password", Value::from(e.password.as_str())),
                ("url", Value::from(e.url.as_str())),
                ("totp", Value::from(e.totp.as_str())),
                ("notes", Value::from(e.notes.as_str())),
            ])
        })
        .collect();
    serde_json::to_vec(&Value::Array(list)).ok()
}


// ---------------------------------------------------------------------------
// Fixtures
// ---------------------------------------------------------------------------

const PASSWORD: &str = "correct horse battery staple";

/// A clipboard that remembers what was put on it and cannot be read.
#[derive(Clone, Default)]
struct TestClipboard {
    text: Arc<Mutex<Option<String>>>,
}

impl ClipboardBackend for TestClipboard {
    fn get_text(&mut self) -> Result<String, Error> {
        Err(Error::Clipboard)
    }
    fn set_text(&mut self, text: String) -> Result<(), Error> {
        *self.text.lock().unwrap() = Some(text);
        Ok(())
    }
    fn clear(&mut self) -> Result<(), Error> {
        Ok(())
    }
}

/// A place for one vault file.
#[derive(Default)]
struct Store {
    file: Option<Vec<u8>>,
}

impl Store {
    fn is_stored(&self) -> bool {
        self.file.is_some()
    }

    fn read(&self) -> Result<Vec<u8>, Error> {
        self.file.clone().ok_or(Error::VaultNotFound)
    }

    fn write(&mut self, file: &VaultFile) -> Result<(), Error> {
        self.file = Some(file.to_bytes(render)?);
        Ok(())
    }

    fn save(&mut self, request: SaveRequest) -> Result<(), Error> {
        assert_eq!(request.path, path());
        self.write(&request.file)
    }
}

fn path() -> PathBuf {
    PathBuf::from("/home/user/vault.json")
}

fn make_app(store: &Store) -> App {
    let clipboard = ClipboardGuard::with_backend(Box::new(TestClipboard::default()));
    App::with_vault_path_and_clipboard(path(), clipboard, store.is_stored())
        .ok()
        .expect("app")
}

/// A stored vault with fast Argon2id parameters.
fn fast_store(password: &str) -> Store {
    let params = KdfParams {
        name: KDF_NAME_ARGON2ID.to_string(),
        salt: crypto::random_bytes::<SALT_LEN>().unwrap().to_vec(),
        time_cost: 1,
        memory_cost: 19 * 1024,
        parallelism: 1,
        hash_len: KEY_LEN as u32,
    };
    let mk = crypto::derive_master_key(password.as_bytes(), &params).unwrap();
    let kek = crypto::derive_kek(mk.as_slice()).unwrap();
    let vk = crypto::random_vault_key().unwrap();
    let (wn, wc) = crypto::wrap_vault_key(kek.as_slice(), vk.as_slice()).unwrap();
    let (vn, vc) = crypto::encrypt_vault(vk.as_slice(), b"[]").unwrap();
    let file = VaultFile {
        version: SUPPORTED_VERSION,
        kdf: KdfSection::from_kdf_params(&params),
        wrapped_key: EncryptedBlob::from_raw(&wn, &wc),
        vault: EncryptedBlob::from_raw(&vn, &vc),
    };
    let mut store = Store::default();
    store.write(&file).unwrap();
    store
}

fn unlock(app: &mut App, store: &Store, password: &str) -> Result<(), Error> {
    app.unlock(password, store.read(), parse, decode)
}

// ---------------------------------------------------------------------------
// App
// ---------------------------------------------------------------------------

#[test]
fn new_app_with_missing_vault_is_no_vault() {
    let app = make_app(&Store::default());
    assert!(matches!(app.state(), AppState::NoVault));
    assert_eq!(app.vault_path(), &path());
    assert!(app.entries().is_empty());
    assert!(!app.is_unlocked());
}

#[test]
fn new_app_with_existing_vault_is_locked() {
    let app = make_app(&fast_store(PASSWORD));
    assert!(matches!(app.state(), AppState::Locked { .. }));
    assert_eq!(app.vault_to_read(), Some(&path()));
}

#[test]
fn short_password_is_rejected() {
    let mut app = make_app(&Store::default());
    let err = app.create_vault("short", "short", false).err().unwrap();
    assert!(matches!(err, Error::PasswordTooShort { min: 12 }));
    assert!(app.error().is_some());
    assert!(matches!(app.state(), AppState::NoVault));
}

#[test]
fn mismatched_passwords_are_rejected() {
    let mut app = make_app(&Store::default());
    let err = app
        .create_vault(PASSWORD, "different passphrase value", false)
        .err()
        .unwrap();
    assert!(matches!(err, Error::PasswordMismatch));
    assert!(matches!(app.state(), AppState::NoVault));
}

#[test]
fn create_refuses_to_overwrite_existing_vault() {
    let store = fast_store(PASSWORD);
    let mut app = make_app(&store);
    let err = app
        .create_vault(PASSWORD, PASSWORD, store.is_stored())
        .err()
        .unwrap();
    assert!(matches!(err, Error::VaultAlreadyExists));
    assert!(store.is_stored());
}

#[test]
fn unlock_with_correct_password_succeeds() {
    let store = fast_store(PASSWORD);
    let mut app = make_app(&store);
    unlock(&mut app, &store, PASSWORD).unwrap();
    assert!(app.is_unlocked());
    assert!(app.entries().is_empty());
}

#[test]
fn unlock_with_wrong_password_fails_opaquely() {
    let store = fast_store(PASSWORD);
    let mut app = make_app(&store);
    let err = unlock(&mut app, &store, "wrong password entirely").unwrap_err();
    assert!(matches!(err, Error::Authentication));
    assert!(!app.is_unlocked());
    let msg = app.error().unwrap_or("");
    assert_eq!(msg, "authentication failed");
    assert!(!msg.to_lowercase().contains("nonce"));
    assert!(!msg.to_lowercase().contains("tag"));
    assert!(!msg.to_lowercase().contains("gcm"));
    assert!(!msg.to_lowercase().contains("argon"));
}

#[test]
fn lock_clears_entries_and_key() {
    let store = fast_store(PASSWORD);
    let mut app = make_app(&store);
    unlock(&mut app, &store, PASSWORD).unwrap();
    app.add_entry(Entry::new("t", "u", "p", "u", "t", "n").unwrap(), encode)
        .ok()
        .unwrap();
    assert_eq!(app.entries().len(), 1);
    app.lock();
    assert!(!app.is_unlocked());
    assert!(app.entries().is_empty());
}

#[test]
fn lock_when_already_locked_is_a_noop() {
    let mut app = make_app(&fast_store(PASSWORD));
    app.lock();
    assert!(matches!(app.state(), AppState::Locked { .. }));
}

#[test]
fn add_entry_persists_across_lock_cycle() {
    let mut store = fast_store(PASSWORD);
    let mut app = make_app(&store);
    unlock(&mut app, &store, PASSWORD).unwrap();
    let e = Entry::new("Title", "alice", "secret-pw", "https://x", "TOTPSECRET", "note").unwrap();
    let id = e.id.clone();
    store.save(app.add_entry(e, encode).ok().unwrap()).unwrap();
    app.lock();

    let mut app2 = make_app(&store);
    unlock(&mut app2, &store, PASSWORD).unwrap();
    assert_eq!(app2.entries().len(), 1);
    assert_eq!(app2.entries()[0].id, id);
    assert_eq!(app2.entries()[0].username, "alice");
    assert_eq!(app2.entries()[0].password, "secret-pw");
    assert_eq!(app2.entries()[0].totp, "TOTPSECRET");
}

#[test]
fn update_entry_replaces_and_persists() {
    let mut store = fast_store(PASSWORD);
    let mut app = make_app(&store);
    unlock(&mut app, &store, PASSWORD).unwrap();
    let e = Entry::new("T", "u", "old-pw", "", "", "").unwrap();
    let id = e.id.clone();
    store.save(app.add_entry(e, encode).ok().unwrap()).unwrap();

    let mut updated = Entry::new("T", "u", "new-pw", "", "", "").unwrap();
    updated.id = id.clone();
    let request = app.update_entry(updated, encode).ok().unwrap();
    assert!(request.is_some());
    store.save(request.unwrap()).unwrap();

    app.lock();
    let mut app2 = make_app(&store);
    unlock(&mut app2, &store, PASSWORD).unwrap();
    assert_eq!(app2.entries()[0].password, "new-pw");
}

#[test]
fn remove_entry_deletes_and_persists() {
    let mut store = fast_store(PASSWORD);
    let mut app = make_app(&store);
    unlock(&mut app, &store, PASSWORD).unwrap();
    let e = Entry::new("T", "u", "p", "", "", "").unwrap();
    let id = e.id.clone();
    store.save(app.add_entry(e, encode).ok().unwrap()).unwrap();
    let request = app.remove_entry(&id, encode).ok().unwrap();
    assert!(request.is_some());
    store.save(request.unwrap()).unwrap();

    app.lock();
    let mut app2 = make_app(&store);
    unlock(&mut app2, &store, PASSWORD).unwrap();
    assert!(app2.entries().is_empty());
}

#[test]
fn entry_operations_fail_when_locked() {
    let mut app = make_app(&fast_store(PASSWORD));
    let e = Entry::new("T", "u", "p", "", "", "").unwrap();
    assert!(matches!(app.add_entry(e, encode), Err(Error::VaultNotFound)));
    assert!(matches!(
        app.remove_entry("whatever", encode),
        Err(Error::VaultNotFound)
    ));
}

#[test]
fn copy_when_locked_returns_error() {
    let mut app = make_app(&fast_store(PASSWORD));
    assert!(app.copy_password("anything").is_err());
    assert!(app.copy_username("anything").is_err());
}

#[test]
fn created_vault_is_unlocked_once_it_is_stored() {
    let mut store = Store::default();
    let mut app = make_app(&store);
    let new = app.create_vault(PASSWORD, PASSWORD, store.is_stored()).ok().unwrap();
    assert!(!app.is_unlocked());
    let stored = store.write(&new.file);
    app.vault_stored(new, stored).unwrap();
    assert!(app.is_unlocked());
    assert!(app.entries().is_empty());
    assert_eq!(app.error(), None);

    let mut reopened = make_app(&store);
    unlock(&mut reopened, &store, PASSWORD).unwrap();
    assert!(reopened.is_unlocked());
}

#[test]
fn vault_that_could_not_be_stored_is_not_opened() {
    let mut app = make_app(&Store::default());
    let new = app.create_vault(PASSWORD, PASSWORD, false).ok().unwrap();
    assert_eq!(
        app.vault_stored(new, Err(Error::SaveFailed)),
        Err(Error::SaveFailed)
    );
    assert!(matches!(app.state(), AppState::NoVault));
    assert_eq!(
        app.error(),
        Some("could not save vault; previous file was left unchanged")
    );
    app.clear_error();
    assert_eq!(app.error(), None);
}

#[test]
fn unlock_without_a_vault_fails() {
    let store = Store::default();
    let mut app = make_app(&store);
    assert_eq!(
        unlock(&mut app, &store, PASSWORD),
        Err(Error::VaultNotFound)
    );
    assert_eq!(app.error(), Some("no vault found at that location"));
    assert_eq!(app.vault_to_read(), None);
}

#[test]
fn unlock_failures_are_recorded() {
    let store = fast_store(PASSWORD);
    let mut app = make_app(&store);
    assert_eq!(
        app.unlock(PASSWORD, Err(Error::VaultFormat), parse, decode),
        Err(Error::VaultFormat)
    );
    assert_eq!(app.error(), Some("vault file is not valid"));
    assert_eq!(
        app.unlock(PASSWORD, Ok(b"{}".to_vec()), parse, decode),
        Err(Error::VaultFormat)
    );
    // Unlocking twice is harmless.
    unlock(&mut app, &store, PASSWORD).unwrap();
    assert_eq!(app.error(), None);
    unlock(&mut app, &store, "anything").unwrap();
    assert!(app.is_unlocked());
}

#[test]
fn saving_needs_an_unlocked_vault() {
    let store = fast_store(PASSWORD);
    let mut app = make_app(&store);
    assert!(app.save(encode).ok().unwrap().is_none());
    unlock(&mut app, &store, PASSWORD).unwrap();
    assert!(app.save(encode).ok().unwrap().is_some());
    assert!(matches!(app.save(|_| None), Err(Error::VaultFormat)));
}

#[test]
fn nothing_is_written_for_an_unknown_id() {
    let store = fast_store(PASSWORD);
    let mut app = make_app(&store);
    unlock(&mut app, &store, PASSWORD).unwrap();
    assert!(app.remove_entry("ff", encode).ok().unwrap().is_none());
    let e = Entry::new("T", "u", "p", "", "", "").unwrap();
    assert!(app.update_entry(e, encode).ok().unwrap().is_none());
    assert_eq!(app.copy_password("ff"), Err(Error::VaultNotFound));
}

#[test]
fn copies_hand_over_exactly_the_field() {
    let store = fast_store(PASSWORD);
    let clipboard = TestClipboard::default();
    let guard = ClipboardGuard::with_backend(Box::new(clipboard.clone()));
    let mut app = App::new(path(), Some(guard), store.is_stored()).ok().unwrap();
    unlock(&mut app, &store, PASSWORD).unwrap();
    let e = Entry::new("T", "alice", "hunter2", "", "", "").unwrap();
    let id = e.id.clone();
    app.add_entry(e, encode).ok().unwrap();
    app.copy_password(&id).unwrap();
    assert_eq!(clipboard.text.lock().unwrap().as_deref(), Some("hunter2"));
    assert_eq!(app.clipboard().secret().as_slice(), b"hunter2");
    app.copy_username(&id).unwrap();
    assert_eq!(clipboard.text.lock().unwrap().as_deref(), Some("alice"));
    // Locking leaves the pending clear alone.
    app.lock();
    assert!(app.clipboard().deadline().is_some());
}

#[test]
fn without_a_clipboard_copies_fail() {
    let store = fast_store(PASSWORD);
    let mut app = App::new(path(), None, store.is_stored()).ok().unwrap();
    unlock(&mut app, &store, PASSWORD).unwrap();
    let e = Entry::new("T", "alice", "hunter2", "", "", "").unwrap();
    let id = e.id.clone();
    app.add_entry(e, encode).ok().unwrap();
    assert_eq!(app.copy_password(&id), Err(Error::Clipboard));
}

/// An operating system that grants every memory lock.
struct Granting;

impl MemoryLocker for Granting {
    fn lock(&mut self, region: &Vec<u8>) -> bool {
        region.len() == KEY_LEN
    }
}

#[test]
fn vault_key_is_kept_in_memory_only_while_unlocked() {
    let store = fast_store(PASSWORD);
    let mut app = make_app(&store);
    assert_eq!(app.protect_key(Platform::new(Box::new(Granting))), Ok(false));
    unlock(&mut app, &store, PASSWORD).unwrap();
    assert_eq!(app.protect_key(Platform::new(Box::new(NoLocking))), Ok(false));
    assert_eq!(app.protect_key(Platform::new(Box::new(Granting))), Ok(true));
    assert!(app.is_unlocked());
}

#[test]
fn idle_vault_is_locked_and_active_one_is_not() {
    let store = fast_store(PASSWORD);
    let mut app = make_app(&store);
    unlock(&mut app, &store, PASSWORD).unwrap();
    let now = app.autolock().clock().now();
    let clip = app.clipboard().clock().now();

    app.tick_at(&[], clip, now.after(Duration::from_secs(100)));
    assert!(app.is_unlocked());
    let active = now.after(Duration::from_secs(1000));
    app.tick_at(&[InputEvent::Text], clip, active);
    assert!(app.is_unlocked());
    app.tick_at(&[InputEvent::Other], clip, active.after(Duration::from_secs(179)));
    assert!(app.is_unlocked());
    app.tick_at(&[InputEvent::Other], clip, active.after(Duration::from_secs(180)));
    assert!(!app.is_unlocked());
    app.tick(&[InputEvent::Text]);
    assert!(matches!(app.state(), AppState::Locked { .. }));
}

#[test]
fn vault_path_precedence() {
    let env = |path: &str| EnvPath {
        path: PathBuf::from(path),
        is_empty: path.is_empty(),
    };
    let default = PathBuf::from("d");
    assert_eq!(
        resolve_vault_path(Some(env("/x")), default.clone()),
        PathBuf::from("/x")
    );
    assert_eq!(resolve_vault_path(Some(env("")), default.clone()), default);
    assert_eq!(resolve_vault_path(None, default.clone()), default);
    let below = PathBuf::from("/home/u/.local/share/offline-vault/vault.json");
    let here = PathBuf::from("vault.json");
    assert_eq!(
        default_vault_path(Some(env("/home/u")), below.clone(), here.clone()),
        below
    );
    assert_eq!(
        default_vault_path(Some(env("")), below.clone(), here.clone()),
        here
    );
    assert_eq!(default_vault_path(None, below, here.clone()), here);
    assert_eq!(VAULT_PATH_ENV, "OFFLINE_VAULT_PATH");
}

// ---------------------------------------------------------------------------
// User interface
// ---------------------------------------------------------------------------

#[test]
fn truncate_shortens_long_strings() {
    assert_eq!(truncate("hello", 10), "hello");
    let t = truncate("abcdefghij", 5);
    assert_eq!(t.chars().count(), 5);
    assert!(t.ends_with('…'));
    assert_eq!(t, "abcd…");
    assert_eq!(truncate("äöüß", 3), "äö…");
    assert_eq!(truncate("ab", 1), "…");
    assert_eq!(truncate("ab", 0), "");
    assert_eq!(truncate("", 0), "");
}

#[test]
fn entry_draft_from_entry_roundtrips() {
    let e = Entry::new(
        "Title",
        "alice",
        "the-password",
        "https://example.com",
        "JBSWY3DPEHPK3PXP",
        "notes",
    )
    .unwrap();
    let d = EntryDraft::from_entry(&e, false);
    let rebuilt = d.to_entry().unwrap();
    assert_eq!(rebuilt.id, e.id);
    assert_eq!(rebuilt.title, e.title);
    assert_eq!(rebuilt.username, e.username);
    assert_eq!(rebuilt.password, e.password);
    assert_eq!(rebuilt.url, e.url);
    assert_eq!(rebuilt.totp, e.totp);
    assert_eq!(rebuilt.notes, e.notes);
}

#[test]
fn entry_draft_new_generates_fresh_id() {
    let mut d = EntryDraft::new_blank();
    d.title = "T".into();
    d.username = "u".into();
    d.password = "p".into();
    let e = d.to_entry().unwrap();
    assert!(!e.id.is_empty());
}

#[test]
fn row_snapshot_never_contains_secrets() {
    let r = Row {
        id: "id".into(),
        title: "t".into(),
        username: "u".into(),
        url: "url".into(),
    };
    let _ = (&r.id, &r.title, &r.username, &r.url);
}

fn entry(id: &str, title: &str, username: &str, url: &str) -> Entry {
    Entry::with_id(id.to_string(), title, username, "pw", url, "totp", "notes").unwrap()
}

fn make_ui(store: &Store) -> VaultApp {
    VaultApp::new(Ok(make_app(store)))
}

fn unlocked_ui(store: &Store) -> VaultApp {
    let mut ui = make_ui(store);
    ui.unlock_password = PASSWORD.to_string();
    ui.submit_unlock(store.read(), parse, decode);
    assert_eq!(ui.screen(), Some(Screen::Unlocked));
    ui
}

fn ids(rows: &[Row]) -> Vec<&str> {
    rows.iter().map(|r| r.id.as_str()).collect()
}

#[test]
fn list_is_filtered_by_title_username_and_url() {
    let store = fast_store(PASSWORD);
    let mut ui = unlocked_ui(&store);
    for e in [
        entry("01", "GitHub", "alice", "https://github.com"),
        entry("02", "Bank", "BOB", "https://bank.example"),
        entry("03", "Mail", "carol", "https://MAIL.example"),
    ] {
        ui.app.as_mut().unwrap().add_entry(e, encode).ok().unwrap();
    }
    assert_eq!(ids(&ui.display_rows()), ["01", "02", "03"]);
    ui.search = "  gitHUB ".to_string();
    assert_eq!(ids(&ui.display_rows()), ["01"]);
    ui.search = "bob".to_string();
    assert_eq!(ids(&ui.display_rows()), ["02"]);
    ui.search = "EXAMPLE".to_string();
    assert_eq!(ids(&ui.display_rows()), ["02", "03"]);
    // Passwords, TOTP secrets and notes are not searched.
    ui.search = "totp".to_string();
    assert!(ui.display_rows().is_empty());
    ui.search = "\u{3000}\u{85} \t".to_string();
    assert_eq!(ui.display_rows().len(), 3);
    assert_eq!(
        ids(&rows_matching(ui.app.as_ref().unwrap().entries(), "mail")),
        ["03"]
    );
}

#[test]
fn row_labels_are_in_columns() {
    let row = Row {
        id: "01".into(),
        title: "Title".into(),
        username: "a-username-that-is-far-too-long".into(),
        url: "https://example.com".into(),
    };
    assert_eq!(
        row.label(),
        format!(
            "{:<32}   {:<24}   {}",
            truncate(&row.title, 32),
            truncate(&row.username, 24),
            row.url
        )
    );
}

#[test]
fn startup_failure_shows_its_reason() {
    let ui = VaultApp::new(Err(Error::Clock));
    assert_eq!(ui.screen(), None);
    assert_eq!(ui.init_error.as_deref(), Some("internal clock unavailable"));
    assert!(ui.display_rows().is_empty());
}

#[test]
fn create_screen_empties_its_fields() {
    let mut store = Store::default();
    let mut ui = make_ui(&store);
    assert_eq!(ui.screen(), Some(Screen::NoVault));
    ui.create_password = "too short".to_string();
    ui.create_confirm = "too short".to_string();
    assert!(ui.submit_create(store.is_stored()).is_none());
    assert!(ui.create_password.is_empty());
    assert!(ui.create_confirm.is_empty());
    assert_eq!(
        ui.app.as_ref().unwrap().error(),
        Some("master password must be at least 12 characters")
    );

    ui.create_password = PASSWORD.to_string();
    ui.create_confirm = PASSWORD.to_string();
    let new = ui.submit_create(store.is_stored()).unwrap();
    let stored = store.write(&new.file);
    ui.vault_stored(new, stored);
    assert_eq!(ui.screen(), Some(Screen::Unlocked));
    assert!(ui.create_password.is_empty());
}

#[test]
fn unlock_screen_empties_its_field() {
    let store = fast_store(PASSWORD);
    let mut ui = make_ui(&store);
    ui.unlock_password = "wrong password".to_string();
    ui.submit_unlock(store.read(), parse, decode);
    assert!(ui.unlock_password.is_empty());
    assert_eq!(ui.screen(), Some(Screen::Locked));
    assert_eq!(
        ui.app.as_ref().unwrap().error(),
        Some("authentication failed")
    );
}

#[test]
fn entries_are_added_and_edited_through_the_dialog() {
    let mut store = fast_store(PASSWORD);
    let mut ui = unlocked_ui(&store);
    assert!(ui.apply(Pending::Add, encode).is_none());
    let mut draft = ui.draft.take().unwrap();
    assert_eq!(draft.dialog_title(), "New Entry");
    draft.title = "First".to_string();
    let save = ui.finish_dialog(draft, true, true, false, encode).unwrap();
    let stored = store.save(save.request);
    ui.draft_saved(save.draft, stored);
    assert!(ui.draft.is_none());
    assert!(ui.op_error.is_none());

    let rows = ui.display_rows();
    assert_eq!(rows.len(), 1);
    assert!(!ui.has_selection());
    ui.select(&rows[0]);
    assert!(ui.is_selected(&rows[0]));
    ui.apply(Pending::Edit, encode);
    let mut draft = ui.draft.take().unwrap();
    assert_eq!(draft.dialog_title(), "Edit Entry");
    assert_eq!(draft.title, "First");
    draft.title = "Second".to_string();
    let save = ui.finish_dialog(draft, true, true, false, encode).unwrap();
    // The write fails: the dialog opens again with the reason.
    ui.draft_saved(save.draft, Err(Error::SaveFailed));
    assert_eq!(ui.draft.as_ref().unwrap().title, "Second");
    assert!(ui.op_error.is_some());
    ui.dismiss_error();
    assert!(ui.op_error.is_none());
    assert_eq!(ui.display_rows()[0].title, "Second");
}

#[test]
fn invalid_draft_stays_open() {
    let store = fast_store(PASSWORD);
    let mut ui = unlocked_ui(&store);
    let mut draft = EntryDraft::new_blank();
    draft.title = "x".repeat(2000);
    assert!(ui.finish_dialog(draft, true, true, false, encode).is_none());
    let draft = ui.draft.take().unwrap();
    assert_eq!(draft.error.as_deref(), Some("vault contents are not valid"));

    // Untouched, the dialog stays open; cancelled or closed, it goes away.
    assert!(ui.finish_dialog(draft, true, false, false, encode).is_none());
    let draft = ui.draft.take().unwrap();
    assert!(ui.finish_dialog(draft, true, true, true, encode).is_none());
    assert!(ui.draft.is_none());
    let draft = EntryDraft::new_blank();
    assert!(ui.finish_dialog(draft, false, true, false, encode).is_none());
    assert!(ui.draft.is_none());
    assert!(ui.display_rows().is_empty());
}

#[test]
fn draft_without_an_application_stays_open() {
    let mut ui = VaultApp::new(Err(Error::Clock));
    let draft = EntryDraft::new_blank();
    assert!(ui.finish_dialog(draft, true, true, false, encode).is_none());
    assert!(ui.draft.is_some());
    assert_eq!(ui.op_error.as_deref(), Some("application not available"));
}

#[test]
fn deleting_waits_for_the_write() {
    let mut store = fast_store(PASSWORD);
    let mut ui = unlocked_ui(&store);
    let e = entry("01", "a", "b", "c");
    ui.app.as_mut().unwrap().add_entry(e, encode).ok().unwrap();
    // Nothing is selected, so nothing happens.
    assert!(ui.apply(Pending::Delete, encode).is_none());
    assert_eq!(ui.display_rows().len(), 1);

    let rows = ui.display_rows();
    ui.select(&rows[0]);
    let request = ui.apply(Pending::Delete, encode).unwrap();
    assert!(ui.has_selection());
    let stored = store.save(request);
    ui.delete_saved(stored);
    assert!(!ui.has_selection());
    assert!(ui.display_rows().is_empty());

    ui.delete_saved(Err(Error::SaveFailed));
    assert_eq!(
        ui.op_error.as_deref(),
        Some("could not save vault; previous file was left unchanged")
    );
}

#[test]
fn copy_buttons_report_failures() {
    let store = fast_store(PASSWORD);
    let mut ui = unlocked_ui(&store);
    ui.apply(Pending::CopyPassword, encode);
    assert!(ui.op_error.is_none());
    ui.selected_id = Some("ff".to_string());
    ui.apply(Pending::CopyUsername, encode);
    assert_eq!(
        ui.op_error.as_deref(),
        Some("no vault found at that location")
    );
    let e = entry("ff", "a", "alice", "c");
    ui.app.as_mut().unwrap().add_entry(e, encode).ok().unwrap();
    ui.dismiss_error();
    ui.apply(Pending::CopyPassword, encode);
    assert!(ui.op_error.is_none());
    assert_eq!(
        ui.app.as_ref().unwrap().clipboard().secret().as_slice(),
        b"pw"
    );
}

#[test]
fn lock_button_forgets_everything() {
    let store = fast_store(PASSWORD);
    let mut ui = unlocked_ui(&store);
    ui.selected_id = Some("ff".to_string());
    ui.op_error = Some("x".to_string());
    ui.apply(Pending::Add, encode);
    assert!(ui.apply(Pending::Nothing, encode).is_none());
    assert!(ui.draft.is_some());
    ui.apply(Pending::Lock, encode);
    assert_eq!(ui.screen(), Some(Screen::Locked));
    assert!(ui.selected_id.is_none());
    assert!(ui.draft.is_none());
    assert!(ui.op_error.is_none());
    ui.begin_frame(&[InputEvent::Text]);
    assert_eq!(ui.screen(), Some(Screen::Locked));
}

#[test]
fn generator_fills_the_password_field() {
    let mut d = EntryDraft::new_blank();
    assert!(!d.draws_generator(true, false, false));
    d.open_generator();
    assert!(d.show_generator);
    assert!(d.draws_generator(true, false, false));
    assert!(!d.draws_generator(false, false, false));
    assert!(!d.draws_generator(true, true, false));
    assert!(!d.draws_generator(true, false, true));
    assert!(!d.can_use_generated());
    d.generate();
    assert_eq!(d.gen_result.chars().count(), 24);
    assert!(d.can_use_generated());
    let generated = d.gen_result.clone();
    d.password = "old".to_string();
    d.use_generated();
    assert_eq!(d.password, generated);
    assert!(d.gen_result.is_empty());
    assert!(!d.show_generator);

    d.gen_uppercase = false;
    d.gen_lowercase = false;
    d.gen_digits = false;
    d.gen_symbols = false;
    d.gen_result = "left over".to_string();
    d.generate();
    assert!(d.gen_result.is_empty());
    assert_eq!(
        d.gen_error.as_deref(),
        Some("Select at least one character type.")
    );
    d.accept_generated(Ok("abc".to_string()));
    assert_eq!(d.gen_result, "abc");
    assert_eq!(d.gen_error, None);
    d.open_generator();
    d.close_generator();
    assert!(!d.show_generator);
}
