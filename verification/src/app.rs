//! Application state machine.
//!
//! [`App`] sits between the front-end and the vault, storage, clipboard and
//! auto-lock layers. It owns the vault state, drives the inactivity timer and
//! the clipboard poll each frame, and records the message of the last failure.
//!
//! It performs no I/O itself. Where a vault file has to be read, the outcome is
//! handed in; where one has to be written, a [`SaveRequest`] or a [`NewVault`]
//! is handed out.
//!
//! Locking wipes the entries and the Vault Key. The clipboard guard deliberately
//! keeps its pending timer, so that a password copied just before locking is
//! still cleared on schedule.

use std::path::PathBuf;

use vstd::prelude::*;

use crate::autolock;
use crate::autolock::{AutoLock, InputEvent};
use crate::clipboard::{ClipboardGuard, GuardView};
use crate::clock::{Clock, Duration, Instant};
use crate::entry::EntryView;
use crate::error::{Error, Result};
use crate::memory_lock::Platform;
use crate::security::SecureBuffer;
use crate::vault;
use crate::vault::{Entry, FileView, UnlockedVault, VaultFile, VaultView};

verus! {

/// Minimum accepted length of a master password, in characters.
pub const MIN_MASTER_PASSWORD_LEN: usize = 12;

/// Environment variable that overrides the default vault path.
pub const VAULT_PATH_ENV: &'static str = "OFFLINE_VAULT_PATH";

#[verifier::external_type_specification]
#[verifier::external_body]
pub struct ExPathBuf(PathBuf);

/// `clone` of a `std::path::PathBuf` gives the same path.
pub assume_specification[ <PathBuf as Clone>::clone ](path: &PathBuf) -> (copy: PathBuf)
    ensures
        copy == *path,
;

// ---------------------------------------------------------------------------
// AppState
// ---------------------------------------------------------------------------

/// The three states the application can be in.
pub enum AppState {
    /// No vault file is there.
    NoVault,
    /// A vault file is there; the master password is needed.
    Locked { path: PathBuf },
    /// The vault is decrypted in memory; saves go back to `path`.
    Unlocked { path: PathBuf, vault: UnlockedVault },
}

/// What a state amounts to.
pub ghost enum StateView {
    NoVault,
    Locked { path: PathBuf },
    Unlocked { path: PathBuf, vault: VaultView },
}

impl View for AppState {
    type V = StateView;

    open spec fn view(&self) -> StateView {
        match self {
            AppState::NoVault => StateView::NoVault,
            AppState::Locked { path } => StateView::Locked { path: *path },
            AppState::Unlocked { path, vault } => StateView::Unlocked { path: *path, vault: vault@ },
        }
    }
}

// ---------------------------------------------------------------------------
// App
// ---------------------------------------------------------------------------

/// The application.
pub struct App {
    state: AppState,
    vault_path: PathBuf,
    clipboard: ClipboardGuard,
    autolock: AutoLock,
    error: Option<String>,
}

/// What the application amounts to.
pub ghost struct AppView {
    pub state: StateView,
    pub vault_path: PathBuf,
    pub clipboard: GuardView,
    /// The clock of the inactivity timer.
    pub timer: Clock,
    /// The inactivity timeout.
    pub timeout: Duration,
    /// When the user was last active.
    pub last_activity: Instant,
    /// The message of the last failure.
    pub error: Option<Seq<char>>,
}

impl View for App {
    type V = AppView;

    closed spec fn view(&self) -> AppView {
        AppView {
            state: self.state@,
            vault_path: self.vault_path,
            clipboard: self.clipboard@,
            timer: self.autolock.source(),
            timeout: self.autolock.limit(),
            last_activity: self.autolock.last(),
            error: crate::error::viewed_option(self.error),
        }
    }
}

/// A vault that has been created in memory and still has to be stored.
pub struct NewVault {
    pub file: VaultFile,
    pub vault: UnlockedVault,
}

/// What a new vault amounts to.
pub ghost struct NewVaultView {
    pub file: FileView,
    pub vault: VaultView,
}

impl View for NewVault {
    type V = NewVaultView;

    open spec fn view(&self) -> NewVaultView {
        NewVaultView { file: self.file@, vault: self.vault@ }
    }
}

/// A sealed vault file, and where it has to be written.
pub struct SaveRequest {
    pub path: PathBuf,
    pub file: VaultFile,
}

/// What a save request amounts to.
pub ghost struct SaveView {
    pub path: PathBuf,
    pub file: FileView,
}

impl View for SaveRequest {
    type V = SaveView;

    open spec fn view(&self) -> SaveView {
        SaveView { path: self.path, file: self.file@ }
    }
}

impl AppView {
    /// The entries that can be seen: none unless the vault is unlocked.
    pub open spec fn entries(self) -> Seq<EntryView> {
        match self.state {
            StateView::Unlocked { path, vault } => vault.entries,
            _ => Seq::empty(),
        }
    }

    /// Why the choice of a master password is refused, if it is. Length is
    /// counted in characters.
    pub open spec fn refusal(
        password: Seq<char>,
        confirm: Seq<char>,
        vault_exists: bool,
    ) -> Option<Error> {
        if password.len() < MIN_MASTER_PASSWORD_LEN {
            Some(Error::PasswordTooShort { min: MIN_MASTER_PASSWORD_LEN })
        } else if password != confirm {
            Some(Error::PasswordMismatch)
        } else if vault_exists {
            Some(Error::VaultAlreadyExists)
        } else {
            None
        }
    }

    /// Whether creating a vault can come out as `outcome`: a refused choice of
    /// password is answered with the reason, and any other leads to a new vault
    /// unless random bytes are wanting or the password is too long for key
    /// derivation.
    pub open spec fn creates(
        password: Seq<char>,
        confirm: Seq<char>,
        vault_exists: bool,
        outcome: Result<NewVaultView>,
    ) -> bool {
        match Self::refusal(password, confirm, vault_exists) {
            Some(e) => outcome == Err::<NewVaultView, Error>(e),
            None => match outcome {
                Ok(new) => {
                    &&& new.file.is_new(vstd::utf8::encode_utf8(password), new.vault)
                    &&& new.vault.entries.len() == 0
                },
                Err(e) => vault::creation_fails(vstd::utf8::encode_utf8(password), e),
            },
        }
    }

    /// The application after an operation that reports its outcome to the user.
    pub open spec fn reporting<T>(self, outcome: Result<T>) -> AppView {
        AppView {
            error: match outcome {
                Ok(_) => None,
                Err(e) => Some(e.text()),
            },
            ..self
        }
    }

    /// The application in another state, after activity at `now`.
    pub open spec fn entering(self, state: StateView, now: Instant) -> AppView {
        AppView { state, last_activity: now, ..self }
    }

    /// The application with another clipboard guard.
    pub open spec fn with_clipboard(self, clipboard: GuardView) -> AppView {
        AppView { clipboard, ..self }
    }

    /// The application with another vault in place of the unlocked one.
    pub open spec fn holding(self, vault: VaultView) -> AppView {
        match self.state {
            StateView::Unlocked { path, vault: _ } => AppView {
                state: StateView::Unlocked { path, vault },
                ..self
            },
            _ => self,
        }
    }

    /// The application after locking at `now`. A vault that is not unlocked
    /// stays as it is; the message of the last failure is gone either way.
    pub open spec fn locked(self, now: Instant) -> AppView {
        let quiet = AppView { error: None, ..self };
        match self.state {
            StateView::Unlocked { path, vault } => quiet.entering(StateView::Locked { path }, now),
            _ => quiet,
        }
    }

    /// Whether the inactivity timeout has been reached at `now`.
    pub open spec fn idle_too_long(self, now: Instant) -> bool {
        now.nanos >= self.last_activity.nanos + self.timeout.nanos || self.timeout.nanos == 0
    }

    /// What a frame does to the application apart from the clipboard: only an
    /// unlocked vault is affected; activity restarts the timer, and a timeout
    /// locks the vault.
    pub open spec fn ticked(self, events: Seq<InputEvent>, now: Instant) -> AppView {
        if self.state is Unlocked {
            let noted = if autolock::has_activity(events) {
                AppView { last_activity: now, ..self }
            } else {
                self
            };
            if noted.idle_too_long(now) {
                noted.locked(now)
            } else {
                noted
            }
        } else {
            self
        }
    }

    /// Whether `after` can be the application after a frame with these events:
    /// the clipboard is polled at a time that its guard's clock shows, and the
    /// inactivity timer runs at a time that its own clock shows.
    pub open spec fn frames(self, events: Seq<InputEvent>, after: AppView) -> bool {
        exists|clipboard: GuardView, clipboard_now: Instant, now: Instant|
            {
                &&& self.clipboard.clock.shows(clipboard_now)
                &&& self.timer.shows(now)
                &&& #[trigger] self.clipboard.polled(clipboard, clipboard_now)
                &&& after == #[trigger] self.with_clipboard(clipboard).ticked(events, now)
            }
    }
}

impl App {
    /// The buffer that holds the Vault Key of an unlocked vault.
    pub closed spec fn key(&self) -> Option<SecureBuffer> {
        match self.state {
            AppState::Unlocked { path, vault } => Some(vault.key()),
            _ => None,
        }
    }

    /// Construct the application for a vault path. Without a system clipboard
    /// the vault can still be used; copies then fail.
    pub fn new(vault_path: PathBuf, clipboard: Option<ClipboardGuard>, vault_exists: bool) -> (r:
        Result<Self>)
        ensures
            r matches Ok(app) && {
                &&& app@.state == (if vault_exists {
                    StateView::Locked { path: vault_path }
                } else {
                    StateView::NoVault
                })
                &&& app@.vault_path == vault_path
                &&& app@.error is None
                &&& app@.timeout.nanos == autolock::DEFAULT_TIMEOUT * 1_000_000_000
                &&& clipboard matches Some(guard) ==> app@.clipboard == guard@
                &&& app@.timer.is_started()
                &&& app@.timer.shows(app@.last_activity)
                &&& clipboard is None ==> app@.clipboard.clock.is_started() && app@.clipboard
                    == GuardView::idle(app@.clipboard.clock, true)
            },
    {
        let guard = match clipboard {
            Some(guard) => guard,
            None => ClipboardGuard::without_clipboard(),
        };
        Self::with_vault_path_and_clipboard(vault_path, guard, vault_exists)
    }

    /// Construct the application for a vault path and a clipboard guard.
    pub fn with_vault_path_and_clipboard(
        vault_path: PathBuf,
        clipboard: ClipboardGuard,
        vault_exists: bool,
    ) -> (r: Result<Self>)
        ensures
            r matches Ok(app) && {
                &&& app@.state == (if vault_exists {
                    StateView::Locked { path: vault_path }
                } else {
                    StateView::NoVault
                })
                &&& app@.vault_path == vault_path
                &&& app@.clipboard == clipboard@
                &&& app@.error is None
                &&& app@.timeout.nanos == autolock::DEFAULT_TIMEOUT * 1_000_000_000
                &&& app@.timer.is_started()
                &&& app@.timer.shows(app@.last_activity)
            },
    {
        let state = if vault_exists {
            AppState::Locked { path: vault_path.clone() }
        } else {
            AppState::NoVault
        };
        Ok(App { state, vault_path, clipboard, autolock: AutoLock::new(), error: None })
    }

    /// Current state.
    pub fn state(&self) -> (state: &AppState)
        ensures
            state@ == self@.state,
    {
        &self.state
    }

    /// Resolved vault path. Always set, even before the vault is created.
    pub fn vault_path(&self) -> (path: &PathBuf)
        ensures
            *path == self@.vault_path,
    {
        &self.vault_path
    }

    /// The entries while unlocked, or none.
    pub fn entries(&self) -> (entries: &[Entry])
        ensures
            crate::entry::entry_views(entries@) == self@.entries(),
    {
        match &self.state {
            AppState::Unlocked { path: _, vault } => vault.entries(),
            _ => {
                let none: &[Entry] = &[];
                assert(crate::entry::entry_views(none@) =~= Seq::empty());
                none
            },
        }
    }

    /// Whether the vault is unlocked.
    pub fn is_unlocked(&self) -> (r: bool)
        ensures
            r == (self@.state is Unlocked),
    {
        match &self.state {
            AppState::Unlocked { path: _, vault: _ } => true,
            _ => false,
        }
    }

    /// Message of the last failure, if any.
    pub fn error(&self) -> (message: Option<&str>)
        ensures
            match message {
                Some(text) => self@.error == Some(text@),
                None => self@.error is None,
            },
    {
        match &self.error {
            Some(text) => Some(text.as_str()),
            None => None,
        }
    }

    /// Forget the last failure.
    pub fn clear_error(&mut self)
        ensures
            final(self)@ == (AppView { error: None, ..old(self)@ }),
    {
        self.error = None;
    }

    /// The clipboard guard.
    pub fn clipboard(&self) -> (guard: &ClipboardGuard)
        ensures
            guard@ == self@.clipboard,
    {
        &self.clipboard
    }

    /// The inactivity timer.
    pub fn autolock(&self) -> (timer: &AutoLock)
        ensures
            timer.source() == self@.timer,
            timer.limit() == self@.timeout,
            timer.last() == self@.last_activity,
    {
        &self.autolock
    }

    // -- Lifecycle ----------------------------------------------------------

    /// Create a new vault in memory, to be stored at the vault path.
    ///
    /// `vault_exists` says whether a vault file is already there, which is never
    /// overwritten. The state does not change yet: see [`App::vault_stored`].
    pub fn create_vault(&mut self, password: &str, confirm: &str, vault_exists: bool) -> (r: Result<
        NewVault,
    >)
        ensures
            final(self)@ == old(self)@.reporting(r),
            AppView::creates(password@, confirm@, vault_exists, crate::error::viewed(r)),
            password@.len() < 12 ==> r == Err::<NewVault, Error>(
                Error::PasswordTooShort { min: 12 },
            ),
            password@.len() >= 12 && password@ != confirm@ ==> r == Err::<NewVault, Error>(
                Error::PasswordMismatch,
            ),
            password@.len() >= 12 && password@ == confirm@ && vault_exists ==> r == Err::<
                NewVault,
                Error,
            >(Error::VaultAlreadyExists),
            r is Ok ==> password@ == confirm@ && password@.len() >= 12 && !vault_exists,
    {
        let outcome = Self::make_vault(password, confirm, vault_exists);
        self.error = match &outcome {
            Ok(_) => None,
            Err(e) => Some(e.to_string()),
        };
        outcome
    }

    /// Check the choice of a master password and create the vault.
    fn make_vault(password: &str, confirm: &str, vault_exists: bool) -> (r: Result<NewVault>)
        ensures
            AppView::creates(password@, confirm@, vault_exists, crate::error::viewed(r)),
    {
        if password.unicode_len() < MIN_MASTER_PASSWORD_LEN {
            return Err(Error::PasswordTooShort { min: MIN_MASTER_PASSWORD_LEN });
        }
        if *password != *confirm {
            return Err(Error::PasswordMismatch);
        }
        if vault_exists {
            return Err(Error::VaultAlreadyExists);
        }
        let (file, vault) = VaultFile::new(password)?;
        Ok(NewVault { file, vault })
    }

    /// Take the outcome of storing a new vault. If it was stored, it is unlocked
    /// from now on; otherwise the state stays as it was.
    pub fn vault_stored(&mut self, new: NewVault, stored: Result<()>) -> (r: Result<()>)
        ensures
            r == stored,
            match stored {
                Ok(_) => exists|now: Instant|
                    old(self)@.timer.shows(now) && final(self)@ == #[trigger] old(self)@.reporting(
                        stored,
                    ).entering(
                        StateView::Unlocked { path: old(self)@.vault_path, vault: new.vault@ },
                        now,
                    ),
                Err(_) => final(self)@ == old(self)@.reporting(stored),
            },
    {
        match stored {
            Ok(_) => {
                self.error = None;
                self.state = AppState::Unlocked { path: self.vault_path.clone(), vault: new.vault };
                self.autolock.note_activity();
                assert(self@ == old(self)@.reporting(stored).entering(
                    StateView::Unlocked { path: old(self)@.vault_path, vault: new.vault@ },
                    self@.last_activity,
                ));
            },
            Err(e) => {
                self.error = Some(e.to_string());
            },
        }
        stored
    }

    /// The file that has to be read before the vault can be unlocked, if the
    /// vault is locked.
    pub fn vault_to_read(&self) -> (path: Option<&PathBuf>)
        ensures
            match self@.state {
                StateView::Locked { path: p } => path == Some(&p),
                _ => path is None,
            },
    {
        match &self.state {
            AppState::Locked { path } => Some(path),
            _ => None,
        }
    }

    /// Attempt to unlock the vault with the given master password.
    ///
    /// `read` is the outcome of reading the vault file, which matters only while
    /// the vault is locked. Unlocking twice is harmless. A failure is returned,
    /// and its message recorded.
    pub fn unlock<P, D>(&mut self, password: &str, read: Result<Vec<u8>>, parse: P, decode: D) -> (r:
        Result<()>) where
        P: FnOnce(&[u8]) -> Option<VaultFile>,
        D: FnOnce(&[u8]) -> Option<Vec<Entry>>,

        requires
            forall|bytes: &[u8]| parse.requires((bytes,)),
            forall|payload: &[u8]| decode.requires((payload,)),
        ensures
            old(self)@.unlocks_as(password@, read, parse, decode, r, final(self)@),
    {
        match &self.state {
            AppState::NoVault => {
                self.error = Some(Error::VaultNotFound.to_string());
                return Err(Error::VaultNotFound);
            },
            AppState::Unlocked { path: _, vault: _ } => {
                self.error = None;
                return Ok(());
            },
            AppState::Locked { path: _ } => {},
        }
        let outcome = read_and_unlock(password, read, parse, decode);
        self.finish_unlock(outcome)
    }

    /// Take the outcome of reading and unlocking the vault file while the vault
    /// is locked.
    pub fn finish_unlock(&mut self, outcome: Result<UnlockedVault>) -> (r: Result<()>)
        ensures
            match old(self)@.state {
                StateView::Locked { path } => old(self)@.unlock_finished(
                    path,
                    crate::error::viewed(outcome),
                    r,
                    final(self)@,
                ),
                _ => final(self)@ == old(self)@ && r == Ok::<(), Error>(()),
            },
    {
        let path = match &self.state {
            AppState::Locked { path } => path.clone(),
            _ => {
                return Ok(());
            },
        };
        match outcome {
            Ok(vault) => {
                let ghost view = vault@;
                let r: Result<()> = Ok(());
                self.error = None;
                self.state = AppState::Unlocked { path, vault };
                self.autolock.note_activity();
                assert(self@ == old(self)@.reporting(r).entering(
                    StateView::Unlocked { path, vault: view },
                    self@.last_activity,
                ));
                r
            },
            Err(e) => {
                self.error = Some(e.to_string());
                Err(e)
            },
        }
    }

    /// Attempt to keep the Vault Key of an unlocked vault in RAM (best-effort).
    /// `Ok(false)` if that was refused or there is none; never an error.
    pub fn protect_key(&mut self, platform: Platform) -> (r: Result<bool>)
        ensures
            final(self)@ == old(self)@,
            r matches Ok(granted) && match old(self).key() {
                Some(key) => final(self).key() matches Some(after) && key.locks_as(
                    platform@,
                    granted,
                    after,
                ),
                None => !granted,
            },
    {
        match &mut self.state {
            AppState::Unlocked { path: _, vault } => vault.protect_key(platform),
            _ => Ok(false),
        }
    }

    /// Lock the vault now. Safe to call when already locked.
    pub fn lock(&mut self)
        ensures
            exists|now: Instant|
                old(self)@.timer.shows(now) && final(self)@ == #[trigger] old(self)@.locked(now),
    {
        let now = self.autolock.clock().now();
        self.lock_at(now);
        assert(self@ == old(self)@.locked(now));
    }

    /// Lock the vault at `now`. The entries and the Vault Key are wiped.
    pub fn lock_at(&mut self, now: Instant)
        ensures
            final(self)@ == old(self)@.locked(now),
    {
        self.error = None;
        let path = match &self.state {
            AppState::Unlocked { path, vault: _ } => path.clone(),
            _ => {
                return;
            },
        };
        // Wipe explicitly; replacing the state drops the vault anyway.
        if let AppState::Unlocked { path: _, vault } = &mut self.state {
            vault.lock();
        }
        self.state = AppState::Locked { path };
        self.autolock.note_activity_at(now);
    }
}

/// The fields of an entry that can be copied.
pub ghost enum Copyable {
    Password,
    Username,
}

impl Copyable {
    /// The text of the field.
    pub open spec fn of(self, entry: EntryView) -> Seq<char> {
        match self {
            Copyable::Password => entry.password,
            Copyable::Username => entry.username,
        }
    }
}

impl AppView {
    /// Whether copying a field of the entry with the given id can come out as
    /// `r`: exactly that text is handed to the clipboard, now, and nothing else
    /// changes. Without such an entry, or while the vault is not unlocked, the
    /// clipboard is not touched.
    pub open spec fn copies(
        self,
        id: Seq<char>,
        field: Copyable,
        r: Result<()>,
        after: AppView,
    ) -> bool {
        if self.state matches StateView::Unlocked { path, vault } && vault.has_id(id) {
            exists|i: int, now: Instant|
                {
                    &&& self.clipboard.clock.shows(now)
                    &&& self.clipboard.answers(r)
                    &&& self.state->vault.is_first(id, i)
                    &&& after == self.with_clipboard(
                        #[trigger] self.clipboard.copied(
                            field.of(self.state->vault.entries[i]),
                            r,
                            now,
                        ),
                    )
                }
        } else {
            after == self && r == Err::<(), Error>(Error::VaultNotFound)
        }
    }

    /// Whether adding an entry and sealing the vault can come out as `outcome`,
    /// with `after` as the application then. A failure to seal leaves the entry
    /// in the vault.
    pub open spec fn adds_as<E: FnOnce(&[Entry]) -> Option<Vec<u8>>>(
        self,
        entry: EntryView,
        encode: E,
        outcome: Result<SaveView>,
        after: AppView,
    ) -> bool {
        match self.state {
            StateView::Unlocked { path, vault } => if vault.accepts(entry) {
                let added = vault.with_entries(vault.entries.push(entry));
                &&& after == self.holding(added)
                &&& saves_as(added, path, encode, outcome)
            } else {
                &&& after == self
                &&& outcome == Err::<SaveView, Error>(Error::InvalidEntry)
            },
            _ => after == self && outcome == Err::<SaveView, Error>(Error::VaultNotFound),
        }
    }

    /// Whether replacing an entry by id and sealing the vault can come out as
    /// `outcome`, with `after` as the application then.
    pub open spec fn updates_as<E: FnOnce(&[Entry]) -> Option<Vec<u8>>>(
        self,
        entry: EntryView,
        encode: E,
        outcome: Result<Option<SaveView>>,
        after: AppView,
    ) -> bool {
        match self.state {
            StateView::Unlocked { path, vault } => if !entry.valid() {
                &&& after == self
                &&& outcome == Err::<Option<SaveView>, Error>(Error::InvalidEntry)
            } else if !vault.has_id(entry.id) {
                &&& after == self
                &&& outcome == Ok::<Option<SaveView>, Error>(None)
            } else {
                exists|i: int, saved: Result<SaveView>|
                    {
                        &&& vault.is_first(entry.id, i)
                        &&& after == self.holding(vault.updated(i, entry))
                        &&& #[trigger] saves_as(vault.updated(i, entry), path, encode, saved)
                        &&& outcome == needed(saved)
                    }
            },
            _ => after == self && outcome == Err::<Option<SaveView>, Error>(Error::VaultNotFound),
        }
    }

    /// Whether removing an id and sealing the vault can come out as `outcome`,
    /// with `after` as the application then.
    pub open spec fn removes_as<E: FnOnce(&[Entry]) -> Option<Vec<u8>>>(
        self,
        id: Seq<char>,
        encode: E,
        outcome: Result<Option<SaveView>>,
        after: AppView,
    ) -> bool {
        match self.state {
            StateView::Unlocked { path, vault } => {
                &&& after == self.holding(vault.without(id))
                &&& if vault.has_id(id) {
                    exists|saved: Result<SaveView>| #[trigger]
                        saves_as(vault.without(id), path, encode, saved) && outcome == needed(saved)
                } else {
                    outcome == Ok::<Option<SaveView>, Error>(None)
                }
            },
            _ => after == self && outcome == Err::<Option<SaveView>, Error>(Error::VaultNotFound),
        }
    }

    /// Whether unlocking can come out as `r`, with `after` as the application
    /// then. Without a vault it fails; an unlocked vault stays as it is.
    pub open spec fn unlocks_as<P, D>(
        self,
        password: Seq<char>,
        read: Result<Vec<u8>>,
        parse: P,
        decode: D,
        r: Result<()>,
        after: AppView,
    ) -> bool where
        P: FnOnce(&[u8]) -> Option<VaultFile>,
        D: FnOnce(&[u8]) -> Option<Vec<Entry>>,
     {
        match self.state {
            StateView::NoVault => r == Err::<(), Error>(Error::VaultNotFound) && after
                == self.reporting(r),
            StateView::Unlocked { path, vault } => r == Ok::<(), Error>(()) && after
                == self.reporting(r),
            StateView::Locked { path } => exists|outcome: Result<VaultView>|
                {
                    &&& #[trigger] reads_and_unlocks_as(read, password, parse, decode, outcome)
                    &&& self.unlock_finished(path, outcome, r, after)
                },
        }
    }

    /// Whether `after` is the application once unlocking came out as `outcome`:
    /// unlocked, after activity, or as before with the message of the failure.
    pub open spec fn unlock_finished(
        self,
        path: PathBuf,
        outcome: Result<VaultView>,
        r: Result<()>,
        after: AppView,
    ) -> bool {
        match outcome {
            Ok(vault) => r == Ok::<(), Error>(()) && exists|now: Instant|
                self.timer.shows(now) && after == #[trigger] self.reporting(r).entering(
                    StateView::Unlocked { path, vault },
                    now,
                ),
            Err(e) => r == Err::<(), Error>(e) && after == self.reporting(r),
        }
    }
}

/// The save request for a sealed file, or the failure to seal.
pub open spec fn requested(path: PathBuf, sealed: Result<FileView>) -> Result<SaveView> {
    match sealed {
        Ok(file) => Ok(SaveView { path, file }),
        Err(e) => Err(e),
    }
}

/// Whether sealing `vault` with `encode`, to be written to `path`, can come out
/// as `outcome`.
pub open spec fn saves_as<E: FnOnce(&[Entry]) -> Option<Vec<u8>>>(
    vault: VaultView,
    path: PathBuf,
    encode: E,
    outcome: Result<SaveView>,
) -> bool {
    exists|sealed: Result<FileView>| #[trigger]
        vault.seals_as(encode, sealed) && outcome == requested(path, sealed)
}

/// Seal a vault, to be written to `path`.
fn request_save<E: FnOnce(&[Entry]) -> Option<Vec<u8>>>(
    path: &PathBuf,
    vault: &UnlockedVault,
    encode: E,
) -> (r: Result<SaveRequest>)
    requires
        forall|entries: &[Entry]| encode.requires((entries,)),
    ensures
        saves_as(vault@, *path, encode, crate::error::viewed(r)),
{
    let sealed = vault.seal(encode);
    assert(vault@.seals_as(encode, crate::error::viewed(sealed)));
    let file = sealed?;
    Ok(SaveRequest { path: path.clone(), file })
}

/// A request that may not be needed, with its view.
pub open spec fn viewed_request(r: Result<Option<SaveRequest>>) -> Result<Option<SaveView>> {
    match r {
        Ok(request) => Ok(crate::error::viewed_option(request)),
        Err(e) => Err(e),
    }
}

/// The outcome of a save that is needed.
pub open spec fn needed(outcome: Result<SaveView>) -> Result<Option<SaveView>> {
    match outcome {
        Ok(request) => Ok(Some(request)),
        Err(e) => Err(e),
    }
}

/// The first entry with the given id, if the vault is unlocked.
fn find_in<'a>(state: &'a AppState, id: &str) -> (r: Option<&'a Entry>)
    ensures
        match r {
            Some(entry) => state@ is Unlocked && exists|i: int| #[trigger]
                state@->vault.is_first(id@, i) && state@->vault.entries[i] == entry@,
            None => !(state@ is Unlocked && state@->vault.has_id(id@)),
        },
{
    if let AppState::Unlocked { path: _, vault } = state {
        assert(state@ is Unlocked && state@->vault == vault@);
        let entries = vault.entries();
        if let Some(i) = vault::find_entry(entries, id) {
            assert(state@->vault.is_first(id@, i as int));
            assert(state@->vault.entries[i as int] == entries@[i as int]@);
            return Some(&entries[i]);
        }
    }
    None
}

/// Ask for a save that is needed.
pub(crate) fn when_needed(request: Result<SaveRequest>) -> (r: Result<Option<SaveRequest>>)
    ensures
        viewed_request(r) == needed(crate::error::viewed(request)),
{
    match request {
        Ok(request) => Ok(Some(request)),
        Err(e) => Err(e),
    }
}

impl App {
    /// Seal the unlocked vault, to be written back. Nothing needs to be saved
    /// while the vault is not unlocked.
    pub fn save<E: FnOnce(&[Entry]) -> Option<Vec<u8>>>(&self, encode: E) -> (r: Result<
        Option<SaveRequest>,
    >)
        requires
            forall|entries: &[Entry]| encode.requires((entries,)),
        ensures
            match self@.state {
                StateView::Unlocked { path, vault } => exists|outcome: Result<SaveView>| #[trigger]
                    saves_as(vault, path, encode, outcome) && viewed_request(r) == needed(outcome),
                _ => viewed_request(r) == Ok::<Option<SaveView>, Error>(None),
            },
    {
        match &self.state {
            AppState::Unlocked { path, vault } => {
                assert(self@.state is Unlocked && self@.state->Unlocked_path == *path
                    && self@.state->vault == vault@);
                let request = request_save(path, vault, encode);
                let ghost outcome = crate::error::viewed(request);
                let r = when_needed(request);
                assert(saves_as(vault@, *path, encode, outcome) && viewed_request(r) == needed(
                    outcome,
                ));
                r
            },
            _ => Ok(None),
        }
    }

    /// Add an entry and seal the vault, to be written back. The vault must be
    /// unlocked ([`Error::VaultNotFound`]) and accept the entry.
    pub fn add_entry<E: FnOnce(&[Entry]) -> Option<Vec<u8>>>(&mut self, entry: Entry, encode: E) -> (r:
        Result<SaveRequest>)
        requires
            forall|entries: &[Entry]| encode.requires((entries,)),
        ensures
            old(self)@.adds_as(entry@, encode, crate::error::viewed(r), final(self)@),
    {
        match &mut self.state {
            AppState::Unlocked { path, vault } => {
                vault.add_entry(entry)?;
                request_save(path, vault, encode)
            },
            _ => Err(Error::VaultNotFound),
        }
    }

    /// Replace an entry by id and seal the vault, to be written back. If no
    /// entry has that id, there is nothing to write.
    pub fn update_entry<E: FnOnce(&[Entry]) -> Option<Vec<u8>>>(
        &mut self,
        entry: Entry,
        encode: E,
    ) -> (r: Result<Option<SaveRequest>>)
        requires
            forall|entries: &[Entry]| encode.requires((entries,)),
        ensures
            old(self)@.updates_as(entry@, encode, viewed_request(r), final(self)@),
    {
        match &mut self.state {
            AppState::Unlocked { path, vault } => {
                let ghost before = vault@;
                let ghost view = entry@;
                assert(old(self)@.state is Unlocked && old(self)@.state->vault == before && old(
                    self,
                )@.state->Unlocked_path == *path);
                let changed = vault.update_entry(entry)?;
                if !changed {
                    return Ok(None);
                }
                let ghost i = choose|i: int| #[trigger]
                    before.is_first(view.id, i) && vault@ == before.updated(i, view);
                let request = request_save(path, vault, encode);
                let ghost outcome = crate::error::viewed(request);
                let r = when_needed(request);
                assert(before.is_first(view.id, i) && saves_as(
                    before.updated(i, view),
                    *path,
                    encode,
                    outcome,
                ) && viewed_request(r) == needed(outcome));
                r
            },
            _ => Err(Error::VaultNotFound),
        }
    }

    /// Delete an entry by id and seal the vault, to be written back. If no entry
    /// has that id, there is nothing to write.
    pub fn remove_entry<E: FnOnce(&[Entry]) -> Option<Vec<u8>>>(&mut self, id: &str, encode: E) -> (r:
        Result<Option<SaveRequest>>)
        requires
            forall|entries: &[Entry]| encode.requires((entries,)),
        ensures
            old(self)@.removes_as(id@, encode, viewed_request(r), final(self)@),
    {
        match &mut self.state {
            AppState::Unlocked { path, vault } => {
                let removed = vault.remove_entry(id);
                if !removed {
                    return Ok(None);
                }
                let request = request_save(path, vault, encode);
                let ghost outcome = crate::error::viewed(request);
                let r = when_needed(request);
                assert(saves_as(vault@, *path, encode, outcome) && viewed_request(r) == needed(
                    outcome,
                ));
                r
            },
            _ => Err(Error::VaultNotFound),
        }
    }

    /// Copy the password of the entry with the given id.
    pub fn copy_password(&mut self, id: &str) -> (r: Result<()>)
        ensures
            old(self)@.copies(id@, Copyable::Password, r, final(self)@),
    {
        match find_in(&self.state, id) {
            Some(entry) => {
                let ghost i = choose|i: int| #[trigger]
                    self@.state->vault.is_first(id@, i) && self@.state->vault.entries[i] == entry@;
                let r = self.clipboard.copy(entry.password.as_str());
                let ghost now = choose|now: Instant|
                    old(self)@.clipboard.clock.shows(now) && self@.clipboard == #[trigger] old(
                        self,
                    )@.clipboard.copied(
                        Copyable::Password.of(old(self)@.state->vault.entries[i]),
                        r,
                        now,
                    );
                assert(self@ == old(self)@.with_clipboard(
                    old(self)@.clipboard.copied(
                        Copyable::Password.of(old(self)@.state->vault.entries[i]),
                        r,
                        now,
                    ),
                ));
                r
            },
            None => Err(Error::VaultNotFound),
        }
    }

    /// Copy the username of the entry with the given id.
    pub fn copy_username(&mut self, id: &str) -> (r: Result<()>)
        ensures
            old(self)@.copies(id@, Copyable::Username, r, final(self)@),
    {
        match find_in(&self.state, id) {
            Some(entry) => {
                let ghost i = choose|i: int| #[trigger]
                    self@.state->vault.is_first(id@, i) && self@.state->vault.entries[i] == entry@;
                let r = self.clipboard.copy(entry.username.as_str());
                let ghost now = choose|now: Instant|
                    old(self)@.clipboard.clock.shows(now) && self@.clipboard == #[trigger] old(
                        self,
                    )@.clipboard.copied(
                        Copyable::Username.of(old(self)@.state->vault.entries[i]),
                        r,
                        now,
                    );
                assert(self@ == old(self)@.with_clipboard(
                    old(self)@.clipboard.copied(
                        Copyable::Username.of(old(self)@.state->vault.entries[i]),
                        r,
                        now,
                    ),
                ));
                r
            },
            None => Err(Error::VaultNotFound),
        }
    }

    /// One frame: poll the clipboard and drive the auto-lock timer, now.
    pub fn tick(&mut self, events: &[InputEvent])
        ensures
            old(self)@.frames(events@, final(self)@),
    {
        let clipboard_now = self.clipboard.clock().now();
        let now = self.autolock.clock().now();
        self.tick_at(events, clipboard_now, now);
        let ghost clipboard = choose|clipboard: GuardView|
            old(self)@.clipboard.polled(clipboard, clipboard_now) && self@ == #[trigger] old(
                self,
            )@.with_clipboard(clipboard).ticked(events@, now);
        assert(old(self)@.clipboard.polled(clipboard, clipboard_now));
        assert(self@ == old(self)@.with_clipboard(clipboard).ticked(events@, now));
    }

    /// One frame, at the given readings of the clipboard's clock and the
    /// timer's clock.
    ///
    /// The clipboard is polled in every state, because a copied secret may be
    /// pending when the vault is locked.
    pub fn tick_at(&mut self, events: &[InputEvent], clipboard_now: Instant, now: Instant)
        ensures
            exists|clipboard: GuardView|
                old(self)@.clipboard.polled(clipboard, clipboard_now) && final(self)@ == #[trigger] old(
                    self,
                )@.with_clipboard(clipboard).ticked(events@, now),
    {
        self.clipboard.poll_at(clipboard_now);
        let ghost polled = self@;
        assert(polled == old(self)@.with_clipboard(self@.clipboard));
        if self.is_unlocked() {
            if autolock::user_activity_in(events) {
                self.autolock.note_activity_at(now);
            }
            if self.autolock.should_lock_at(now) {
                self.lock_at(now);
            }
        }
        assert(self@ == polled.ticked(events@, now));
    }
}

/// Whether reading the vault file, parsing it and unlocking it can come out as
/// `outcome`.
pub open spec fn reads_and_unlocks_as<P, D>(
    read: Result<Vec<u8>>,
    password: Seq<char>,
    parse: P,
    decode: D,
    outcome: Result<VaultView>,
) -> bool where
    P: FnOnce(&[u8]) -> Option<VaultFile>,
    D: FnOnce(&[u8]) -> Option<Vec<Entry>>,
 {
    match read {
        Err(e) => outcome == Err::<VaultView, Error>(e),
        Ok(contents) => exists|bytes: &[u8], file: Result<FileView>|
            {
                &&& bytes@ == contents@
                &&& #[trigger] FileView::reads_as(bytes, parse, file)
                &&& match file {
                    Err(e) => outcome == Err::<VaultView, Error>(e),
                    Ok(file) => file.unlocks_as(
                        vstd::utf8::encode_utf8(password),
                        decode,
                        outcome,
                    ),
                }
            },
    }
}

/// Parse and unlock a vault file that has been read.
fn read_and_unlock<P, D>(password: &str, read: Result<Vec<u8>>, parse: P, decode: D) -> (r: Result<
    UnlockedVault,
>) where P: FnOnce(&[u8]) -> Option<VaultFile>, D: FnOnce(&[u8]) -> Option<Vec<Entry>>
    requires
        forall|bytes: &[u8]| parse.requires((bytes,)),
        forall|payload: &[u8]| decode.requires((payload,)),
    ensures
        reads_and_unlocks_as(read, password@, parse, decode, crate::error::viewed(r)),
{
    let bytes = read?;
    let contents = bytes.as_slice();
    let parsed = VaultFile::from_bytes(contents, parse);
    assert(FileView::reads_as(contents, parse, crate::error::viewed(parsed)));
    let file = parsed?;
    file.unlock(password, decode)
}

// ---------------------------------------------------------------------------
// Vault path resolution
// ---------------------------------------------------------------------------

/// The value of an environment variable that names a path.
pub struct EnvPath {
    pub path: PathBuf,
    /// Whether the value is the empty string.
    pub is_empty: bool,
}

/// The vault path: the one that the override variable names, if it is set and
/// not empty, or the default.
pub fn resolve_vault_path(named: Option<EnvPath>, default: PathBuf) -> (path: PathBuf)
    ensures
        path == (match named {
            Some(value) if !value.is_empty => value.path,
            _ => default,
        }),
{
    match named {
        Some(value) => {
            if !value.is_empty {
                value.path
            } else {
                default
            }
        },
        None => default,
    }
}

/// The default vault path: the usual place below the user's directory, if that
/// is known, or a file in the working directory.
pub fn default_vault_path(home: Option<EnvPath>, below_home: PathBuf, fallback: PathBuf) -> (path:
    PathBuf)
    ensures
        path == (match home {
            Some(value) if !value.is_empty => below_home,
            _ => fallback,
        }),
{
    match home {
        Some(value) => {
            if !value.is_empty {
                below_home
            } else {
                fallback
            }
        },
        None => fallback,
    }
}

// ---------------------------------------------------------------------------
// Properties
// ---------------------------------------------------------------------------

/// Locking leaves no entry in sight and no vault in memory, does nothing to the
/// clipboard guard, and changes nothing more when repeated.
pub proof fn locking_hides_everything(app: AppView, now: Instant, later: Instant)
    ensures
        app.locked(now).entries().len() == 0,
        !(app.locked(now).state is Unlocked),
        app.locked(now).clipboard == app.clipboard,
        app.locked(now).vault_path == app.vault_path,
        app.locked(now).locked(later) == app.locked(now),
{
}

/// An operation that fails and reports it leaves the state, the vault path and
/// the clipboard as they were.
pub proof fn a_reported_failure_changes_only_the_message<T>(app: AppView, outcome: Result<T>)
    ensures
        app.reporting(outcome).state == app.state,
        app.reporting(outcome).vault_path == app.vault_path,
        app.reporting(outcome).clipboard == app.clipboard,
        app.reporting(outcome).error == (match outcome {
            Ok(_) => None,
            Err(e) => Some(e.text()),
        }),
{
}

/// A frame never unlocks a vault, and changes the entries in sight only by
/// locking.
pub proof fn a_frame_never_unlocks(app: AppView, events: Seq<InputEvent>, now: Instant)
    ensures
        app.ticked(events, now).state is Unlocked ==> app.state is Unlocked,
        app.ticked(events, now).entries() == app.entries() || app.ticked(
            events,
            now,
        ).entries().len() == 0,
        app.ticked(events, now).clipboard == app.clipboard,
{
}

/// A frame with user activity never locks the vault, and one without locks it
/// exactly when the timeout has been reached.
pub proof fn only_idleness_locks(app: AppView, events: Seq<InputEvent>, now: Instant)
    requires
        app.state is Unlocked,
        app.timeout.nanos > 0,
    ensures
        autolock::has_activity(events) ==> app.ticked(events, now).state == app.state && app.ticked(
            events,
            now,
        ).last_activity == now,
        !autolock::has_activity(events) ==> (app.ticked(events, now).state is Locked <==> now.nanos
            >= app.last_activity.nanos + app.timeout.nanos),
{
}

/// Without a clipboard no copy succeeds, and nothing is retained.
pub proof fn without_a_clipboard_copies_fail(
    app: AppView,
    id: Seq<char>,
    field: Copyable,
    r: Result<()>,
    after: AppView,
)
    requires
        app.clipboard.missing,
        app.copies(id, field, r, after),
    ensures
        r == Err::<(), Error>(Error::Clipboard) || r == Err::<(), Error>(Error::VaultNotFound),
        r == Err::<(), Error>(Error::Clipboard) ==> after.clipboard.secret.len() == 0,
        after.clipboard.deadline == app.clipboard.deadline,
{
}

/// A refused unlocking changes nothing but the message, which is that of the
/// error: the vault stays locked and no entry comes in sight.
pub proof fn refused_unlocking_changes_only_the_message<P, D>(
    app: AppView,
    password: Seq<char>,
    read: Result<Vec<u8>>,
    parse: P,
    decode: D,
    error: Error,
    after: AppView,
) where P: FnOnce(&[u8]) -> Option<VaultFile>, D: FnOnce(&[u8]) -> Option<Vec<Entry>>
    requires
        app.unlocks_as(password, read, parse, decode, Err(error), after),
    ensures
        after == (AppView { error: Some(error.text()), ..app }),
        !(after.state is Unlocked),
        after.entries().len() == 0,
{
}

/// A wrong password, or a vault that was tampered with, is answered with one
/// fixed message and nothing else.
pub proof fn wrong_password_is_answered_opaquely<P, D>(
    app: AppView,
    file: FileView,
    password: Seq<char>,
    contents: Vec<u8>,
    parse: P,
    decode: D,
    r: Result<()>,
    after: AppView,
) where P: FnOnce(&[u8]) -> Option<VaultFile>, D: FnOnce(&[u8]) -> Option<Vec<Entry>>
    requires
        app.state is Locked,
        holds(contents, parse, file),
        file.withstands(vstd::utf8::encode_utf8(password)),
        app.unlocks_as(password, Ok(contents), parse, decode, r, after),
    ensures
        r == Err::<(), Error>(Error::Authentication),
        after == (AppView { error: Some("authentication failed"@), ..app }),
{
}

/// Whether `contents` is a vault file that `parse` reads as `file`.
pub open spec fn holds<P: FnOnce(&[u8]) -> Option<VaultFile>>(
    contents: Vec<u8>,
    parse: P,
    file: FileView,
) -> bool {
    &&& 0 < contents@.len() <= vault::MAX_VAULT_FILE_BYTES
    &&& forall|bytes: &[u8], parsed: Option<VaultFile>|
        bytes@ == contents@ && #[trigger] parse.ensures((bytes,), parsed)
            ==> crate::error::viewed_option(parsed) == Some(file)
}

/// What was saved comes back: the file of a save request, read by a locked
/// application with the password of the vault, opens to the vault as it was.
///
/// The JSON must be read by the inverse of what wrote it: `parse` must give back
/// the file, and `decode` the entries.
pub proof fn saved_vault_comes_back<E, P, D>(
    vault: VaultView,
    path: PathBuf,
    encode: E,
    request: SaveView,
    locked: AppView,
    password: Seq<char>,
    contents: Vec<u8>,
    parse: P,
    decode: D,
    r: Result<()>,
    after: AppView,
) where
    E: FnOnce(&[Entry]) -> Option<Vec<u8>>,
    P: FnOnce(&[u8]) -> Option<VaultFile>,
    D: FnOnce(&[u8]) -> Option<Vec<Entry>>,

    requires
        vault.is_opened_by(vstd::utf8::encode_utf8(password)),
        crate::entry::valid_entries(vault.entries),
        saves_as(vault, path, encode, Ok(request)),
        locked.state is Locked,
        holds(contents, parse, request.file),
        vault::inverse(encode, decode),
        locked.unlocks_as(password, Ok(contents), parse, decode, r, after),
    ensures
        r == Ok::<(), Error>(()),
        after.state == (StateView::Unlocked { path: locked.state->Locked_path, vault }),
{
    let bytes_of_password = vstd::utf8::encode_utf8(password);
    let sealed = choose|sealed: Result<FileView>| #[trigger]
        vault.seals_as(encode, sealed) && Ok::<SaveView, Error>(request) == requested(path, sealed);
    vault::sealed_file_is_valid(vault, encode, request.file, bytes_of_password);
    let outcome = choose|outcome: Result<VaultView>|
        {
            &&& #[trigger] reads_and_unlocks_as(Ok(contents), password, parse, decode, outcome)
            &&& locked.unlock_finished(locked.state->Locked_path, outcome, r, after)
        };
    vault::sealed_vault_comes_back(
        vault,
        encode,
        request.file,
        bytes_of_password,
        decode,
        outcome,
    );
}

/// An entry that was added and saved is there after locking and unlocking,
/// behind the entries that were there before.
pub proof fn added_entry_comes_back<E, P, D>(
    app: AppView,
    entry: EntryView,
    encode: E,
    request: SaveView,
    saved: AppView,
    locked: AppView,
    password: Seq<char>,
    contents: Vec<u8>,
    parse: P,
    decode: D,
    r: Result<()>,
    after: AppView,
) where
    E: FnOnce(&[Entry]) -> Option<Vec<u8>>,
    P: FnOnce(&[u8]) -> Option<VaultFile>,
    D: FnOnce(&[u8]) -> Option<Vec<Entry>>,

    requires
        app.state is Unlocked,
        app.state->vault.is_opened_by(vstd::utf8::encode_utf8(password)),
        crate::entry::valid_entries(app.entries()),
        app.adds_as(entry, encode, Ok(request), saved),
        locked.state is Locked,
        holds(contents, parse, request.file),
        vault::inverse(encode, decode),
        locked.unlocks_as(password, Ok(contents), parse, decode, r, after),
    ensures
        r == Ok::<(), Error>(()),
        after.entries() == app.entries().push(entry),
{
    let before = app.state->vault;
    let added = before.with_entries(before.entries.push(entry));
    vault::adding_keeps_entries_valid(before, entry);
    vault::editing_keeps_the_password(before, added.entries, vstd::utf8::encode_utf8(password));
    saved_vault_comes_back(
        added,
        app.state->Unlocked_path,
        encode,
        request,
        locked,
        password,
        contents,
        parse,
        decode,
        r,
        after,
    );
}

/// An entry that was replaced and saved is the new one after locking and
/// unlocking, in its old place, and every other entry is as it was.
pub proof fn updated_entry_comes_back<E, P, D>(
    app: AppView,
    entry: EntryView,
    encode: E,
    request: SaveView,
    saved: AppView,
    locked: AppView,
    password: Seq<char>,
    contents: Vec<u8>,
    parse: P,
    decode: D,
    r: Result<()>,
    after: AppView,
) where
    E: FnOnce(&[Entry]) -> Option<Vec<u8>>,
    P: FnOnce(&[u8]) -> Option<VaultFile>,
    D: FnOnce(&[u8]) -> Option<Vec<Entry>>,

    requires
        app.state is Unlocked,
        app.state->vault.is_opened_by(vstd::utf8::encode_utf8(password)),
        crate::entry::valid_entries(app.entries()),
        app.updates_as(entry, encode, Ok(Some(request)), saved),
        locked.state is Locked,
        holds(contents, parse, request.file),
        vault::inverse(encode, decode),
        locked.unlocks_as(password, Ok(contents), parse, decode, r, after),
    ensures
        r == Ok::<(), Error>(()),
        exists|i: int| #[trigger]
            crate::entry::is_first(app.entries(), entry.id, i) && after.entries()
                == app.entries().update(i, entry),
{
    let before = app.state->vault;
    let path = app.state->Unlocked_path;
    let (i, outcome) = choose|i: int, outcome: Result<SaveView>|
        {
            &&& before.is_first(entry.id, i)
            &&& saved == app.holding(before.updated(i, entry))
            &&& #[trigger] saves_as(before.updated(i, entry), path, encode, outcome)
            &&& Ok::<Option<SaveView>, Error>(Some(request)) == needed(outcome)
        };
    let updated = before.updated(i, entry);
    vault::updating_keeps_entries_valid(before, entry, i);
    vault::editing_keeps_the_password(before, updated.entries, vstd::utf8::encode_utf8(password));
    saved_vault_comes_back(
        updated,
        path,
        encode,
        request,
        locked,
        password,
        contents,
        parse,
        decode,
        r,
        after,
    );
    assert(crate::entry::is_first(app.entries(), entry.id, i));
}

/// An entry that was removed and saved is gone after locking and unlocking, and
/// every other entry is there.
pub proof fn removed_entry_stays_away<E, P, D>(
    app: AppView,
    id: Seq<char>,
    encode: E,
    request: SaveView,
    saved: AppView,
    locked: AppView,
    password: Seq<char>,
    contents: Vec<u8>,
    parse: P,
    decode: D,
    r: Result<()>,
    after: AppView,
) where
    E: FnOnce(&[Entry]) -> Option<Vec<u8>>,
    P: FnOnce(&[u8]) -> Option<VaultFile>,
    D: FnOnce(&[u8]) -> Option<Vec<Entry>>,

    requires
        app.state is Unlocked,
        app.state->vault.is_opened_by(vstd::utf8::encode_utf8(password)),
        crate::entry::valid_entries(app.entries()),
        app.removes_as(id, encode, Ok(Some(request)), saved),
        locked.state is Locked,
        holds(contents, parse, request.file),
        vault::inverse(encode, decode),
        locked.unlocks_as(password, Ok(contents), parse, decode, r, after),
    ensures
        r == Ok::<(), Error>(()),
        !crate::entry::has_id(after.entries(), id),
        forall|e: EntryView|
            app.entries().contains(e) && e.id != id <==> #[trigger] after.entries().contains(e),
{
    let before = app.state->vault;
    let path = app.state->Unlocked_path;
    let remaining = before.without(id);
    vault::removing_keeps_entries_valid(before, id);
    vault::editing_keeps_the_password(before, remaining.entries, vstd::utf8::encode_utf8(password));
    saved_vault_comes_back(
        remaining,
        path,
        encode,
        request,
        locked,
        password,
        contents,
        parse,
        decode,
        r,
        after,
    );
}

impl AppView {
    /// Whether an unlocked vault is one that the password (as UTF-8 bytes) opens
    /// again, and its entries may stand in a vault.
    pub open spec fn guarded_by(self, password: Seq<u8>) -> bool {
        self.state matches StateView::Unlocked { path, vault } ==> vault.is_opened_by(password)
            && crate::entry::valid_entries(vault.entries)
    }
}

/// A vault that was unlocked with a password is guarded by that password.
pub proof fn unlocking_guards_the_vault<P, D>(
    app: AppView,
    password: Seq<char>,
    read: Result<Vec<u8>>,
    parse: P,
    decode: D,
    r: Result<()>,
    after: AppView,
) where P: FnOnce(&[u8]) -> Option<VaultFile>, D: FnOnce(&[u8]) -> Option<Vec<Entry>>
    requires
        app.state is Locked,
        app.unlocks_as(password, read, parse, decode, r, after),
    ensures
        after.guarded_by(vstd::utf8::encode_utf8(password)),
        r is Ok <==> after.state is Unlocked,
{
    if r is Ok {
        let outcome = choose|outcome: Result<VaultView>|
            {
                &&& #[trigger] reads_and_unlocks_as(read, password, parse, decode, outcome)
                &&& app.unlock_finished(app.state->Locked_path, outcome, r, after)
            };
        let (bytes, file) = choose|bytes: &[u8], file: Result<FileView>|
            {
                &&& bytes@ == read->Ok_0@
                &&& #[trigger] FileView::reads_as(bytes, parse, file)
                &&& match file {
                    Err(e) => outcome == Err::<VaultView, Error>(e),
                    Ok(file) => file.unlocks_as(vstd::utf8::encode_utf8(password), decode, outcome),
                }
            };
        let (payload, decoded) = choose|payload: &[u8], decoded: Option<Vec<Entry>>|
            {
                &&& payload@ == file->Ok_0.opened(vstd::utf8::encode_utf8(password))->Ok_0.1
                &&& #[trigger] decode.ensures((payload,), decoded)
                &&& outcome == file->Ok_0.unlocked(
                    file->Ok_0.opened(vstd::utf8::encode_utf8(password))->Ok_0.0,
                    vault::decoded_views(decoded),
                )
            };
        vault::unlocked_vault_can_be_opened_again(
            file->Ok_0,
            vstd::utf8::encode_utf8(password),
            vault::decoded_views(decoded),
        );
    }
}

/// A vault that was created with a password is guarded by that password once it
/// is stored.
pub proof fn creating_guards_the_vault(
    app: AppView,
    file: FileView,
    vault: VaultView,
    password: Seq<u8>,
    now: Instant,
)
    requires
        file.opens_empty(password, vault),
    ensures
        app.entering(StateView::Unlocked { path: app.vault_path, vault }, now).guarded_by(password),
{
    vault::new_vault_can_be_opened_again(file, password, vault);
}

/// No change of the entries takes the guard from a vault, whether or not it can
/// be sealed then.
pub proof fn editing_keeps_the_vault_guarded<E: FnOnce(&[Entry]) -> Option<Vec<u8>>>(
    app: AppView,
    password: Seq<u8>,
    entry: EntryView,
    id: Seq<char>,
    encode: E,
    request: Result<SaveView>,
    outcome: Result<Option<SaveView>>,
    after: AppView,
)
    requires
        app.guarded_by(password),
        app.adds_as(entry, encode, request, after) || app.updates_as(entry, encode, outcome, after)
            || app.removes_as(id, encode, outcome, after),
    ensures
        after.guarded_by(password),
        after.state is Unlocked <==> app.state is Unlocked,
{
    if app.state is Unlocked {
        let vault = app.state->vault;
        vault::removing_keeps_entries_valid(vault, id);
        if vault.accepts(entry) {
            vault::adding_keeps_entries_valid(vault, entry);
        }
        assert forall|i: int| entry.valid() && vault.is_first(entry.id, i) implies
            crate::entry::valid_entries(#[trigger] vault.updated(i, entry).entries) by {
            vault::updating_keeps_entries_valid(vault, entry, i);
        }
    }
}

/// Neither a frame nor locking takes the guard from a vault.
pub proof fn frames_keep_the_vault_guarded(
    app: AppView,
    password: Seq<u8>,
    events: Seq<InputEvent>,
    now: Instant,
)
    requires
        app.guarded_by(password),
    ensures
        app.ticked(events, now).guarded_by(password),
        app.locked(now).guarded_by(password),
{
}

/// The frames that the program draws lock and clear on time: each acts on one
/// reading of the timer's clock and one of the clipboard guard's. Without user
/// activity an unlocked vault is locked exactly when the first reading is the
/// timeout past the last activity; the clipboard is polled at the second.
pub proof fn a_frame_locks_and_clears_on_time(
    app: AppView,
    events: Seq<InputEvent>,
    after: AppView,
)
    requires
        app.frames(events, after),
    ensures
        exists|now: Instant|
            {
                &&& #[trigger] app.timer.shows(now)
                &&& app.state is Unlocked && app.timeout.nanos > 0 && !autolock::has_activity(
                    events,
                ) ==> (after.state is Locked <==> now.nanos >= app.last_activity.nanos
                    + app.timeout.nanos)
                &&& app.state is Unlocked && app.timeout.nanos > 0 && autolock::has_activity(events)
                    ==> after.state == app.state && after.last_activity == now
            },
        exists|now: Instant| #[trigger]
            app.clipboard.clock.shows(now) && app.clipboard.polled(after.clipboard, now),
{
    let (clipboard, clipboard_now, now) = choose|
        clipboard: GuardView,
        clipboard_now: Instant,
        now: Instant,
    |
        {
            &&& app.clipboard.clock.shows(clipboard_now)
            &&& app.timer.shows(now)
            &&& #[trigger] app.clipboard.polled(clipboard, clipboard_now)
            &&& after == #[trigger] app.with_clipboard(clipboard).ticked(events, now)
        };
    assert(app.timer.shows(now));
    assert(app.clipboard.clock.shows(clipboard_now) && app.clipboard.polled(
        after.clipboard,
        clipboard_now,
    ));
}

/// What was saved can be opened again: the file of a save request opens with the
/// password of the vault to exactly the payload that `encode` made of the
/// entries.
pub proof fn saved_vault_opens_again<E: FnOnce(&[Entry]) -> Option<Vec<u8>>>(
    vault: VaultView,
    path: PathBuf,
    encode: E,
    request: SaveView,
    password: Seq<u8>,
)
    requires
        saves_as(vault, path, encode, Ok(request)),
        vault.is_opened_by(password),
    ensures
        request.path == path,
        exists|entries: &[Entry], payload: Vec<u8>|
            {
                &&& crate::entry::entry_views(entries@) == vault.entries
                &&& #[trigger] encode.ensures((entries,), Some(payload))
                &&& request.file.opened(password) == Ok::<(Seq<u8>, Seq<u8>), Error>(
                    (vault.vault_key, payload@),
                )
            },
{
    let sealed = choose|sealed: Result<FileView>| #[trigger]
        vault.seals_as(encode, sealed) && Ok::<SaveView, Error>(request) == requested(path, sealed);
    let (entries, encoded) = choose|entries: &[Entry], encoded: Option<Vec<u8>>|
        {
            &&& crate::entry::entry_views(entries@) == vault.entries
            &&& #[trigger] encode.ensures((entries,), encoded)
            &&& match encoded {
                None => sealed == Err::<FileView, Error>(Error::VaultFormat),
                Some(payload) => vault.seals_payload_as(payload@, sealed),
            }
        };
    let payload = encoded->0;
    vault::sealed_vault_opens(vault, request.file, payload@, password);
    assert(encode.ensures((entries,), Some(payload)));
}

/// There is a key in memory exactly while the vault is unlocked, and it is the key
/// of that vault.
pub proof fn the_key_is_that_of_the_unlocked_vault(app: App)
    ensures
        app.key() is Some <==> app@.state is Unlocked,
        app.key() matches Some(key) ==> key@ == app@.state->vault.vault_key,
{
    if let AppState::Unlocked { path, vault } = app.state {
        vault::the_key_buffer_holds_the_key(vault);
    }
}

} // verus!
