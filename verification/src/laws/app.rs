//! What the application does with the vault.

use std::path::PathBuf;

use vstd::prelude::*;

use crate::app;
use crate::app::{
    App, AppState, AppView, Copyable, EnvPath, NewVault, NewVaultView, SaveRequest, SaveView,
    StateView,
};
use crate::autolock::InputEvent;
use crate::clipboard::{ClipboardCall, ClipboardGuard, GuardView};
use crate::clock::Instant;
use crate::entry;
use crate::entry::{Entry, EntryView};
use crate::error::{Error, Result};
use crate::vault::{FileView, VaultFile, VaultView};

use super::timer;

verus! {

/// What is handed in and out is seen as it stands.
pub proof fn requests_are_their_fields(request: SaveRequest, new: NewVault, state: AppState)
    ensures
        request@.path == request.path,
        request@.file == request.file@,
        new@.file == new.file@,
        new@.vault == new.vault@,
        state is NoVault <==> state@ is NoVault,
        state matches AppState::Locked { path } ==> state@ == (StateView::Locked { path }),
        state matches AppState::Unlocked { path, vault } ==> state@ == (StateView::Unlocked {
            path,
            vault: vault@,
        }),
{
}

/// A vault is created only with a password of at least twelve characters that
/// was typed twice the same, and only where none is yet. Anything else is
/// answered with the reason, the length first, then the second typing, then the
/// vault that is there.
pub proof fn a_vault_is_created_only_with_a_confirmed_password(
    password: Seq<char>,
    confirm: Seq<char>,
    vault_exists: bool,
    outcome: Result<NewVaultView>,
)
    requires
        AppView::creates(password, confirm, vault_exists, outcome),
    ensures
        password.len() < 12 ==> outcome == Err::<NewVaultView, Error>(
            Error::PasswordTooShort { min: 12 },
        ),
        password.len() >= 12 && password != confirm ==> outcome == Err::<NewVaultView, Error>(
            Error::PasswordMismatch,
        ),
        password.len() >= 12 && password == confirm && vault_exists ==> outcome == Err::<
            NewVaultView,
            Error,
        >(Error::VaultAlreadyExists),
        outcome is Ok ==> password == confirm && password.len() >= 12 && !vault_exists,
        outcome matches Err(e) ==> (password == confirm && password.len() >= 12 && !vault_exists
            ==> (e == Error::Crypto && (crate::crypto::refused::<16>() || crate::crypto::refused::<
            32,
        >() || crate::crypto::refused::<12>())) || (e == Error::KeyDerivation
            && vstd::utf8::encode_utf8(password).len() > 0xFFFF_FFFF)),
{
}

/// A created vault is empty, and its file opens with exactly the password that
/// was typed, to the key that the vault holds.
pub proof fn a_created_vault_opens_with_its_password(
    password: Seq<char>,
    confirm: Seq<char>,
    vault_exists: bool,
    new: NewVaultView,
)
    requires
        AppView::creates(password, confirm, vault_exists, Ok(new)),
    ensures
        new.vault.entries.len() == 0,
        new.file.version == 1,
        new.file.defect() is None,
        new.file.opened(vstd::utf8::encode_utf8(password)) == Ok::<(Seq<u8>, Seq<u8>), Error>(
            (new.vault.vault_key, seq![91u8, 93]),
        ),
        crate::crypto::given::<32>(new.vault.vault_key),
{
    super::vault::the_format_has_these_limits();
}

/// The variable that names the vault path.
pub proof fn the_path_is_named_by()
    ensures
        app::VAULT_PATH_ENV@ == "OFFLINE_VAULT_PATH"@,
        app::MIN_MASTER_PASSWORD_LEN == 12,
{
}

/// The outcome of an operation becomes the message, and nothing else changes.
pub proof fn reporting_sets_the_message<T>(app: AppView, outcome: Result<T>)
    ensures
        outcome is Ok ==> app.reporting(outcome).error is None,
        outcome matches Err(e) ==> app.reporting(outcome).error == Some(e.text()),
        app.reporting(outcome).state == app.state,
        app.reporting(outcome).vault_path == app.vault_path,
        app.reporting(outcome).clipboard == app.clipboard,
        app.reporting(outcome).timer == app.timer,
        app.reporting(outcome).timeout == app.timeout,
        app.reporting(outcome).last_activity == app.last_activity,
{
}

/// Entering a state counts as activity, and changes nothing else.
pub proof fn entering_counts_as_activity(app: AppView, state: StateView, now: Instant)
    ensures
        app.entering(state, now).state == state,
        app.entering(state, now).last_activity == now,
        app.entering(state, now).error == app.error,
        app.entering(state, now).vault_path == app.vault_path,
        app.entering(state, now).clipboard == app.clipboard,
        app.entering(state, now).timer == app.timer,
        app.entering(state, now).timeout == app.timeout,
{
}

/// A changed vault or clipboard guard takes the place of the old one, and nothing
/// else changes.
pub proof fn replacing_a_part_keeps_the_rest(
    app: AppView,
    vault: VaultView,
    clipboard: GuardView,
)
    ensures
        app.with_clipboard(clipboard).clipboard == clipboard,
        app.with_clipboard(clipboard) == (AppView { clipboard, ..app }),
        app.state matches StateView::Unlocked { path, vault: _ } ==> app.holding(vault) == (
        AppView { state: StateView::Unlocked { path, vault }, ..app }),
        !(app.state is Unlocked) ==> app.holding(vault) == app,
        app.state matches StateView::Unlocked { path: _, vault: shown } ==> app.entries()
            == shown.entries,
        !(app.state is Unlocked) ==> app.entries().len() == 0,
{
}

/// Locking an unlocked vault leaves its path and nothing of the vault, counts as
/// activity and clears the message. Anything else only loses its message.
pub proof fn locking_keeps_only_the_path(app: AppView, now: Instant)
    ensures
        app.state matches StateView::Unlocked { path, vault: _ } ==> app.locked(now) == (AppView {
            state: StateView::Locked { path },
            last_activity: now,
            error: None,
            ..app
        }),
        !(app.state is Unlocked) ==> app.locked(now) == (AppView { error: None, ..app }),
{
}

/// A frame leaves a vault that is not unlocked alone. On an unlocked one, user
/// input restarts the timer; without any, the vault is locked if the timeout has
/// passed since the last activity, and otherwise nothing changes.
pub proof fn a_frame_locks_only_idle_vaults(
    app: AppView,
    events: Seq<InputEvent>,
    now: Instant,
)
    ensures
        ({
            let input = exists|i: int|
                0 <= i < events.len() && timer::is_input(#[trigger] events[i]);
            let after = app.ticked(events, now);
            &&& !(app.state is Unlocked) ==> after == app
            &&& app.state is Unlocked && input && app.timeout.nanos > 0 ==> after == (AppView {
                last_activity: now,
                ..app
            })
            &&& app.state is Unlocked && !input && app.timeout.nanos > 0 && now.nanos
                < app.last_activity.nanos + app.timeout.nanos ==> after == app
            &&& app.state matches StateView::Unlocked { path, vault: _ } ==> (!input && now.nanos
                >= app.last_activity.nanos + app.timeout.nanos ==> after == (AppView {
                state: StateView::Locked { path },
                last_activity: now,
                error: None,
                ..app
            }))
            &&& app.state is Unlocked && app.timeout.nanos == 0 ==> after.state is Locked
        }),
{
    timer::activity_is_input(InputEvent::Other, events);
}

/// What a frame does to the clipboard guard is a poll, and what it does to the
/// rest is the timer's work, each at a reading of its own clock.
pub proof fn a_frame_polls_and_ticks(app: AppView, events: Seq<InputEvent>, after: AppView)
    requires
        app.frames(events, after),
    ensures
        exists|clipboard_now: Instant, now: Instant|
            {
                &&& #[trigger] app.clipboard.clock.shows(clipboard_now)
                &&& #[trigger] app.timer.shows(now)
                &&& app.clipboard.polled(after.clipboard, clipboard_now)
                &&& after == (AppView {
                    clipboard: after.clipboard,
                    ..app.ticked(events, now)
                })
            },
{
    let (clipboard, clipboard_now, now) = choose|
        clipboard: GuardView,
        clipboard_now: Instant,
        now: Instant,
    |
        {
            &&& app.clipboard.clock.shows(clipboard_now)
            &&& app.timer.shows(now)
            &&& #[trigger] app.clipboard.polled(clipboard, clipboard_now)
            &&& after == #[trigger] app.with_clipboard(clipboard).ticked(events, now)
        };
    assert(app.clipboard.clock.shows(clipboard_now));
    assert(app.timer.shows(now));
}

/// Whether `i` is the first place of an entry with this id.
pub open spec fn first_at(entries: Seq<EntryView>, id: Seq<char>, i: int) -> bool {
    &&& 0 <= i < entries.len()
    &&& entries[i].id == id
    &&& forall|j: int| 0 <= j < i ==> (#[trigger] entries[j]).id != id
}

/// Copying the password hands the password of the first entry with the id to the
/// clipboard, copying the username hands over its username, and retains exactly
/// that. Without such an entry nothing happens, and the answer is that there is
/// no vault.
pub proof fn copying_hands_over_the_field(
    app: AppView,
    id: Seq<char>,
    field: Copyable,
    r: Result<()>,
    after: AppView,
)
    requires
        app.copies(id, field, r, after),
    ensures
        after == (AppView { clipboard: after.clipboard, ..app }),
        entry::has_id(app.entries(), id) ==> exists|i: int|
            {
                let value = if field is Password {
                    app.entries()[i].password
                } else {
                    app.entries()[i].username
                };
                &&& #[trigger] first_at(app.entries(), id, i)
                &&& after.clipboard.history == app.clipboard.history.push(
                    ClipboardCall::SetText { text: value, outcome: r },
                )
                &&& r is Ok ==> after.clipboard.secret == vstd::utf8::encode_utf8(value)
                    && after.clipboard.deadline is Some
                &&& r is Err ==> after.clipboard.secret.len() == 0 && after.clipboard.deadline
                    == app.clipboard.deadline
            },
        entry::has_id(app.entries(), id) && app.clipboard.missing ==> r == Err::<(), Error>(
            Error::Clipboard,
        ),
        !entry::has_id(app.entries(), id) ==> after == app && r == Err::<(), Error>(
            Error::VaultNotFound,
        ),
{
    if entry::has_id(app.entries(), id) {
        assert(app.state is Unlocked);
        let (i, now) = choose|i: int, now: Instant|
            {
                &&& app.clipboard.clock.shows(now)
                &&& app.clipboard.answers(r)
                &&& app.state->vault.is_first(id, i)
                &&& after == app.with_clipboard(
                    #[trigger] app.clipboard.copied(
                        field.of(app.state->vault.entries[i]),
                        r,
                        now,
                    ),
                )
            };
        assert(first_at(app.entries(), id, i));
    }
}

/// Whether an entry may be added to these: it is valid, no other has its id, and
/// there is room.
pub open spec fn may_join(entries: Seq<EntryView>, e: EntryView) -> bool {
    &&& e.valid()
    &&& entries.len() < 100_000
    &&& forall|i: int| 0 <= i < entries.len() ==> (#[trigger] entries[i]).id != e.id
}

/// An added entry stands behind the others, which stay as they were, and the
/// request is to write the vault with it to the path that it came from. An entry
/// that may not be added, or a vault that is not unlocked, leaves everything as
/// it was.
pub proof fn adding_appends<E: FnOnce(&[Entry]) -> Option<Vec<u8>>>(
    app: AppView,
    e: EntryView,
    encode: E,
    outcome: Result<SaveView>,
    after: AppView,
)
    requires
        app.adds_as(e, encode, outcome, after),
    ensures
        !(app.state is Unlocked) ==> after == app && outcome == Err::<SaveView, Error>(
            Error::VaultNotFound,
        ),
        app.state is Unlocked && !may_join(app.entries(), e) ==> after == app && outcome == Err::<
            SaveView,
            Error,
        >(Error::InvalidEntry),
        app.state matches StateView::Unlocked { path, vault } ==> (may_join(app.entries(), e) ==> {
            let added = VaultView { entries: app.entries().push(e), ..vault };
            &&& after == (AppView { state: StateView::Unlocked { path, vault: added }, ..app })
            &&& outcome matches Ok(request) ==> request.path == path && added.seals_as(
                encode,
                Ok(request.file),
            )
            &&& outcome matches Err(error) ==> added.seals_as(encode, Err(error))
        }),
{
}

/// A replaced entry stands in the first place that its id had, every other entry
/// stays, and the request is to write that vault to the path that it came from.
/// If no entry has the id there is nothing to write.
pub proof fn updating_replaces<E: FnOnce(&[Entry]) -> Option<Vec<u8>>>(
    app: AppView,
    e: EntryView,
    encode: E,
    outcome: Result<Option<SaveView>>,
    after: AppView,
)
    requires
        app.updates_as(e, encode, outcome, after),
    ensures
        !(app.state is Unlocked) ==> after == app && outcome == Err::<Option<SaveView>, Error>(
            Error::VaultNotFound,
        ),
        app.state is Unlocked && !e.valid() ==> after == app && outcome == Err::<
            Option<SaveView>,
            Error,
        >(Error::InvalidEntry),
        app.state is Unlocked && e.valid() && !entry::has_id(app.entries(), e.id) ==> after == app
            && outcome == Ok::<Option<SaveView>, Error>(None),
        app.state matches StateView::Unlocked { path, vault } ==> (e.valid() && entry::has_id(
            app.entries(),
            e.id,
        ) ==> exists|i: int|
            {
                let updated = VaultView { entries: app.entries().update(i, e), ..vault };
                &&& #[trigger] first_at(app.entries(), e.id, i)
                &&& after == (AppView {
                    state: StateView::Unlocked { path, vault: updated },
                    ..app
                })
                &&& outcome matches Ok(request) ==> (request matches Some(save) && save.path == path
                    && updated.seals_as(encode, Ok(save.file)))
                &&& outcome matches Err(error) ==> updated.seals_as(encode, Err(error))
            }),
{
    if app.state is Unlocked && e.valid() && entry::has_id(app.entries(), e.id) {
        let vault = app.state->vault;
        let path = app.state->Unlocked_path;
        let (i, saved) = choose|i: int, saved: Result<SaveView>|
            {
                &&& vault.is_first(e.id, i)
                &&& after == app.holding(vault.updated(i, e))
                &&& #[trigger] app::saves_as(vault.updated(i, e), path, encode, saved)
                &&& outcome == app::needed(saved)
            };
        assert(first_at(app.entries(), e.id, i));
    }
}

/// After a removal no entry has the id, every other one is there, in the same
/// order, and the request is to write that vault to the path that it came from.
/// If no entry had the id there is nothing to write.
pub proof fn removing_takes_out<E: FnOnce(&[Entry]) -> Option<Vec<u8>>>(
    app: AppView,
    id: Seq<char>,
    encode: E,
    outcome: Result<Option<SaveView>>,
    after: AppView,
)
    requires
        app.removes_as(id, encode, outcome, after),
    ensures
        !(app.state is Unlocked) ==> after == app && outcome == Err::<Option<SaveView>, Error>(
            Error::VaultNotFound,
        ),
        app.state matches StateView::Unlocked { path, vault } ==> {
            let kept = VaultView { entries: vault.without(id).entries, ..vault };
            &&& after == (AppView { state: StateView::Unlocked { path, vault: kept }, ..app })
            &&& !entry::has_id(app.entries(), id) ==> outcome == Ok::<Option<SaveView>, Error>(None)
            &&& entry::has_id(app.entries(), id) ==> {
                &&& outcome matches Ok(request) ==> (request matches Some(save) && save.path == path
                    && kept.seals_as(encode, Ok(save.file)))
                &&& outcome matches Err(error) ==> kept.seals_as(encode, Err(error))
            }
        },
        !entry::has_id(after.entries(), id),
        forall|e: EntryView|
            app.entries().contains(e) && e.id != id <==> #[trigger] after.entries().contains(e),
{
    if app.state is Unlocked {
        let entries = app.state->vault.entries;
        filtering_takes_out(entries, id);
        let kept = app.state->vault.without(id).entries;
        if entry::has_id(kept, id) {
            let i = choose|i: int| 0 <= i < kept.len() && (#[trigger] kept[i]).id == id;
            assert(kept.contains(kept[i]));
        }
    }
}

/// The induction behind removal.
proof fn filtering_takes_out(entries: Seq<EntryView>, id: Seq<char>)
    ensures
        ({
            let kept = entries.filter(|e: EntryView| e.id != id);
            forall|e: EntryView|
                entries.contains(e) && e.id != id <==> #[trigger] kept.contains(e)
        }),
    decreases entries.len(),
{
    let keep = |e: EntryView| e.id != id;
    reveal(Seq::filter);
    let kept = entries.filter(keep);
    if entries.len() > 0 {
        let shorter = entries.drop_last();
        filtering_takes_out(shorter, id);
        let before = shorter.filter(keep);
        let last = entries.last();
        assert(kept == if keep(last) {
            before.push(last)
        } else {
            before
        });
        assert forall|e: EntryView| entries.contains(e) && e.id != id <==> #[trigger] kept.contains(
            e,
        ) by {
            if entries.contains(e) && e.id != id {
                let j = choose|j: int| 0 <= j < entries.len() && entries[j] == e;
                if j < shorter.len() {
                    assert(shorter[j] == e);
                    assert(before.contains(e));
                    let k = choose|k: int| 0 <= k < before.len() && before[k] == e;
                    assert(kept[k] == e);
                } else {
                    assert(kept[before.len() as int] == e);
                }
            }
            if kept.contains(e) {
                let k = choose|k: int| 0 <= k < kept.len() && kept[k] == e;
                if k < before.len() {
                    assert(before.contains(before[k]));
                    let j = choose|j: int| 0 <= j < shorter.len() && shorter[j] == e;
                    assert(entries[j] == e);
                } else {
                    assert(entries[entries.len() - 1] == e);
                }
            }
        }
    } else {
        assert(kept =~= Seq::empty());
    }
}

/// Sealing for a path asks for that path, with the file that the vault is sealed
/// to, or reports why it could not be.
pub proof fn a_save_goes_to_its_path<E: FnOnce(&[Entry]) -> Option<Vec<u8>>>(
    vault: VaultView,
    path: PathBuf,
    encode: E,
    outcome: Result<SaveView>,
)
    requires
        app::saves_as(vault, path, encode, outcome),
    ensures
        outcome matches Ok(request) ==> request.path == path && vault.seals_as(
            encode,
            Ok(request.file),
        ),
        outcome matches Err(e) ==> vault.seals_as(encode, Err(e)),
        outcome matches Ok(request) ==> app::needed(outcome) == Ok::<Option<SaveView>, Error>(
            Some(request),
        ),
        outcome matches Err(e) ==> app::needed(outcome) == Err::<Option<SaveView>, Error>(e),
{
}

/// A locked vault is unlocked exactly with what the file that was read opens to:
/// it is parsed from what was read, opened by exactly the password that was
/// typed, and its entries are what its payload decodes to. Everything else stays,
/// but for the timer and the message.
pub proof fn unlocking_shows_what_the_file_holds<P, D>(
    app: AppView,
    password: Seq<char>,
    read: Result<Vec<u8>>,
    parse: P,
    decode: D,
    after: AppView,
) where P: FnOnce(&[u8]) -> Option<VaultFile>, D: FnOnce(&[u8]) -> Option<Vec<Entry>>
    requires
        app.state is Locked,
        app.unlocks_as(password, read, parse, decode, Ok(()), after),
    ensures
        read is Ok,
        after.state is Unlocked,
        after.state->Unlocked_path == app.state->Locked_path,
        app.timer.shows(after.last_activity),
        after == (AppView {
            state: after.state,
            last_activity: after.last_activity,
            error: None,
            ..app
        }),
        exists|bytes: &[u8], file: VaultFile|
            {
                let opened = file@.opened(vstd::utf8::encode_utf8(password));
                &&& bytes@ == read->Ok_0@
                &&& #[trigger] parse.ensures((bytes,), Some(file))
                &&& file@.defect() is None
                &&& opened is Ok
                &&& after.state->vault.vault_key == opened->Ok_0.0
                &&& after.state->vault.wrapped_key == file@.wrapped_key
                &&& after.state->vault.kdf == file@.kdf
                &&& after.state->vault.version == file@.version
                &&& exists|payload: &[u8], entries: Vec<Entry>|
                    {
                        &&& payload@ == opened->Ok_0.1
                        &&& #[trigger] decode.ensures((payload,), Some(entries))
                        &&& after.entries() == entry::entry_views(entries@)
                    }
            },
{
    let outcome = choose|outcome: Result<VaultView>|
        {
            &&& #[trigger] app::reads_and_unlocks_as(read, password, parse, decode, outcome)
            &&& app.unlock_finished(app.state->Locked_path, outcome, Ok(()), after)
        };
    let (bytes, file) = choose|bytes: &[u8], file: Result<FileView>|
        {
            &&& bytes@ == read->Ok_0@
            &&& #[trigger] FileView::reads_as(bytes, parse, file)
            &&& match file {
                Err(e) => outcome == Err::<VaultView, Error>(e),
                Ok(file) => file.unlocks_as(vstd::utf8::encode_utf8(password), decode, outcome),
            }
        };
    super::vault::reading_gives_what_was_parsed(bytes, parse, file);
    super::vault::unlocking_gives_the_entries(
        file->Ok_0,
        vstd::utf8::encode_utf8(password),
        decode,
        outcome,
    );
    let parsed = choose|parsed: VaultFile| #[trigger]
        parse.ensures((bytes,), Some(parsed)) && parsed@ == file->Ok_0;
    assert(parse.ensures((bytes,), Some(parsed)));
}

/// Without a vault unlocking fails, an unlocked vault stays unlocked and as it
/// was, a file that could not be read is reported, and a failure changes nothing
/// but the message.
pub proof fn unlocking_otherwise_changes_only_the_message<P, D>(
    app: AppView,
    password: Seq<char>,
    read: Result<Vec<u8>>,
    parse: P,
    decode: D,
    r: Result<()>,
    after: AppView,
) where P: FnOnce(&[u8]) -> Option<VaultFile>, D: FnOnce(&[u8]) -> Option<Vec<Entry>>
    requires
        app.unlocks_as(password, read, parse, decode, r, after),
    ensures
        app.state is NoVault ==> r == Err::<(), Error>(Error::VaultNotFound),
        app.state is Unlocked ==> r == Ok::<(), Error>(()) && after == (AppView {
            error: None,
            ..app
        }),
        app.state is Locked && read is Err ==> r == Err::<(), Error>(read->Err_0),
        r matches Err(e) ==> after == (AppView { error: Some(e.text()), ..app }),
{
}

/// Unlocking a file that was read fails only because it is no vault file without
/// defects, or because the vault in it does not unlock with the password.
pub proof fn unlocking_fails_only_for<P, D>(
    app: AppView,
    password: Seq<char>,
    contents: Vec<u8>,
    parse: P,
    decode: D,
    e: Error,
    after: AppView,
) where P: FnOnce(&[u8]) -> Option<VaultFile>, D: FnOnce(&[u8]) -> Option<Vec<Entry>>
    requires
        app.state is Locked,
        app.unlocks_as(password, Ok(contents), parse, decode, Err(e), after),
    ensures
        exists|bytes: &[u8], file: Result<FileView>|
            {
                &&& bytes@ == contents@
                &&& #[trigger] FileView::reads_as(bytes, parse, file)
                &&& file matches Err(error) ==> error == e
                &&& file matches Ok(read) ==> read.unlocks_as(
                    vstd::utf8::encode_utf8(password),
                    decode,
                    Err(e),
                )
            },
{
    let outcome = choose|outcome: Result<VaultView>|
        {
            &&& #[trigger] app::reads_and_unlocks_as(
                Ok(contents),
                password,
                parse,
                decode,
                outcome,
            )
            &&& app.unlock_finished(app.state->Locked_path, outcome, Err(e), after)
        };
    let (bytes, file) = choose|bytes: &[u8], file: Result<FileView>|
        {
            &&& bytes@ == contents@
            &&& #[trigger] FileView::reads_as(bytes, parse, file)
            &&& match file {
                Err(error) => outcome == Err::<VaultView, Error>(error),
                Ok(file) => file.unlocks_as(vstd::utf8::encode_utf8(password), decode, outcome),
            }
        };
    assert(FileView::reads_as(bytes, parse, file));
}

/// That a password guards an unlocked vault says that it opens the wrapped key to
/// the key in memory.
pub proof fn a_guarded_vault_is_opened_by_its_password(app: AppView, password: Seq<u8>)
    requires
        app.guarded_by(password),
        app.state is Unlocked,
    ensures
        entry::valid_entries(app.entries()),
        ({
            let vault = app.state->vault;
            let wrapped = vault.wrapped_key;
            &&& vault.version == 1
            &&& vault.vault_key.len() == 32
            &&& crate::primitives::gcm_open(
                super::vault::kek_of(password, vault.kdf.params()->Ok_0),
                wrapped.nonce_bytes()->Ok_0,
                super::crypto::for_keys(),
                wrapped.ciphertext_bytes()->Ok_0,
            ) == Some(vault.vault_key)
        }),
{
    super::crypto::the_hierarchy_is_bound_to_these_bytes();
}

// ---------------------------------------------------------------------------
// Calls
// ---------------------------------------------------------------------------

/// A call to create a vault makes one only with a password of at least twelve
/// characters and the same confirmation, where none is; two texts that differ in
/// anything are a mismatch. The message is that of the error, and nothing else of
/// the application changes.
pub proof fn creating_asks_for_a_confirmed_password()
    ensures
        forall|app: &mut App, password: &str, confirm: &str, there: bool, r: Result<NewVault>|
            #[trigger] call_ensures(App::create_vault, (app, password, confirm, there), r) ==> {
                &&& password@.len() < 12 ==> r == Err::<NewVault, Error>(
                    Error::PasswordTooShort { min: 12 },
                )
                &&& password@.len() >= 12 && password@ != confirm@ ==> r == Err::<NewVault, Error>(
                    Error::PasswordMismatch,
                )
                &&& password@.len() >= 12 && password@ == confirm@ && there ==> r == Err::<
                    NewVault,
                    Error,
                >(Error::VaultAlreadyExists)
                &&& r is Ok ==> password@ == confirm@ && password@.len() >= 12 && !there
                &&& r is Ok ==> final(app)@ == (AppView { error: None, ..(*app)@ })
                &&& r matches Err(e) ==> final(app)@ == (AppView {
                    error: Some(e.text()),
                    ..(*app)@
                })
            },
{
}

/// A stored vault becomes the unlocked one, at the path of the application; one
/// that could not be stored changes nothing but the message.
pub proof fn a_stored_vault_is_unlocked()
    ensures
        forall|app: &mut App, new: NewVault, stored: Result<()>, r: Result<()>|
            #[trigger] call_ensures(App::vault_stored, (app, new, stored), r) ==> {
                &&& r == stored
                &&& stored is Ok ==> {
                    &&& final(app)@.state == (StateView::Unlocked {
                        path: (*app)@.vault_path,
                        vault: new.vault@,
                    })
                    &&& (*app)@.timer.shows(final(app)@.last_activity)
                    &&& final(app)@ == (AppView {
                        state: final(app)@.state,
                        last_activity: final(app)@.last_activity,
                        error: None,
                        ..(*app)@
                    })
                }
                &&& stored matches Err(e) ==> final(app)@ == (AppView {
                    error: Some(e.text()),
                    ..(*app)@
                })
            },
{
}

/// A new application is locked where there is a vault file and has no vault
/// otherwise, keeps the path and the clipboard guard that it was given, and locks
/// after three minutes.
pub proof fn a_new_application_starts_locked(
    path: PathBuf,
    guard: ClipboardGuard,
    there: bool,
    r: Result<App>,
)
    requires
        call_ensures(App::with_vault_path_and_clipboard, (path, guard, there), r),
    ensures
        r is Ok,
        there ==> r->Ok_0@.state == (StateView::Locked { path }),
        !there ==> r->Ok_0@.state == StateView::NoVault,
        r->Ok_0@.vault_path == path,
        r->Ok_0@.clipboard == guard@,
        r->Ok_0@.error is None,
        r->Ok_0@.timeout.nanos == 180_000_000_000,
{
}

/// The vault path is the one that the variable names if it names one, and the
/// default otherwise; the default is below the user's directory if that is known.
/// An empty value counts as none.
pub proof fn the_path_is_resolved(
    named: Option<EnvPath>,
    default: PathBuf,
    resolved: PathBuf,
    home: Option<EnvPath>,
    below_home: PathBuf,
    fallback: PathBuf,
    usual: PathBuf,
)
    requires
        call_ensures(app::resolve_vault_path, (named, default), resolved),
        call_ensures(app::default_vault_path, (home, below_home, fallback), usual),
    ensures
        named matches Some(value) ==> (!value.is_empty ==> resolved == value.path),
        named matches Some(value) ==> (value.is_empty ==> resolved == default),
        named is None ==> resolved == default,
        home matches Some(value) ==> (!value.is_empty ==> usual == below_home),
        home matches Some(value) ==> (value.is_empty ==> usual == fallback),
        home is None ==> usual == fallback,
{
}

} // verus!
