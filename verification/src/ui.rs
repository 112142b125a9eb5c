//! The decisions behind each screen.
//!
//! This module owns all transient dialog state and decides what every button
//! does. Drawing is left to a front-end, which binds its widgets to the public
//! fields and calls a method for each thing that the user does.
//!
//! Passwords and TOTP secrets are never part of the list: a [`Row`] has no place
//! for them.

use vstd::prelude::*;

use crate::app;
use crate::app::{
    App, AppState, AppView, NewVault, NewVaultView, SaveRequest, SaveView, StateView,
};
use crate::autolock::InputEvent;
use crate::clock::Instant;
use crate::entry::{Entry, EntryView};
use crate::error::{Error, Result};
use crate::laws::ui as laws;
use crate::password_generator;
use crate::password_generator::Options;
use crate::security::zeroize_string;
use crate::text;
use crate::vault;
use crate::vault::VaultFile;

verus! {

/// Which screen to draw.
#[derive(Debug, Clone, Copy, PartialEq, Eq, Structural)]
pub enum Screen {
    NoVault,
    Locked,
    Unlocked,
}

/// A button of the main window.
#[derive(Debug, Clone, Copy, PartialEq, Eq, Structural)]
pub enum Pending {
    Nothing,
    Add,
    Edit,
    Delete,
    CopyPassword,
    CopyUsername,
    Lock,
}

// ---------------------------------------------------------------------------
// EntryDraft
// ---------------------------------------------------------------------------

/// Editable state of the entry dialog. Sensitive fields are wiped on drop.
pub struct EntryDraft {
    pub id: String,
    pub title: String,
    pub username: String,
    pub password: String,
    pub url: String,
    pub totp: String,
    pub notes: String,
    pub is_new: bool,
    pub error: Option<String>,
    pub show_generator: bool,
    pub gen_length: usize,
    pub gen_uppercase: bool,
    pub gen_lowercase: bool,
    pub gen_digits: bool,
    pub gen_symbols: bool,
    pub gen_result: String,
    pub gen_error: Option<String>,
}

/// What a draft amounts to.
pub ghost struct DraftView {
    pub entry: EntryView,
    pub is_new: bool,
    pub error: Option<Seq<char>>,
    pub show_generator: bool,
    pub options: Options,
    pub gen_result: Seq<char>,
    pub gen_error: Option<Seq<char>>,
}

impl View for EntryDraft {
    type V = DraftView;

    open spec fn view(&self) -> DraftView {
        DraftView {
            entry: EntryView {
                id: self.id@,
                title: self.title@,
                username: self.username@,
                password: self.password@,
                url: self.url@,
                totp: self.totp@,
                notes: self.notes@,
            },
            is_new: self.is_new,
            error: crate::error::viewed_option(self.error),
            show_generator: self.show_generator,
            options: Options {
                length: self.gen_length,
                uppercase: self.gen_uppercase,
                lowercase: self.gen_lowercase,
                digits: self.gen_digits,
                symbols: self.gen_symbols,
            },
            gen_result: self.gen_result@,
            gen_error: crate::error::viewed_option(self.gen_error),
        }
    }
}

impl DraftView {
    /// The draft of an entry as the dialog opens: the generator is closed and
    /// set to its defaults.
    pub open spec fn of(entry: EntryView, is_new: bool) -> DraftView {
        DraftView {
            entry,
            is_new,
            error: None,
            show_generator: false,
            options: Options {
                length: password_generator::DEFAULT_LENGTH,
                uppercase: true,
                lowercase: true,
                digits: true,
                symbols: true,
            },
            gen_result: Seq::empty(),
            gen_error: None,
        }
    }

    /// The draft of a new entry.
    pub open spec fn blank() -> DraftView {
        Self::of(
            EntryView {
                id: Seq::empty(),
                title: Seq::empty(),
                username: Seq::empty(),
                password: Seq::empty(),
                url: Seq::empty(),
                totp: Seq::empty(),
                notes: Seq::empty(),
            },
            true,
        )
    }

    /// Whether making an entry of the draft can come out as `outcome`. A new
    /// entry gets a fresh id and is validated; an edited one keeps its id, and
    /// is validated when it is stored.
    pub open spec fn makes(self, outcome: Result<EntryView>) -> bool {
        if self.is_new {
            match outcome {
                Ok(made) => {
                    &&& made.valid()
                    &&& made == (EntryView { id: made.id, ..self.entry })
                    &&& crate::entry::is_fresh_id(made.id)
                },
                Err(e) => (e == Error::Crypto && crate::crypto::refused::<16>()) || (e
                    == Error::InvalidEntry && !self.fits()),
            }
        } else {
            outcome == Ok::<EntryView, Error>(self.entry)
        }
    }

    /// Whether the fields apart from the id are within their limits.
    pub open spec fn fits(self) -> bool {
        crate::entry::fields_fit(
            self.entry.title,
            self.entry.username,
            self.entry.password,
            self.entry.url,
            self.entry.totp,
            self.entry.notes,
        )
    }

    /// The draft after a password was generated, or could not be.
    pub open spec fn generated(self, outcome: Result<Seq<char>>) -> DraftView {
        match outcome {
            Ok(password) => DraftView { gen_result: password, gen_error: None, ..self },
            Err(_) => DraftView {
                gen_result: Seq::empty(),
                gen_error: Some("Select at least one character type."@),
                ..self
            },
        }
    }

    /// The draft after its generated password was put to use.
    pub open spec fn with_generated(self) -> DraftView {
        DraftView {
            entry: EntryView { password: self.gen_result, ..self.entry },
            gen_result: Seq::empty(),
            show_generator: false,
            gen_error: None,
            ..self
        }
    }
}

impl EntryDraft {
    /// The draft of a new entry.
    pub fn new_blank() -> (draft: Self)
        ensures
            draft@ == DraftView::blank(),
    {
        EntryDraft {
            id: String::new(),
            title: String::new(),
            username: String::new(),
            password: String::new(),
            url: String::new(),
            totp: String::new(),
            notes: String::new(),
            is_new: true,
            error: None,
            show_generator: false,
            gen_length: password_generator::DEFAULT_LENGTH,
            gen_uppercase: true,
            gen_lowercase: true,
            gen_digits: true,
            gen_symbols: true,
            gen_result: String::new(),
            gen_error: None,
        }
    }

    /// The draft of an existing entry.
    pub fn from_entry(e: &Entry, is_new: bool) -> (draft: Self)
        ensures
            draft@ == DraftView::of(e@, is_new),
            draft.id@ == e.id@,
            draft.title@ == e.title@,
            draft.username@ == e.username@,
            draft.password@ == e.password@,
            draft.url@ == e.url@,
            draft.totp@ == e.totp@,
            draft.notes@ == e.notes@,
            draft.is_new == is_new,
    {
        EntryDraft {
            id: e.id.clone(),
            title: e.title.clone(),
            username: e.username.clone(),
            password: e.password.clone(),
            url: e.url.clone(),
            totp: e.totp.clone(),
            notes: e.notes.clone(),
            is_new,
            error: None,
            show_generator: false,
            gen_length: password_generator::DEFAULT_LENGTH,
            gen_uppercase: true,
            gen_lowercase: true,
            gen_digits: true,
            gen_symbols: true,
            gen_result: String::new(),
            gen_error: None,
        }
    }

    /// The entry that the draft describes.
    pub fn to_entry(&self) -> (r: Result<Entry>)
        ensures
            self@.makes(crate::error::viewed(r)),
            r matches Ok(made) ==> {
                &&& made.title@ == self.title@
                &&& made.username@ == self.username@
                &&& made.password@ == self.password@
                &&& made.url@ == self.url@
                &&& made.totp@ == self.totp@
                &&& made.notes@ == self.notes@
                &&& !self.is_new ==> made.id@ == self.id@
            },
            !self.is_new ==> r is Ok,
    {
        if self.is_new {
            Entry::new(
                self.title.as_str(),
                self.username.as_str(),
                self.password.as_str(),
                self.url.as_str(),
                self.totp.as_str(),
                self.notes.as_str(),
            )
        } else {
            Ok(
                Entry {
                    id: self.id.clone(),
                    title: self.title.clone(),
                    username: self.username.clone(),
                    password: self.password.clone(),
                    url: self.url.clone(),
                    totp: self.totp.clone(),
                    notes: self.notes.clone(),
                },
            )
        }
    }

    /// The title of the dialog.
    pub fn dialog_title(&self) -> (title: &'static str)
        ensures
            title@ == (if self.is_new {
                "New Entry"@
            } else {
                "Edit Entry"@
            }),
    {
        if self.is_new {
            "New Entry"
        } else {
            "Edit Entry"
        }
    }

    /// The options that the generator is set to.
    pub fn options(&self) -> (opts: Options)
        ensures
            opts == self@.options,
    {
        Options {
            length: self.gen_length,
            uppercase: self.gen_uppercase,
            lowercase: self.gen_lowercase,
            digits: self.gen_digits,
            symbols: self.gen_symbols,
        }
    }

    /// Whether the generator is to be drawn after a frame of the dialog: it was
    /// opened, and the dialog stays open.
    pub fn draws_generator(&self, window_open: bool, apply: bool, cancel: bool) -> (r: bool)
        ensures
            r == (self@.show_generator && window_open && !apply && !cancel),
    {
        self.show_generator && window_open && !apply && !cancel
    }

    /// Open the generator.
    pub fn open_generator(&mut self)
        ensures
            final(self)@ == (DraftView { show_generator: true, ..old(self)@ }),
    {
        self.show_generator = true;
    }

    /// Close the generator.
    pub fn close_generator(&mut self)
        ensures
            final(self)@ == (DraftView { show_generator: false, ..old(self)@ }),
    {
        self.show_generator = false;
    }

    /// Generate a password with the options that are set.
    pub fn generate(&mut self)
        ensures
            exists|outcome: Result<Seq<char>>|
                {
                    &&& final(self)@ == #[trigger] old(self)@.generated(outcome)
                    &&& password_generator::generates(old(self)@.options, outcome)
                },
    {
        let opts = self.options();
        let outcome = password_generator::generate(&opts);
        let ghost view = crate::error::viewed(outcome);
        self.accept_generated(outcome);
        assert(self@ == old(self)@.generated(view));
    }

    /// Take the outcome of generating a password.
    pub fn accept_generated(&mut self, outcome: Result<String>)
        ensures
            final(self)@ == old(self)@.generated(crate::error::viewed(outcome)),
    {
        match outcome {
            Ok(password) => {
                self.gen_result = password;
                self.gen_error = None;
            },
            Err(_) => {
                zeroize_string(&mut self.gen_result);
                self.gen_error = Some("Select at least one character type.".to_owned());
            },
        }
    }

    /// Whether there is a generated password to use.
    pub fn can_use_generated(&self) -> (r: bool)
        ensures
            r == (self@.gen_result.len() > 0),
    {
        !self.gen_result.as_str().is_empty()
    }

    /// Move the generated password into the password field, without a copy, and
    /// close the generator.
    pub fn use_generated(&mut self)
        ensures
            final(self)@ == old(self)@.with_generated(),
    {
        zeroize_string(&mut self.password);
        core::mem::swap(&mut self.password, &mut self.gen_result);
        self.show_generator = false;
        self.gen_error = None;
    }
}

impl Drop for EntryDraft {
    fn drop(&mut self)
        ensures
            final(self)@ == (DraftView {
                entry: EntryView {
                    password: Seq::empty(),
                    totp: Seq::empty(),
                    notes: Seq::empty(),
                    ..old(self)@.entry
                },
                gen_result: Seq::empty(),
                ..old(self)@
            }),
        opens_invariants none
        no_unwind
    {
        zeroize_string(&mut self.password);
        zeroize_string(&mut self.totp);
        zeroize_string(&mut self.notes);
        zeroize_string(&mut self.gen_result);
    }
}

// ---------------------------------------------------------------------------
// Rows
// ---------------------------------------------------------------------------

/// The fields of an entry that the list shows.
pub struct Row {
    pub id: String,
    pub title: String,
    pub username: String,
    pub url: String,
}

/// What a row amounts to.
pub ghost struct RowView {
    pub id: Seq<char>,
    pub title: Seq<char>,
    pub username: Seq<char>,
    pub url: Seq<char>,
}

impl View for Row {
    type V = RowView;

    open spec fn view(&self) -> RowView {
        RowView { id: self.id@, title: self.title@, username: self.username@, url: self.url@ }
    }
}

/// The row of an entry.
pub open spec fn row_of(entry: EntryView) -> RowView {
    RowView { id: entry.id, title: entry.title, username: entry.username, url: entry.url }
}

/// The rows of entries.
pub open spec fn rows_of(entries: Seq<EntryView>) -> Seq<RowView> {
    entries.map_values(|e: EntryView| row_of(e))
}

/// What the search field amounts to as a query.
pub open spec fn query_of(search: Seq<char>) -> Seq<char> {
    text::lowercase(text::trimmed_end(text::trimmed_start(search)))
}

/// Whether a query finds lower-case texts: an empty one finds everything.
pub open spec fn found(
    query: Seq<char>,
    title: Seq<char>,
    username: Seq<char>,
    url: Seq<char>,
) -> bool {
    ||| query.len() == 0
    ||| text::occurs_in(query, title)
    ||| text::occurs_in(query, username)
    ||| text::occurs_in(query, url)
}

/// Whether a query finds an entry, whatever the case of its letters. Only the
/// title, the username and the URL are searched.
pub open spec fn finds(query: Seq<char>, entry: EntryView) -> bool {
    found(
        query,
        text::lowercase(entry.title),
        text::lowercase(entry.username),
        text::lowercase(entry.url),
    )
}

/// Whether a query finds lower-case texts.
pub fn query_finds(query: &str, title: &str, username: &str, url: &str) -> (r: bool)
    ensures
        r == found(query@, title@, username@, url@),
        query@.len() == 0 ==> r,
        text::occurs_in(query@, title@) ==> r,
        text::occurs_in(query@, username@) ==> r,
        text::occurs_in(query@, url@) ==> r,
        r ==> query@.len() == 0 || text::occurs_in(query@, title@) || text::occurs_in(
            query@,
            username@,
        ) || text::occurs_in(query@, url@),
{
    query.is_empty() || text::contains(title, query) || text::contains(username, query)
        || text::contains(url, query)
}

/// The entries that a query finds.
pub open spec fn selection(entries: Seq<EntryView>, query: Seq<char>) -> Seq<EntryView> {
    entries.filter(|e: EntryView| finds(query, e))
}

/// The texts of a sequence of rows.
pub open spec fn row_views(rows: Seq<Row>) -> Seq<RowView> {
    Seq::new(rows.len(), |i: int| rows[i]@)
}

/// The rows of the entries that a lower-case query finds, in their order.
pub fn rows_matching(entries: &[Entry], query: &str) -> (rows: Vec<Row>)
    ensures
        row_views(rows@) == rows_of(selection(crate::entry::entry_views(entries@), query@)),
        laws::lists_exactly(
            row_views(rows@),
            crate::entry::entry_views(entries@),
            query@,
        ),
{
    let ghost views = crate::entry::entry_views(entries@);
    let ghost keep = |e: EntryView| finds(query@, e);
    let mut rows: Vec<Row> = Vec::new();
    let mut i: usize = 0;
    proof {
        reveal(Seq::filter);
        assert(views.take(0).filter(keep) =~= Seq::empty());
        assert(row_views(rows@) =~= rows_of(views.take(0).filter(keep)));
    }
    while i < entries.len()
        invariant
            i <= entries@.len(),
            views == crate::entry::entry_views(entries@),
            keep == (|e: EntryView| finds(query@, e)),
            row_views(rows@) == rows_of(views.take(i as int).filter(keep)),
        decreases entries@.len() - i,
    {
        let e = &entries[i];
        let ghost before = rows@;
        proof {
            let longer = views.take(i + 1);
            assert(longer.drop_last() =~= views.take(i as int));
            assert(longer.last() == e@);
            reveal(Seq::filter);
        }
        let title = e.title.as_str().to_lowercase();
        let username = e.username.as_str().to_lowercase();
        let url = e.url.as_str().to_lowercase();
        if query_finds(query, title.as_str(), username.as_str(), url.as_str()) {
            rows.push(
                Row {
                    id: e.id.clone(),
                    title: e.title.clone(),
                    username: e.username.clone(),
                    url: e.url.clone(),
                },
            );
            assert(row_views(rows@) =~= row_views(before).push(row_of(e@)));
            assert(rows_of(views.take(i + 1).filter(keep)) =~= rows_of(
                views.take(i as int).filter(keep),
            ).push(row_of(e@)));
        }
        i += 1;
    }
    assert(views.take(i as int) =~= views);
    proof {
        laws::the_list_is_exact(views, query@);
    }
    rows
}

/// Truncate a text for the list to at most `max` characters, with an ellipsis
/// in place of the last if it had to be cut.
pub fn truncate(s: &str, max: usize) -> (out: String)
    ensures
        out@ == text::cut(s@, max as nat),
        out@.len() <= max,
        s@.len() <= max ==> out@ == s@,
        s@.len() > max > 0 ==> out@ == s@.take(max - 1).push('…'),
{
    if s.unicode_len() <= max {
        return s.to_owned();
    }
    if max == 0 {
        return String::new();
    }
    let mut out = s.substring_char(0, max - 1).to_owned();
    out.push('…');
    assert(out@ =~= text::cut(s@, max as nat));
    out
}

/// The line of an entry in the list: title and username in columns, then the
/// URL.
pub open spec fn label_of(row: RowView) -> Seq<char> {
    text::padded(text::cut(row.title, 32), 32) + "   "@ + text::padded(
        text::cut(row.username, 24),
        24,
    ) + "   "@ + row.url
}

impl Row {
    /// The line of the entry in the list.
    pub fn label(&self) -> (label: String)
        ensures
            label@ == label_of(self@),
    {
        let mut label = truncate(self.title.as_str(), 32);
        text::pad(&mut label, 32);
        let mut username = truncate(self.username.as_str(), 24);
        text::pad(&mut username, 24);
        label.append("   ");
        label.append(username.as_str());
        label.append("   ");
        label.append(self.url.as_str());
        label
    }
}

// ---------------------------------------------------------------------------
// VaultApp
// ---------------------------------------------------------------------------

/// The state of the user interface.
pub struct VaultApp {
    /// The application, unless it failed to start.
    pub app: Option<App>,
    /// Why the application failed to start.
    pub init_error: Option<String>,
    pub unlock_password: String,
    pub create_password: String,
    pub create_confirm: String,
    pub search: String,
    pub selected_id: Option<String>,
    /// The entry dialog, while it is open.
    pub draft: Option<EntryDraft>,
    /// Message of the last operation that failed.
    pub op_error: Option<String>,
}

/// What the user interface amounts to.
pub ghost struct UiView {
    pub app: Option<AppView>,
    pub init_error: Option<Seq<char>>,
    pub unlock_password: Seq<char>,
    pub create_password: Seq<char>,
    pub create_confirm: Seq<char>,
    pub search: Seq<char>,
    pub selected_id: Option<Seq<char>>,
    pub draft: Option<DraftView>,
    pub op_error: Option<Seq<char>>,
}

impl View for VaultApp {
    type V = UiView;

    open spec fn view(&self) -> UiView {
        UiView {
            app: crate::error::viewed_option(self.app),
            init_error: crate::error::viewed_option(self.init_error),
            unlock_password: self.unlock_password@,
            create_password: self.create_password@,
            create_confirm: self.create_confirm@,
            search: self.search@,
            selected_id: crate::error::viewed_option(self.selected_id),
            draft: crate::error::viewed_option(self.draft),
            op_error: crate::error::viewed_option(self.op_error),
        }
    }
}

/// A draft that is to be stored, and the file that has to be written for it.
pub struct DraftSave {
    pub draft: EntryDraft,
    pub request: SaveRequest,
}

/// What a draft that is to be stored amounts to.
pub ghost struct DraftSaveView {
    pub draft: DraftView,
    pub request: SaveView,
}

impl View for DraftSave {
    type V = DraftSaveView;

    open spec fn view(&self) -> DraftSaveView {
        DraftSaveView { draft: self.draft@, request: self.request@ }
    }
}

impl UiView {
    /// The screen to draw, unless the application failed to start.
    pub open spec fn screen(self) -> Option<Screen> {
        match self.app {
            None => None,
            Some(app) => Some(
                match app.state {
                    StateView::NoVault => Screen::NoVault,
                    StateView::Locked { path } => Screen::Locked,
                    StateView::Unlocked { path, vault } => Screen::Unlocked,
                },
            ),
        }
    }

    /// The entries that the list is made from.
    pub open spec fn entries(self) -> Seq<EntryView> {
        match self.app {
            None => Seq::empty(),
            Some(app) => app.entries(),
        }
    }

    /// The interface with the application in another state.
    pub open spec fn with_app(self, app: AppView) -> UiView {
        UiView { app: Some(app), ..self }
    }

    /// The interface after an operation failed.
    pub open spec fn failing(self, e: Error) -> UiView {
        UiView { op_error: Some(e.text()), ..self }
    }

    /// The interface with another draft.
    pub open spec fn drafting(self, draft: Option<DraftView>) -> UiView {
        UiView { draft, ..self }
    }

    /// The interface without a selection.
    pub open spec fn deselected(self) -> UiView {
        UiView { selected_id: None, ..self }
    }

    /// The interface after the Edit button: the dialog shows the selected
    /// entry, if it is there.
    pub open spec fn editing(self) -> UiView {
        match self.selected_id {
            None => self,
            Some(id) => self.drafting(
                match crate::entry::entry_with(self.entries(), id) {
                    Some(entry) => Some(DraftView::of(entry, false)),
                    None => None,
                },
            ),
        }
    }

    /// Whether the interface can become `after`, with `request` to be written,
    /// by the Delete button.
    pub open spec fn deletes<E: FnOnce(&[Entry]) -> Option<Vec<u8>>>(
        self,
        encode: E,
        request: Option<SaveView>,
        after: UiView,
    ) -> bool {
        match self.selected_id {
            None => after == self && request is None,
            Some(id) => match self.app {
                None => after == self.deselected() && request is None,
                Some(app) => exists|outcome: Result<Option<SaveView>>, then: AppView|
                    {
                        &&& #[trigger] app.removes_as(id, encode, outcome, then)
                        &&& match outcome {
                            Err(e) => after == self.with_app(then).failing(e) && request is None,
                            Ok(None) => after == self.with_app(then).deselected() && request is None,
                            Ok(Some(save)) => after == self.with_app(then) && request == Some(save),
                        }
                    },
            },
        }
    }

    /// Whether the interface can become `after` by copying a field of the
    /// selected entry.
    pub open spec fn copies(self, field: app::Copyable, after: UiView) -> bool {
        match self.selected_id {
            None => after == self,
            Some(id) => match self.app {
                None => after == self,
                Some(app) => exists|r: Result<()>, then: AppView|
                    {
                        &&& #[trigger] app.copies(id, field, r, then)
                        &&& after == (match r {
                            Ok(_) => self.with_app(then),
                            Err(e) => self.with_app(then).failing(e),
                        })
                    },
            },
        }
    }

    /// Whether the clock of the application, if there is one, shows `now`.
    pub open spec fn can_lock_at(self, now: Instant) -> bool {
        self.app matches Some(app) ==> app.timer.shows(now)
    }

    /// The interface after the Lock button at `now`: nothing of the vault is
    /// left in it.
    pub open spec fn locking(self, now: Instant) -> UiView {
        UiView {
            app: match self.app {
                Some(app) => Some(app.locked(now)),
                None => None,
            },
            selected_id: None,
            draft: None,
            op_error: None,
            ..self
        }
    }

    /// Whether storing an entry of the dialog can come out as `outcome`, with
    /// `then` as the application afterwards: a new entry is added, an edited one
    /// replaced. Nothing needs to be written if the edited entry is gone.
    pub open spec fn stores<E: FnOnce(&[Entry]) -> Option<Vec<u8>>>(
        app: AppView,
        is_new: bool,
        entry: EntryView,
        encode: E,
        outcome: Result<Option<SaveView>>,
        then: AppView,
    ) -> bool {
        if is_new {
            exists|saved: Result<SaveView>| #[trigger]
                app.adds_as(entry, encode, saved, then) && outcome == app::needed(saved)
        } else {
            app.updates_as(entry, encode, outcome, then)
        }
    }

    /// Whether the interface can become `after`, with `save` to be written, by
    /// the Save button of the dialog. A draft whose entry cannot be made or
    /// stored stays open, with the reason.
    pub open spec fn submits<E: FnOnce(&[Entry]) -> Option<Vec<u8>>>(
        self,
        draft: DraftView,
        encode: E,
        save: Option<DraftSaveView>,
        after: UiView,
    ) -> bool {
        exists|made: Result<EntryView>|
            {
                &&& #[trigger] draft.makes(made)
                &&& match made {
                    Err(e) => {
                        &&& after == self.drafting(
                            Some(DraftView { error: Some(e.text()), ..draft }),
                        )
                        &&& save is None
                    },
                    Ok(entry) => self.submits_entry(draft, entry, encode, save, after),
                }
            }
    }

    /// Whether the interface can become `after`, with `save` to be written, by
    /// storing the entry that was made of a draft.
    pub open spec fn submits_entry<E: FnOnce(&[Entry]) -> Option<Vec<u8>>>(
        self,
        draft: DraftView,
        entry: EntryView,
        encode: E,
        save: Option<DraftSaveView>,
        after: UiView,
    ) -> bool {
        match self.app {
            None => {
                &&& after == (UiView {
                    op_error: Some("application not available"@),
                    draft: Some(draft),
                    ..self
                })
                &&& save is None
            },
            Some(app) => exists|outcome: Result<Option<SaveView>>, then: AppView|
                {
                    &&& #[trigger] Self::stores(app, draft.is_new, entry, encode, outcome, then)
                    &&& match outcome {
                        Err(e) => {
                            &&& after == self.with_app(then).failing(e).drafting(Some(draft))
                            &&& save is None
                        },
                        Ok(None) => {
                            &&& after == self.with_app(then).drafting(None)
                            &&& save is None
                        },
                        Ok(Some(request)) => {
                            &&& after == self.with_app(then).drafting(None)
                            &&& save == Some(DraftSaveView { draft, request })
                        },
                    }
                },
        }
    }
}

impl VaultApp {
    /// The interface for an application that has started, or failed to.
    pub fn new(app: Result<App>) -> (ui: Self)
        ensures
            ui@ == (UiView {
                app: match app {
                    Ok(app) => Some(app@),
                    Err(_) => None,
                },
                init_error: match app {
                    Ok(_) => None,
                    Err(e) => Some(e.text()),
                },
                unlock_password: Seq::empty(),
                create_password: Seq::empty(),
                create_confirm: Seq::empty(),
                search: Seq::empty(),
                selected_id: None,
                draft: None,
                op_error: None,
            }),
    {
        let (app, init_error) = match app {
            Ok(app) => (Some(app), None),
            Err(e) => (None, Some(e.to_string())),
        };
        VaultApp {
            app,
            init_error,
            unlock_password: String::new(),
            create_password: String::new(),
            create_confirm: String::new(),
            search: String::new(),
            selected_id: None,
            draft: None,
            op_error: None,
        }
    }

    /// The screen to draw, unless the application failed to start.
    pub fn screen(&self) -> (screen: Option<Screen>)
        ensures
            screen == self@.screen(),
    {
        match &self.app {
            None => None,
            Some(app) => match app.state() {
                AppState::NoVault => Some(Screen::NoVault),
                AppState::Locked { path: _ } => Some(Screen::Locked),
                AppState::Unlocked { path: _, vault: _ } => Some(Screen::Unlocked),
            },
        }
    }

    /// The rows of the list, as the search field filters them.
    pub fn display_rows(&self) -> (rows: Vec<Row>)
        ensures
            row_views(rows@) == rows_of(selection(self@.entries(), query_of(self@.search))),
            laws::lists_exactly(row_views(rows@), self@.entries(), query_of(self@.search)),
    {
        let query = self.search.as_str().trim().to_lowercase();
        match &self.app {
            Some(app) => rows_matching(app.entries(), query.as_str()),
            None => {
                let rows: Vec<Row> = Vec::new();
                proof {
                    reveal(Seq::filter);
                    assert(row_views(rows@) =~= rows_of(
                        selection(Seq::empty(), query_of(self@.search)),
                    ));
                }
                rows
            },
        }
    }

    /// Whether some entry is selected, so that the buttons that need one are
    /// enabled.
    pub fn has_selection(&self) -> (r: bool)
        ensures
            r == (self@.selected_id is Some),
    {
        self.selected_id.is_some()
    }

    /// Whether a row is the selected one.
    pub fn is_selected(&self, row: &Row) -> (r: bool)
        ensures
            r == (self@.selected_id == Some(row@.id)),
    {
        match &self.selected_id {
            Some(id) => *id.as_str() == *row.id.as_str(),
            None => false,
        }
    }

    /// Select a row.
    pub fn select(&mut self, row: &Row)
        ensures
            final(self)@ == (UiView { selected_id: Some(row@.id), ..old(self)@ }),
    {
        self.selected_id = Some(row.id.clone());
    }

    /// Dismiss the message of the last failure.
    pub fn dismiss_error(&mut self)
        ensures
            final(self)@ == (UiView { op_error: None, ..old(self)@ }),
    {
        self.op_error = None;
    }

    /// The Create button. The password fields are emptied and wiped whatever
    /// comes of it. If a vault was made, it has to be stored; see
    /// [`VaultApp::vault_stored`].
    pub fn submit_create(&mut self, vault_exists: bool) -> (r: Option<NewVault>)
        ensures
            ({
                let emptied = UiView {
                    create_password: Seq::empty(),
                    create_confirm: Seq::empty(),
                    ..old(self)@
                };
                match old(self)@.app {
                    None => final(self)@ == emptied && r is None,
                    Some(app) => exists|outcome: Result<NewVaultView>|
                        {
                            &&& #[trigger] AppView::creates(
                                old(self)@.create_password,
                                old(self)@.create_confirm,
                                vault_exists,
                                outcome,
                            )
                            &&& final(self)@ == emptied.with_app(app.reporting(outcome))
                            &&& crate::error::viewed_option(r) == outcome.ok()
                        },
                }
            }),
    {
        let mut password = String::new();
        let mut confirm = String::new();
        core::mem::swap(&mut password, &mut self.create_password);
        core::mem::swap(&mut confirm, &mut self.create_confirm);
        let made = match &mut self.app {
            Some(app) => {
                let ghost before = app@;
                let outcome = app.create_vault(password.as_str(), confirm.as_str(), vault_exists);
                let ghost view = crate::error::viewed(outcome);
                assert(AppView::creates(
                    old(self)@.create_password,
                    old(self)@.create_confirm,
                    vault_exists,
                    view,
                ));
                assert(app@ == before.reporting(view));
                outcome.ok()
            },
            None => None,
        };
        zeroize_string(&mut password);
        zeroize_string(&mut confirm);
        made
    }

    /// Take the outcome of storing a new vault.
    pub fn vault_stored(&mut self, new: NewVault, stored: Result<()>)
        ensures
            match old(self)@.app {
                None => final(self)@ == old(self)@,
                Some(app) => match stored {
                    Ok(_) => exists|now: Instant|
                        app.timer.shows(now) && final(self)@ == old(self)@.with_app(
                            #[trigger] app.reporting(stored).entering(
                                StateView::Unlocked { path: app.vault_path, vault: new.vault@ },
                                now,
                            ),
                        ),
                    Err(_) => final(self)@ == old(self)@.with_app(app.reporting(stored)),
                },
            },
    {
        if let Some(app) = &mut self.app {
            let _ = app.vault_stored(new, stored);
        }
    }

    /// The Unlock button. The password field is emptied and wiped whatever comes
    /// of it.
    pub fn submit_unlock<P, D>(&mut self, read: Result<Vec<u8>>, parse: P, decode: D) where
        P: FnOnce(&[u8]) -> Option<VaultFile>,
        D: FnOnce(&[u8]) -> Option<Vec<Entry>>,

        requires
            forall|bytes: &[u8]| parse.requires((bytes,)),
            forall|payload: &[u8]| decode.requires((payload,)),
        ensures
            ({
                let emptied = UiView { unlock_password: Seq::empty(), ..old(self)@ };
                match old(self)@.app {
                    None => final(self)@ == emptied,
                    Some(app) => exists|r: Result<()>, then: AppView|
                        {
                            &&& #[trigger] app.unlocks_as(
                                old(self)@.unlock_password,
                                read,
                                parse,
                                decode,
                                r,
                                then,
                            )
                            &&& final(self)@ == emptied.with_app(then)
                        },
                }
            }),
    {
        let mut password = String::new();
        core::mem::swap(&mut password, &mut self.unlock_password);
        if let Some(app) = &mut self.app {
            let ghost before = app@;
            let r = app.unlock(password.as_str(), read, parse, decode);
            assert(before.unlocks_as(old(self)@.unlock_password, read, parse, decode, r, app@));
        }
        zeroize_string(&mut password);
    }

    /// The start of a frame: the timers run in every state. Nothing happens if
    /// the application failed to start.
    pub fn begin_frame(&mut self, events: &[InputEvent])
        ensures
            match old(self)@.app {
                None => final(self)@ == old(self)@,
                Some(app) => exists|then: AppView| #[trigger]
                    app.frames(events@, then) && final(self)@ == old(self)@.with_app(then),
            },
    {
        if let Some(app) = &mut self.app {
            let ghost before = app@;
            app.tick(events);
            assert(before.frames(events@, app@));
        }
    }

    /// A button of the main window. If a file has to be written for it, the
    /// request is returned; see [`VaultApp::delete_saved`].
    pub fn apply<E: FnOnce(&[Entry]) -> Option<Vec<u8>>>(&mut self, pending: Pending, encode: E) -> (r:
        Option<SaveRequest>)
        requires
            forall|entries: &[Entry]| encode.requires((entries,)),
        ensures
            !(pending is Delete) ==> r is None,
            match pending {
                Pending::Nothing => final(self)@ == old(self)@,
                Pending::Add => final(self)@ == old(self)@.drafting(Some(DraftView::blank())),
                Pending::Edit => final(self)@ == old(self)@.editing(),
                Pending::Delete => old(self)@.deletes(
                    encode,
                    crate::error::viewed_option(r),
                    final(self)@,
                ),
                Pending::CopyPassword => old(self)@.copies(
                    app::Copyable::Password,
                    final(self)@,
                ),
                Pending::CopyUsername => old(self)@.copies(
                    app::Copyable::Username,
                    final(self)@,
                ),
                Pending::Lock => exists|now: Instant|
                    old(self)@.can_lock_at(now) && final(self)@ == #[trigger] old(self)@.locking(
                        now,
                    ),
            },
    {
        match pending {
            Pending::Nothing => None,
            Pending::Add => {
                self.draft = Some(EntryDraft::new_blank());
                None
            },
            Pending::Edit => {
                self.edit_selected();
                None
            },
            Pending::Delete => self.delete_selected(encode),
            Pending::CopyPassword => {
                self.copy_selected_password();
                None
            },
            Pending::CopyUsername => {
                self.copy_selected_username();
                None
            },
            Pending::Lock => {
                self.lock();
                None
            },
        }
    }

    /// Open the dialog on the selected entry.
    fn edit_selected(&mut self)
        ensures
            final(self)@ == old(self)@.editing(),
    {
        let id = match &self.selected_id {
            Some(id) => id.clone(),
            None => {
                return;
            },
        };
        let draft = match &self.app {
            Some(app) => {
                let entries = app.entries();
                match vault::find_entry(entries, id.as_str()) {
                    Some(i) => Some(EntryDraft::from_entry(&entries[i], false)),
                    None => None,
                }
            },
            None => None,
        };
        self.draft = draft;
    }

    /// Delete the selected entry.
    fn delete_selected<E: FnOnce(&[Entry]) -> Option<Vec<u8>>>(&mut self, encode: E) -> (r: Option<
        SaveRequest,
    >)
        requires
            forall|entries: &[Entry]| encode.requires((entries,)),
        ensures
            old(self)@.deletes(encode, crate::error::viewed_option(r), final(self)@),
    {
        let id = match &self.selected_id {
            Some(id) => id.clone(),
            None => {
                return None;
            },
        };
        assert(old(self)@.selected_id == Some(id@));
        let outcome = match &mut self.app {
            Some(app) => app.remove_entry(id.as_str(), encode),
            None => Ok(None),
        };
        let ghost view = app::viewed_request(outcome);
        let ghost then = self@.app->0;
        let request = match outcome {
            Ok(Some(request)) => Some(request),
            Ok(None) => {
                self.selected_id = None;
                None
            },
            Err(e) => {
                self.op_error = Some(e.to_string());
                None
            },
        };
        proof {
            let before = old(self)@;
            let asked = crate::error::viewed_option(request);
            if before.app is Some {
                assert(before.app->0.removes_as(before.selected_id->0, encode, view, then));
                assert(match view {
                    Err(e) => self@ == before.with_app(then).failing(e) && asked is None,
                    Ok(None) => self@ == before.with_app(then).deselected() && asked is None,
                    Ok(Some(save)) => self@ == before.with_app(then) && asked == Some(save),
                });
            }
            assert(before.deletes(encode, asked, self@));
        }
        request
    }

    /// Take the outcome of writing the vault after a deletion.
    pub fn delete_saved(&mut self, stored: Result<()>)
        ensures
            final(self)@ == (match stored {
                Ok(_) => old(self)@.deselected(),
                Err(e) => old(self)@.failing(e),
            }),
    {
        match stored {
            Ok(_) => {
                self.selected_id = None;
            },
            Err(e) => {
                self.op_error = Some(e.to_string());
            },
        }
    }

    /// Copy the password of the selected entry.
    fn copy_selected_password(&mut self)
        ensures
            old(self)@.copies(app::Copyable::Password, final(self)@),
    {
        let id = match &self.selected_id {
            Some(id) => id.clone(),
            None => {
                return;
            },
        };
        let r = match &mut self.app {
            Some(app) => app.copy_password(id.as_str()),
            None => {
                return;
            },
        };
        let ghost then = self@.app->0;
        if let Err(e) = r {
            self.op_error = Some(e.to_string());
        }
        proof {
            let before = old(self)@;
            assert(before.selected_id == Some(id@));
            assert(before.app->0.copies(before.selected_id->0, app::Copyable::Password, r, then));
            assert(self@ == match r {
                Ok(_) => before.with_app(then),
                Err(e) => before.with_app(then).failing(e),
            });
            assert(before.copies(app::Copyable::Password, self@));
        }
    }

    /// Copy the username of the selected entry.
    fn copy_selected_username(&mut self)
        ensures
            old(self)@.copies(app::Copyable::Username, final(self)@),
    {
        let id = match &self.selected_id {
            Some(id) => id.clone(),
            None => {
                return;
            },
        };
        let r = match &mut self.app {
            Some(app) => app.copy_username(id.as_str()),
            None => {
                return;
            },
        };
        let ghost then = self@.app->0;
        if let Err(e) = r {
            self.op_error = Some(e.to_string());
        }
        proof {
            let before = old(self)@;
            assert(before.selected_id == Some(id@));
            assert(before.app->0.copies(before.selected_id->0, app::Copyable::Username, r, then));
            assert(self@ == match r {
                Ok(_) => before.with_app(then),
                Err(e) => before.with_app(then).failing(e),
            });
            assert(before.copies(app::Copyable::Username, self@));
        }
    }

    /// Lock the vault, and forget the selection, the draft and the last message.
    fn lock(&mut self)
        ensures
            exists|now: Instant|
                old(self)@.can_lock_at(now) && final(self)@ == #[trigger] old(self)@.locking(now),
    {
        let ghost mut at: Instant = arbitrary();
        if let Some(app) = &mut self.app {
            let ghost before = app@;
            app.lock();
            proof {
                at = choose|now: Instant|
                    before.timer.shows(now) && app@ == #[trigger] before.locked(now);
            }
        }
        self.selected_id = None;
        self.draft = None;
        self.op_error = None;
        assert(self@ == old(self)@.locking(at));
    }

    /// The end of a frame of the entry dialog, which shows `draft`.
    ///
    /// Closing or cancelling drops the draft, which wipes it. Saving stores its
    /// entry; if a file has to be written for that, the request is returned with
    /// the draft, see [`VaultApp::draft_saved`]. Otherwise the dialog stays open.
    pub fn finish_dialog<E: FnOnce(&[Entry]) -> Option<Vec<u8>>>(
        &mut self,
        draft: EntryDraft,
        window_open: bool,
        apply: bool,
        cancel: bool,
        encode: E,
    ) -> (r: Option<DraftSave>)
        requires
            forall|entries: &[Entry]| encode.requires((entries,)),
        ensures
            if !window_open || cancel {
                final(self)@ == old(self)@.drafting(None) && r is None
            } else if apply {
                old(self)@.submits(draft@, encode, crate::error::viewed_option(r), final(self)@)
            } else {
                final(self)@ == old(self)@.drafting(Some(draft@)) && r is None
            },
    {
        if !window_open || cancel {
            self.draft = None;
            return None;
        }
        if apply {
            return self.submit_draft(draft, encode);
        }
        self.draft = Some(draft);
        None
    }

    /// The Save button of the dialog.
    fn submit_draft<E: FnOnce(&[Entry]) -> Option<Vec<u8>>>(
        &mut self,
        draft: EntryDraft,
        encode: E,
    ) -> (r: Option<DraftSave>)
        requires
            forall|entries: &[Entry]| encode.requires((entries,)),
        ensures
            old(self)@.submits(draft@, encode, crate::error::viewed_option(r), final(self)@),
    {
        let mut draft = draft;
        let made = draft.to_entry();
        let ghost view = crate::error::viewed(made);
        assert(draft@.makes(view));
        match made {
            Ok(entry) => self.submit_entry(draft, entry, encode),
            Err(e) => {
                draft.error = Some(e.to_string());
                self.draft = Some(draft);
                None
            },
        }
    }

    /// Store the entry that was made of a draft.
    pub fn submit_entry<E: FnOnce(&[Entry]) -> Option<Vec<u8>>>(
        &mut self,
        draft: EntryDraft,
        entry: Entry,
        encode: E,
    ) -> (r: Option<DraftSave>)
        requires
            forall|entries: &[Entry]| encode.requires((entries,)),
        ensures
            old(self)@.submits_entry(
                draft@,
                entry@,
                encode,
                crate::error::viewed_option(r),
                final(self)@,
            ),
    {
        let ghost view = entry@;
        let outcome = match &mut self.app {
            Some(app) => {
                let ghost before = app@;
                if draft.is_new {
                    let saved = app.add_entry(entry, encode);
                    assert(before.adds_as(view, encode, crate::error::viewed(saved), app@));
                    app::when_needed(saved)
                } else {
                    app.update_entry(entry, encode)
                }
            },
            None => {
                self.op_error = Some("application not available".to_owned());
                self.draft = Some(draft);
                return None;
            },
        };
        assert(UiView::stores(
            old(self)@.app->0,
            draft@.is_new,
            view,
            encode,
            app::viewed_request(outcome),
            self@.app->0,
        ));
        match outcome {
            Ok(Some(request)) => {
                self.draft = None;
                Some(DraftSave { draft, request })
            },
            Ok(None) => {
                self.draft = None;
                None
            },
            Err(e) => {
                self.op_error = Some(e.to_string());
                self.draft = Some(draft);
                None
            },
        }
    }

    /// Take the outcome of writing the vault after an entry of the dialog was
    /// stored. If it could not be written, the dialog opens again.
    pub fn draft_saved(&mut self, draft: EntryDraft, stored: Result<()>)
        ensures
            final(self)@ == (match stored {
                Ok(_) => old(self)@,
                Err(e) => old(self)@.failing(e).drafting(Some(draft@)),
            }),
    {
        if let Err(e) = stored {
            self.op_error = Some(e.to_string());
            self.draft = Some(draft);
        }
    }
}

impl Drop for VaultApp {
    fn drop(&mut self)
        ensures
            final(self)@ == (UiView {
                unlock_password: Seq::empty(),
                create_password: Seq::empty(),
                create_confirm: Seq::empty(),
                ..old(self)@
            }),
        opens_invariants none
        no_unwind
    {
        zeroize_string(&mut self.unlock_password);
        zeroize_string(&mut self.create_password);
        zeroize_string(&mut self.create_confirm);
    }
}

/// A truncated text is never longer than asked for, and a text that fits is left
/// alone. One that does not fills the room, and ends in an ellipsis if there is
/// any.
pub proof fn truncation_fits(s: Seq<char>, max: nat)
    ensures
        text::cut(s, max).len() <= max,
        s.len() <= max ==> text::cut(s, max) == s,
        s.len() > max ==> text::cut(s, max).len() == max,
        s.len() > max > 0 ==> text::cut(s, max).last() == '…',
{
}

/// The list never depends on a password, a TOTP secret or notes: entries that
/// agree on everything else have the same row and are found by the same
/// queries.
pub proof fn rows_hold_no_secrets(a: EntryView, b: EntryView, query: Seq<char>)
    requires
        a.id == b.id,
        a.title == b.title,
        a.username == b.username,
        a.url == b.url,
    ensures
        row_of(a) == row_of(b),
        finds(query, a) == finds(query, b),
{
}

/// Without a query every entry is listed.
pub proof fn empty_query_lists_everything(entries: Seq<EntryView>)
    ensures
        selection(entries, Seq::empty()) == entries,
    decreases entries.len(),
{
    reveal(Seq::filter);
    if entries.len() > 0 {
        empty_query_lists_everything(entries.drop_last());
        assert(entries.drop_last().push(entries.last()) =~= entries);
    } else {
        assert(selection(entries, Seq::empty()) =~= entries);
    }
}

/// A draft that was opened on an entry and not touched describes that entry.
pub proof fn untouched_draft_gives_the_entry_back(entry: EntryView, outcome: Result<EntryView>)
    requires
        DraftView::of(entry, false).makes(outcome),
    ensures
        outcome == Ok::<EntryView, Error>(entry),
{
}

/// After the Lock button nothing of the vault is left in the interface: no
/// entries, no selection, no draft.
pub proof fn locking_clears_the_interface(ui: UiView, now: Instant)
    ensures
        ui.locking(now).entries().len() == 0,
        ui.locking(now).selected_id is None,
        ui.locking(now).draft is None,
        ui.locking(now).screen() != Some(Screen::Unlocked),
{
}

/// What cannot be saved is not lost: after the Save button the dialog is either
/// still open, with the fields of the draft as they were, or there is a file to
/// write for it and the draft is kept beside that. The one exception is an
/// edited entry that is no longer in the vault.
pub proof fn a_failed_submission_keeps_the_draft<E: FnOnce(&[Entry]) -> Option<Vec<u8>>>(
    ui: UiView,
    draft: DraftView,
    encode: E,
    save: Option<DraftSaveView>,
    after: UiView,
)
    requires
        ui.submits(draft, encode, save, after),
    ensures
        after.draft matches Some(kept) ==> save is None && kept == (DraftView {
            error: kept.error,
            ..draft
        }),
        save matches Some(s) ==> s.draft == draft && after.draft is None,
        after.draft is None && save is None ==> {
            &&& !draft.is_new
            &&& ui.screen() == Some(Screen::Unlocked)
            &&& !crate::entry::has_id(ui.entries(), draft.entry.id)
        },
{
}

} // verus!
