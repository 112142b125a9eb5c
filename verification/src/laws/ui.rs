//! What the dialogs and the list do.

use vstd::prelude::*;

use crate::app::{AppView, Copyable, NewVault, SaveView, StateView};
use crate::clipboard::ClipboardCall;
use crate::clock::Instant;
use crate::entry;
use crate::entry::{Entry, EntryView};
use crate::error::{Error, Result};
use crate::password_generator::Options;
use crate::text;
use crate::ui;
use crate::ui::{
    DraftSave, DraftSaveView, DraftView, EntryDraft, Row, RowView, Screen, UiView, VaultApp,
};
use crate::vault::VaultView;

use super::app as application;

verus! {

// ---------------------------------------------------------------------------
// Drafts
// ---------------------------------------------------------------------------

/// A draft is seen as it stands.
pub proof fn a_draft_is_its_fields(draft: EntryDraft)
    ensures
        draft@.entry.id == draft.id@,
        draft@.entry.title == draft.title@,
        draft@.entry.username == draft.username@,
        draft@.entry.password == draft.password@,
        draft@.entry.url == draft.url@,
        draft@.entry.totp == draft.totp@,
        draft@.entry.notes == draft.notes@,
        draft@.is_new == draft.is_new,
        draft@.show_generator == draft.show_generator,
        draft@.options == (Options {
            length: draft.gen_length,
            uppercase: draft.gen_uppercase,
            lowercase: draft.gen_lowercase,
            digits: draft.gen_digits,
            symbols: draft.gen_symbols,
        }),
        draft@.gen_result == draft.gen_result@,
        draft@.error is Some <==> draft.error is Some,
        draft.error matches Some(message) ==> draft@.error == Some(message@),
        draft@.gen_error is Some <==> draft.gen_error is Some,
        draft.gen_error matches Some(message) ==> draft@.gen_error == Some(message@),
{
}

/// The entry that is made of a draft has each of the draft's fields in its own
/// place. Only the id of a new one is fresh; an edited one keeps its id.
pub proof fn an_entry_keeps_every_field_of_its_draft(draft: DraftView, made: EntryView)
    requires
        draft.makes(Ok(made)),
    ensures
        made.title == draft.entry.title,
        made.username == draft.entry.username,
        made.password == draft.entry.password,
        made.url == draft.entry.url,
        made.totp == draft.entry.totp,
        made.notes == draft.entry.notes,
        draft.is_new ==> entry::is_fresh_id(made.id) && made.valid(),
        !draft.is_new ==> made.id == draft.entry.id,
{
}

/// An entry is made of every edited draft, and of every new one whose fields are
/// within their limits unless random bytes are wanting.
pub proof fn a_draft_is_refused_only_for(draft: DraftView, e: Error)
    requires
        draft.makes(Err(e)),
    ensures
        draft.is_new,
        e == Error::InvalidEntry || (e == Error::Crypto && crate::crypto::refused::<16>()),
        e == Error::InvalidEntry ==> {
            ||| super::entry::size(draft.entry.title) > 1_024
            ||| super::entry::size(draft.entry.username) > 4_096
            ||| super::entry::size(draft.entry.password) > 16_384
            ||| super::entry::size(draft.entry.url) > 4_096
            ||| super::entry::size(draft.entry.totp) > 1_024
            ||| super::entry::size(draft.entry.notes) > 65_536
        },
{
}

/// The dialog opens on an entry with every field of it, and on a new one with
/// nothing. The generator is closed and set to twenty-four characters of every
/// class.
pub proof fn a_dialog_opens_on(e: EntryView, is_new: bool)
    ensures
        DraftView::of(e, is_new).entry.id == e.id,
        DraftView::of(e, is_new).entry.title == e.title,
        DraftView::of(e, is_new).entry.username == e.username,
        DraftView::of(e, is_new).entry.password == e.password,
        DraftView::of(e, is_new).entry.url == e.url,
        DraftView::of(e, is_new).entry.totp == e.totp,
        DraftView::of(e, is_new).entry.notes == e.notes,
        DraftView::of(e, is_new).is_new == is_new,
        DraftView::of(e, is_new).error is None,
        !DraftView::of(e, is_new).show_generator,
        DraftView::of(e, is_new).options == (Options {
            length: 24,
            uppercase: true,
            lowercase: true,
            digits: true,
            symbols: true,
        }),
        DraftView::of(e, is_new).gen_result.len() == 0,
        DraftView::of(e, is_new).gen_error is None,
        DraftView::blank() == DraftView::of(EntryView::wiped(), true),
{
}

/// A generated password is shown and goes nowhere else; a failure leaves none
/// and a fixed message. Using it makes it the password of the draft, in place of
/// the old one, and closes the generator. No other field is touched.
pub proof fn a_generated_password_is_used_only_on_request(
    draft: DraftView,
    outcome: Result<Seq<char>>,
)
    ensures
        draft.generated(outcome).entry == draft.entry,
        draft.generated(outcome).options == draft.options,
        draft.generated(outcome).is_new == draft.is_new,
        draft.generated(outcome).error == draft.error,
        draft.generated(outcome).show_generator == draft.show_generator,
        outcome matches Ok(password) ==> draft.generated(outcome).gen_result == password
            && draft.generated(outcome).gen_error is None,
        outcome is Err ==> draft.generated(outcome).gen_result.len() == 0 && draft.generated(
            outcome,
        ).gen_error == Some("Select at least one character type."@),
        draft.with_generated().entry.password == draft.gen_result,
        draft.with_generated().entry == (EntryView {
            password: draft.gen_result,
            ..draft.entry
        }),
        draft.with_generated().gen_result.len() == 0,
        draft.with_generated().gen_error is None,
        !draft.with_generated().show_generator,
        draft.with_generated().options == draft.options,
        draft.with_generated().is_new == draft.is_new,
        draft.with_generated().error == draft.error,
{
}

// ---------------------------------------------------------------------------
// The list
// ---------------------------------------------------------------------------

/// Whether an entry is to be listed for a query: the query is empty, or occurs in
/// the lower-case form of the title, of the username or of the URL.
pub open spec fn is_wanted(query: Seq<char>, e: EntryView) -> bool {
    ||| query.len() == 0
    ||| text::occurs_in(query, text::lowercase(e.title))
    ||| text::occurs_in(query, text::lowercase(e.username))
    ||| text::occurs_in(query, text::lowercase(e.url))
}

/// Whether a row shows an entry: its id, title, username and URL, each in its own
/// place.
pub open spec fn shows(row: RowView, e: EntryView) -> bool {
    &&& row.id == e.id
    &&& row.title == e.title
    &&& row.username == e.username
    &&& row.url == e.url
}

/// A row is seen as it stands, and so is each of several.
pub proof fn a_row_is_its_fields(row: Row, rows: Seq<Row>)
    ensures
        row@.id == row.id@,
        row@.title == row.title@,
        row@.username == row.username@,
        row@.url == row.url@,
        ui::row_views(rows).len() == rows.len(),
        forall|i: int| 0 <= i < rows.len() ==> #[trigger] ui::row_views(rows)[i] == rows[i]@,
{
}

/// The list is made entry by entry, in their order: one whose title, username or
/// URL holds the query gets a row behind those before it, and any other none.
pub proof fn the_list_is_made_in_order(
    entries: Seq<EntryView>,
    query: Seq<char>,
    last: EntryView,
)
    ensures
        ui::rows_of(ui::selection(Seq::empty(), query)) == Seq::<RowView>::empty(),
        is_wanted(query, last) ==> ui::rows_of(ui::selection(entries.push(last), query))
            == ui::rows_of(ui::selection(entries, query)).push(
            RowView {
                id: last.id,
                title: last.title,
                username: last.username,
                url: last.url,
            },
        ),
        !is_wanted(query, last) ==> ui::rows_of(ui::selection(entries.push(last), query))
            == ui::rows_of(ui::selection(entries, query)),
{
    reveal(Seq::filter);
    let keep = |e: EntryView| ui::finds(query, e);
    assert(Seq::<EntryView>::empty().filter(keep) =~= Seq::empty());
    assert(ui::rows_of(ui::selection(Seq::empty(), query)) =~= Seq::empty());
    let longer = entries.push(last);
    assert(longer.drop_last() =~= entries);
    assert(longer.last() == last);
    if is_wanted(query, last) {
        assert(keep(last));
        assert(ui::rows_of(ui::selection(longer, query)) =~= ui::rows_of(
            ui::selection(entries, query),
        ).push(
            RowView {
                id: last.id,
                title: last.title,
                username: last.username,
                url: last.url,
            },
        ));
    } else {
        assert(!keep(last));
    }
}

/// Every entry that the query finds is shown by a row.
pub proof fn every_wanted_entry_is_listed(entries: Seq<EntryView>, query: Seq<char>, i: int)
    requires
        0 <= i < entries.len(),
        is_wanted(query, entries[i]),
    ensures
        ({
            let rows = ui::rows_of(ui::selection(entries, query));
            exists|k: int| 0 <= k < rows.len() && shows(#[trigger] rows[k], entries[i])
        }),
    decreases entries.len(),
{
    let shorter = entries.drop_last();
    let last = entries.last();
    assert(shorter.push(last) =~= entries);
    the_list_is_made_in_order(shorter, query, last);
    let rows = ui::rows_of(ui::selection(entries, query));
    let before = ui::rows_of(ui::selection(shorter, query));
    if i < shorter.len() {
        assert(shorter[i] == entries[i]);
        every_wanted_entry_is_listed(shorter, query, i);
        let k = choose|k: int| 0 <= k < before.len() && shows(#[trigger] before[k], shorter[i]);
        assert(rows[k] == before[k]);
    } else {
        assert(shows(rows[before.len() as int], entries[i]));
    }
}

/// Every row shows an entry that the query finds.
pub proof fn every_row_shows_a_wanted_entry(entries: Seq<EntryView>, query: Seq<char>, j: int)
    requires
        0 <= j < ui::rows_of(ui::selection(entries, query)).len(),
    ensures
        exists|k: int|
            {
                &&& 0 <= k < entries.len()
                &&& shows(ui::rows_of(ui::selection(entries, query))[j], #[trigger] entries[k])
                &&& is_wanted(query, entries[k])
            },
    decreases entries.len(),
{
    if entries.len() == 0 {
        assert(entries =~= Seq::empty());
        the_list_is_made_in_order(Seq::empty(), query, EntryView::wiped());
    } else {
        let shorter = entries.drop_last();
        let last = entries.last();
        assert(shorter.push(last) =~= entries);
        the_list_is_made_in_order(shorter, query, last);
        let before = ui::rows_of(ui::selection(shorter, query));
        if j < before.len() {
            every_row_shows_a_wanted_entry(shorter, query, j);
            let k = choose|k: int|
                {
                    &&& 0 <= k < shorter.len()
                    &&& shows(before[j], #[trigger] shorter[k])
                    &&& is_wanted(query, shorter[k])
                };
            assert(entries[k] == shorter[k]);
        } else {
            assert(shows(
                ui::rows_of(ui::selection(entries, query))[j],
                entries[entries.len() - 1],
            ));
        }
    }
}

/// Whether rows list exactly the entries that a query finds: every entry with the
/// query in the lower-case form of its title has a row, every one with it in that
/// of its username, every one with it in that of its URL, and every one at all if
/// the query is empty; and each row shows an entry of which one of these holds.
pub open spec fn lists_exactly(
    rows: Seq<RowView>,
    entries: Seq<EntryView>,
    query: Seq<char>,
) -> bool {
    &&& forall|i: int|
        0 <= i < entries.len() && text::occurs_in(
            query,
            text::lowercase((#[trigger] entries[i]).title),
        ) ==> has_row(rows, entries[i])
    &&& forall|i: int|
        0 <= i < entries.len() && text::occurs_in(
            query,
            text::lowercase((#[trigger] entries[i]).username),
        ) ==> has_row(rows, entries[i])
    &&& forall|i: int|
        0 <= i < entries.len() && text::occurs_in(
            query,
            text::lowercase((#[trigger] entries[i]).url),
        ) ==> has_row(rows, entries[i])
    &&& query.len() == 0 ==> forall|i: int|
        0 <= i < entries.len() ==> has_row(rows, #[trigger] entries[i])
    &&& forall|j: int|
        0 <= j < rows.len() ==> is_row_of_wanted(#[trigger] rows[j], entries, query)
}

/// Whether some row shows the entry.
pub open spec fn has_row(rows: Seq<RowView>, e: EntryView) -> bool {
    exists|k: int| 0 <= k < rows.len() && shows(#[trigger] rows[k], e)
}

/// Whether the row shows an entry that the query finds.
pub open spec fn is_row_of_wanted(
    row: RowView,
    entries: Seq<EntryView>,
    query: Seq<char>,
) -> bool {
    exists|k: int|
        0 <= k < entries.len() && shows(row, #[trigger] entries[k]) && is_wanted(query, entries[k])
}

/// The list is exact, whatever the entries and the query.
pub proof fn the_list_is_exact(entries: Seq<EntryView>, query: Seq<char>)
    ensures
        lists_exactly(ui::rows_of(ui::selection(entries, query)), entries, query),
{
    let rows = ui::rows_of(ui::selection(entries, query));
    assert forall|i: int| 0 <= i < entries.len() && is_wanted(
        query,
        #[trigger] entries[i],
    ) implies has_row(rows, entries[i]) by {
        every_wanted_entry_is_listed(entries, query, i);
    }
    assert forall|j: int| 0 <= j < rows.len() implies is_row_of_wanted(
        #[trigger] rows[j],
        entries,
        query,
    ) by {
        every_row_shows_a_wanted_entry(entries, query, j);
    }
}

/// The query is the lower-case form of what is in the search field, without the
/// white space around it.
pub proof fn the_query_is_what_was_typed(search: Seq<char>, from: int, to: int)
    requires
        0 <= from < to <= search.len(),
        !text::is_whitespace(search[from]),
        !text::is_whitespace(search[to - 1]),
        forall|i: int| 0 <= i < from ==> text::is_whitespace(#[trigger] search[i]),
        forall|i: int| to <= i < search.len() ==> text::is_whitespace(#[trigger] search[i]),
    ensures
        ui::query_of(search) == text::lowercase(search.subrange(from, to)),
{
    super::text::trimming_cuts_only_white_space(search);
    let trimmed = text::trimmed_end(text::trimmed_start(search));
    let start = choose|start: int|
        {
            &&& 0 <= start <= start + trimmed.len() <= search.len()
            &&& #[trigger] search.subrange(start, start + trimmed.len()) == trimmed
            &&& forall|i: int|
                0 <= i < search.len() && !(start <= i < start + trimmed.len())
                    ==> text::is_whitespace(#[trigger] search[i])
        };
    assert(start <= from < start + trimmed.len());
    assert(start <= to - 1 < start + trimmed.len());
    assert(trimmed[0] == search[start]);
    assert(trimmed.last() == search[start + trimmed.len() - 1]);
    assert(start == from);
    assert(start + trimmed.len() == to);
}

/// The line of a row shows the title in a column of thirty-two characters, the
/// username in one of twenty-four and the URL in full, with three spaces between
/// them. What does not fit its column is cut.
pub proof fn a_line_has_columns(row: RowView)
    ensures
        ({
            let line = ui::label_of(row);
            let title = text::cut(row.title, 32);
            let username = text::cut(row.username, 24);
            &&& line.len() == 62 + row.url.len()
            &&& title.len() <= 32 && line.take(title.len() as int) == title
            &&& forall|i: int| title.len() <= i < 35 ==> #[trigger] line[i] == ' '
            &&& username.len() <= 24 && line.subrange(35, 35int + username.len()) == username
            &&& forall|i: int| 35 + username.len() <= i < 62 ==> #[trigger] line[i] == ' '
            &&& line.skip(62) == row.url
        }),
{
    reveal_strlit("   ");
    let line = ui::label_of(row);
    let title = text::cut(row.title, 32);
    let username = text::cut(row.username, 24);
    super::text::padding_adds_only_spaces(title, 32);
    super::text::padding_adds_only_spaces(username, 24);
    let first = text::padded(title, 32);
    let second = text::padded(username, 24);
    assert forall|i: int| 0 <= i < title.len() implies first[i] == title[i] by {
        assert(first.take(title.len() as int)[i] == title[i]);
    }
    assert forall|i: int| 0 <= i < username.len() implies second[i] == username[i] by {
        assert(second.take(username.len() as int)[i] == username[i]);
    }
    assert forall|i: int| 0 <= i < 32 implies line[i] == first[i] by {}
    assert forall|i: int| 0 <= i < 24 implies line[35 + i] == second[i] by {}
    assert forall|i: int| 35 + username.len() <= i < 62 implies #[trigger] line[i] == ' ' by {
        if i < 59 {
            assert(second[i - 35] == ' ');
        }
    }
    assert(line.take(title.len() as int) =~= title);
    assert(line.subrange(35, 35int + username.len()) =~= username);
    assert(line.skip(62) =~= row.url);
}

// ---------------------------------------------------------------------------
// The window
// ---------------------------------------------------------------------------

/// The interface is seen as it stands.
pub proof fn the_interface_is_its_fields(window: VaultApp, save: DraftSave)
    ensures
        window@.unlock_password == window.unlock_password@,
        window@.create_password == window.create_password@,
        window@.create_confirm == window.create_confirm@,
        window@.search == window.search@,
        window.app is None <==> window@.app is None,
        window.app matches Some(app) ==> window@.app == Some(app@),
        window.selected_id is None <==> window@.selected_id is None,
        window.selected_id matches Some(id) ==> window@.selected_id == Some(id@),
        window.draft is None <==> window@.draft is None,
        window.draft matches Some(draft) ==> window@.draft == Some(draft@),
        window.op_error is None <==> window@.op_error is None,
        window.op_error matches Some(message) ==> window@.op_error == Some(message@),
        window.init_error is None <==> window@.init_error is None,
        window.init_error matches Some(message) ==> window@.init_error == Some(message@),
        save@.draft == save.draft@,
        save@.request == save.request@,
{
}

/// The screen follows the state, and the list is made from the entries of an
/// unlocked vault alone.
pub proof fn the_screen_follows_the_state(window: UiView)
    ensures
        window.app is None ==> window.screen() is None && window.entries().len() == 0,
        window.app matches Some(app) ==> {
            &&& app.state is NoVault ==> window.screen() == Some(Screen::NoVault)
            &&& app.state is Locked ==> window.screen() == Some(Screen::Locked)
            &&& app.state is Unlocked ==> window.screen() == Some(Screen::Unlocked)
            &&& app.state matches StateView::Unlocked { path: _, vault } ==> window.entries()
                == vault.entries
            &&& !(app.state is Unlocked) ==> window.entries().len() == 0
        },
{
}

/// Each part of the interface can change alone.
pub proof fn parts_change_alone(
    window: UiView,
    app: AppView,
    e: Error,
    draft: Option<DraftView>,
)
    ensures
        window.with_app(app) == (UiView { app: Some(app), ..window }),
        window.failing(e) == (UiView { op_error: Some(e.text()), ..window }),
        window.drafting(draft) == (UiView { draft, ..window }),
        window.deselected() == (UiView { selected_id: None, ..window }),
{
}

/// The Edit button opens the dialog on the first entry with the selected id, with
/// every field of it, as an entry that is already there. If it is gone the dialog
/// closes; without a selection nothing happens.
pub proof fn editing_opens_the_selected_entry(window: UiView)
    ensures
        window.selected_id is None ==> window.editing() == window,
        window.editing() == (UiView { draft: window.editing().draft, ..window }),
        window.selected_id matches Some(id) ==> {
            &&& !entry::has_id(window.entries(), id) ==> window.editing().draft is None
            &&& entry::has_id(window.entries(), id) ==> exists|i: int|
                {
                    &&& #[trigger] application::first_at(window.entries(), id, i)
                    &&& window.editing().draft is Some
                    &&& window.editing().draft->0.entry == window.entries()[i]
                    &&& !window.editing().draft->0.is_new
                }
        },
{
    if let Some(id) = window.selected_id {
        super::entry::looking_up_finds_the_first(window.entries(), id);
        if entry::has_id(window.entries(), id) {
            let e = entry::entry_with(window.entries(), id)->0;
            let i = choose|i: int|
                {
                    &&& 0 <= i < window.entries().len()
                    &&& #[trigger] window.entries()[i] == e
                    &&& e.id == id
                    &&& forall|j: int| 0 <= j < i ==> (#[trigger] window.entries()[j]).id != id
                };
            assert(application::first_at(window.entries(), id, i));
        }
    }
}

/// The copy buttons hand the password, or the username, of the selected entry to
/// the clipboard. Only the clipboard guard changes, and the message if it failed.
pub proof fn the_copy_buttons_copy_the_selected_entry(
    window: UiView,
    field: Copyable,
    after: UiView,
)
    requires
        window.copies(field, after),
    ensures
        window.selected_id is None || window.app is None ==> after == window,
        window.selected_id matches Some(id) ==> (window.app matches Some(app) ==> exists|
            r: Result<()>,
            then: AppView,
        |
            {
                &&& #[trigger] app.copies(id, field, r, then)
                &&& r is Ok ==> after == (UiView { app: Some(then), ..window })
                &&& r matches Err(e) ==> after == (UiView {
                    app: Some(then),
                    op_error: Some(e.text()),
                    ..window
                })
            }),
        window.selected_id matches Some(id) ==> (window.app matches Some(app) ==> (entry::has_id(
            app.entries(),
            id,
        ) ==> exists|i: int, r: Result<()>|
            {
                &&& application::first_at(app.entries(), id, i)
                &&& after.app is Some
                &&& after.app->0.clipboard.history == #[trigger] placed(
                    app.clipboard.history,
                    app.entries()[i],
                    field,
                    r,
                )
            })),
{
    if window.selected_id is Some && window.app is Some {
        let id = window.selected_id->0;
        let app = window.app->0;
        let (r, then) = choose|r: Result<()>, then: AppView|
            {
                &&& #[trigger] app.copies(id, field, r, then)
                &&& after == (match r {
                    Ok(_) => window.with_app(then),
                    Err(e) => window.with_app(then).failing(e),
                })
            };
        assert(app.copies(id, field, r, then));
        application::copying_hands_over_the_field(app, id, field, r, then);
        if entry::has_id(app.entries(), id) {
            let i = choose|i: int|
                {
                    let value = if field is Password {
                        app.entries()[i].password
                    } else {
                        app.entries()[i].username
                    };
                    &&& #[trigger] application::first_at(app.entries(), id, i)
                    &&& then.clipboard.history == app.clipboard.history.push(
                        ClipboardCall::SetText { text: value, outcome: r },
                    )
                };
            assert(then.clipboard.history == placed(
                app.clipboard.history,
                app.entries()[i],
                field,
                r,
            ));
        }
    }
}

/// The calls to a clipboard once the password, or else the username, of an entry
/// was placed on it.
pub open spec fn placed(
    calls: Seq<ClipboardCall>,
    e: EntryView,
    field: Copyable,
    outcome: Result<()>,
) -> Seq<ClipboardCall> {
    if field is Password {
        calls.push(ClipboardCall::SetText { text: e.password, outcome })
    } else {
        calls.push(ClipboardCall::SetText { text: e.username, outcome })
    }
}

/// The Delete button removes the selected id from the vault and asks for the file
/// to be written, if there was such an entry. The selection goes at once where
/// there is nothing to write, and stays with the message where it failed.
pub proof fn the_delete_button_removes_the_selected_entry<
    E: FnOnce(&[Entry]) -> Option<Vec<u8>>,
>(window: UiView, encode: E, request: Option<SaveView>, after: UiView)
    requires
        window.deletes(encode, request, after),
    ensures
        window.selected_id is None ==> after == window && request is None,
        window.selected_id is Some && window.app is None ==> after == (UiView {
            selected_id: None,
            ..window
        }) && request is None,
        window.selected_id matches Some(id) ==> (window.app matches Some(app) ==> {
            &&& after.app is Some
            &&& app.state is Unlocked ==> !entry::has_id(after.entries(), id) && forall|
                e: EntryView,
            |
                window.entries().contains(e) && e.id != id <==> #[trigger] after.entries().contains(
                    e,
                )
            &&& !(app.state is Unlocked) ==> after == (UiView {
                op_error: Some(Error::VaultNotFound.text()),
                ..window
            }) && request is None
            &&& request is Some ==> after.selected_id == window.selected_id && after.op_error
                == window.op_error && app.state is Unlocked && request->0.path
                == app.state->Unlocked_path
            &&& request is None && entry::has_id(window.entries(), id) ==> after.op_error is Some
                && after.selected_id == window.selected_id
            &&& app.state is Unlocked && !entry::has_id(window.entries(), id)
                ==> after.selected_id is None
            &&& after.selected_id is None ==> request is None && !entry::has_id(
                window.entries(),
                id,
            )
            &&& after == (UiView {
                app: after.app,
                selected_id: after.selected_id,
                op_error: after.op_error,
                ..window
            })
        }),
{
    if window.selected_id is Some && window.app is Some {
        let id = window.selected_id->0;
        let app = window.app->0;
        let (outcome, then) = choose|outcome: Result<Option<SaveView>>, then: AppView|
            {
                &&& #[trigger] app.removes_as(id, encode, outcome, then)
                &&& match outcome {
                    Err(e) => after == window.with_app(then).failing(e) && request is None,
                    Ok(None) => after == window.with_app(then).deselected() && request is None,
                    Ok(Some(save)) => after == window.with_app(then) && request == Some(save),
                }
            };
        application::removing_takes_out(app, id, encode, outcome, then);
    }
}

/// The Lock button forgets the selection, the draft and the message, and locks
/// the vault. What was typed into the other fields stays.
pub proof fn the_lock_button_clears(window: UiView, now: Instant)
    ensures
        window.locking(now).selected_id is None,
        window.locking(now).draft is None,
        window.locking(now).op_error is None,
        window.locking(now).search == window.search,
        window.locking(now).unlock_password == window.unlock_password,
        window.locking(now).create_password == window.create_password,
        window.locking(now).create_confirm == window.create_confirm,
        window.locking(now).init_error == window.init_error,
        window.app is None ==> window.locking(now).app is None,
        window.app matches Some(app) ==> window.locking(now).app == Some(app.locked(now)),
        window.app matches Some(app) ==> (app.state matches StateView::Unlocked { path, vault: _ }
            ==> window.locking(now).app->0.state == (StateView::Locked { path })),
        window.locking(now).entries().len() == 0,
        window.can_lock_at(now) <==> (window.app matches Some(app) ==> app.timer.shows(now)),
{
}

/// Saving a new draft adds an entry with exactly its fields behind the others,
/// which stay; nothing else of the vault changes. Where none is added the dialog
/// stays open, with the reason.
pub proof fn saving_a_new_draft_adds_its_entry<E: FnOnce(&[Entry]) -> Option<Vec<u8>>>(
    window: UiView,
    draft: DraftView,
    encode: E,
    save: Option<DraftSaveView>,
    after: UiView,
)
    requires
        draft.is_new,
        window.submits(draft, encode, save, after),
    ensures
        save matches Some(s) ==> {
            &&& s.draft == draft
            &&& window.app is Some
            &&& window.app->0.state is Unlocked
            &&& s.request.path == window.app->0.state->Unlocked_path
            &&& after.draft is None
            &&& after.entries().len() == window.entries().len() + 1
            &&& after.entries().drop_last() == window.entries()
            &&& after.entries().last().title == draft.entry.title
            &&& after.entries().last().username == draft.entry.username
            &&& after.entries().last().password == draft.entry.password
            &&& after.entries().last().url == draft.entry.url
            &&& after.entries().last().totp == draft.entry.totp
            &&& after.entries().last().notes == draft.entry.notes
            &&& entry::is_fresh_id(after.entries().last().id)
            &&& forall|i: int|
                0 <= i < window.entries().len() ==> (#[trigger] window.entries()[i]).id
                    != after.entries().last().id
        },
        save is None ==> {
            &&& after.draft is Some
            &&& after.draft->0.entry == draft.entry
            &&& after.draft->0.error is Some || after.op_error is Some
        },
        after.search == window.search,
        after.selected_id == window.selected_id,
{
    let made = choose|made: Result<EntryView>|
        {
            &&& #[trigger] draft.makes(made)
            &&& match made {
                Err(e) => {
                    &&& after == window.drafting(
                        Some(DraftView { error: Some(e.text()), ..draft }),
                    )
                    &&& save is None
                },
                Ok(e) => window.submits_entry(draft, e, encode, save, after),
            }
        };
    if made is Ok && window.app is Some {
        let e = made->Ok_0;
        let app = window.app->0;
        let (outcome, then) = choose|outcome: Result<Option<SaveView>>, then: AppView|
            {
                &&& #[trigger] UiView::stores(app, true, e, encode, outcome, then)
                &&& match outcome {
                    Err(error) => {
                        &&& after == window.with_app(then).failing(error).drafting(Some(draft))
                        &&& save is None
                    },
                    Ok(None) => {
                        &&& after == window.with_app(then).drafting(None)
                        &&& save is None
                    },
                    Ok(Some(request)) => {
                        &&& after == window.with_app(then).drafting(None)
                        &&& save == Some(DraftSaveView { draft, request })
                    },
                }
            };
        let saved = choose|saved: Result<SaveView>| #[trigger]
            app.adds_as(e, encode, saved, then) && outcome == crate::app::needed(saved);
        application::adding_appends(app, e, encode, saved, then);
        if save is Some {
            assert(after.entries() == window.entries().push(e));
            assert(after.entries().drop_last() =~= window.entries());
        }
    }
}

/// Storing an entry of the dialog adds exactly that entry, or puts it in the first
/// place of its id. Without an application nothing is stored and the dialog stays
/// open.
pub proof fn storing_stores_the_entry<E: FnOnce(&[Entry]) -> Option<Vec<u8>>>(
    window: UiView,
    draft: DraftView,
    e: EntryView,
    encode: E,
    save: Option<DraftSaveView>,
    after: UiView,
)
    requires
        window.submits_entry(draft, e, encode, save, after),
    ensures
        window.app is None ==> save is None && after == (UiView {
            op_error: Some("application not available"@),
            draft: Some(draft),
            ..window
        }),
        save is Some ==> after.draft is None && after.op_error == window.op_error,
        save is Some && draft.is_new ==> after.entries() == window.entries().push(e),
        save is Some && !draft.is_new ==> exists|i: int|
            #[trigger] application::first_at(window.entries(), e.id, i) && after.entries()
                == window.entries().update(i, e),
        window.app matches Some(app) ==> (!(app.state is Unlocked) ==> save is None && after == (
        UiView {
            op_error: Some("no vault found at that location"@),
            draft: Some(draft),
            ..window
        })),
        window.app matches Some(app) ==> (app.state is Unlocked && draft.is_new
            && !application::may_join(window.entries(), e) ==> save is None && after == (UiView {
            op_error: Some("vault contents are not valid"@),
            draft: Some(draft),
            ..window
        })),
{
    if window.app is Some {
        let app = window.app->0;
        let (outcome, then) = choose|outcome: Result<Option<SaveView>>, then: AppView|
            {
                &&& #[trigger] UiView::stores(app, draft.is_new, e, encode, outcome, then)
                &&& match outcome {
                    Err(error) => {
                        &&& after == window.with_app(then).failing(error).drafting(Some(draft))
                        &&& save is None
                    },
                    Ok(None) => {
                        &&& after == window.with_app(then).drafting(None)
                        &&& save is None
                    },
                    Ok(Some(request)) => {
                        &&& after == window.with_app(then).drafting(None)
                        &&& save == Some(DraftSaveView { draft, request })
                    },
                }
            };
        if draft.is_new {
            let saved = choose|saved: Result<SaveView>| #[trigger]
                app.adds_as(e, encode, saved, then) && outcome == crate::app::needed(saved);
            application::adding_appends(app, e, encode, saved, then);
        } else {
            application::updating_replaces(app, e, encode, outcome, then);
            if save is Some {
                let path = app.state->Unlocked_path;
                let vault = app.state->vault;
                let i = choose|i: int|
                    {
                        let updated = VaultView { entries: app.entries().update(i, e), ..vault };
                        &&& #[trigger] application::first_at(app.entries(), e.id, i)
                        &&& then == (AppView {
                            state: StateView::Unlocked { path, vault: updated },
                            ..app
                        })
                    };
                assert(application::first_at(window.entries(), e.id, i));
                assert(after.entries() == window.entries().update(i, e));
            }
        }
    }
}

/// Saving an edited draft puts exactly its fields in the first place that its id
/// has, and every other entry stays.
pub proof fn saving_an_edited_draft_replaces_its_entry<E: FnOnce(&[Entry]) -> Option<Vec<u8>>>(
    window: UiView,
    draft: DraftView,
    encode: E,
    save: Option<DraftSaveView>,
    after: UiView,
)
    requires
        !draft.is_new,
        window.submits(draft, encode, save, after),
    ensures
        save matches Some(s) ==> {
            &&& s.draft == draft
            &&& window.app is Some
            &&& window.app->0.state is Unlocked
            &&& s.request.path == window.app->0.state->Unlocked_path
            &&& after.draft is None
            &&& draft.entry.valid()
            &&& exists|i: int|
                {
                    &&& #[trigger] application::first_at(window.entries(), draft.entry.id, i)
                    &&& after.entries() == window.entries().update(i, draft.entry)
                }
        },
        save is None && after.draft is None ==> after.entries() == window.entries()
            && !entry::has_id(window.entries(), draft.entry.id),
        after.draft is Some ==> save is None && after.draft->0.entry == draft.entry
            && after.op_error is Some,
        after.search == window.search,
        after.selected_id == window.selected_id,
{
    let made = choose|made: Result<EntryView>|
        {
            &&& #[trigger] draft.makes(made)
            &&& match made {
                Err(e) => {
                    &&& after == window.drafting(
                        Some(DraftView { error: Some(e.text()), ..draft }),
                    )
                    &&& save is None
                },
                Ok(e) => window.submits_entry(draft, e, encode, save, after),
            }
        };
    let e = made->Ok_0;
    if window.app is Some {
        let app = window.app->0;
        let (outcome, then) = choose|outcome: Result<Option<SaveView>>, then: AppView|
            {
                &&& #[trigger] UiView::stores(app, false, e, encode, outcome, then)
                &&& match outcome {
                    Err(error) => {
                        &&& after == window.with_app(then).failing(error).drafting(Some(draft))
                        &&& save is None
                    },
                    Ok(None) => {
                        &&& after == window.with_app(then).drafting(None)
                        &&& save is None
                    },
                    Ok(Some(request)) => {
                        &&& after == window.with_app(then).drafting(None)
                        &&& save == Some(DraftSaveView { draft, request })
                    },
                }
            };
        application::updating_replaces(app, e, encode, outcome, then);
        if save is Some {
            let path = app.state->Unlocked_path;
            let vault = app.state->vault;
            let i = choose|i: int|
                {
                    let updated = VaultView { entries: app.entries().update(i, e), ..vault };
                    &&& #[trigger] application::first_at(app.entries(), e.id, i)
                    &&& then == (AppView {
                        state: StateView::Unlocked { path, vault: updated },
                        ..app
                    })
                };
            assert(application::first_at(window.entries(), draft.entry.id, i));
            assert(after.entries() == window.entries().update(i, draft.entry));
        }
    }
}

// ---------------------------------------------------------------------------
// Calls
// ---------------------------------------------------------------------------

/// What is made of a draft has the text of each field of the dialog in the field
/// of the same name, and a dialog that was opened on an entry shows each of its
/// fields under the same name.
pub proof fn fields_keep_their_names(
    draft: &EntryDraft,
    made: Result<Entry>,
    e: &Entry,
    is_new: bool,
    opened: EntryDraft,
)
    requires
        call_ensures(EntryDraft::to_entry, (draft,), made),
        call_ensures(EntryDraft::from_entry, (e, is_new), opened),
    ensures
        made matches Ok(entry) ==> {
            &&& entry.title@ == draft.title@
            &&& entry.username@ == draft.username@
            &&& entry.password@ == draft.password@
            &&& entry.url@ == draft.url@
            &&& entry.totp@ == draft.totp@
            &&& entry.notes@ == draft.notes@
            &&& !draft.is_new ==> entry.id@ == draft.id@
        },
        opened.id@ == e.id@,
        opened.title@ == e.title@,
        opened.username@ == e.username@,
        opened.password@ == e.password@,
        opened.url@ == e.url@,
        opened.totp@ == e.totp@,
        opened.notes@ == e.notes@,
        opened.is_new == is_new,
{
}

/// The rows that are displayed list exactly the entries that the search finds.
pub proof fn displayed_rows_are_exact(window: &VaultApp, rows: Vec<Row>)
    requires
        call_ensures(VaultApp::display_rows, (window,), rows),
    ensures
        lists_exactly(
            ui::row_views(rows@),
            window@.entries(),
            text::lowercase(text::trimmed_end(text::trimmed_start(window.search@))),
        ),
{
}

/// A row is selected by its id, and the buttons that need a selection are enabled
/// exactly if there is one. The dialog's title tells a new entry from an edited
/// one, its generator is drawn only while the dialog stays open, and a generated
/// password can be used exactly if there is one.
pub proof fn the_window_answers(
    window: &VaultApp,
    row: &Row,
    selected: bool,
    enabled: bool,
    draft: &EntryDraft,
    title: &'static str,
    window_open: bool,
    apply: bool,
    cancel: bool,
    drawn: bool,
    usable: bool,
)
    requires
        call_ensures(VaultApp::is_selected, (window, row), selected),
        call_ensures(VaultApp::has_selection, (window,), enabled),
        call_ensures(EntryDraft::dialog_title, (draft,), title),
        call_ensures(EntryDraft::draws_generator, (draft, window_open, apply, cancel), drawn),
        call_ensures(EntryDraft::can_use_generated, (draft,), usable),
    ensures
        selected <==> window.selected_id is Some && window.selected_id->0@ == row.id@,
        enabled <==> window.selected_id is Some,
        draft.is_new ==> title@ == "New Entry"@,
        !draft.is_new ==> title@ == "Edit Entry"@,
        drawn <==> draft.show_generator && window_open && !apply && !cancel,
        usable <==> draft.gen_result@.len() > 0,
{
}

/// The outcome of writing the vault after a deletion, or after the dialog, is
/// shown if it failed. A deletion that was written drops the selection; a dialog
/// whose entry could not be written opens again as it was.
pub proof fn written_changes_are_acknowledged()
    ensures
        forall|window: &mut VaultApp, stored: Result<()>, done: ()|
            #[trigger] call_ensures(VaultApp::delete_saved, (window, stored), done) ==> {
                &&& stored is Ok ==> final(window)@ == (UiView {
                    selected_id: None,
                    ..(*window)@
                })
                &&& stored matches Err(e) ==> final(window)@ == (UiView {
                    op_error: Some(e.text()),
                    ..(*window)@
                })
            },
        forall|window: &mut VaultApp, draft: EntryDraft, stored: Result<()>, done: ()|
            #[trigger] call_ensures(VaultApp::draft_saved, (window, draft, stored), done) ==> {
                &&& stored is Ok ==> final(window)@ == (*window)@
                &&& stored matches Err(e) ==> final(window)@ == (UiView {
                    op_error: Some(e.text()),
                    draft: Some(draft@),
                    ..(*window)@
                })
            },
{
}

/// The Create button hands on exactly what was typed into its two fields, and
/// empties both whatever comes of it.
pub proof fn the_create_button_empties_its_fields()
    ensures
        forall|window: &mut VaultApp, there: bool, r: Option<NewVault>|
            #[trigger] call_ensures(VaultApp::submit_create, (window, there), r) ==> {
                &&& final(window)@.create_password.len() == 0
                &&& final(window)@.create_confirm.len() == 0
                &&& r is Some ==> (*window)@.create_password == (*window)@.create_confirm
                    && (*window)@.create_password.len() >= 12 && !there
                &&& final(window)@ == (UiView {
                    app: final(window)@.app,
                    create_password: final(window)@.create_password,
                    create_confirm: final(window)@.create_confirm,
                    ..(*window)@
                })
                &&& (*window)@.app matches Some(app) ==> {
                    &&& final(window)@.app is Some
                    &&& final(window)@.app->0 == (AppView {
                        error: final(window)@.app->0.error,
                        ..app
                    })
                    &&& (*window)@.create_password.len() >= 12 && (*window)@.create_password
                        != (*window)@.create_confirm ==> final(window)@.app->0.error == Some(
                        "passwords do not match"@,
                    )
                    &&& (*window)@.create_password.len() >= 12 && (*window)@.create_password
                        == (*window)@.create_confirm && there ==> final(window)@.app->0.error
                        == Some("a vault already exists at that location"@)
                }
            },
{
}

} // verus!
