//! What may stand in a vault.

use vstd::prelude::*;

use crate::entry;
use crate::entry::{Entry, EntryView};
use crate::error::Result;

verus! {

/// The number of bytes of a text in UTF-8.
pub open spec fn size(text: Seq<char>) -> nat {
    vstd::utf8::encode_utf8(text).len()
}

/// Whether every byte of a text is a hexadecimal digit.
pub open spec fn is_hexadecimal(text: Seq<char>) -> bool {
    let bytes = vstd::utf8::encode_utf8(text);
    forall|i: int|
        0 <= i < bytes.len() ==> 48 <= #[trigger] bytes[i] <= 57 || 65 <= bytes[i] <= 70 || 97
            <= bytes[i] <= 102
}

/// An entry is valid exactly if its id is one to 128 hexadecimal digits and
/// every other field is within its limit.
pub proof fn entries_are_valid_within_limits(e: EntryView)
    ensures
        e.valid() <==> {
            &&& 0 < size(e.id) <= 128
            &&& is_hexadecimal(e.id)
            &&& size(e.title) <= 1_024
            &&& size(e.username) <= 4_096
            &&& size(e.password) <= 16_384
            &&& size(e.url) <= 4_096
            &&& size(e.totp) <= 1_024
            &&& size(e.notes) <= 65_536
        },
        entry::fields_fit(e.title, e.username, e.password, e.url, e.totp, e.notes) <==> {
            &&& size(e.title) <= 1_024
            &&& size(e.username) <= 4_096
            &&& size(e.password) <= 16_384
            &&& size(e.url) <= 4_096
            &&& size(e.totp) <= 1_024
            &&& size(e.notes) <= 65_536
        },
{
    let bytes = vstd::utf8::encode_utf8(e.id);
    if is_hexadecimal(e.id) {
        assert forall|i: int| 0 <= i < bytes.len() implies crate::text::is_hex_byte(
            #[trigger] bytes[i],
        ) by {}
    }
    if e.valid() {
        assert forall|i: int| 0 <= i < bytes.len() implies 48 <= #[trigger] bytes[i] <= 57 || 65
            <= bytes[i] <= 70 || 97 <= bytes[i] <= 102 by {
            assert(crate::text::is_hex_byte(bytes[i]));
        }
    }
}

/// Entries may stand together exactly if they are at most a hundred thousand,
/// each is valid, and no two have the same id.
pub proof fn entries_stand_together(entries: Seq<EntryView>)
    ensures
        entry::valid_entries(entries) <==> {
            &&& entries.len() <= 100_000
            &&& forall|i: int| 0 <= i < entries.len() ==> (#[trigger] entries[i]).valid()
            &&& forall|i: int, j: int|
                0 <= i < entries.len() && 0 <= j < entries.len() && i != j ==> (
                #[trigger] entries[i]).id != (#[trigger] entries[j]).id
        },
{
}

/// An entry is seen as it stands, and so is each of several.
pub proof fn an_entry_is_its_fields(e: Entry, entries: Seq<Entry>)
    ensures
        e@.id == e.id@,
        e@.title == e.title@,
        e@.username == e.username@,
        e@.password == e.password@,
        e@.url == e.url@,
        e@.totp == e.totp@,
        e@.notes == e.notes@,
        entry::entry_views(entries).len() == entries.len(),
        forall|i: int|
            0 <= i < entries.len() ==> #[trigger] entry::entry_views(entries)[i] == entries[i]@,
{
}

/// A wiped entry has nothing in any field.
pub proof fn a_wiped_entry_is_empty()
    ensures
        EntryView::wiped().id.len() == 0,
        EntryView::wiped().title.len() == 0,
        EntryView::wiped().username.len() == 0,
        EntryView::wiped().password.len() == 0,
        EntryView::wiped().url.len() == 0,
        EntryView::wiped().totp.len() == 0,
        EntryView::wiped().notes.len() == 0,
{
}

/// Looking an id up finds the first entry that has it, and nothing only if none
/// has it.
pub proof fn looking_up_finds_the_first(entries: Seq<EntryView>, id: Seq<char>)
    ensures
        entry::has_id(entries, id) <==> exists|i: int|
            0 <= i < entries.len() && (#[trigger] entries[i]).id == id,
        entry::entry_with(entries, id) is None <==> forall|i: int|
            0 <= i < entries.len() ==> (#[trigger] entries[i]).id != id,
        entry::entry_with(entries, id) matches Some(e) ==> exists|i: int|
            {
                &&& 0 <= i < entries.len()
                &&& #[trigger] entries[i] == e
                &&& e.id == id
                &&& forall|j: int| 0 <= j < i ==> (#[trigger] entries[j]).id != id
            },
        forall|i: int|
            #[trigger] entry::is_first(entries, id, i) <==> {
                &&& 0 <= i < entries.len()
                &&& entries[i].id == id
                &&& forall|j: int| 0 <= j < i ==> (#[trigger] entries[j]).id != id
            },
{
    if entry::has_id(entries, id) {
        first_exists(entries, id);
        let i = choose|i: int| entry::is_first(entries, id, i);
        assert(entries[i].id == id);
    }
}

proof fn first_exists(entries: Seq<EntryView>, id: Seq<char>)
    requires
        entry::has_id(entries, id),
    ensures
        exists|i: int| entry::is_first(entries, id, i),
    decreases entries.len(),
{
    let k = choose|i: int| 0 <= i < entries.len() && (#[trigger] entries[i]).id == id;
    let before = entries.take(k);
    if entry::has_id(before, id) {
        first_exists(before, id);
        let i = choose|i: int| entry::is_first(before, id, i);
        assert(before[i] == entries[i]);
        assert forall|j: int| 0 <= j < i implies (#[trigger] entries[j]).id != id by {
            assert(before[j] == entries[j]);
        }
        assert(entry::is_first(entries, id, i));
    } else {
        assert forall|j: int| 0 <= j < k implies (#[trigger] entries[j]).id != id by {
            assert(before[j] == entries[j]);
        }
        assert(entry::is_first(entries, id, k));
    }
}

/// A fresh id is thirty-two lower-case hexadecimal digits, which stand for
/// sixteen random bytes.
pub proof fn a_fresh_id_is_random(id: Seq<char>)
    requires
        entry::is_fresh_id(id),
    ensures
        id.len() == 32,
        forall|i: int| 0 <= i < 32 ==> '0' <= #[trigger] id[i] <= '9' || 'a' <= id[i] <= 'f',
        exists|bytes: Seq<u8>|
            {
                &&& #[trigger] crate::crypto::given::<16>(bytes)
                &&& bytes.len() == 16
                &&& forall|i: int|
                    0 <= i < 16 ==> 16 * super::text::hex_value(id[2 * i])
                        + super::text::hex_value(id[2 * i + 1]) == #[trigger] bytes[i]
            },
{
    let bytes = choose|bytes: Seq<u8>|
        bytes.len() == 16 && crate::crypto::given::<16>(bytes) && id == #[trigger] crate::text::hex(
            bytes,
        );
    super::text::hex_gives_the_bytes_back(bytes);
    assert(crate::crypto::given::<16>(bytes));
}

/// The diagnostic text of an entry shows the id, the title, the username and the
/// URL, and a fixed mark in place of everything else.
pub proof fn diagnostic_text_shows(e: EntryView)
    ensures
        e.debug_text() == "Entry { id: "@ + crate::text::quoted(e.id) + ", title: "@
            + crate::text::quoted(e.title) + ", username: "@ + crate::text::quoted(e.username)
            + ", password: \"[REDACTED]\", url: "@ + crate::text::quoted(e.url)
            + ", totp: \"[REDACTED]\", notes: \"[REDACTED]\" }"@,
{
}

/// A new entry has each text in the field that it was given for, and a fresh id.
pub proof fn a_new_entry_has_its_fields(
    title: &str,
    username: &str,
    password: &str,
    url: &str,
    totp: &str,
    notes: &str,
    r: Result<Entry>,
)
    requires
        call_ensures(Entry::new, (title, username, password, url, totp, notes), r),
    ensures
        r matches Ok(e) ==> {
            &&& e.title@ == title@
            &&& e.username@ == username@
            &&& e.password@ == password@
            &&& e.url@ == url@
            &&& e.totp@ == totp@
            &&& e.notes@ == notes@
            &&& entry::is_fresh_id(e.id@)
        },
        r is Ok ==> size(title@) <= 1_024 && size(username@) <= 4_096 && size(password@) <= 16_384
            && size(url@) <= 4_096 && size(totp@) <= 1_024 && size(notes@) <= 65_536,
{
}

} // verus!
