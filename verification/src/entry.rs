//! The entries of a vault.

use vstd::hash_set::StringHashSet;
use vstd::prelude::*;

use crate::crypto;
use crate::error::{Error, Result};
use crate::security::zeroize_string;
use crate::text;

verus! {

/// Maximum number of entries in a vault.
pub const MAX_ENTRIES: usize = 100_000;

pub const MAX_ID_BYTES: usize = 128;

pub const MAX_TITLE_BYTES: usize = 1024;

pub const MAX_USERNAME_BYTES: usize = 4096;

pub const MAX_PASSWORD_BYTES: usize = 16 * 1024;

pub const MAX_URL_BYTES: usize = 4096;

pub const MAX_TOTP_BYTES: usize = 1024;

pub const MAX_NOTES_BYTES: usize = 64 * 1024;

/// One stored credential. Every field is wiped on drop.
pub struct Entry {
    pub id: String,
    pub title: String,
    pub username: String,
    pub password: String,
    pub url: String,
    pub totp: String,
    pub notes: String,
}

/// The texts of an entry.
pub ghost struct EntryView {
    pub id: Seq<char>,
    pub title: Seq<char>,
    pub username: Seq<char>,
    pub password: Seq<char>,
    pub url: Seq<char>,
    pub totp: Seq<char>,
    pub notes: Seq<char>,
}

impl View for Entry {
    type V = EntryView;

    open spec fn view(&self) -> EntryView {
        EntryView {
            id: self.id@,
            title: self.title@,
            username: self.username@,
            password: self.password@,
            url: self.url@,
            totp: self.totp@,
            notes: self.notes@,
        }
    }
}

/// The texts of a sequence of entries.
pub open spec fn entry_views(entries: Seq<Entry>) -> Seq<EntryView> {
    Seq::new(entries.len(), |i: int| entries[i]@)
}

/// The number of bytes of a text in UTF-8.
pub open spec fn bytes_of(text: Seq<char>) -> nat {
    vstd::utf8::encode_utf8(text).len()
}

impl EntryView {
    /// Whether the entry may stand in a vault: a hexadecimal id that is neither
    /// empty nor too long, and every other field within its limit.
    pub open spec fn valid(self) -> bool {
        &&& 0 < bytes_of(self.id) <= MAX_ID_BYTES
        &&& text::all_hex(vstd::utf8::encode_utf8(self.id))
        &&& bytes_of(self.title) <= MAX_TITLE_BYTES
        &&& bytes_of(self.username) <= MAX_USERNAME_BYTES
        &&& bytes_of(self.password) <= MAX_PASSWORD_BYTES
        &&& bytes_of(self.url) <= MAX_URL_BYTES
        &&& bytes_of(self.totp) <= MAX_TOTP_BYTES
        &&& bytes_of(self.notes) <= MAX_NOTES_BYTES
    }
}

impl EntryView {
    /// An entry with nothing left in any field.
    pub open spec fn wiped() -> EntryView {
        EntryView {
            id: Seq::empty(),
            title: Seq::empty(),
            username: Seq::empty(),
            password: Seq::empty(),
            url: Seq::empty(),
            totp: Seq::empty(),
            notes: Seq::empty(),
        }
    }

    /// The diagnostic text of an entry.
    pub open spec fn debug_text(self) -> Seq<char> {
        "Entry { id: "@ + text::quoted(self.id) + ", title: "@ + text::quoted(self.title)
            + ", username: "@ + text::quoted(self.username) + ", password: \"[REDACTED]\", url: "@
            + text::quoted(self.url) + ", totp: \"[REDACTED]\", notes: \"[REDACTED]\" }"@
    }
}

/// Whether some entry has this id.
pub open spec fn has_id(entries: Seq<EntryView>, id: Seq<char>) -> bool {
    exists|i: int| 0 <= i < entries.len() && (#[trigger] entries[i]).id == id
}

/// Whether `i` is the place of the first entry with this id.
pub open spec fn is_first(entries: Seq<EntryView>, id: Seq<char>, i: int) -> bool {
    &&& 0 <= i < entries.len()
    &&& entries[i].id == id
    &&& forall|j: int| 0 <= j < i ==> (#[trigger] entries[j]).id != id
}

/// The first entry with this id, if there is one.
pub open spec fn entry_with(entries: Seq<EntryView>, id: Seq<char>) -> Option<EntryView> {
    if has_id(entries, id) {
        Some(entries[choose|i: int| is_first(entries, id, i)])
    } else {
        None
    }
}

/// The place of the first entry with the given id.
pub fn find_entry(entries: &[Entry], id: &str) -> (r: Option<usize>)
    ensures
        match r {
            Some(i) => {
                &&& is_first(entry_views(entries@), id@, i as int)
                &&& entry_with(entry_views(entries@), id@) == Some(entries@[i as int]@)
            },
            None => !has_id(entry_views(entries@), id@),
        },
{
    let ghost views = entry_views(entries@);
    let mut i: usize = 0;
    while i < entries.len()
        invariant
            i <= entries@.len(),
            views == entry_views(entries@),
            forall|j: int| 0 <= j < i ==> (#[trigger] views[j]).id != id@,
        decreases entries@.len() - i,
    {
        assert(views[i as int] == entries@[i as int]@);
        if *entries[i].id.as_str() == *id {
            assert(is_first(views, id@, i as int));
            return Some(i);
        }
        i += 1;
    }
    None
}

/// Whether no two entries have the same id.
pub open spec fn distinct_ids(entries: Seq<EntryView>) -> bool {
    forall|i: int, j: int|
        0 <= i < j < entries.len() ==> (#[trigger] entries[i]).id != (#[trigger] entries[j]).id
}

/// Whether every entry is valid.
pub open spec fn each_valid(entries: Seq<EntryView>) -> bool {
    forall|i: int| 0 <= i < entries.len() ==> (#[trigger] entries[i]).valid()
}

/// Whether the entries may stand together in a vault.
pub open spec fn valid_entries(entries: Seq<EntryView>) -> bool {
    &&& entries.len() <= MAX_ENTRIES
    &&& each_valid(entries)
    &&& distinct_ids(entries)
}

/// Whether an id is the hexadecimal form of random bytes.
pub open spec fn is_fresh_id(id: Seq<char>) -> bool {
    exists|bytes: Seq<u8>|
        bytes.len() == 16 && crypto::given::<16>(bytes) && id == #[trigger] text::hex(bytes)
}

/// A fresh entry id: the hexadecimal form of random bytes. Fails only when the
/// operating system gives none.
pub fn new_id() -> (r: Result<String>)
    ensures
        match r {
            Ok(id) => is_fresh_id(id@),
            Err(e) => e == Error::Crypto && crypto::refused::<16>(),
        },
{
    let bytes: [u8; 16] = crypto::random_bytes::<16>()?;
    assert(crypto::given::<16>(bytes@));
    Ok(id_from(&bytes))
}

/// The entry id made from the given bytes.
pub fn id_from(bytes: &[u8; 16]) -> (id: String)
    ensures
        id@ == text::hex(bytes@),
{
    let mut id = String::new();
    text::push_hex(&mut id, bytes);
    assert(id@ =~= text::hex(bytes@));
    id
}

impl Entry {
    /// An entry with a fresh id. Refused with [`Error::InvalidEntry`] if a field
    /// is too long, and with [`Error::Crypto`] if no random bytes can be had.
    pub fn new(
        title: &str,
        username: &str,
        password: &str,
        url: &str,
        totp: &str,
        notes: &str,
    ) -> (r: Result<Self>)
        ensures
            r matches Ok(e) ==> {
                &&& e@.valid()
                &&& e@ == (EntryView {
                    id: e@.id,
                    title: title@,
                    username: username@,
                    password: password@,
                    url: url@,
                    totp: totp@,
                    notes: notes@,
                })
                &&& is_fresh_id(e@.id)
            },
            r matches Err(e) ==> (e == Error::Crypto && crypto::refused::<16>()) || (e
                == Error::InvalidEntry && !fields_fit(
                title@,
                username@,
                password@,
                url@,
                totp@,
                notes@,
            )),
            !fields_fit(title@, username@, password@, url@, totp@, notes@) ==> r is Err,
    {
        let id = new_id()?;
        proof {
            let bytes = choose|bytes: Seq<u8>|
                bytes.len() == 16 && crypto::given::<16>(bytes) && id@ == #[trigger] text::hex(
                    bytes,
                );
            text::hex_is_hex(bytes);
        }
        Self::with_id(id, title, username, password, url, totp, notes)
    }

    /// Diagnostic text. The password, the TOTP secret and the notes are
    /// redacted.
    pub fn debug_string(&self) -> (s: String)
        ensures
            s@ == self@.debug_text(),
    {
        let mut s = "Entry { id: ".to_owned();
        s.append(text::quote(self.id.as_str()).as_str());
        s.append(", title: ");
        s.append(text::quote(self.title.as_str()).as_str());
        s.append(", username: ");
        s.append(text::quote(self.username.as_str()).as_str());
        s.append(", password: \"[REDACTED]\", url: ");
        s.append(text::quote(self.url.as_str()).as_str());
        s.append(", totp: \"[REDACTED]\", notes: \"[REDACTED]\" }");
        s
    }

    /// An entry with the given id, if it is valid.
    pub fn with_id(
        id: String,
        title: &str,
        username: &str,
        password: &str,
        url: &str,
        totp: &str,
        notes: &str,
    ) -> (r: Result<Self>)
        ensures
            ({
                let view = EntryView {
                    id: id@,
                    title: title@,
                    username: username@,
                    password: password@,
                    url: url@,
                    totp: totp@,
                    notes: notes@,
                };
                match r {
                    Ok(e) => view.valid() && e@ == view,
                    Err(e) => !view.valid() && e == Error::InvalidEntry,
                }
            }),
    {
        let entry = Entry {
            id,
            title: title.to_owned(),
            username: username.to_owned(),
            password: password.to_owned(),
            url: url.to_owned(),
            totp: totp.to_owned(),
            notes: notes.to_owned(),
        };
        validate_entry(&entry)?;
        Ok(entry)
    }
}

/// Whether the fields of an entry, apart from its id, are within their limits.
pub open spec fn fields_fit(
    title: Seq<char>,
    username: Seq<char>,
    password: Seq<char>,
    url: Seq<char>,
    totp: Seq<char>,
    notes: Seq<char>,
) -> bool {
    &&& bytes_of(title) <= MAX_TITLE_BYTES
    &&& bytes_of(username) <= MAX_USERNAME_BYTES
    &&& bytes_of(password) <= MAX_PASSWORD_BYTES
    &&& bytes_of(url) <= MAX_URL_BYTES
    &&& bytes_of(totp) <= MAX_TOTP_BYTES
    &&& bytes_of(notes) <= MAX_NOTES_BYTES
}

impl Drop for Entry {
    fn drop(&mut self)
        ensures
            final(self)@ == EntryView::wiped(),
        opens_invariants none
        no_unwind
    {
        zeroize_string(&mut self.id);
        zeroize_string(&mut self.title);
        zeroize_string(&mut self.username);
        zeroize_string(&mut self.password);
        zeroize_string(&mut self.url);
        zeroize_string(&mut self.totp);
        zeroize_string(&mut self.notes);
    }
}

/// Check that an entry may stand in a vault.
pub fn validate_entry(e: &Entry) -> (r: Result<()>)
    ensures
        r == (if e@.valid() {
            Ok::<(), Error>(())
        } else {
            Err::<(), Error>(Error::InvalidEntry)
        }),
{
    let id = e.id.as_str().as_bytes();
    if id.len() == 0 || id.len() > MAX_ID_BYTES {
        return Err(Error::InvalidEntry);
    }
    if !text::is_hex(id) {
        return Err(Error::InvalidEntry);
    }
    if text::byte_len(e.title.as_str()) > MAX_TITLE_BYTES || text::byte_len(e.username.as_str())
        > MAX_USERNAME_BYTES || text::byte_len(e.password.as_str()) > MAX_PASSWORD_BYTES
        || text::byte_len(e.url.as_str()) > MAX_URL_BYTES || text::byte_len(e.totp.as_str())
        > MAX_TOTP_BYTES || text::byte_len(e.notes.as_str()) > MAX_NOTES_BYTES {
        return Err(Error::InvalidEntry);
    }
    Ok(())
}

/// Check that entries may stand together in a vault: not too many, each valid,
/// no id twice.
pub fn validate_entries(entries: &[Entry]) -> (r: Result<()>)
    ensures
        r == (if valid_entries(entry_views(entries@)) {
            Ok::<(), Error>(())
        } else {
            Err::<(), Error>(Error::InvalidEntry)
        }),
{
    let ghost views = entry_views(entries@);
    if entries.len() > MAX_ENTRIES {
        return Err(Error::InvalidEntry);
    }
    let mut seen = StringHashSet::with_capacity(entries.len());
    let mut i: usize = 0;
    while i < entries.len()
        invariant
            i <= entries@.len() <= MAX_ENTRIES,
            views == entry_views(entries@),
            forall|j: int| 0 <= j < i ==> (#[trigger] views[j]).valid(),
            forall|j: int, k: int|
                0 <= j < k < i ==> (#[trigger] views[j]).id != (#[trigger] views[k]).id,
            forall|j: int| 0 <= j < i ==> seen@.contains((#[trigger] views[j]).id),
            forall|id: Seq<char>| #[trigger]
                seen@.contains(id) ==> exists|j: int| 0 <= j < i && (#[trigger] views[j]).id == id,
        decreases entries@.len() - i,
    {
        let e = &entries[i];
        assert(views[i as int] == e@);
        validate_entry(e)?;
        if !seen.insert(e.id.clone()) {
            return Err(Error::InvalidEntry);
        }
        i += 1;
    }
    Ok(())
}

/// Diagnostic text never depends on the password, the TOTP secret or the notes.
pub proof fn debug_text_hides_secrets(a: EntryView, b: EntryView)
    requires
        a.id == b.id,
        a.title == b.title,
        a.username == b.username,
        a.url == b.url,
    ensures
        a.debug_text() == b.debug_text(),
{
}

} // verus!
