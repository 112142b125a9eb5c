//! The way to the clipboard, with a record of every call.
//!
//! A [`ClipboardPort`] is the only holder of a clipboard, and its methods are the
//! only way to call it: each makes one call and records that one. Code outside
//! this module can neither call the clipboard past the record nor touch the
//! record, so the record is the calls that were made.

use vstd::prelude::*;

use crate::clipboard::{ClipboardBackend, NullClipboard};
use crate::error::{Error, Result};

verus! {

/// One call that was made to a clipboard, with its outcome.
pub ghost enum ClipboardCall {
    GetText { read: Result<Seq<char>> },
    SetText { text: Seq<char>, outcome: Result<()> },
    Clear,
}

/// A clipboard, or the lack of one.
enum Backend {
    Present(Box<dyn ClipboardBackend>),
    Missing(NullClipboard),
}

/// The way to a clipboard. Its view is the calls that were made, oldest first.
pub struct ClipboardPort {
    backend: Backend,
    log: Ghost<Seq<ClipboardCall>>,
}

impl View for ClipboardPort {
    type V = Seq<ClipboardCall>;

    closed spec fn view(&self) -> Seq<ClipboardCall> {
        self.log@
    }
}

impl ClipboardPort {
    /// Whether there is no clipboard, so that every call fails.
    pub closed spec fn is_missing(&self) -> bool {
        self.backend is Missing
    }

    /// The way to the given clipboard.
    pub fn new(backend: Box<dyn ClipboardBackend>) -> (port: Self)
        ensures
            port@ == Seq::<ClipboardCall>::empty(),
            !port.is_missing(),
    {
        ClipboardPort { backend: Backend::Present(backend), log: Ghost(Seq::empty()) }
    }

    /// The way to no clipboard.
    pub fn missing() -> (port: Self)
        ensures
            port@ == Seq::<ClipboardCall>::empty(),
            port.is_missing(),
    {
        ClipboardPort { backend: Backend::Missing(NullClipboard), log: Ghost(Seq::empty()) }
    }

    /// Read the clipboard.
    pub fn get_text(&mut self) -> (r: Result<String>)
        ensures
            final(self)@ == old(self)@.push(
                ClipboardCall::GetText { read: crate::error::viewed(r) },
            ),
            final(self).is_missing() == old(self).is_missing(),
            old(self).is_missing() ==> r == Err::<String, Error>(Error::Clipboard),
        opens_invariants none
        no_unwind
    {
        let r = match &mut self.backend {
            Backend::Present(backend) => backend.get_text(),
            Backend::Missing(null) => null.get_text(),
        };
        proof {
            self.log@ = self.log@.push(ClipboardCall::GetText { read: crate::error::viewed(r) });
        }
        r
    }

    /// Replace what is on the clipboard.
    pub fn set_text(&mut self, text: String) -> (r: Result<()>)
        ensures
            final(self)@ == old(self)@.push(ClipboardCall::SetText { text: text@, outcome: r }),
            final(self).is_missing() == old(self).is_missing(),
            old(self).is_missing() ==> r == Err::<(), Error>(Error::Clipboard),
        opens_invariants none
        no_unwind
    {
        let ghost handed = text@;
        let r = match &mut self.backend {
            Backend::Present(backend) => backend.set_text(text),
            Backend::Missing(null) => null.set_text(text),
        };
        proof {
            self.log@ = self.log@.push(ClipboardCall::SetText { text: handed, outcome: r });
        }
        r
    }

    /// Remove what is on the clipboard.
    pub fn clear(&mut self) -> (r: Result<()>)
        ensures
            final(self)@ == old(self)@.push(ClipboardCall::Clear),
            final(self).is_missing() == old(self).is_missing(),
            old(self).is_missing() ==> r == Err::<(), Error>(Error::Clipboard),
        opens_invariants none
        no_unwind
    {
        let r = match &mut self.backend {
            Backend::Present(backend) => backend.clear(),
            Backend::Missing(null) => null.clear(),
        };
        proof {
            self.log@ = self.log@.push(ClipboardCall::Clear);
        }
        r
    }
}

} // verus!
