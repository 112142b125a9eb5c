//! Secure-memory primitives.
//!
//! [`SecureBuffer`] owns a byte vector, wipes it on drop, redacts itself in
//! diagnostic text and gives controlled access to its contents. It is
//! deliberately not `Clone`: where a copy is needed,
//! [`SecureBuffer::duplicate`] makes the intent visible.

use vstd::prelude::*;
use vstd::slice::slice_to_vec;
use subtle::ConstantTimeEq;
use zeroize::Zeroize;

use crate::error::{Error, Result};
use crate::memory_lock;
use crate::memory_lock::{LockCall, Platform};

verus! {

/// `n` zero bytes.
pub open spec fn zeros(n: nat) -> Seq<u8> {
    Seq::new(n, |i: int| 0u8)
}

/// `zeroize` on a byte slice, as the `zeroize` crate implements it for `[u8]`:
/// every byte becomes zero and the length stays. It does not panic.
#[verifier::external_body]
fn zeroize_slice(buf: &mut [u8])
    ensures
        final(buf)@ == zeros(old(buf)@.len()),
    opens_invariants none
    no_unwind
{
    buf.zeroize()
}

/// `zeroize` on the bytes that a vector holds and on its spare capacity, as the
/// `zeroize` crate implements it for `[u8]` and `[MaybeUninit<u8>]`: every byte
/// of the allocation becomes zero and the length stays. It does not panic.
#[verifier::external_body]
fn zeroize_vec(buf: &mut Vec<u8>)
    ensures
        final(buf)@ == zeros(old(buf)@.len()),
    opens_invariants none
    no_unwind
{
    buf.spare_capacity_mut().zeroize();
    buf.as_mut_slice().zeroize()
}

/// `zeroize` on a `String`, as the `zeroize` crate implements it: the bytes are
/// overwritten and the text becomes empty. It does not panic.
#[verifier::external_body]
pub(crate) fn zeroize_string(s: &mut String)
    ensures
        final(s)@ == Seq::<char>::empty(),
    opens_invariants none
    no_unwind
{
    s.zeroize()
}

/// `ct_eq` of the `subtle` crate on byte slices, with the `bool` of its answer:
/// true exactly when the bytes of the text are those of the vector. It does not
/// panic.
#[verifier::external_body]
fn constant_time_eq(text: &String, bytes: &Vec<u8>) -> (r: bool)
    ensures
        r == (vstd::utf8::encode_utf8(text@) == bytes@),
    opens_invariants none
    no_unwind
{
    text.as_bytes().ct_eq(bytes.as_slice()).into()
}

/// The calls to a platform once a region was given back, for the answer that it
/// gave.
pub open spec fn given_back(calls: Seq<LockCall>, region: Seq<u8>, granted: bool) -> Seq<LockCall> {
    calls.push(LockCall::Unlock { region, granted })
}

/// A mutable, owned buffer for sensitive byte data.
///
/// Contents are wiped on drop and never appear in diagnostic text. Copies that
/// the allocator or the operating system may have made are out of reach.
pub struct SecureBuffer {
    data: Vec<u8>,
    lock: LockState,
}

/// Whether the operating system keeps a buffer in RAM.
enum LockState {
    /// It was never asked to.
    Unasked,
    /// It does.
    Held(Platform),
    /// It refused, or was told that it no longer has to.
    NotHeld(Platform),
}

impl View for SecureBuffer {
    type V = Seq<u8>;

    closed spec fn view(&self) -> Seq<u8> {
        self.data@
    }
}

impl SecureBuffer {
    /// Whether the operating system has granted a lock on this buffer.
    pub closed spec fn is_locked(&self) -> bool {
        self.lock is Held
    }

    /// The calls that were made to the platform on which a lock was last asked
    /// for.
    pub closed spec fn lock_calls(&self) -> Seq<LockCall> {
        match self.lock {
            LockState::Unasked => Seq::empty(),
            LockState::Held(platform) => platform@,
            LockState::NotHeld(platform) => platform@,
        }
    }

    /// Whether `after` can be the buffer once a lock was asked for on a platform
    /// with the given calls, and the answer was `granted`.
    pub open spec fn locks_as(
        &self,
        calls: Seq<LockCall>,
        granted: bool,
        after: SecureBuffer,
    ) -> bool {
        &&& after@ == self@
        &&& if self.is_locked() {
            &&& granted
            &&& after.is_locked()
            &&& after.lock_calls() == self.lock_calls()
        } else {
            &&& after.is_locked() == granted
            &&& if self@.len() == 0 {
                &&& !granted
                &&& after.lock_calls() == calls
            } else {
                after.lock_calls() == calls.push(LockCall::Lock { region: self@, granted })
            }
        }
    }

    /// Create an empty buffer.
    pub fn new() -> (b: Self)
        ensures
            b@ == Seq::<u8>::empty(),
            !b.is_locked(),
    {
        SecureBuffer { data: Vec::new(), lock: LockState::Unasked }
    }

    /// Create a zeroed buffer of the given length.
    pub fn zeroed(len: usize) -> (b: Self)
        ensures
            b@ == zeros(len as nat),
            !b.is_locked(),
    {
        let data: Vec<u8> = vec![0u8; len];
        assert(data@ =~= zeros(len as nat));
        SecureBuffer { data, lock: LockState::Unasked }
    }

    /// Take ownership of an existing vector.
    pub fn from_vec(data: Vec<u8>) -> (b: Self)
        ensures
            b@ == data@,
            !b.is_locked(),
    {
        SecureBuffer { data, lock: LockState::Unasked }
    }

    /// Create a buffer from a slice, copying the bytes.
    pub fn from_slice(data: &[u8]) -> (b: Self)
        ensures
            b@ == data@,
            !b.is_locked(),
    {
        let data = slice_to_vec(data);
        SecureBuffer { data, lock: LockState::Unasked }
    }

    /// Length in bytes.
    pub fn len(&self) -> (n: usize)
        ensures
            n == self@.len(),
    {
        self.data.len()
    }

    /// Whether the buffer is empty.
    pub fn is_empty(&self) -> (r: bool)
        ensures
            r == (self@.len() == 0),
    {
        self.data.len() == 0
    }

    /// Immutable view of the contents.
    pub fn as_slice(&self) -> (s: &[u8])
        ensures
            s@ == self@,
    {
        self.data.as_slice()
    }

    /// Mutable view of the contents. Its length cannot change.
    pub fn as_mut_slice(&mut self) -> (s: &mut [u8])
        ensures
            s@ == old(self)@,
            final(self)@ == final(s)@,
            final(self).is_locked() == old(self).is_locked(),
            final(self).lock_calls() == old(self).lock_calls(),
    {
        self.data.as_mut_slice()
    }

    /// Consume the buffer and return the bytes. Wiping them is then up to the
    /// caller.
    pub fn into_vec(self) -> (v: Vec<u8>)
        ensures
            v@ == self@,
    {
        let mut buffer = self;
        let mut out: Vec<u8> = Vec::new();
        core::mem::swap(&mut out, &mut buffer.data);
        buffer.lock = LockState::Unasked;
        out
    }

    /// Wipe the contents now. The length is preserved and every byte is zero.
    pub fn wipe(&mut self)
        ensures
            final(self)@ == zeros(old(self)@.len()),
            final(self).is_locked() == old(self).is_locked(),
            final(self).lock_calls() == old(self).lock_calls(),
        opens_invariants none
        no_unwind
    {
        zeroize_vec(&mut self.data);
    }

    /// Whether the buffer holds exactly the bytes of `text`, compared in
    /// constant time.
    pub fn holds(&self, text: &String) -> (r: bool)
        ensures
            r == (vstd::utf8::encode_utf8(text@) == self@),
        opens_invariants none
        no_unwind
    {
        constant_time_eq(text, &self.data)
    }

    /// Copy the contents into a new buffer.
    pub fn duplicate(&self) -> (b: Self)
        ensures
            b@ == self@,
            !b.is_locked(),
    {
        SecureBuffer::from_slice(self.data.as_slice())
    }

    /// Attempt to lock the buffer in RAM (best-effort).
    ///
    /// The platform is not asked for a buffer that is empty or already locked. A
    /// refusal is never an error.
    pub fn try_lock(&mut self, platform: Platform) -> (r: Result<bool>)
        ensures
            r matches Ok(granted) && old(self).locks_as(platform@, granted, *final(self)),
    {
        if let LockState::Held(_) = &self.lock {
            return Ok(true);
        }
        let mut platform = platform;
        let granted = memory_lock::lock(&self.data, &mut platform)?;
        self.lock = if granted {
            LockState::Held(platform)
        } else {
            LockState::NotHeld(platform)
        };
        Ok(granted)
    }

    /// Give back a lock that was granted. The answer is not actionable and is
    /// ignored. Dropping the buffer does this too, before wiping it.
    pub fn release_lock(&mut self)
        ensures
            final(self)@ == old(self)@,
            !final(self).is_locked(),
            if old(self).is_locked() {
                exists|granted: bool|
                    final(self).lock_calls() == #[trigger] given_back(
                        old(self).lock_calls(),
                        old(self)@,
                        granted,
                    )
            } else {
                final(self).lock_calls() == old(self).lock_calls()
            },
        opens_invariants none
        no_unwind
    {
        let mut lock = LockState::Unasked;
        core::mem::swap(&mut lock, &mut self.lock);
        self.lock = match lock {
            LockState::Held(platform) => {
                let mut platform = platform;
                let granted = platform.give_back(&self.data);
                assert(platform@ == given_back(old(self).lock_calls(), old(self)@, granted));
                LockState::NotHeld(platform)
            },
            other => other,
        };
    }

    /// Diagnostic text. The marker is fixed, so that not even the length can be
    /// inferred from it.
    pub fn debug_string(&self) -> (s: String)
        ensures
            s@ == "SecureBuffer([REDACTED])"@,
    {
        "SecureBuffer([REDACTED])".to_owned()
    }
}

impl Default for SecureBuffer {
    fn default() -> (b: Self)
        ensures
            b@ == Seq::<u8>::empty(),
            !b.is_locked(),
    {
        Self::new()
    }
}

impl Drop for SecureBuffer {
    fn drop(&mut self)
        ensures
            final(self)@ == zeros(old(self)@.len()),
            !final(self).is_locked(),
            if old(self).is_locked() {
                exists|granted: bool|
                    final(self).lock_calls() == #[trigger] given_back(
                        old(self).lock_calls(),
                        old(self)@,
                        granted,
                    )
            } else {
                final(self).lock_calls() == old(self).lock_calls()
            },
        opens_invariants none
        no_unwind
    {
        self.release_lock();
        self.wipe();
    }
}

/// Wipe a plain byte slice in place.
pub fn wipe(buf: &mut [u8])
    ensures
        final(buf)@ == zeros(old(buf)@.len()),
{
    zeroize_slice(buf);
}

/// Run a closure over the bytes of a scratch vector, then wipe and empty the
/// vector.
pub fn with_wiped_scratch<F, T>(scratch: &mut Vec<u8>, f: F) -> (out: T) where
    F: FnOnce(&[u8]) -> T,

    requires
        forall|bytes: &[u8]| bytes@ == old(scratch)@ ==> f.requires((bytes,)),
    ensures
        exists|bytes: &[u8]| bytes@ == old(scratch)@ && f.ensures((bytes,), out),
        final(scratch)@ == Seq::<u8>::empty(),
{
    let out = f(scratch.as_slice());
    zeroize_vec(scratch);
    scratch.clear();
    out
}

/// Check that a buffer has exactly the size that a cryptographic operation
/// expects.
pub fn require_len(buf: &[u8], expected: usize) -> (r: Result<()>)
    ensures
        r == (if buf@.len() == expected {
            Ok::<(), Error>(())
        } else {
            Err::<(), Error>(Error::InvalidEncoding)
        }),
{
    if buf.len() == expected {
        Ok(())
    } else {
        Err(Error::InvalidEncoding)
    }
}

/// Wiping twice is the same as wiping once, and never changes a length.
pub proof fn wiping_is_idempotent(contents: Seq<u8>)
    ensures
        zeros(zeros(contents.len()).len()) == zeros(contents.len()),
        zeros(contents.len()).len() == contents.len(),
{
}

} // verus!
