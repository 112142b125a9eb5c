//! Best-effort memory locking.
//!
//! Locking pages in RAM is advisory: the operating system may refuse, and the
//! caller must be able to continue. The calls into the operating system are made
//! by a [`MemoryLocker`], through a [`Platform`]; what is decided here is when
//! they are made and what their answers mean.

use vstd::prelude::*;

use crate::error::{Error, Result};

pub use crate::platform::{LockCall, Platform};

verus! {

/// The two calls into the operating system. An implementation reports whether
/// the request was granted; one that leaves a method out grants nothing, as on a
/// platform without memory locking. No method may panic.
pub trait MemoryLocker {
    /// Ask for the bytes of `region` to be kept in RAM.
    fn lock(&mut self, region: &Vec<u8>) -> (granted: bool)
        default_ensures
            !granted,
        opens_invariants none
        no_unwind
    {
        false
    }

    /// Take that back.
    fn unlock(&mut self, region: &Vec<u8>) -> (granted: bool)
        default_ensures
            !granted,
        opens_invariants none
        no_unwind
    {
        false
    }
}

/// A platform without memory locking.
pub struct NoLocking;

impl MemoryLocker for NoLocking {

}

/// Ask the operating system to keep `region` in RAM.
///
/// `Ok(true)` if the request was granted, `Ok(false)` if it was declined or
/// `region` is empty, in which case nothing is asked. A refusal is never an
/// error.
pub fn lock(region: &Vec<u8>, platform: &mut Platform) -> (r: Result<bool>)
    ensures
        r is Ok,
        if region@.len() == 0 {
            r == Ok::<bool, Error>(false) && final(platform)@ == old(platform)@
        } else {
            final(platform)@ == old(platform)@.push(
                LockCall::Lock { region: region@, granted: r->Ok_0 },
            )
        },
{
    if region.len() == 0 {
        return Ok(false);
    }
    Ok(platform.ask(region))
}

/// Reverse of [`lock`], with the same meaning of the answer.
pub fn unlock(region: &Vec<u8>, platform: &mut Platform) -> (r: Result<bool>)
    ensures
        r is Ok,
        if region@.len() == 0 {
            r == Ok::<bool, Error>(false) && final(platform)@ == old(platform)@
        } else {
            final(platform)@ == old(platform)@.push(
                LockCall::Unlock { region: region@, granted: r->Ok_0 },
            )
        },
{
    if region.len() == 0 {
        return Ok(false);
    }
    Ok(platform.give_back(region))
}

} // verus!
