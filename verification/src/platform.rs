//! The operating system, as far as memory locking goes, with a record of every
//! request.
//!
//! A [`Platform`] is the only holder of a [`MemoryLocker`], and its methods are
//! the only way to call it: each makes one request and records that one.

use vstd::prelude::*;

use crate::memory_lock::MemoryLocker;

verus! {

/// One request that was made to the operating system, with its answer.
pub ghost enum LockCall {
    Lock { region: Seq<u8>, granted: bool },
    Unlock { region: Seq<u8>, granted: bool },
}

/// The operating system. Its view is the requests that were made to it, oldest
/// first.
pub struct Platform {
    locker: Box<dyn MemoryLocker>,
    log: Ghost<Seq<LockCall>>,
}

impl View for Platform {
    type V = Seq<LockCall>;

    closed spec fn view(&self) -> Seq<LockCall> {
        self.log@
    }
}

impl Platform {
    /// The platform that `locker` stands for.
    pub fn new(locker: Box<dyn MemoryLocker>) -> (platform: Self)
        ensures
            platform@ == Seq::<LockCall>::empty(),
    {
        Platform { locker, log: Ghost(Seq::empty()) }
    }

    /// Ask the operating system to keep `region` in RAM.
    pub fn ask(&mut self, region: &Vec<u8>) -> (granted: bool)
        ensures
            final(self)@ == old(self)@.push(LockCall::Lock { region: region@, granted }),
        opens_invariants none
        no_unwind
    {
        let granted = self.locker.lock(region);
        proof {
            self.log@ = self.log@.push(LockCall::Lock { region: region@, granted });
        }
        granted
    }

    /// Tell the operating system that it no longer has to keep `region` in RAM.
    pub fn give_back(&mut self, region: &Vec<u8>) -> (granted: bool)
        ensures
            final(self)@ == old(self)@.push(LockCall::Unlock { region: region@, granted }),
        opens_invariants none
        no_unwind
    {
        let granted = self.locker.unlock(region);
        proof {
            self.log@ = self.log@.push(LockCall::Unlock { region: region@, granted });
        }
        granted
    }
}

} // verus!
