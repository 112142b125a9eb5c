//! When memory is locked, and what wiping leaves.

use vstd::prelude::*;

use crate::memory_lock::LockCall;
use crate::security;
use crate::security::SecureBuffer;

verus! {

/// Asking for a lock never changes what a buffer holds. A buffer that is locked
/// already, or empty, asks for nothing; any other makes one request, for exactly
/// its bytes, and is locked exactly if that was granted.
pub proof fn a_lock_is_asked_for_once(
    before: SecureBuffer,
    calls: Seq<LockCall>,
    granted: bool,
    after: SecureBuffer,
)
    requires
        before.locks_as(calls, granted, after),
    ensures
        after@ == before@,
        after.is_locked() == granted,
        before.is_locked() ==> granted && after.lock_calls() == before.lock_calls(),
        !before.is_locked() && before@.len() == 0 ==> !granted && after.lock_calls() == calls,
        !before.is_locked() && before@.len() > 0 ==> {
            &&& after.lock_calls().len() == calls.len() + 1
            &&& after.lock_calls().drop_last() == calls
            &&& after.lock_calls().last() == (LockCall::Lock { region: before@, granted })
        },
{
    if !before.is_locked() && before@.len() > 0 {
        assert(after.lock_calls().drop_last() =~= calls);
    }
}

/// Giving a lock back makes one request, for exactly the bytes that were locked.
pub proof fn a_lock_is_given_back_once(calls: Seq<LockCall>, region: Seq<u8>, granted: bool)
    ensures
        security::given_back(calls, region, granted).drop_last() == calls,
        security::given_back(calls, region, granted).last() == (LockCall::Unlock {
            region,
            granted,
        }),
{
    assert(security::given_back(calls, region, granted).drop_last() =~= calls);
}

/// A wiped buffer has its old length and nothing but zeros.
pub proof fn wiping_leaves_zeros(n: nat)
    ensures
        security::zeros(n).len() == n,
        forall|i: int| 0 <= i < n ==> #[trigger] security::zeros(n)[i] == 0,
{
}

} // verus!
