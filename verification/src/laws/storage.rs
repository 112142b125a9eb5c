//! How the vault file is replaced.

use vstd::prelude::*;

use crate::error::{Error, Result, StorageErrorKind};
use crate::storage;
use crate::storage::{
    AtomicWrite, DirPart, FileMeta, IoResult, Operation, ParentDir, WritePhase,
};

verus! {

/// The mode and the size limit of vault files.
pub proof fn files_have_these_limits()
    ensures
        storage::MAX_READ_BYTES == 67_108_864,
        storage::VAULT_FILE_MODE == 384,
{
}

/// A replacement begins with the directory if it is not there, and with the
/// temporary file otherwise. Nothing is begun for no bytes or without a
/// directory.
pub proof fn a_replacement_begins(bytes: Seq<u8>, parent: ParentDir)
    ensures
        bytes.len() == 0 ==> AtomicWrite::started(bytes, parent) == Err::<WritePhase, Error>(
            Error::VaultFormat,
        ),
        bytes.len() > 0 && parent == ParentDir::Unnamed ==> AtomicWrite::started(bytes, parent)
            == Err::<WritePhase, Error>(Error::Storage { kind: StorageErrorKind::InvalidInput }),
        bytes.len() > 0 && parent == ParentDir::Absent ==> AtomicWrite::started(bytes, parent)
            == Ok::<WritePhase, Error>(WritePhase::CreateDir),
        bytes.len() > 0 && parent == ParentDir::Present ==> AtomicWrite::started(bytes, parent)
            == Ok::<WritePhase, Error>(WritePhase::CreateTemp),
{
}

/// The vault file is replaced by a rename only after the temporary file was
/// created, written, flushed and forced to disk, each without failure; and the
/// replacement succeeds only after the rename did.
pub proof fn the_rename_comes_after_the_sync(phase: WritePhase, failure: Option<Error>)
    ensures
        phase.next(failure) is CreateDir ==> false,
        phase.next(failure) is CreateTemp ==> phase is CreateDir && failure is None,
        phase.next(failure) is WriteTemp ==> phase is CreateTemp && failure is None,
        phase.next(failure) is FlushTemp ==> phase is WriteTemp && failure is None,
        phase.next(failure) is SyncTemp ==> phase is FlushTemp && failure is None,
        phase.next(failure) is RenameTemp ==> phase is SyncTemp && failure is None,
        phase.next(failure) is SyncDir ==> phase is RenameTemp && failure is None,
        phase.next(failure) is Replaced ==> phase is SyncDir || phase is Replaced,
{
}

/// Without failures the operations follow one another to the end.
pub proof fn success_goes_on_to_the_end()
    ensures
        WritePhase::CreateDir.next(None) == WritePhase::CreateTemp,
        WritePhase::CreateTemp.next(None) == WritePhase::WriteTemp,
        WritePhase::WriteTemp.next(None) == WritePhase::FlushTemp,
        WritePhase::FlushTemp.next(None) == WritePhase::SyncTemp,
        WritePhase::SyncTemp.next(None) == WritePhase::RenameTemp,
        WritePhase::RenameTemp.next(None) == WritePhase::SyncDir,
        WritePhase::SyncDir.next(None) == WritePhase::Replaced,
{
}

/// Once the rename was made the replacement succeeds, whatever becomes of the
/// directory's sync; every failure up to the rename ends it with that error, and
/// once there may be a temporary file its removal is attempted first. An end is
/// an end.
pub proof fn failure_ends_with_its_error(
    phase: WritePhase,
    error: Error,
    failure: Option<Error>,
)
    ensures
        phase is CreateDir ==> phase.next(Some(error)) == (WritePhase::Failed { error }),
        phase is CreateTemp || phase is WriteTemp || phase is FlushTemp || phase is SyncTemp
            || phase is RenameTemp ==> phase.next(Some(error)) == (WritePhase::RemoveTemp {
            error,
        }),
        phase matches WritePhase::RemoveTemp { error: first } ==> phase.next(failure) == (
        WritePhase::Failed { error: first }),
        phase is SyncDir ==> phase.next(failure) == WritePhase::Replaced,
        phase is Replaced || phase is Failed ==> phase.next(failure) == phase,
        phase.done() <==> phase is Replaced || phase is Failed,
{
}

/// A replacement that ran to its success went through every operation that
/// makes it safe, in this order and without failure: create, write, flush, sync,
/// rename.
pub proof fn a_success_went_through_everything(
    bytes: Seq<u8>,
    parent: ParentDir,
    run: Seq<Operation>,
)
    requires
        AtomicWrite::started(bytes, parent) is Ok,
        storage::phase_after(AtomicWrite::started(bytes, parent)->Ok_0, run) is Replaced,
    ensures
        exists|k: int| #[trigger]
            went_through(AtomicWrite::started(bytes, parent)->Ok_0, run, k),
    decreases run.len(),
{
    let start = AtomicWrite::started(bytes, parent)->Ok_0;
    let before = storage::phase_after(start, run.drop_last());
    assert(run.len() > 0);
    if before is Replaced {
        a_success_went_through_everything(bytes, parent, run.drop_last());
        let k = choose|k: int| #[trigger] went_through(start, run.drop_last(), k);
        assert(run.take(k) =~= run.drop_last().take(k));
        assert(run.take(k + 1) =~= run.drop_last().take(k + 1));
        assert(run.take(k + 2) =~= run.drop_last().take(k + 2));
        assert(run.take(k + 3) =~= run.drop_last().take(k + 3));
        assert(run.take(k + 4) =~= run.drop_last().take(k + 4));
        assert(went_through(start, run, k));
    } else {
        let n = run.len() as int;
        let k = n - 6;
        assert(run.drop_last() =~= run.take(n - 1));
        step_back(start, run, n - 1);
        step_back(start, run, n - 2);
        step_back(start, run, n - 3);
        step_back(start, run, n - 4);
        step_back(start, run, n - 5);
        assert(went_through(start, run, k));
    }
}

/// Whether a run created, wrote, flushed, synced and renamed the temporary file,
/// one after the other from its operation `k` on, and none of that failed.
pub open spec fn went_through(start: WritePhase, run: Seq<Operation>, k: int) -> bool {
    &&& 0 <= k
    &&& k + 5 <= run.len()
    &&& storage::phase_after(start, run.take(k)) is CreateTemp && run[k].failure is None
    &&& storage::phase_after(start, run.take(k + 1)) is WriteTemp && run[k + 1].failure is None
    &&& storage::phase_after(start, run.take(k + 2)) is FlushTemp && run[k + 2].failure is None
    &&& storage::phase_after(start, run.take(k + 3)) is SyncTemp && run[k + 3].failure is None
    &&& storage::phase_after(start, run.take(k + 4)) is RenameTemp && run[k + 4].failure is None
}

/// The phase before, in the middle of a replacement.
proof fn step_back(start: WritePhase, run: Seq<Operation>, n: int)
    requires
        0 <= n <= run.len(),
        start is CreateDir || start is CreateTemp,
        ({
            let phase = storage::phase_after(start, run.take(n));
            phase is WriteTemp || phase is FlushTemp || phase is SyncTemp || phase is RenameTemp
                || phase is SyncDir
        }),
    ensures
        n > 0,
        storage::phase_after(start, run.take(n)) == storage::phase_after(
            start,
            run.take(n - 1),
        ).next(run[n - 1].failure),
{
    assert(n > 0);
    assert(run.take(n).drop_last() =~= run.take(n - 1));
    assert(run.take(n).last() == run[n - 1]);
}

/// The name of a temporary file is the hexadecimal form of its bytes between a
/// fixed beginning and a fixed end.
pub proof fn a_temporary_file_is_named(random: Seq<u8>)
    requires
        random.len() == 16,
    ensures
        ({
            let name = storage::temp_name_text(random);
            &&& name.len() == 40
            &&& name.take(4) == seq!['.', 'v', 't', '.']
            &&& name.skip(36) == seq!['.', 't', 'm', 'p']
            &&& name.subrange(4, 36) == crate::text::hex(random)
        }),
{
    reveal_strlit(".vt.");
    reveal_strlit(".tmp");
    let name = storage::temp_name_text(random);
    assert(name.take(4) =~= seq!['.', 'v', 't', '.']);
    assert(name.skip(36) =~= seq!['.', 't', 'm', 'p']);
    assert(name.subrange(4, 36) =~= crate::text::hex(random));
}

/// Its bytes are random, or zeros only where the operating system refused random
/// ones.
pub proof fn a_temporary_name_is_random(bytes: Seq<u8>)
    requires
        storage::random_or_zeros(bytes),
    ensures
        bytes.len() == 8,
        !crate::crypto::refused::<8>() ==> crate::crypto::given::<8>(bytes),
        !crate::crypto::given::<8>(bytes) ==> forall|i: int|
            0 <= i < 8 ==> #[trigger] bytes[i] == 0,
{
}

/// A success is no failure, and a failure is reported by its category.
pub proof fn outcomes_are_reported(outcome: IoResult<()>)
    ensures
        outcome is Ok ==> storage::failure_of(outcome) is None,
        outcome matches Err(failure) ==> storage::failure_of(outcome) == Some(
            storage::mapped(failure.kind),
        ),
{
}

// ---------------------------------------------------------------------------
// Calls
// ---------------------------------------------------------------------------

/// A vault file is there exactly if something that is a file could be examined.
/// It is read only then, and only up to 64 MiB; what was read is handed on as it
/// is, and a missing file is a missing vault.
pub proof fn a_vault_file_is_read(
    meta: &IoResult<FileMeta>,
    contents: IoResult<Vec<u8>>,
    there: bool,
    admitted: Result<()>,
    read: Result<Vec<u8>>,
)
    requires
        call_ensures(storage::vault_exists, (meta,), there),
        call_ensures(storage::admit_read, (meta,), admitted),
        call_ensures(storage::read_vault, (meta, contents), read),
    ensures
        there <==> *meta is Ok && (*meta)->Ok_0.is_file,
        admitted is Ok <==> there && (*meta)->Ok_0.len <= 67_108_864,
        *meta matches Ok(m) ==> (!m.is_file ==> admitted == Err::<(), Error>(Error::VaultNotFound)),
        *meta matches Ok(m) ==> (m.is_file && m.len > 67_108_864 ==> admitted == Err::<(), Error>(
            Error::VaultFormat,
        )),
        *meta matches Err(failure) ==> admitted == Err::<(), Error>(storage::mapped(failure.kind)),
        admitted matches Err(e) ==> read == Err::<Vec<u8>, Error>(e),
        admitted is Ok && contents is Ok ==> read == Ok::<Vec<u8>, Error>(contents->Ok_0),
        admitted is Ok && contents is Err ==> read == Err::<Vec<u8>, Error>(
            storage::mapped(contents->Err_0.kind),
        ),
{
}

/// Deleting reports what became of it, and a path has a directory unless its
/// directory part is missing or empty.
pub proof fn deletions_and_directories(
    removed: IoResult<()>,
    deleted: Result<()>,
    part: Option<DirPart>,
    parent: ParentDir,
)
    requires
        call_ensures(storage::delete_vault, (removed,), deleted),
        call_ensures(storage::parent_dir, (part,), parent),
    ensures
        removed is Ok <==> deleted is Ok,
        removed matches Err(failure) ==> deleted == Err::<(), Error>(
            storage::mapped(failure.kind),
        ),
        parent is Unnamed <==> part is None || part->0.is_empty,
        part matches Some(dir) ==> (!dir.is_empty ==> (parent is Present <==> dir.is_there)),
{
}

/// A replacement advances by the outcome of its operation, and tells its own
/// outcome exactly at its end.
pub proof fn a_replacement_advances()
    ensures
        forall|write: &mut AtomicWrite, outcome: &IoResult<()>, done: ()|
            #[trigger] call_ensures(AtomicWrite::advance, (write, outcome), done) ==> {
                &&& *outcome is Ok ==> final(write)@ == (*write)@.next(None)
                &&& *outcome matches Err(failure) ==> final(write)@ == (*write)@.next(
                    Some(storage::mapped(failure.kind)),
                )
            },
        forall|write: &AtomicWrite, r: Option<Result<()>>|
            #[trigger] call_ensures(AtomicWrite::outcome, (write,), r) ==> {
                &&& write@ is Replaced <==> r == Some(Ok::<(), Error>(()))
                &&& write@ matches WritePhase::Failed { error } ==> r == Some(
                    Err::<(), Error>(error),
                )
                &&& !write@.done() ==> r is None
            },
{
}

} // verus!
