//! The rules of vault file I/O: what may be read, how a failure is reported,
//! and the order of an atomic replacement.
//!
//! Nothing here touches a file. The caller performs each operation and hands
//! its outcome in.

use vstd::prelude::*;

use crate::crypto;
use crate::error::{Error, IoErrorKind, IoFailure, Result, StorageErrorKind};
use crate::text;

verus! {

/// Mode of a freshly created vault file on Unix: owner read and write only.
pub const VAULT_FILE_MODE: u32 = 0o600;

/// Largest vault file that is read into memory, in bytes.
pub const MAX_READ_BYTES: u64 = 64 * 1024 * 1024;

/// The outcome of an I/O operation.
pub type IoResult<T> = core::result::Result<T, IoFailure>;

/// What is known of a file before it is read.
#[derive(Debug, Clone, Copy, PartialEq, Eq, Structural)]
pub struct FileMeta {
    pub is_file: bool,
    pub len: u64,
}

/// The error that stands for an I/O failure against the vault path. A path that
/// is not there is a vault that is not there.
pub open spec fn mapped(kind: IoErrorKind) -> Error {
    if kind == IoErrorKind::NotFound {
        Error::VaultNotFound
    } else {
        Error::Storage { kind: StorageErrorKind::of_kind(kind) }
    }
}

/// The error that stands for an I/O failure against the vault path.
pub fn map_io(err: &IoFailure) -> (e: Error)
    ensures
        e == mapped(err.kind),
{
    match err.kind {
        IoErrorKind::NotFound => Error::VaultNotFound,
        _ => Error::Storage { kind: StorageErrorKind::from_io(err) },
    }
}

/// Whether a vault file is there: something that is a file could be examined.
pub fn vault_exists(meta: &IoResult<FileMeta>) -> (r: bool)
    ensures
        r == (meta matches Ok(m) && m.is_file),
{
    match meta {
        Ok(m) => m.is_file,
        Err(_) => false,
    }
}

/// Whether a vault file may be read, from what is known of it. Something that
/// is not a file is no vault; one that is too large is refused unread.
pub fn admit_read(meta: &IoResult<FileMeta>) -> (r: Result<()>)
    ensures
        r == (match *meta {
            Err(failure) => Err::<(), Error>(mapped(failure.kind)),
            Ok(m) => if !m.is_file {
                Err::<(), Error>(Error::VaultNotFound)
            } else if m.len > MAX_READ_BYTES {
                Err::<(), Error>(Error::VaultFormat)
            } else {
                Ok::<(), Error>(())
            },
        }),
{
    match meta {
        Err(failure) => Err(map_io(failure)),
        Ok(m) => {
            if !m.is_file {
                return Err(Error::VaultNotFound);
            }
            if m.len > MAX_READ_BYTES {
                return Err(Error::VaultFormat);
            }
            Ok(())
        },
    }
}

/// Read a vault file, from what is known of it and what reading it gave. The
/// second is looked at only where the first allows the read.
pub fn read_vault(meta: &IoResult<FileMeta>, contents: IoResult<Vec<u8>>) -> (r: Result<Vec<u8>>)
    ensures
        match *meta {
            Err(failure) => r == Err::<Vec<u8>, Error>(mapped(failure.kind)),
            Ok(m) => if !m.is_file {
                r == Err::<Vec<u8>, Error>(Error::VaultNotFound)
            } else if m.len > MAX_READ_BYTES {
                r == Err::<Vec<u8>, Error>(Error::VaultFormat)
            } else {
                r == (match contents {
                    Ok(bytes) => Ok::<Vec<u8>, Error>(bytes),
                    Err(failure) => Err::<Vec<u8>, Error>(mapped(failure.kind)),
                })
            },
        },
{
    admit_read(meta)?;
    match contents {
        Ok(bytes) => Ok(bytes),
        Err(failure) => Err(map_io(&failure)),
    }
}

/// Report the outcome of deleting the vault file.
pub fn delete_vault(removed: IoResult<()>) -> (r: Result<()>)
    ensures
        r == (match removed {
            Ok(_) => Ok::<(), Error>(()),
            Err(failure) => Err::<(), Error>(mapped(failure.kind)),
        }),
{
    match removed {
        Ok(_) => Ok(()),
        Err(failure) => Err(map_io(&failure)),
    }
}

// ---------------------------------------------------------------------------
// The temporary file
// ---------------------------------------------------------------------------

/// The name of a temporary file made from random bytes.
pub open spec fn temp_name_text(random: Seq<u8>) -> Seq<char> {
    ".vt."@ + text::hex(random) + ".tmp"@
}

/// The name of a temporary file made from two runs of bytes.
pub fn temp_name_from(a: &[u8; 8], b: &[u8; 8]) -> (name: String)
    ensures
        name@ == temp_name_text(a@ + b@),
{
    let mut name = ".vt.".to_owned();
    text::push_hex(&mut name, a);
    text::push_hex(&mut name, b);
    name.append(".tmp");
    assert(text::hex(a@ + b@) =~= text::hex(a@) + text::hex(b@));
    assert(name@ =~= temp_name_text(a@ + b@));
    name
}

/// Whether `bytes` are eight random bytes, or zeros for want of them.
pub open spec fn random_or_zeros(bytes: Seq<u8>) -> bool {
    &&& bytes.len() == 8
    &&& crypto::given::<8>(bytes) || (crypto::refused::<8>() && bytes
        == crate::security::zeros(8))
}

/// Eight random bytes, or zeros if none can be had.
fn random_bytes_or_zeros() -> (bytes: [u8; 8])
    ensures
        random_or_zeros(bytes@),
{
    match crypto::random_bytes::<8>() {
        Ok(bytes) => bytes,
        Err(_) => {
            let bytes: [u8; 8] = [0u8; 8];
            assert(bytes@ =~= crate::security::zeros(8));
            bytes
        },
    }
}

/// A name for a temporary file. If no random bytes can be had, zeros take their
/// place: creating the file fails later if that name is taken.
pub fn temp_name() -> (name: String)
    ensures
        exists|a: Seq<u8>, b: Seq<u8>|
            random_or_zeros(a) && random_or_zeros(b) && name@ == #[trigger] temp_name_text(a + b),
{
    let a: [u8; 8] = random_bytes_or_zeros();
    let b: [u8; 8] = random_bytes_or_zeros();
    temp_name_from(&a, &b)
}

// ---------------------------------------------------------------------------
// Atomic replacement
// ---------------------------------------------------------------------------

/// The directory part of the path that is to be written.
#[derive(Debug, Clone, Copy, PartialEq, Eq, Structural)]
pub enum ParentDir {
    /// The path has no directory part, or an empty one.
    Unnamed,
    /// The directory is not there yet.
    Absent,
    /// The directory is there.
    Present,
}

/// The operation that an atomic replacement needs next, or its outcome.
#[derive(Debug, Clone, Copy, PartialEq, Eq, Structural)]
pub enum WritePhase {
    /// Create the directory, with its ancestors.
    CreateDir,
    /// Create the temporary file, which must not be there yet.
    CreateTemp,
    /// Write every byte to the temporary file.
    WriteTemp,
    /// Flush the temporary file.
    FlushTemp,
    /// Force the temporary file to disk.
    SyncTemp,
    /// Rename the temporary file over the vault file.
    RenameTemp,
    /// Remove the temporary file, because of an error that came before.
    RemoveTemp { error: Error },
    /// Force the directory to disk.
    SyncDir,
    /// The vault file was replaced.
    Replaced,
    /// The replacement failed.
    Failed { error: Error },
}

impl WritePhase {
    /// Whether the replacement has come to its end.
    pub open spec fn done(self) -> bool {
        self is Replaced || self is Failed
    }

    /// The phase after this one, given the error of its operation, if it
    /// failed.
    ///
    /// A failure before the rename, or of it, leads to the removal of the
    /// temporary file. Removing it and syncing the directory are attempts whose
    /// failure changes nothing.
    pub open spec fn next(self, failure: Option<Error>) -> WritePhase {
        match self {
            WritePhase::CreateDir => match failure {
                None => WritePhase::CreateTemp,
                Some(error) => WritePhase::Failed { error },
            },
            WritePhase::CreateTemp => Self::or_cleanup(failure, WritePhase::WriteTemp),
            WritePhase::WriteTemp => Self::or_cleanup(failure, WritePhase::FlushTemp),
            WritePhase::FlushTemp => Self::or_cleanup(failure, WritePhase::SyncTemp),
            WritePhase::SyncTemp => Self::or_cleanup(failure, WritePhase::RenameTemp),
            WritePhase::RenameTemp => Self::or_cleanup(failure, WritePhase::SyncDir),
            WritePhase::RemoveTemp { error } => WritePhase::Failed { error },
            WritePhase::SyncDir => WritePhase::Replaced,
            WritePhase::Replaced => self,
            WritePhase::Failed { error } => self,
        }
    }

    /// Go on, or clean up after a failure.
    pub open spec fn or_cleanup(failure: Option<Error>, then: WritePhase) -> WritePhase {
        match failure {
            None => then,
            Some(error) => WritePhase::RemoveTemp { error },
        }
    }

    /// An upper bound on the operations that are still to come.
    pub open spec fn operations_left(self) -> nat {
        match self {
            WritePhase::CreateDir => 8,
            WritePhase::CreateTemp => 7,
            WritePhase::WriteTemp => 6,
            WritePhase::FlushTemp => 5,
            WritePhase::SyncTemp => 4,
            WritePhase::RenameTemp => 3,
            WritePhase::RemoveTemp { error } => 2,
            WritePhase::SyncDir => 1,
            WritePhase::Replaced => 0,
            WritePhase::Failed { error } => 0,
        }
    }
}

/// An atomic replacement of the vault file, in progress.
#[derive(Debug)]
pub struct AtomicWrite {
    phase: WritePhase,
}

/// The error of an I/O outcome, as it is reported.
pub open spec fn failure_of(outcome: IoResult<()>) -> Option<Error> {
    match outcome {
        Ok(_) => None,
        Err(failure) => Some(mapped(failure.kind)),
    }
}

impl View for AtomicWrite {
    type V = WritePhase;

    closed spec fn view(&self) -> WritePhase {
        self.phase
    }
}

/// What is known of the directory part of a path.
#[derive(Debug, Clone, Copy, PartialEq, Eq, Structural)]
pub struct DirPart {
    /// Whether it is the empty path.
    pub is_empty: bool,
    /// Whether there is something at it.
    pub is_there: bool,
}

/// The directory that a path is in. A directory part that is missing or empty
/// names none.
pub fn parent_dir(part: Option<DirPart>) -> (parent: ParentDir)
    ensures
        parent == (match part {
            Some(dir) if !dir.is_empty => if dir.is_there {
                ParentDir::Present
            } else {
                ParentDir::Absent
            },
            _ => ParentDir::Unnamed,
        }),
{
    match part {
        Some(dir) => {
            if dir.is_empty {
                ParentDir::Unnamed
            } else if dir.is_there {
                ParentDir::Present
            } else {
                ParentDir::Absent
            }
        },
        None => ParentDir::Unnamed,
    }
}

impl AtomicWrite {
    /// Begin to replace the vault file by `bytes`. Nothing is written for an
    /// empty file, nor to a path without a directory.
    pub fn begin(bytes: &[u8], parent: ParentDir) -> (r: Result<Self>)
        ensures
            crate::error::viewed(r) == Self::started(bytes@, parent),
    {
        if bytes.len() == 0 {
            return Err(Error::VaultFormat);
        }
        match parent {
            ParentDir::Unnamed => Err(Error::Storage { kind: StorageErrorKind::InvalidInput }),
            ParentDir::Absent => Ok(AtomicWrite { phase: WritePhase::CreateDir }),
            ParentDir::Present => Ok(AtomicWrite { phase: WritePhase::CreateTemp }),
        }
    }

    /// How a replacement begins.
    pub open spec fn started(bytes: Seq<u8>, parent: ParentDir) -> Result<WritePhase> {
        if bytes.len() == 0 {
            Err(Error::VaultFormat)
        } else {
            match parent {
                ParentDir::Unnamed => Err(Error::Storage { kind: StorageErrorKind::InvalidInput }),
                ParentDir::Absent => Ok(WritePhase::CreateDir),
                ParentDir::Present => Ok(WritePhase::CreateTemp),
            }
        }
    }

    /// The operation to perform next, or the outcome.
    pub fn phase(&self) -> (phase: WritePhase)
        ensures
            phase == self@,
    {
        self.phase
    }

    /// Take the outcome of the operation and move on.
    pub fn advance(&mut self, outcome: &IoResult<()>)
        ensures
            final(self)@ == old(self)@.next(failure_of(*outcome)),
    {
        let failure = match outcome {
            Ok(_) => None,
            Err(failure) => Some(map_io(failure)),
        };
        self.phase = match self.phase {
            WritePhase::CreateDir => match failure {
                None => WritePhase::CreateTemp,
                Some(error) => WritePhase::Failed { error },
            },
            WritePhase::CreateTemp => Self::or_clean_up(failure, WritePhase::WriteTemp),
            WritePhase::WriteTemp => Self::or_clean_up(failure, WritePhase::FlushTemp),
            WritePhase::FlushTemp => Self::or_clean_up(failure, WritePhase::SyncTemp),
            WritePhase::SyncTemp => Self::or_clean_up(failure, WritePhase::RenameTemp),
            WritePhase::RenameTemp => Self::or_clean_up(failure, WritePhase::SyncDir),
            WritePhase::RemoveTemp { error } => WritePhase::Failed { error },
            WritePhase::SyncDir => WritePhase::Replaced,
            WritePhase::Replaced => WritePhase::Replaced,
            WritePhase::Failed { error } => WritePhase::Failed { error },
        };
    }

    fn or_clean_up(failure: Option<Error>, then: WritePhase) -> (phase: WritePhase)
        ensures
            phase == WritePhase::or_cleanup(failure, then),
    {
        match failure {
            None => then,
            Some(error) => WritePhase::RemoveTemp { error },
        }
    }

    /// The outcome, once there is one.
    pub fn outcome(&self) -> (r: Option<Result<()>>)
        ensures
            r == (match self@ {
                WritePhase::Replaced => Some(Ok::<(), Error>(())),
                WritePhase::Failed { error } => Some(Err::<(), Error>(error)),
                _ => None,
            }),
    {
        match self.phase {
            WritePhase::Replaced => Some(Ok(())),
            WritePhase::Failed { error } => Some(Err(error)),
            _ => None,
        }
    }
}

// ---------------------------------------------------------------------------
// Properties
// ---------------------------------------------------------------------------

/// The two files that an atomic replacement is about: the vault file and the
/// temporary file, each with its contents if it is there.
pub ghost struct Disk {
    pub vault: Option<Seq<u8>>,
    pub temp: Option<Seq<u8>>,
}

/// What performing the operation of a phase may do to the files.
///
/// A failed write may leave anything in the temporary file. A rename replaces
/// the vault file by the temporary file, or does nothing.
pub open spec fn performed(
    phase: WritePhase,
    ok: bool,
    before: Disk,
    after: Disk,
    bytes: Seq<u8>,
) -> bool {
    match phase {
        WritePhase::CreateTemp => {
            &&& after.vault == before.vault
            &&& after.temp == (if ok {
                Some(Seq::<u8>::empty())
            } else {
                before.temp
            })
        },
        WritePhase::WriteTemp => {
            &&& after.vault == before.vault
            &&& ok ==> after.temp == Some(bytes)
        },
        WritePhase::RenameTemp => if ok {
            &&& after.vault == before.temp
            &&& after.temp is None
        } else {
            after == before
        },
        WritePhase::RemoveTemp { error } => {
            &&& after.vault == before.vault
            &&& after.temp == (if ok {
                None
            } else {
                before.temp
            })
        },
        _ => after == before,
    }
}

/// One operation of a replacement: its error, if it failed, and the files after
/// it.
pub ghost struct Operation {
    pub failure: Option<Error>,
    pub after: Disk,
}

/// The phase after a run of operations.
pub open spec fn phase_after(start: WritePhase, run: Seq<Operation>) -> WritePhase
    decreases run.len(),
{
    if run.len() == 0 {
        start
    } else {
        phase_after(start, run.drop_last()).next(run.last().failure)
    }
}

/// The files after a run of operations.
pub open spec fn disk_after(start: Disk, run: Seq<Operation>) -> Disk {
    if run.len() == 0 {
        start
    } else {
        run.last().after
    }
}

/// Whether each operation of a run did what its phase asked for.
pub open spec fn possible_run(
    start: WritePhase,
    disk: Disk,
    run: Seq<Operation>,
    bytes: Seq<u8>,
) -> bool
    decreases run.len(),
{
    run.len() > 0 ==> {
        &&& possible_run(start, disk, run.drop_last(), bytes)
        &&& performed(
            phase_after(start, run.drop_last()),
            run.last().failure is None,
            disk_after(disk, run.drop_last()),
            run.last().after,
            bytes,
        )
    }
}

/// What holds of the files in each phase.
pub open spec fn files_in_order(
    phase: WritePhase,
    start: Disk,
    now: Disk,
    bytes: Seq<u8>,
) -> bool {
    match phase {
        WritePhase::FlushTemp | WritePhase::SyncTemp | WritePhase::RenameTemp => {
            &&& now.vault == start.vault
            &&& now.temp == Some(bytes)
        },
        WritePhase::SyncDir | WritePhase::Replaced => {
            &&& now.vault == Some(bytes)
            &&& now.temp is None
        },
        _ => now.vault == start.vault,
    }
}

/// At every point of a replacement the vault file is either the previous one,
/// untouched, or the complete new one; it is never missing or partial.
pub proof fn vault_file_is_never_torn(
    bytes: Seq<u8>,
    parent: ParentDir,
    disk: Disk,
    run: Seq<Operation>,
)
    requires
        AtomicWrite::started(bytes, parent) is Ok,
        possible_run(AtomicWrite::started(bytes, parent)->Ok_0, disk, run, bytes),
    ensures
        ({
            let phase = phase_after(AtomicWrite::started(bytes, parent)->Ok_0, run);
            let now = disk_after(disk, run);
            &&& files_in_order(phase, disk, now, bytes)
            &&& now.vault == disk.vault || now.vault == Some(bytes)
            &&& phase is Failed ==> now.vault == disk.vault
            &&& phase is Replaced ==> now.vault == Some(bytes) && now.temp is None
        }),
    decreases run.len(),
{
    if run.len() > 0 {
        vault_file_is_never_torn(bytes, parent, disk, run.drop_last());
    }
}

/// A replacement that fails does not leave its temporary file behind, unless
/// removing that file fails too: every failure once there may be one leads to
/// the removal.
pub proof fn failed_replacement_leaves_no_temporary_file(
    bytes: Seq<u8>,
    parent: ParentDir,
    disk: Disk,
    run: Seq<Operation>,
)
    requires
        AtomicWrite::started(bytes, parent) is Ok,
        disk.temp is None,
        possible_run(AtomicWrite::started(bytes, parent)->Ok_0, disk, run, bytes),
        phase_after(AtomicWrite::started(bytes, parent)->Ok_0, run) is Failed,
        forall|i: int|
            0 <= i < run.len() && phase_after(
                AtomicWrite::started(bytes, parent)->Ok_0,
                #[trigger] run.take(i),
            ) is RemoveTemp ==> run[i].failure is None,
    ensures
        disk_after(disk, run).temp is None,
    decreases run.len(),
{
    let start = AtomicWrite::started(bytes, parent)->Ok_0;
    if run.len() > 0 {
        let shorter = run.drop_last();
        assert(run.take(run.len() - 1) =~= shorter);
        let before = phase_after(start, shorter);
        if before is Failed {
            assert forall|i: int|
                0 <= i < shorter.len() && phase_after(
                    start,
                    #[trigger] shorter.take(i),
                ) is RemoveTemp implies shorter[i].failure is None by {
                assert(run.take(i) =~= shorter.take(i));
            }
            failed_replacement_leaves_no_temporary_file(bytes, parent, disk, shorter);
        } else if before is CreateDir {
            nothing_precedes_the_directory(bytes, parent, disk, shorter);
        }
    }
}

/// A replacement is at its first operation only before any was performed.
proof fn nothing_precedes_the_directory(
    bytes: Seq<u8>,
    parent: ParentDir,
    disk: Disk,
    run: Seq<Operation>,
)
    requires
        AtomicWrite::started(bytes, parent) is Ok,
        phase_after(AtomicWrite::started(bytes, parent)->Ok_0, run) is CreateDir,
    ensures
        disk_after(disk, run) == disk,
{
}

/// Every operation brings a replacement nearer to its end, so it ends after at
/// most eight of them.
pub proof fn replacement_ends(phase: WritePhase, failure: Option<Error>)
    requires
        !phase.done(),
    ensures
        phase.next(failure).operations_left() < phase.operations_left() <= 8,
        phase.operations_left() > 0,
        phase.next(failure).operations_left() == 0 <==> phase.next(failure).done(),
{
}

/// The error reported at the end is that of the operation that failed, whatever
/// becomes of the attempt to clean up.
pub proof fn failure_is_reported(phase: WritePhase, error: Error, cleanup: Option<Error>)
    requires
        !phase.done(),
        !(phase is RemoveTemp),
        !(phase is SyncDir),
    ensures
        phase is CreateDir ==> phase.next(Some(error)) == (WritePhase::Failed { error }),
        !(phase is CreateDir) ==> phase.next(Some(error)).next(cleanup) == (WritePhase::Failed {
            error,
        }),
{
}

} // verus!
