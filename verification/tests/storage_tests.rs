use std::collections::BTreeMap;

use offline_vault::error::{Error, IoErrorKind, IoFailure, StorageErrorKind};
use offline_vault::storage;
use offline_vault::storage::{
    admit_read, map_io, parent_dir, temp_name, temp_name_from, AtomicWrite, DirPart, FileMeta,
    IoResult, ParentDir, WritePhase, MAX_READ_BYTES, VAULT_FILE_MODE,
};

// ---------------------------------------------------------------------------
// A directory in memory, on which each operation can be made to fail
// ---------------------------------------------------------------------------

fn failure(kind: IoErrorKind) -> IoFailure {
    IoFailure {
        kind,
        message: "/home/user/vault.json".to_string(),
    }
}

#[derive(Default)]
struct Disk {
    files: BTreeMap<String, Vec<u8>>,
    dirs: Vec<String>,
    broken: Option<WritePhase>,
    performed: Vec<WritePhase>,
    modes: BTreeMap<String, u32>,
}

impl Disk {
    fn meta(&self, name: &str) -> IoResult<FileMeta> {
        if self.dirs.iter().any(|d| d == name) {
            return Ok(FileMeta {
                is_file: false,
                len: 4096,
            });
        }
        match self.files.get(name) {
            Some(f) => Ok(FileMeta {
                is_file: true,
                len: f.len() as u64,
            }),
            None => Err(failure(IoErrorKind::NotFound)),
        }
    }

    fn read_vault(&self, name: &str) -> Result<Vec<u8>, Error> {
        let contents = match self.files.get(name) {
            Some(f) => Ok(f.clone()),
            None => Err(failure(IoErrorKind::NotFound)),
        };
        storage::read_vault(&self.meta(name), contents)
    }

    fn vault_exists(&self, name: &str) -> bool {
        storage::vault_exists(&self.meta(name))
    }

    fn delete_vault(&mut self, name: &str) -> Result<(), Error> {
        let removed = match self.files.remove(name) {
            Some(_) => Ok(()),
            None => Err(failure(IoErrorKind::NotFound)),
        };
        storage::delete_vault(removed)
    }

    fn write_in(&mut self, name: &str, bytes: &[u8], parent: ParentDir) -> Result<(), Error> {
        let mut write = AtomicWrite::begin(bytes, parent)?;
        let temp = temp_name();
        loop {
            if let Some(outcome) = write.outcome() {
                return outcome;
            }
            let phase = write.phase();
            let outcome = self.perform(phase, name, &temp, bytes);
            write.advance(&outcome);
        }
    }

    fn write_vault_atomic(&mut self, name: &str, bytes: &[u8]) -> Result<(), Error> {
        self.write_in(name, bytes, ParentDir::Present)
    }

    fn create_secure(&mut self, name: &str) -> IoResult<()> {
        if self.files.contains_key(name) {
            return Err(failure(IoErrorKind::AlreadyExists));
        }
        self.files.insert(name.to_string(), Vec::new());
        self.modes.insert(name.to_string(), VAULT_FILE_MODE);
        Ok(())
    }

    fn perform(&mut self, phase: WritePhase, name: &str, temp: &str, bytes: &[u8]) -> IoResult<()> {
        self.performed.push(phase);
        if self.broken == Some(phase) {
            return Err(failure(IoErrorKind::PermissionDenied));
        }
        match phase {
            WritePhase::CreateTemp => self.create_secure(temp),
            WritePhase::WriteTemp => {
                self.files.insert(temp.to_string(), bytes.to_vec());
                Ok(())
            }
            WritePhase::RenameTemp => {
                if self.dirs.iter().any(|d| d == name) {
                    return Err(failure(IoErrorKind::Other));
                }
                let data = self.files.remove(temp).unwrap();
                self.files.insert(name.to_string(), data);
                let mode = self.modes.remove(temp).unwrap();
                self.modes.insert(name.to_string(), mode);
                Ok(())
            }
            WritePhase::RemoveTemp { .. } => {
                self.files.remove(temp);
                Ok(())
            }
            _ => Ok(()),
        }
    }

    fn entries(&self) -> Vec<String> {
        self.files.keys().cloned().collect()
    }
}

// ---------------------------------------------------------------------------
// Round trips
// ---------------------------------------------------------------------------

#[test]
fn storage_write_then_read_roundtrip() {
    let mut disk = Disk::default();
    disk.write_vault_atomic("vault.json", b"{\"hello\":1}").unwrap();
    assert!(disk.vault_exists("vault.json"));
    assert_eq!(disk.read_vault("vault.json").unwrap(), b"{\"hello\":1}");
}

#[test]
fn storadge_tests_write_then_read_roundtrip() {
    let mut disk = Disk::default();
    disk.write_vault_atomic("vault.json", b"{\"hello\":1}").unwrap();
    assert!(disk.vault_exists("vault.json"));
    assert_eq!(disk.read_vault("vault.json").unwrap(), b"{\"hello\":1}");
}

#[test]
fn overwrite_replaces_previous_file() {
    let mut disk = Disk::default();
    disk.write_vault_atomic("vault.json", b"one").unwrap();
    disk.write_vault_atomic("vault.json", b"two").unwrap();
    assert_eq!(disk.read_vault("vault.json").unwrap(), b"two");
}

#[test]
fn overwrite_replaces_previous_contents() {
    let mut disk = Disk::default();
    disk.write_vault_atomic("vault.json", b"one").unwrap();
    disk.write_vault_atomic("vault.json", b"two").unwrap();
    assert_eq!(disk.read_vault("vault.json").unwrap(), b"two");
}

#[test]
fn write_empty_bytes_is_rejected() {
    let mut disk = Disk::default();
    assert!(matches!(
        disk.write_vault_atomic("vault.json", b""),
        Err(Error::VaultFormat)
    ));
    // No file must be left behind.
    assert!(!disk.vault_exists("vault.json"));
}

#[test]
fn write_creates_missing_parent_directory() {
    let mut disk = Disk::default();
    disk.write_in("vault.json", b"data", ParentDir::Absent).unwrap();
    assert_eq!(disk.performed[0], WritePhase::CreateDir);
    assert!(disk.vault_exists("vault.json"));
    assert_eq!(disk.read_vault("vault.json").unwrap(), b"data");
}

// ---------------------------------------------------------------------------
// Atomicity and cleanup
// ---------------------------------------------------------------------------

#[test]
fn failed_write_leaves_previous_file_intact() {
    let mut disk = Disk::default();
    disk.write_vault_atomic("vault.json", b"original").unwrap();

    disk.dirs.push("blocked.json".to_string());
    let err = disk.write_vault_atomic("blocked.json", b"new").unwrap_err();
    let _ = err;

    assert_eq!(disk.read_vault("vault.json").unwrap(), b"original");
}

#[test]
fn failed_write_leaves_previous_target_intact() {
    let mut disk = Disk::default();
    disk.dirs.push("blocked".to_string());
    let err = disk.write_vault_atomic("blocked", b"new-data").unwrap_err();
    let _ = err;
    assert_eq!(disk.dirs, ["blocked"]);
    // No leftover temp file in the directory.
    let leftovers: Vec<String> = disk
        .entries()
        .into_iter()
        .filter(|n| n.starts_with(".vt."))
        .collect();
    assert!(leftovers.is_empty(), "leftover temp file: {leftovers:?}");
}

#[test]
fn previous_vault_survives_a_failed_overwrite_attempt() {
    let mut disk = Disk::default();
    disk.write_vault_atomic("vault.json", b"ORIGINAL").unwrap();
    assert_eq!(disk.read_vault("vault.json").unwrap(), b"ORIGINAL");

    disk.dirs.push("sub".to_string());
    let _ = disk.write_vault_atomic("sub", b"REPLACEMENT").unwrap_err();

    assert_eq!(disk.read_vault("vault.json").unwrap(), b"ORIGINAL");
}

#[test]
fn temp_file_is_cleaned_up_on_success() {
    let mut disk = Disk::default();
    disk.write_vault_atomic("vault.json", b"data").unwrap();
    let entries = disk.entries();
    assert_eq!(entries.len(), 1);
    assert_eq!(entries[0], "vault.json");
}

#[test]
fn temp_file_is_removed_after_success() {
    let mut disk = Disk::default();
    disk.write_vault_atomic("vault.json", b"payload").unwrap();
    assert_eq!(disk.entries(), vec!["vault.json".to_string()]);
}

#[test]
fn concurrent_writes_to_distinct_paths_do_not_collide() {
    let mut disk = Disk::default();
    disk.write_vault_atomic("a.json", b"A-content").unwrap();
    disk.write_vault_atomic("b.json", b"B-content").unwrap();
    assert_eq!(disk.read_vault("a.json").unwrap(), b"A-content");
    assert_eq!(disk.read_vault("b.json").unwrap(), b"B-content");
    assert_eq!(
        disk.entries(),
        vec!["a.json".to_string(), "b.json".to_string()]
    );
}

#[test]
fn create_secure_refuses_to_overwrite() {
    let mut disk = Disk::default();
    disk.create_secure("probe").unwrap();
    assert!(disk.create_secure("probe").is_err());
}

#[test]
fn new_file_has_owner_only_mode() {
    let mut disk = Disk::default();
    disk.write_vault_atomic("vault.json", b"secret").unwrap();
    assert_eq!(disk.modes["vault.json"], 0o600);
}

#[test]
fn overwritten_file_keeps_owner_only_mode() {
    let mut disk = Disk::default();
    disk.write_vault_atomic("vault.json", b"one").unwrap();
    disk.write_vault_atomic("vault.json", b"two").unwrap();
    assert_eq!(disk.modes["vault.json"], 0o600);
}

#[test]
fn every_failing_operation_leaves_the_vault_and_no_temporary_file() {
    let steps = [
        WritePhase::CreateTemp,
        WritePhase::WriteTemp,
        WritePhase::FlushTemp,
        WritePhase::SyncTemp,
        WritePhase::RenameTemp,
    ];
    for step in steps {
        let mut disk = Disk::default();
        disk.write_vault_atomic("vault.json", b"old").unwrap();
        disk.performed.clear();
        disk.broken = Some(step);
        assert_eq!(
            disk.write_vault_atomic("vault.json", b"new"),
            Err(Error::Storage {
                kind: StorageErrorKind::PermissionDenied
            })
        );
        assert_eq!(disk.read_vault("vault.json").unwrap(), b"old");
        assert_eq!(disk.entries(), ["vault.json"]);
        assert!(matches!(
            disk.performed.last(),
            Some(WritePhase::RemoveTemp { .. })
        ));
    }
}

#[test]
fn failing_to_create_the_directory_ends_the_replacement() {
    let mut disk = Disk::default();
    disk.broken = Some(WritePhase::CreateDir);
    assert!(disk.write_in("vault.json", b"new", ParentDir::Absent).is_err());
    assert_eq!(disk.performed, [WritePhase::CreateDir]);
}

#[test]
fn failing_to_sync_the_directory_changes_nothing() {
    let mut disk = Disk::default();
    disk.broken = Some(WritePhase::SyncDir);
    disk.write_vault_atomic("vault.json", b"new").unwrap();
    assert_eq!(disk.read_vault("vault.json").unwrap(), b"new");
    assert_eq!(
        disk.performed,
        [
            WritePhase::CreateTemp,
            WritePhase::WriteTemp,
            WritePhase::FlushTemp,
            WritePhase::SyncTemp,
            WritePhase::RenameTemp,
            WritePhase::SyncDir,
        ]
    );
}

// ---------------------------------------------------------------------------
// Reading
// ---------------------------------------------------------------------------

#[test]
fn storage_read_missing_file_is_vault_not_found() {
    let disk = Disk::default();
    assert!(matches!(
        disk.read_vault("nope.json"),
        Err(Error::VaultNotFound)
    ));
}

#[test]
fn storadge_tests_read_missing_file_is_vault_not_found() {
    let disk = Disk::default();
    assert!(matches!(
        disk.read_vault("nope.json"),
        Err(Error::VaultNotFound)
    ));
}

#[test]
fn read_directory_is_vault_not_found() {
    let mut disk = Disk::default();
    disk.dirs.push("subdir".to_string());
    assert!(matches!(
        disk.read_vault("subdir"),
        Err(Error::VaultNotFound)
    ));
}

#[test]
fn storage_read_rejects_oversized_file() {
    let big = Ok(FileMeta {
        is_file: true,
        len: MAX_READ_BYTES + 1,
    });
    assert!(matches!(
        storage::read_vault(&big, Ok(Vec::new())),
        Err(Error::VaultFormat)
    ));
}

#[test]
fn storadge_tests_read_rejects_oversized_file() {
    let big = Ok(FileMeta {
        is_file: true,
        len: MAX_READ_BYTES + 1,
    });
    assert!(matches!(admit_read(&big), Err(Error::VaultFormat)));
    let full = Ok(FileMeta {
        is_file: true,
        len: MAX_READ_BYTES,
    });
    assert_eq!(admit_read(&full), Ok(()));
    assert_eq!(MAX_READ_BYTES, 64 * 1024 * 1024);
}

#[test]
fn vault_exists_is_false_for_missing_path() {
    assert!(!Disk::default().vault_exists("nope.json"));
}

#[test]
fn vault_exists_is_false_for_directory() {
    let mut disk = Disk::default();
    disk.dirs.push("subdir".to_string());
    assert!(!disk.vault_exists("subdir"));
}

#[test]
fn vault_exists_is_true_for_regular_file() {
    let mut disk = Disk::default();
    disk.write_vault_atomic("vault.json", b"x").unwrap();
    assert!(disk.vault_exists("vault.json"));
}

#[test]
fn delete_removes_existing_file() {
    let mut disk = Disk::default();
    disk.write_vault_atomic("vault.json", b"x").unwrap();
    assert!(disk.vault_exists("vault.json"));
    disk.delete_vault("vault.json").unwrap();
    assert!(!disk.vault_exists("vault.json"));
}

#[test]
fn delete_missing_file_is_vault_not_found() {
    let mut disk = Disk::default();
    assert!(matches!(
        disk.delete_vault("nope.json"),
        Err(Error::VaultNotFound)
    ));
}

#[test]
fn write_to_bare_filename_fails() {
    let mut disk = Disk::default();
    assert_eq!(
        disk.write_in("vault.json", b"x", ParentDir::Unnamed),
        Err(Error::Storage {
            kind: StorageErrorKind::InvalidInput
        })
    );
    assert!(disk.entries().is_empty());
}

#[test]
fn io_failures_are_mapped_without_their_message() {
    assert_eq!(map_io(&failure(IoErrorKind::NotFound)), Error::VaultNotFound);
    assert_eq!(
        map_io(&failure(IoErrorKind::AlreadyExists)),
        Error::Storage {
            kind: StorageErrorKind::AlreadyExists
        }
    );
    assert!(!map_io(&failure(IoErrorKind::Other)).to_string().contains("home"));
}

#[test]
fn temporary_names_are_fresh() {
    assert_eq!(
        temp_name_from(
            &[0, 1, 2, 3, 4, 5, 6, 7],
            &[0xf8, 0xf9, 0xfa, 0xfb, 0xfc, 0xfd, 0xfe, 0xff]
        ),
        ".vt.0001020304050607f8f9fafbfcfdfeff.tmp"
    );
    let a = temp_name();
    let b = temp_name();
    assert_eq!(a.len(), 4 + 32 + 4);
    assert_ne!(a, b);
}

#[test]
fn directory_part_decides_where_to_begin() {
    let part = |is_empty: bool, is_there: bool| Some(DirPart { is_empty, is_there });
    assert_eq!(parent_dir(None), ParentDir::Unnamed);
    assert_eq!(parent_dir(part(true, true)), ParentDir::Unnamed);
    assert_eq!(parent_dir(part(false, false)), ParentDir::Absent);
    assert_eq!(parent_dir(part(false, true)), ParentDir::Present);
}
