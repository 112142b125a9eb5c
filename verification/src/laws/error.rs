//! What errors say.

use vstd::prelude::*;

use crate::error::{Error, IoErrorKind, IoFailure, StorageErrorKind};
use crate::storage;

verus! {

/// Every error has one fixed text for the user. Only the storage error adds
/// something, the category, and the length error the number.
pub proof fn errors_say(min: usize)
    ensures
        Error::Authentication.text() == "authentication failed"@,
        Error::KeyDerivation.text() == "key derivation failed"@,
        Error::Crypto.text() == "cryptographic operation failed"@,
        Error::VaultFormat.text() == "vault file is not valid"@,
        Error::UnsupportedVersion.text() == "unsupported vault version"@,
        Error::InvalidKdfParameters.text()
            == "vault contains invalid key-derivation parameters"@,
        Error::InvalidEncoding.text() == "vault contains invalid encoding"@,
        Error::InvalidEntry.text() == "vault contents are not valid"@,
        Error::VaultAlreadyExists.text() == "a vault already exists at that location"@,
        Error::VaultNotFound.text() == "no vault found at that location"@,
        Error::SaveFailed.text() == "could not save vault; previous file was left unchanged"@,
        (Error::PasswordTooShort { min }).text() == "master password must be at least "@
            + crate::text::decimal(min as nat) + " characters"@,
        Error::PasswordMismatch.text() == "passwords do not match"@,
        Error::Clipboard.text() == "clipboard unavailable"@,
        Error::Clock.text() == "internal clock unavailable"@,
        (Error::Storage { kind: StorageErrorKind::NotFound }).text() == "storage error: "@
            + "not found"@,
        (Error::Storage { kind: StorageErrorKind::PermissionDenied }).text() == "storage error: "@
            + "permission denied"@,
        (Error::Storage { kind: StorageErrorKind::AlreadyExists }).text() == "storage error: "@
            + "already exists"@,
        (Error::Storage { kind: StorageErrorKind::InvalidInput }).text() == "storage error: "@
            + "invalid input"@,
        (Error::Storage { kind: StorageErrorKind::Other }).text() == "storage error: "@
            + "I/O error"@,
{
}

/// A result or an optional value is seen by the view of what it holds, and an
/// error as it is.
pub proof fn results_are_seen_by_what_they_hold<T: View>(value: T, e: Error)
    ensures
        crate::error::viewed(Ok::<T, Error>(value)) == Ok::<T::V, Error>(value@),
        crate::error::viewed(Err::<T, Error>(e)) == Err::<T::V, Error>(e),
        crate::error::viewed_option(Some(value)) == Some(value@),
        crate::error::viewed_option(None::<T>) == None::<T::V>,
        crate::vault::error_of(Ok::<T, Error>(value)) is None,
        crate::vault::error_of(Err::<T, Error>(e)) == Some(e),
{
}

/// What an I/O failure becomes: its category, whatever its message. Against the
/// vault path a missing file is a missing vault; as an error of its own it is a
/// storage error.
pub proof fn io_failures_become(failure: IoFailure)
    ensures
        failure.kind == IoErrorKind::NotFound ==> storage::mapped(failure.kind)
            == Error::VaultNotFound && Error::of_io(failure) == (Error::Storage {
            kind: StorageErrorKind::NotFound,
        }),
        failure.kind != IoErrorKind::NotFound ==> storage::mapped(failure.kind) == Error::of_io(
            failure,
        ),
        failure.kind == IoErrorKind::PermissionDenied ==> Error::of_io(failure)
            == (Error::Storage { kind: StorageErrorKind::PermissionDenied }),
        failure.kind == IoErrorKind::AlreadyExists ==> Error::of_io(failure) == (Error::Storage {
            kind: StorageErrorKind::AlreadyExists,
        }),
        failure.kind == IoErrorKind::InvalidInput || failure.kind == IoErrorKind::InvalidData
            ==> Error::of_io(failure) == (Error::Storage { kind: StorageErrorKind::InvalidInput }),
        failure.kind == IoErrorKind::Other ==> Error::of_io(failure) == (Error::Storage {
            kind: StorageErrorKind::Other,
        }),
        Error::of_io(failure) == (Error::Storage { kind: StorageErrorKind::of_kind(failure.kind) }),
{
}

} // verus!
