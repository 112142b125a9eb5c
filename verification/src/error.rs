//! Structured application errors.
//!
//! Every variant is safe to show to a user. No variant carries a secret, a
//! key, a decrypted payload, a clipboard value or a master password.
//!
//! Cryptographic failures are collapsed into a single opaque variant on
//! purpose: telling "wrong password" from "tampered ciphertext" would leak
//! information about internal state to whoever can observe error messages.

use vstd::prelude::*;

use crate::text::push_decimal;

verus! {

/// Convenience alias used throughout the crate.
pub type Result<T> = core::result::Result<T, Error>;

/// A result with the view of its value.
pub open spec fn viewed<T: View>(r: Result<T>) -> Result<T::V> {
    match r {
        Ok(value) => Ok(value@),
        Err(e) => Err(e),
    }
}

/// An optional value with its view.
pub open spec fn viewed_option<T: View>(o: Option<T>) -> Option<T::V> {
    match o {
        Some(value) => Some(value@),
        None => None,
    }
}

/// Application-wide error type.
///
/// The variants are intentionally coarse. Anything that could be used as an
/// oracle about cryptographic state is folded into [`Error::Authentication`].
#[derive(Debug, Clone, Copy, PartialEq, Eq, Structural)]
pub enum Error {
    /// Any failure to authenticate or decrypt: wrong password, corrupted
    /// wrapped key, corrupted payload, mismatched associated data.
    Authentication,
    /// Failure to derive a key.
    KeyDerivation,
    /// A cryptographic operation failed for a reason that is not an
    /// authentication failure.
    Crypto,
    /// The vault file could not be parsed as the expected structure.
    VaultFormat,
    /// The vault file has a version that this build does not support.
    UnsupportedVersion,
    /// A key-derivation parameter of the vault is outside the accepted range.
    InvalidKdfParameters,
    /// A Base64 field could not be decoded.
    InvalidEncoding,
    /// The decrypted payload did not match the expected entry schema.
    InvalidEntry,
    /// Generic I/O failure against the vault path or its directory.
    Storage { kind: StorageErrorKind },
    /// A vault already exists at the requested path.
    VaultAlreadyExists,
    /// The requested vault path does not exist.
    VaultNotFound,
    /// Saving failed before the atomic rename.
    SaveFailed,
    /// Master password did not satisfy the minimum length requirement.
    PasswordTooShort { min: usize },
    /// The two master-password fields did not match.
    PasswordMismatch,
    /// The system clipboard could not be accessed.
    Clipboard,
    /// Internal clock source failed.
    Clock,
}

/// Coarse category for I/O failures, so that a user-facing message never
/// embeds an operating-system string.
#[derive(Debug, Clone, Copy, PartialEq, Eq, Structural)]
pub enum StorageErrorKind {
    NotFound,
    PermissionDenied,
    AlreadyExists,
    InvalidInput,
    Other,
}

/// What the operating system says went wrong.
#[derive(Debug, Clone, Copy, PartialEq, Eq, Structural)]
pub enum IoErrorKind {
    NotFound,
    PermissionDenied,
    AlreadyExists,
    InvalidInput,
    InvalidData,
    Other,
}

/// A failed I/O operation: its kind, and the message that came with it, which
/// may name a path or another detail of the environment.
#[derive(Debug)]
pub struct IoFailure {
    pub kind: IoErrorKind,
    pub message: String,
}

impl StorageErrorKind {
    /// The user-facing text of the category.
    pub open spec fn text(self) -> Seq<char> {
        match self {
            StorageErrorKind::NotFound => "not found"@,
            StorageErrorKind::PermissionDenied => "permission denied"@,
            StorageErrorKind::AlreadyExists => "already exists"@,
            StorageErrorKind::InvalidInput => "invalid input"@,
            StorageErrorKind::Other => "I/O error"@,
        }
    }

    /// The category of an operating-system error kind.
    pub open spec fn of_kind(kind: IoErrorKind) -> StorageErrorKind {
        match kind {
            IoErrorKind::NotFound => StorageErrorKind::NotFound,
            IoErrorKind::PermissionDenied => StorageErrorKind::PermissionDenied,
            IoErrorKind::AlreadyExists => StorageErrorKind::AlreadyExists,
            IoErrorKind::InvalidInput => StorageErrorKind::InvalidInput,
            IoErrorKind::InvalidData => StorageErrorKind::InvalidInput,
            IoErrorKind::Other => StorageErrorKind::Other,
        }
    }

    /// Render the category for a user.
    pub fn to_string(&self) -> (s: String)
        ensures
            s@ == self.text(),
    {
        let text = match self {
            StorageErrorKind::NotFound => "not found",
            StorageErrorKind::PermissionDenied => "permission denied",
            StorageErrorKind::AlreadyExists => "already exists",
            StorageErrorKind::InvalidInput => "invalid input",
            StorageErrorKind::Other => "I/O error",
        };
        text.to_owned()
    }

    /// Classify an I/O failure without preserving its message.
    pub fn from_io(err: &IoFailure) -> (kind: Self)
        ensures
            kind == Self::of_kind(err.kind),
    {
        match err.kind {
            IoErrorKind::NotFound => StorageErrorKind::NotFound,
            IoErrorKind::PermissionDenied => StorageErrorKind::PermissionDenied,
            IoErrorKind::AlreadyExists => StorageErrorKind::AlreadyExists,
            IoErrorKind::InvalidInput | IoErrorKind::InvalidData => StorageErrorKind::InvalidInput,
            IoErrorKind::Other => StorageErrorKind::Other,
        }
    }
}

impl Error {
    /// The user-facing text of the error.
    pub open spec fn text(self) -> Seq<char> {
        match self {
            Error::Authentication => "authentication failed"@,
            Error::KeyDerivation => "key derivation failed"@,
            Error::Crypto => "cryptographic operation failed"@,
            Error::VaultFormat => "vault file is not valid"@,
            Error::UnsupportedVersion => "unsupported vault version"@,
            Error::InvalidKdfParameters => "vault contains invalid key-derivation parameters"@,
            Error::InvalidEncoding => "vault contains invalid encoding"@,
            Error::InvalidEntry => "vault contents are not valid"@,
            Error::Storage { kind } => "storage error: "@ + kind.text(),
            Error::VaultAlreadyExists => "a vault already exists at that location"@,
            Error::VaultNotFound => "no vault found at that location"@,
            Error::SaveFailed => "could not save vault; previous file was left unchanged"@,
            Error::PasswordTooShort { min } => "master password must be at least "@ + crate::text::decimal(
                min as nat,
            ) + " characters"@,
            Error::PasswordMismatch => "passwords do not match"@,
            Error::Clipboard => "clipboard unavailable"@,
            Error::Clock => "internal clock unavailable"@,
        }
    }

    /// The error that stands for an I/O failure: its category, nothing else.
    pub open spec fn of_io(err: IoFailure) -> Error {
        Error::Storage { kind: StorageErrorKind::of_kind(err.kind) }
    }

    /// Render the error for a user.
    pub fn to_string(&self) -> (s: String)
        ensures
            s@ == self.text(),
    {
        match self {
            Error::Authentication => "authentication failed".to_owned(),
            Error::KeyDerivation => "key derivation failed".to_owned(),
            Error::Crypto => "cryptographic operation failed".to_owned(),
            Error::VaultFormat => "vault file is not valid".to_owned(),
            Error::UnsupportedVersion => "unsupported vault version".to_owned(),
            Error::InvalidKdfParameters => {
                "vault contains invalid key-derivation parameters".to_owned()
            },
            Error::InvalidEncoding => "vault contains invalid encoding".to_owned(),
            Error::InvalidEntry => "vault contents are not valid".to_owned(),
            Error::Storage { kind } => {
                let mut s = "storage error: ".to_owned();
                s.append(kind.to_string().as_str());
                s
            },
            Error::VaultAlreadyExists => "a vault already exists at that location".to_owned(),
            Error::VaultNotFound => "no vault found at that location".to_owned(),
            Error::SaveFailed => {
                "could not save vault; previous file was left unchanged".to_owned()
            },
            Error::PasswordTooShort { min } => {
                let mut s = "master password must be at least ".to_owned();
                push_decimal(&mut s, *min);
                s.append(" characters");
                s
            },
            Error::PasswordMismatch => "passwords do not match".to_owned(),
            Error::Clipboard => "clipboard unavailable".to_owned(),
            Error::Clock => "internal clock unavailable".to_owned(),
        }
    }
}

impl From<IoFailure> for Error {
    /// The failure's message is deliberately dropped: it may contain a path or
    /// another detail that must not reach a user.
    fn from(err: IoFailure) -> Error {
        Error::Storage { kind: StorageErrorKind::from_io(&err) }
    }
}

impl vstd::std_specs::convert::FromSpecImpl<IoFailure> for Error {
    open spec fn obeys_from_spec() -> bool {
        true
    }

    open spec fn from_spec(err: IoFailure) -> Error {
        Error::of_io(err)
    }
}

/// The message of an I/O failure never reaches the user: two failures of the
/// same kind become the same error, with the same text.
pub proof fn io_message_does_not_leak(a: IoFailure, b: IoFailure)
    requires
        a.kind == b.kind,
    ensures
        Error::of_io(a) == Error::of_io(b),
        Error::of_io(a).text() == Error::of_io(b).text(),
{
}

} // verus!
