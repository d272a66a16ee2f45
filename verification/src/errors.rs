//! The vault's error taxonomy.

use vstd::prelude::*;

verus! {

/// Every failure the vault can signal. Recoverable conditions are turned
/// into boolean or enum results instead; these variants propagate.
#[derive(Clone, Copy, PartialEq, Eq, Structural, Debug)]
pub enum VaultError {
    /// A script or record is absent.
    NotFound,
    /// A read, write, or parse failed against a persisted document.
    IoFailure,
    /// A non-local storage backend was selected.
    Unimplemented,
    /// An interpreter was missing or failed to launch.
    ExternalProcessFailure,
    /// An unrecognized backend or format selector.
    ValidationFailure,
}

/// The user-facing description of an error.
pub open spec fn error_message_of(e: VaultError) -> Seq<char> {
    match e {
        VaultError::NotFound => "not found"@,
        VaultError::IoFailure => "storage I/O failure"@,
        VaultError::Unimplemented => "storage backend not yet supported"@,
        VaultError::ExternalProcessFailure => "failed to launch external process"@,
        VaultError::ValidationFailure => "unrecognized selector"@,
    }
}

impl VaultError {
    /// The user-facing description of this error.
    pub fn message(&self) -> (r: &'static str)
        ensures
            r@ == error_message_of(*self),
    {
        match self {
            VaultError::NotFound => "not found",
            VaultError::IoFailure => "storage I/O failure",
            VaultError::Unimplemented => "storage backend not yet supported",
            VaultError::ExternalProcessFailure => "failed to launch external process",
            VaultError::ValidationFailure => "unrecognized selector",
        }
    }
}

} // verus!
