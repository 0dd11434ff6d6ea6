use vstd::prelude::*;

verus! {

/// Errors raised when a domain value is rejected.
#[derive(Debug, Clone, Copy, PartialEq, Eq, Structural)]
pub enum CoreError {
    EmptyVaultName,
    InvalidVaultName,
    EmptyPath,
    AbsolutePath,
    ParentTraversal,
    InvalidPath,
    InvalidHash,
    InvalidTimestamp,
}

/// The human-readable message of each error.
pub open spec fn core_error_message(e: CoreError) -> Seq<char> {
    match e {
        CoreError::EmptyVaultName => "vault name is empty"@,
        CoreError::InvalidVaultName => "vault name is invalid"@,
        CoreError::EmptyPath => "vault path is empty"@,
        CoreError::AbsolutePath => "vault path must be relative"@,
        CoreError::ParentTraversal => "vault path cannot contain parent traversal"@,
        CoreError::InvalidPath => "vault path is invalid"@,
        CoreError::InvalidHash => "hash value is invalid"@,
        CoreError::InvalidTimestamp => "timestamp is invalid"@,
    }
}

impl CoreError {
    /// The human-readable message of the error.
    pub fn message(&self) -> (s: &'static str)
        ensures
            s@ == core_error_message(*self),
    {
        match self {
            CoreError::EmptyVaultName => "vault name is empty",
            CoreError::InvalidVaultName => "vault name is invalid",
            CoreError::EmptyPath => "vault path is empty",
            CoreError::AbsolutePath => "vault path must be relative",
            CoreError::ParentTraversal => "vault path cannot contain parent traversal",
            CoreError::InvalidPath => "vault path is invalid",
            CoreError::InvalidHash => "hash value is invalid",
            CoreError::InvalidTimestamp => "timestamp is invalid",
        }
    }
}

} // verus!
