//! The ways an operation can fail.

use vstd::prelude::*;

verus! {

/// Why an operation was refused. A refused operation changes nothing.
#[derive(Clone, Copy, Debug, PartialEq, Eq, Structural)]
pub enum Failure {
    /// The account's owner is not the calling program.
    IncorrectOwner,
    /// The call named no account.
    MissingAccount,
    /// Create on an account that already holds a record.
    AlreadyInitialized,
    /// Read on an account that holds no record.
    UninitializedAccount,
    /// The payload is not valid UTF-8.
    InvalidEncoding,
    /// The stored bytes do not parse as a record.
    DeserializationError,
    /// The serialized record does not fit the account's storage region.
    StorageSizeMismatch,
    /// The opcode is none of the four known ones.
    InvalidInstruction,
    /// The instruction holds no opcode byte.
    InvalidArgument,
}

} // verus!
