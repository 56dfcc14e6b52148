use vstd::prelude::*;

verus! {

/// Every way in which a vault operation can fail. Each one ends the call
/// that raised it and leaves every balance and record as it was.
#[derive(Clone, Copy, Debug, PartialEq, Eq, Structural)]
pub enum ErrorCode {
    /// The caller is not the trusted service.
    UnauthorizedCaller,
    /// The configured trusted-service identity is not a valid public key.
    InvalidTrustedService,
    /// The vault address already holds a record.
    AlreadyExists,
    /// No bump seed yields an address off the curve.
    NoValidDerivation,
    /// The presented record does not re-derive the presented vault address.
    InvalidVaultRecord,
    /// The vault holds less than the amount asked for.
    InsufficientFunds,
}

} // verus!
