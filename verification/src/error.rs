use vstd::prelude::*;

verus! {

/// Why a faucet operation was refused.
#[derive(Clone, Copy, Debug, PartialEq, Eq, Structural)]
pub enum FaucetError {
    /// The record was already populated, or the ledger named at creation is
    /// not the token ledger.
    ConfigurationError,
    /// The accounts supplied do not match the record, or the signing
    /// identity is not the one that the record's seeds derive.
    AuthorizationError,
    /// The ledger accepted the signature but could not mint.
    DelegationFailure,
}

} // verus!
