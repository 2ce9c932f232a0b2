use vstd::prelude::*;

verus! {

/// Why an invocation was rejected. A rejected invocation changes nothing and
/// emits nothing.
#[derive(Clone, Copy, Debug, PartialEq, Eq, Structural)]
pub enum Error {
    /// The contract already has an owner.
    AlreadyInitialized,
    /// The principal that the operation answers to did not authorize the
    /// invocation.
    AuthenticationFailure,
    /// The threshold is zero or exceeds the number of signers.
    InvalidThreshold,
    /// The mode is sponsored and no sponsor is linked.
    NoSponsor,
    /// The mode admits no meta-transaction.
    UnsupportedMode,
    /// The gas pool holds less than one meta-transaction costs.
    InsufficientGasPool,
    /// The principal already has a credential record.
    AlreadyExists,
    /// The record would have expired by the time it is created.
    ExpiredAtCreation,
}

impl Error {
    /// The reason in words, as the host reports it to the caller.
    pub open spec fn spec_message(self) -> Seq<char> {
        match self {
            Error::AlreadyInitialized => "Already initialized"@,
            Error::AuthenticationFailure => "Authentication failed"@,
            Error::InvalidThreshold => "Invalid threshold"@,
            Error::NoSponsor => "No sponsor set"@,
            Error::UnsupportedMode => "AA mode does not support meta-tx"@,
            Error::InsufficientGasPool => "Insufficient gas pool"@,
            Error::AlreadyExists => "Token already exists for this user"@,
            Error::ExpiredAtCreation => "Expiration date must be in the future"@,
        }
    }

    /// The reason in words, as the host reports it to the caller.
    pub fn message(&self) -> (text: &'static str)
        ensures
            text@ == self.spec_message(),
    {
        match self {
            Error::AlreadyInitialized => "Already initialized",
            Error::AuthenticationFailure => "Authentication failed",
            Error::InvalidThreshold => "Invalid threshold",
            Error::NoSponsor => "No sponsor set",
            Error::UnsupportedMode => "AA mode does not support meta-tx",
            Error::InsufficientGasPool => "Insufficient gas pool",
            Error::AlreadyExists => "Token already exists for this user",
            Error::ExpiredAtCreation => "Expiration date must be in the future",
        }
    }
}

} // verus!
