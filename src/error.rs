//! Errors that the library reports.
use vstd::prelude::*;

verus! {

/// Why a submission is refused at intake, or a stored row cannot be written.
#[derive(Clone, Copy, Debug, PartialEq, Eq, Structural)]
pub enum VerifierError {
    /// The requested builder version is not in the allow-list.
    UnsupportedVersion,
    /// The code identifier is not 64 hex digits (after an optional `0x`).
    InvalidCodeId,
    /// The network name is not one the service knows.
    UnsupportedNetwork,
    /// A verification with this id is already stored.
    DuplicateId,
}

/// Human-readable text of each error.
pub open spec fn error_text(e: VerifierError) -> Seq<char> {
    match e {
        VerifierError::UnsupportedVersion => "Unsupported docker version"@,
        VerifierError::InvalidCodeId => "Invalid code ID"@,
        VerifierError::UnsupportedNetwork => "Unrecognized network name. Available options: vara_mainnet, vara_testnet"@,
        VerifierError::DuplicateId => "Verification id already exists"@,
    }
}

impl VerifierError {
    /// Human-readable text of the error.
    pub fn message(&self) -> (r: &'static str)
        ensures
            r@ == error_text(*self),
    {
        match self {
            VerifierError::UnsupportedVersion => "Unsupported docker version",
            VerifierError::InvalidCodeId => "Invalid code ID",
            VerifierError::UnsupportedNetwork => "Unrecognized network name. Available options: vara_mainnet, vara_testnet",
            VerifierError::DuplicateId => "Verification id already exists",
        }
    }
}

} // verus!
