//! The fatal startup conditions. Every one of them aborts the whole
//! process: no partial context is ever handed to the relay loop.

use vstd::prelude::*;

verus! {

/// A condition that ends startup. Per-entry contract-filter failures are
/// deliberately absent: a malformed filter entry is skipped with a warning,
/// never fatal.
#[derive(Clone, Copy, Debug, PartialEq, Eq, Structural)]
pub enum StartupError {
    /// The mode string is not one of AlwaysRelay, Api, File.
    UnparseableMode,
    /// The configured bridge contract address does not parse.
    UnparseableContractAddress,
    /// The configured payment address does not parse.
    UnparseablePaymentAddress,
    /// The Cosmos-side gRPC handle was absent after establishment.
    MissingGrpcHandle,
    /// The Cosmos-side contact client was absent after establishment.
    MissingContactHandle,
    /// The Ethereum-side provider was absent after establishment.
    MissingEthProviderHandle,
    /// The provider could not report its chain identifier.
    ChainIdQueryFailed,
    /// The reported chain identifier does not fit in 64 bits.
    ChainIdOverflow,
    /// The operator's key material could not be bound to a signer.
    InvalidKeyMaterial,
    /// The Ethereum-side liveness check failed after the node was synced.
    EthLivenessCheckFailed,
    /// The fee-management strategy could not be constructed.
    FeeManagerConstructionFailed,
    /// An outcome arrived that the current bootstrap phase cannot accept.
    UnexpectedEvent,
}

impl StartupError {
    /// The diagnostic text for this condition.
    pub open spec fn spec_message(self) -> Seq<char> {
        match self {
            StartupError::UnparseableMode => "Incorrect mode, possible value are: AlwaysRelay, Api or File"@,
            StartupError::UnparseableContractAddress => "Could not parse gravity contract address"@,
            StartupError::UnparseablePaymentAddress => "Could not parse payment address"@,
            StartupError::MissingGrpcHandle => "Cosmos gRPC connection missing after establishment"@,
            StartupError::MissingContactHandle => "Cosmos contact client missing after establishment"@,
            StartupError::MissingEthProviderHandle => "Ethereum provider missing after establishment"@,
            StartupError::ChainIdQueryFailed => "Could not retrieve chain ID during relayer start"@,
            StartupError::ChainIdOverflow => "Chain ID overflowed when downcasting to u64"@,
            StartupError::InvalidKeyMaterial => "Could not bind the supplied key to a signing client"@,
            StartupError::EthLivenessCheckFailed => "Ethereum account liveness check failed"@,
            StartupError::FeeManagerConstructionFailed => "Could not construct a fee manager"@,
            StartupError::UnexpectedEvent => "Unexpected outcome for the current bootstrap phase"@,
        }
    }

    /// The diagnostic text, for the error stream.
    pub fn message(&self) -> (r: &'static str)
        ensures
            r@ == self.spec_message(),
    {
        match self {
            StartupError::UnparseableMode => "Incorrect mode, possible value are: AlwaysRelay, Api or File",
            StartupError::UnparseableContractAddress => "Could not parse gravity contract address",
            StartupError::UnparseablePaymentAddress => "Could not parse payment address",
            StartupError::MissingGrpcHandle => "Cosmos gRPC connection missing after establishment",
            StartupError::MissingContactHandle => "Cosmos contact client missing after establishment",
            StartupError::MissingEthProviderHandle => "Ethereum provider missing after establishment",
            StartupError::ChainIdQueryFailed => "Could not retrieve chain ID during relayer start",
            StartupError::ChainIdOverflow => "Chain ID overflowed when downcasting to u64",
            StartupError::InvalidKeyMaterial => "Could not bind the supplied key to a signing client",
            StartupError::EthLivenessCheckFailed => "Ethereum account liveness check failed",
            StartupError::FeeManagerConstructionFailed => "Could not construct a fee manager",
            StartupError::UnexpectedEvent => "Unexpected outcome for the current bootstrap phase",
        }
    }
}

} // verus!
