use vstd::prelude::*;

verus! {

/// Every way an operation of the program can fail.
#[derive(Clone, Copy, Debug, PartialEq, Eq, Structural)]
pub enum UniversalNFTError {
    InvalidMetadataURILength,
    MaxSupplyExceeded,
    NFTNotFound,
    Unauthorized,
    InvalidZetaChainID,
    TransferInProgress,
    InvalidCrossChainData,
    OwnershipVerificationFailed,
    InvalidRecipientAddress,
    InvalidTransferStatus,
    GatewayNotConfigured,
    UnsupportedTargetChain,
    InvalidProofData,
    NFTAlreadyExists,
    InvalidMintAuthority,
    TokenAccountCreationFailed,
    ComputeBudgetExceeded,
    RentExemptionInsufficient,
    InvalidSigner,
    CrossChainDataHashMismatch,
    ZetaChainTransactionFailed,
    ReplayProtectionFailed,
    TSSVerificationFailed,
    /// The source chain of an inbound call differs from the transfer record's.
    SourceChainMismatch,
    /// A registry update lists more chains than a registry can hold.
    TooManySupportedChains,
}

/// The broad class an error belongs to.
#[derive(Clone, Copy, Debug, PartialEq, Eq, Structural)]
pub enum ErrorKind {
    /// An input is over its size cap, empty where it may not be, or malformed.
    ValidationError,
    /// A chain identifier is unknown or names this chain itself.
    UnsupportedChain,
    /// The supply ceiling is reached.
    SupplyExceeded,
    /// A transfer is already open for the token.
    TransferInProgress,
    /// A call disagrees with the stored transfer record.
    DataMismatch,
    /// A proof does not hash to the committed value.
    ProofMismatch,
    /// The caller may not perform the operation.
    Unauthorized,
    /// The registry cannot be updated now or with that version.
    RegistryNotReady,
    /// A record the operation needs does not exist, or is in the wrong state.
    NotFound,
}

impl UniversalNFTError {
    pub open spec fn spec_kind(&self) -> ErrorKind {
        match self {
            UniversalNFTError::InvalidMetadataURILength => ErrorKind::ValidationError,
            UniversalNFTError::InvalidCrossChainData => ErrorKind::ValidationError,
            UniversalNFTError::InvalidRecipientAddress => ErrorKind::ValidationError,
            UniversalNFTError::InvalidProofData => ErrorKind::ValidationError,
            UniversalNFTError::TooManySupportedChains => ErrorKind::ValidationError,
            UniversalNFTError::InvalidZetaChainID => ErrorKind::UnsupportedChain,
            UniversalNFTError::UnsupportedTargetChain => ErrorKind::UnsupportedChain,
            UniversalNFTError::MaxSupplyExceeded => ErrorKind::SupplyExceeded,
            UniversalNFTError::TransferInProgress => ErrorKind::TransferInProgress,
            UniversalNFTError::SourceChainMismatch => ErrorKind::DataMismatch,
            UniversalNFTError::CrossChainDataHashMismatch => ErrorKind::ProofMismatch,
            UniversalNFTError::OwnershipVerificationFailed => ErrorKind::ProofMismatch,
            UniversalNFTError::Unauthorized => ErrorKind::Unauthorized,
            UniversalNFTError::InvalidMintAuthority => ErrorKind::Unauthorized,
            UniversalNFTError::InvalidSigner => ErrorKind::Unauthorized,
            UniversalNFTError::GatewayNotConfigured => ErrorKind::RegistryNotReady,
            _ => ErrorKind::NotFound,
        }
    }

    /// The class of this error.
    #[verifier::when_used_as_spec(spec_kind)]
    pub fn kind(&self) -> (k: ErrorKind)
        ensures
            k == self.spec_kind(),
    {
        match self {
            UniversalNFTError::InvalidMetadataURILength => ErrorKind::ValidationError,
            UniversalNFTError::InvalidCrossChainData => ErrorKind::ValidationError,
            UniversalNFTError::InvalidRecipientAddress => ErrorKind::ValidationError,
            UniversalNFTError::InvalidProofData => ErrorKind::ValidationError,
            UniversalNFTError::TooManySupportedChains => ErrorKind::ValidationError,
            UniversalNFTError::InvalidZetaChainID => ErrorKind::UnsupportedChain,
            UniversalNFTError::UnsupportedTargetChain => ErrorKind::UnsupportedChain,
            UniversalNFTError::MaxSupplyExceeded => ErrorKind::SupplyExceeded,
            UniversalNFTError::TransferInProgress => ErrorKind::TransferInProgress,
            UniversalNFTError::SourceChainMismatch => ErrorKind::DataMismatch,
            UniversalNFTError::CrossChainDataHashMismatch => ErrorKind::ProofMismatch,
            UniversalNFTError::OwnershipVerificationFailed => ErrorKind::ProofMismatch,
            UniversalNFTError::Unauthorized => ErrorKind::Unauthorized,
            UniversalNFTError::InvalidMintAuthority => ErrorKind::Unauthorized,
            UniversalNFTError::InvalidSigner => ErrorKind::Unauthorized,
            UniversalNFTError::GatewayNotConfigured => ErrorKind::RegistryNotReady,
            _ => ErrorKind::NotFound,
        }
    }
}

} // verus!
