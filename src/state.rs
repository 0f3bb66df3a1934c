use vstd::prelude::*;

verus! {

/// A 32-byte account address or identity on this ledger.
#[derive(Clone, Copy, Debug, PartialEq, Eq)]
pub struct Pubkey {
    pub bytes: [u8; 32],
}

impl View for Pubkey {
    type V = Seq<u8>;

    open spec fn view(&self) -> Seq<u8> {
        self.bytes@
    }
}

/// The reserved "no owner" identity: 32 zero bytes.
pub open spec fn zero_key() -> Seq<u8> {
    Seq::new(32, |i: int| 0u8)
}

impl Pubkey {
    pub fn new_from_array(bytes: [u8; 32]) -> (r: Pubkey)
        ensures
            r@ == bytes@,
    {
        Pubkey { bytes }
    }

    /// The sentinel identity held as owner while a token is in transit.
    pub fn zeroed() -> (r: Pubkey)
        ensures
            r@ == zero_key(),
    {
        let r = Pubkey { bytes: [0u8; 32] };
        assert(r@ =~= zero_key());
        r
    }

    pub fn equals(&self, other: &Pubkey) -> (r: bool)
        ensures
            r == (self@ == other@),
    {
        crate::hashing::bytes32_eq(&self.bytes, &other.bytes)
    }
}

/// Length in bytes of the UTF-8 encoding of a text.
pub open spec fn utf8_len(s: Seq<char>) -> nat {
    vstd::utf8::encode_utf8(s).len()
}

/// Length in bytes of a string, as stored.
pub fn byte_len(s: &String) -> (n: usize)
    ensures
        n == utf8_len(s@),
{
    s.as_str().as_bytes().len()
}

/// Global counters of the program.
#[derive(Clone, Debug, PartialEq, Eq)]
pub struct ProgramState {
    pub authority: Pubkey,
    pub total_minted: u64,
    pub max_supply: u64,
    pub next_token_id: u64,
    pub created_at: i64,
}

/// The gateway chain registry.
#[derive(Clone, Debug, PartialEq, Eq)]
pub struct ZetaChainGatewayState {
    pub gateway_address: [u8; 20],
    pub supported_chains: Vec<u64>,
    pub version: u8,
    pub updated_at: i64,
}

/// The record of one token held on this ledger, keyed by its mint.
#[derive(Clone, Debug, PartialEq, Eq)]
pub struct NFTMetadata {
    pub mint: Pubkey,
    pub owner: Pubkey,
    pub metadata_uri: String,
    pub zeta_chain_id: u64,
    pub cross_chain_data_hash: [u8; 32],
    pub token_id: u64,
    pub created_at: i64,
    pub updated_at: i64,
}

/// The write-once provenance record of a token identifier.
#[derive(Clone, Debug, PartialEq, Eq)]
pub struct NFTOrigin {
    pub token_id: u64,
    pub original_mint: Pubkey,
    pub original_metadata_uri: String,
    pub source_chain_id: u64,
    pub created_at: i64,
}

/// The record of one transfer attempt, keyed by the local mint.
#[derive(Clone, Debug, PartialEq, Eq)]
pub struct CrossChainTransferState {
    pub nft_mint: Pubkey,
    pub token_id: u64,
    pub source_chain_id: u64,
    pub target_chain_id: u64,
    pub recipient: Vec<u8>,
    pub status: TransferStatus,
    pub zeta_tx_hash: [u8; 32],
    pub created_at: i64,
}

/// The outcome of an ownership proof check, keyed by the mint.
#[derive(Clone, Debug, PartialEq, Eq)]
pub struct OwnershipVerificationState {
    pub nft_mint: Pubkey,
    pub zeta_owner: Vec<u8>,
    pub proof_hash: [u8; 32],
    pub verified: bool,
    pub verified_at: i64,
}

/// Where a transfer stands; `Completed` and `Failed` are terminal.
#[derive(Clone, Copy, Debug, PartialEq, Eq, Structural)]
pub enum TransferStatus {
    Pending,
    InProgress,
    Completed,
    Failed,
}

impl TransferStatus {
    pub open spec fn spec_is_terminal(&self) -> bool {
        *self == TransferStatus::Completed || *self == TransferStatus::Failed
    }

    #[verifier::when_used_as_spec(spec_is_terminal)]
    pub fn is_terminal(&self) -> (r: bool)
        ensures
            r == self.spec_is_terminal(),
    {
        match self {
            TransferStatus::Completed => true,
            TransferStatus::Failed => true,
            _ => false,
        }
    }
}

// Stored sizes of the records, in bytes: an 8-byte record tag, the fields in
// little-endian fixed width, each variable field as a 4-byte length and its
// full slot, and a 1-byte address seed.

impl ProgramState {
    pub const LEN: usize = 8 + 32 + 8 + 8 + 8 + 1 + 8;
}

impl ZetaChainGatewayState {
    pub const LEN: usize = 8 + 20 + 4 + 13 * 8 + 1 + 8 + 1;
}

impl NFTMetadata {
    pub const LEN: usize = 8 + 32 + 32 + 4 + 200 + 8 + 32 + 8 + 8 + 8 + 1;
}

impl NFTOrigin {
    pub const LEN: usize = 8 + 8 + 32 + 4 + 200 + 8 + 8 + 1;
}

impl CrossChainTransferState {
    pub const LEN: usize = 8 + 32 + 8 + 8 + 8 + 4 + 100 + 1 + 32 + 8 + 1;
}

impl OwnershipVerificationState {
    pub const LEN: usize = 8 + 32 + 4 + 100 + 32 + 1 + 8 + 1;
}

} // verus!
