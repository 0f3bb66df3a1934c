//! The program's records and the operations on them.
use vstd::prelude::*;
use crate::constants::{MAX_METADATA_URI_LENGTH, TOKEN_ID_OFFSET};
use crate::errors::UniversalNFTError;
use crate::keyed::{keyed_map, lemma_entry, unique_keys};
use crate::state::{
    byte_len, utf8_len, CrossChainTransferState, NFTMetadata, NFTOrigin, OwnershipVerificationState,
    ProgramState, Pubkey, TransferStatus, ZetaChainGatewayState, zero_key,
};

verus! {

/// Token records are keyed by their mint.
pub open spec fn token_key() -> spec_fn(NFTMetadata) -> Seq<u8> {
    |t: NFTMetadata| t.mint@
}

/// Origin records are keyed by their token identifier.
pub open spec fn origin_key() -> spec_fn(NFTOrigin) -> u64 {
    |o: NFTOrigin| o.token_id
}

/// Transfer records are keyed by their mint.
pub open spec fn transfer_key() -> spec_fn(CrossChainTransferState) -> Seq<u8> {
    |t: CrossChainTransferState| t.nft_mint@
}

/// Verification records are keyed by their mint.
pub open spec fn verification_key() -> spec_fn(OwnershipVerificationState) -> Seq<u8> {
    |v: OwnershipVerificationState| v.nft_mint@
}

/// A token record as an operation writes it.
pub open spec fn token_fields(
    t: NFTMetadata,
    mint: Pubkey,
    owner: Pubkey,
    uri: Seq<char>,
    chain_id: u64,
    data_hash: Seq<u8>,
    token_id: u64,
    now: i64,
) -> bool {
    &&& t.mint == mint
    &&& t.owner == owner
    &&& t.metadata_uri@ == uri
    &&& t.zeta_chain_id == chain_id
    &&& t.cross_chain_data_hash@ == data_hash
    &&& t.token_id == token_id
    &&& t.created_at == now
    &&& t.updated_at == now
}

/// An origin record as an operation writes it.
pub open spec fn origin_fields(
    o: NFTOrigin,
    token_id: u64,
    mint: Pubkey,
    uri: Seq<char>,
    chain_id: u64,
    now: i64,
) -> bool {
    &&& o.token_id == token_id
    &&& o.original_mint == mint
    &&& o.original_metadata_uri@ == uri
    &&& o.source_chain_id == chain_id
    &&& o.created_at == now
}

/// The counters of `b` are those of `a` with new totals; nothing else moved.
pub open spec fn counters_set(a: ProgramState, b: ProgramState, total: int, next: int) -> bool {
    &&& b.authority == a.authority
    &&& b.max_supply == a.max_supply
    &&& b.created_at == a.created_at
    &&& b.total_minted == total
    &&& b.next_token_id == next
}

/// What no operation undoes: issued identifiers stay issued, origin records
/// stay as first written, and the authority and the supply ceiling stay fixed.
pub open spec fn history_kept(a: UniversalNft, b: UniversalNft) -> bool {
    &&& a.program_state.next_token_id <= b.program_state.next_token_id
    &&& a.program_state.authority == b.program_state.authority
    &&& a.program_state.max_supply == b.program_state.max_supply
    &&& forall|id: u64|
        #[trigger] a.origin_map().contains_key(id) ==> b.origin_map().contains_key(id)
            && b.origin_map()[id] == a.origin_map()[id]
}

/// The number of tokens counted here is within the supply ceiling.
pub open spec fn supply_bounded(s: UniversalNft) -> bool {
    s.program_state.total_minted <= s.program_state.max_supply
}

/// A mint from `a` to `b` issued `id`: the counter's value before, which it
/// then passed; the token was counted below the ceiling.
pub open spec fn issued(a: UniversalNft, b: UniversalNft, id: u64) -> bool {
    &&& id == a.program_state.next_token_id
    &&& b.program_state.next_token_id == id + 1
    &&& a.program_state.total_minted < a.program_state.max_supply
    &&& b.program_state.total_minted == a.program_state.total_minted + 1
}

/// All records of one deployment: the global counters, the chain registry, and
/// the tables of token, origin, transfer and verification records, each keyed
/// by the mint or the token identifier.
#[derive(Clone, Debug, PartialEq, Eq)]
pub struct UniversalNft {
    pub program_state: ProgramState,
    pub gateway_state: ZetaChainGatewayState,
    pub tokens: Vec<NFTMetadata>,
    pub origins: Vec<NFTOrigin>,
    pub transfers: Vec<CrossChainTransferState>,
    pub verifications: Vec<OwnershipVerificationState>,
}

impl UniversalNft {
    /// Token records by mint.
    pub open spec fn token_map(&self) -> Map<Seq<u8>, NFTMetadata> {
        keyed_map(self.tokens@, token_key())
    }

    /// Origin records by token identifier.
    pub open spec fn origin_map(&self) -> Map<u64, NFTOrigin> {
        keyed_map(self.origins@, origin_key())
    }

    /// Transfer records by mint.
    pub open spec fn transfer_map(&self) -> Map<Seq<u8>, CrossChainTransferState> {
        keyed_map(self.transfers@, transfer_key())
    }

    /// Verification records by mint.
    pub open spec fn verification_map(&self) -> Map<Seq<u8>, OwnershipVerificationState> {
        keyed_map(self.verifications@, verification_key())
    }

    /// Every table holds one record per key, the registry is within its
    /// bounds, the identifier counter starts at the offset, and a token's owner
    /// is the sentinel exactly when the token is in transit.
    pub open spec fn wf(&self) -> bool {
        &&& self.gateway_state.wf()
        &&& self.program_state.next_token_id >= TOKEN_ID_OFFSET
        &&& unique_keys(self.tokens@, token_key())
        &&& unique_keys(self.origins@, origin_key())
        &&& unique_keys(self.transfers@, transfer_key())
        &&& unique_keys(self.verifications@, verification_key())
        &&& forall|m: Seq<u8>| #[trigger]
            self.token_map().contains_key(m) ==> (self.token_map()[m].owner@ == zero_key()
                <==> self.in_transit(m))
    }

    /// Whether the token under a mint is on its way to another chain.
    pub open spec fn in_transit(&self, mint: Seq<u8>) -> bool {
        self.transfer_map().contains_key(mint) && self.transfer_map()[mint].status
            == TransferStatus::InProgress
    }

    /// Whether a transfer that is not yet terminal is recorded for a mint.
    pub open spec fn transfer_open(&self, mint: Seq<u8>) -> bool {
        self.transfer_map().contains_key(mint) && !self.transfer_map()[mint].status.is_terminal()
    }

    pub(crate) fn find_token(&self, mint: &Pubkey) -> (r: Option<usize>)
        requires
            unique_keys(self.tokens@, token_key()),
        ensures
            match r {
                Some(i) => i < self.tokens@.len() && self.tokens@[i as int].mint@ == mint@
                    && self.token_map().contains_key(mint@)
                    && self.token_map()[mint@] == self.tokens@[i as int],
                None => !self.token_map().contains_key(mint@),
            },
    {
        let mut i: usize = 0;
        while i < self.tokens.len()
            invariant
                0 <= i <= self.tokens@.len(),
                unique_keys(self.tokens@, token_key()),
                forall|j: int| 0 <= j < i ==> self.tokens@[j].mint@ != mint@,
            decreases self.tokens@.len() - i,
        {
            if self.tokens[i].mint.equals(mint) {
                proof {
                    lemma_entry(self.tokens@, token_key(), i as int);
                }
                return Some(i);
            }
            i = i + 1;
        }
        None
    }

    pub(crate) fn find_origin(&self, token_id: u64) -> (r: Option<usize>)
        requires
            unique_keys(self.origins@, origin_key()),
        ensures
            match r {
                Some(i) => i < self.origins@.len() && self.origins@[i as int].token_id == token_id
                    && self.origin_map().contains_key(token_id)
                    && self.origin_map()[token_id] == self.origins@[i as int],
                None => !self.origin_map().contains_key(token_id),
            },
    {
        let mut i: usize = 0;
        while i < self.origins.len()
            invariant
                0 <= i <= self.origins@.len(),
                unique_keys(self.origins@, origin_key()),
                forall|j: int| 0 <= j < i ==> self.origins@[j].token_id != token_id,
            decreases self.origins@.len() - i,
        {
            if self.origins[i].token_id == token_id {
                proof {
                    lemma_entry(self.origins@, origin_key(), i as int);
                }
                return Some(i);
            }
            i = i + 1;
        }
        None
    }

    pub(crate) fn find_transfer(&self, mint: &Pubkey) -> (r: Option<usize>)
        requires
            unique_keys(self.transfers@, transfer_key()),
        ensures
            match r {
                Some(i) => i < self.transfers@.len() && self.transfers@[i as int].nft_mint@ == mint@
                    && self.transfer_map().contains_key(mint@)
                    && self.transfer_map()[mint@] == self.transfers@[i as int],
                None => !self.transfer_map().contains_key(mint@),
            },
    {
        let mut i: usize = 0;
        while i < self.transfers.len()
            invariant
                0 <= i <= self.transfers@.len(),
                unique_keys(self.transfers@, transfer_key()),
                forall|j: int| 0 <= j < i ==> self.transfers@[j].nft_mint@ != mint@,
            decreases self.transfers@.len() - i,
        {
            if self.transfers[i].nft_mint.equals(mint) {
                proof {
                    lemma_entry(self.transfers@, transfer_key(), i as int);
                }
                return Some(i);
            }
            i = i + 1;
        }
        None
    }

    pub(crate) fn find_verification(&self, mint: &Pubkey) -> (r: Option<usize>)
        requires
            unique_keys(self.verifications@, verification_key()),
        ensures
            match r {
                Some(i) => i < self.verifications@.len()
                    && self.verifications@[i as int].nft_mint@ == mint@
                    && self.verification_map().contains_key(mint@)
                    && self.verification_map()[mint@] == self.verifications@[i as int],
                None => !self.verification_map().contains_key(mint@),
            },
    {
        let mut i: usize = 0;
        while i < self.verifications.len()
            invariant
                0 <= i <= self.verifications@.len(),
                unique_keys(self.verifications@, verification_key()),
                forall|j: int| 0 <= j < i ==> self.verifications@[j].nft_mint@ != mint@,
            decreases self.verifications@.len() - i,
        {
            if self.verifications[i].nft_mint.equals(mint) {
                proof {
                    lemma_entry(self.verifications@, verification_key(), i as int);
                }
                return Some(i);
            }
            i = i + 1;
        }
        None
    }

    /// The token record under a mint.
    pub fn get_token(&self, mint: &Pubkey) -> (r: Option<&NFTMetadata>)
        requires
            self.wf(),
        ensures
            match r {
                Some(t) => self.token_map().contains_key(mint@) && *t == self.token_map()[mint@],
                None => !self.token_map().contains_key(mint@),
            },
    {
        match self.find_token(mint) {
            Some(i) => Some(&self.tokens[i]),
            None => None,
        }
    }

    /// The origin record of a token identifier.
    pub fn get_origin(&self, token_id: u64) -> (r: Option<&NFTOrigin>)
        requires
            self.wf(),
        ensures
            match r {
                Some(o) => self.origin_map().contains_key(token_id) && *o == self.origin_map()[token_id],
                None => !self.origin_map().contains_key(token_id),
            },
    {
        match self.find_origin(token_id) {
            Some(i) => Some(&self.origins[i]),
            None => None,
        }
    }

    /// The transfer record under a mint.
    pub fn get_transfer(&self, mint: &Pubkey) -> (r: Option<&CrossChainTransferState>)
        requires
            self.wf(),
        ensures
            match r {
                Some(t) => self.transfer_map().contains_key(mint@) && *t == self.transfer_map()[mint@],
                None => !self.transfer_map().contains_key(mint@),
            },
    {
        match self.find_transfer(mint) {
            Some(i) => Some(&self.transfers[i]),
            None => None,
        }
    }

    /// The verification record under a mint.
    pub fn get_verification(&self, mint: &Pubkey) -> (r: Option<&OwnershipVerificationState>)
        requires
            self.wf(),
        ensures
            match r {
                Some(v) => self.verification_map().contains_key(mint@)
                    && *v == self.verification_map()[mint@],
                None => !self.verification_map().contains_key(mint@),
            },
    {
        match self.find_verification(mint) {
            Some(i) => Some(&self.verifications[i]),
            None => None,
        }
    }

    /// Sets up a deployment: counters at zero, identifiers from the offset, the
    /// default registry, and empty tables. The URI must fit its slot and the
    /// supply ceiling must be positive.
    pub fn initialize(authority: Pubkey, metadata_uri: String, max_supply: u64, now: i64) -> (r:
        Result<UniversalNft, UniversalNFTError>)
        ensures
            utf8_len(metadata_uri@) > MAX_METADATA_URI_LENGTH ==> r == Err::<
                UniversalNft,
                UniversalNFTError,
            >(UniversalNFTError::InvalidMetadataURILength),
            utf8_len(metadata_uri@) <= MAX_METADATA_URI_LENGTH && max_supply == 0 ==> r == Err::<
                UniversalNft,
                UniversalNFTError,
            >(UniversalNFTError::MaxSupplyExceeded),
            utf8_len(metadata_uri@) <= MAX_METADATA_URI_LENGTH && max_supply > 0 ==> r is Ok,
            r matches Ok(p) ==> {
                &&& p.wf()
                &&& p.program_state.authority == authority
                &&& p.program_state.total_minted == 0
                &&& p.program_state.max_supply == max_supply
                &&& p.program_state.next_token_id == TOKEN_ID_OFFSET
                &&& p.program_state.created_at == now
                &&& p.gateway_state.gateway_address@ == Seq::new(20, |i: int| 0u8)
                &&& p.gateway_state.supported_chains@ == crate::registry::default_chain_list()
                &&& p.gateway_state.version == crate::constants::GATEWAY_VERSION
                &&& p.gateway_state.updated_at == now
                &&& p.token_map().is_empty()
                &&& p.origin_map().is_empty()
                &&& p.transfer_map().is_empty()
                &&& p.verification_map().is_empty()
            },
    {
        if byte_len(&metadata_uri) > MAX_METADATA_URI_LENGTH {
            return Err(UniversalNFTError::InvalidMetadataURILength);
        }
        if max_supply == 0 {
            return Err(UniversalNFTError::MaxSupplyExceeded);
        }
        let p = UniversalNft {
            program_state: ProgramState {
                authority,
                total_minted: 0,
                max_supply,
                next_token_id: TOKEN_ID_OFFSET,
                created_at: now,
            },
            gateway_state: ZetaChainGatewayState::initial(now),
            tokens: Vec::new(),
            origins: Vec::new(),
            transfers: Vec::new(),
            verifications: Vec::new(),
        };
        assert(p.token_map() =~= Map::empty());
        assert(p.origin_map() =~= Map::empty());
        assert(p.transfer_map() =~= Map::empty());
        assert(p.verification_map() =~= Map::empty());
        Ok(p)
    }
}

} // verus!
