use vstd::prelude::*;
use crate::constants::{LOCAL_CHAIN_ID, MAX_CROSS_CHAIN_DATA_LENGTH, MAX_METADATA_URI_LENGTH};
use crate::errors::UniversalNFTError;
use crate::hashing::{keccak256, keccak_hash};
use crate::keyed::{lemma_push, lemma_update};
use crate::program::{history_kept, supply_bounded, 
    counters_set, origin_fields, origin_key, token_fields, token_key, transfer_key, UniversalNft,
};
use crate::state::{
    byte_len, utf8_len, zero_key, CrossChainTransferState, NFTMetadata, NFTOrigin, Pubkey, TransferStatus,
};

verus! {

/// A transfer record closed by an inbound arrival: completed, with the
/// external transaction hash stored, everything else as before.
pub open spec fn completed_transfer(
    before: CrossChainTransferState,
    after: CrossChainTransferState,
    zeta_tx_hash: Seq<u8>,
) -> bool {
    &&& after.nft_mint == before.nft_mint
    &&& after.token_id == before.token_id
    &&& after.source_chain_id == before.source_chain_id
    &&& after.target_chain_id == before.target_chain_id
    &&& after.recipient == before.recipient
    &&& after.status == TransferStatus::Completed
    &&& after.zeta_tx_hash@ == zeta_tx_hash
    &&& after.created_at == before.created_at
}

impl UniversalNft {
    /// Why an inbound arrival is refused, checked in this order: the recipient
    /// is the sentinel identity; no transfer of the mint is in progress; the URI is too long; the source chain is not
    /// listed, or is this chain; the payload is too long; the source chain
    /// differs from the transfer record's; the supply ceiling is reached.
    pub open spec fn inbound_error(
        &self,
        recipient: Pubkey,
        mint: Pubkey,
        uri: Seq<char>,
        source_chain_id: u64,
        data_len: nat,
    ) -> Option<UniversalNFTError> {
        if recipient@ == zero_key() {
            Some(UniversalNFTError::InvalidSigner)
        } else if !self.transfer_map().contains_key(mint@) || self.transfer_map()[mint@].status
            != TransferStatus::InProgress {
            Some(UniversalNFTError::InvalidTransferStatus)
        } else if utf8_len(uri) > MAX_METADATA_URI_LENGTH {
            Some(UniversalNFTError::InvalidMetadataURILength)
        } else if !self.gateway_state.supports(source_chain_id) {
            Some(UniversalNFTError::InvalidZetaChainID)
        } else if source_chain_id == LOCAL_CHAIN_ID {
            Some(UniversalNFTError::InvalidZetaChainID)
        } else if data_len > MAX_CROSS_CHAIN_DATA_LENGTH {
            Some(UniversalNFTError::InvalidCrossChainData)
        } else if self.transfer_map()[mint@].source_chain_id != source_chain_id {
            Some(UniversalNFTError::SourceChainMismatch)
        } else if self.program_state.total_minted >= self.program_state.max_supply {
            Some(UniversalNFTError::MaxSupplyExceeded)
        } else {
            None
        }
    }

    /// The URI a token arriving with `token_id` gets: that of its origin
    /// record if the identifier was seen here before, else the incoming one.
    pub open spec fn resolved_uri(&self, token_id: u64, incoming: Seq<char>) -> Seq<char> {
        if self.origin_map().contains_key(token_id) {
            self.origin_map()[token_id].original_metadata_uri@
        } else {
            incoming
        }
    }

    /// Completes the in-progress transfer recorded for `incoming_mint`: the
    /// origin record of its token identifier is reused as it stands or, on a
    /// first arrival, written from the incoming data; the token record is
    /// written for `recipient` with the resolved URI and the payload's hash;
    /// the token is counted and the transfer closes as completed.
    pub fn process_incoming_nft(
        &mut self,
        recipient: Pubkey,
        incoming_mint: Pubkey,
        metadata_uri: String,
        source_chain_id: u64,
        cross_chain_data: Vec<u8>,
        zeta_tx_hash: [u8; 32],
        now: i64,
    ) -> (r: Result<(), UniversalNFTError>)
        requires
            old(self).wf(),
        ensures
            final(self).wf(),
            history_kept(*old(self), *final(self)),
            supply_bounded(*old(self)) ==> supply_bounded(*final(self)),
            match old(self).inbound_error(
                recipient,
                incoming_mint,
                metadata_uri@,
                source_chain_id,
                cross_chain_data@.len(),
            ) {
                Some(e) => r == Err::<(), UniversalNFTError>(e) && *final(self) == *old(self),
                None => {
                    let id = old(self).transfer_map()[incoming_mint@].token_id;
                    &&& r is Ok
                    &&& if old(self).origin_map().contains_key(id) {
                        final(self).origin_map() == old(self).origin_map()
                    } else {
                        &&& final(self).origin_map() == old(self).origin_map().insert(
                            id,
                            final(self).origin_map()[id],
                        )
                        &&& origin_fields(
                            final(self).origin_map()[id],
                            id,
                            incoming_mint,
                            metadata_uri@,
                            source_chain_id,
                            now,
                        )
                    }
                    &&& final(self).token_map() == old(self).token_map().insert(
                        incoming_mint@,
                        final(self).token_map()[incoming_mint@],
                    )
                    &&& token_fields(
                        final(self).token_map()[incoming_mint@],
                        incoming_mint,
                        recipient,
                        old(self).resolved_uri(id, metadata_uri@),
                        source_chain_id,
                        keccak256(cross_chain_data@),
                        id,
                        now,
                    )
                    &&& final(self).transfer_map() == old(self).transfer_map().insert(
                        incoming_mint@,
                        final(self).transfer_map()[incoming_mint@],
                    )
                    &&& completed_transfer(
                        old(self).transfer_map()[incoming_mint@],
                        final(self).transfer_map()[incoming_mint@],
                        zeta_tx_hash@,
                    )
                    &&& counters_set(
                        old(self).program_state,
                        final(self).program_state,
                        old(self).program_state.total_minted + 1,
                        old(self).program_state.next_token_id as int,
                    )
                    &&& final(self).gateway_state == old(self).gateway_state
                    &&& final(self).verifications == old(self).verifications
                },
            },
    {
        if recipient.equals(&Pubkey::zeroed()) {
            return Err(UniversalNFTError::InvalidSigner);
        }
        let ti = match self.find_transfer(&incoming_mint) {
            Some(i) => i,
            None => {
                return Err(UniversalNFTError::InvalidTransferStatus);
            },
        };
        if self.transfers[ti].status != TransferStatus::InProgress {
            return Err(UniversalNFTError::InvalidTransferStatus);
        }
        if byte_len(&metadata_uri) > MAX_METADATA_URI_LENGTH {
            return Err(UniversalNFTError::InvalidMetadataURILength);
        }
        if !self.gateway_state.is_supported(source_chain_id) {
            return Err(UniversalNFTError::InvalidZetaChainID);
        }
        if source_chain_id == LOCAL_CHAIN_ID {
            return Err(UniversalNFTError::InvalidZetaChainID);
        }
        if cross_chain_data.len() > MAX_CROSS_CHAIN_DATA_LENGTH {
            return Err(UniversalNFTError::InvalidCrossChainData);
        }
        if self.transfers[ti].source_chain_id != source_chain_id {
            return Err(UniversalNFTError::SourceChainMismatch);
        }
        if self.program_state.total_minted >= self.program_state.max_supply {
            return Err(UniversalNFTError::MaxSupplyExceeded);
        }
        let ghost old_self = *self;
        let token_id = self.transfers[ti].token_id;
        let data_hash = keccak_hash(&cross_chain_data);
        let final_uri = match self.find_origin(token_id) {
            Some(oi) => self.origins[oi].original_metadata_uri.clone(),
            None => {
                let origin = NFTOrigin {
                    token_id,
                    original_mint: incoming_mint,
                    original_metadata_uri: metadata_uri.clone(),
                    source_chain_id,
                    created_at: now,
                };
                proof {
                    lemma_push(self.origins@, origin_key(), origin);
                }
                self.origins.push(origin);
                metadata_uri
            },
        };
        assert(final_uri@ == old_self.resolved_uri(token_id, metadata_uri@));
        let token = NFTMetadata {
            mint: incoming_mint,
            owner: recipient,
            metadata_uri: final_uri,
            zeta_chain_id: source_chain_id,
            cross_chain_data_hash: data_hash,
            token_id,
            created_at: now,
            updated_at: now,
        };
        match self.find_token(&incoming_mint) {
            Some(k) => {
                proof {
                    lemma_update(self.tokens@, token_key(), k as int, token);
                }
                self.tokens[k] = token;
            },
            None => {
                proof {
                    lemma_push(self.tokens@, token_key(), token);
                }
                self.tokens.push(token);
            },
        }
        let ghost old_transfers = self.transfers@;
        self.transfers[ti].status = TransferStatus::Completed;
        self.transfers[ti].zeta_tx_hash = zeta_tx_hash;
        proof {
            lemma_update(old_transfers, transfer_key(), ti as int, self.transfers@[ti as int]);
            assert(self.transfers@ == old_transfers.update(ti as int, self.transfers@[ti as int]));
        }
        self.program_state.total_minted = self.program_state.total_minted + 1;
        proof {
            assert forall|m: Seq<u8>| #[trigger] self.token_map().contains_key(m) implies (
            self.token_map()[m].owner@ == zero_key() <==> self.in_transit(m)) by {
                if m != incoming_mint@ {
                    assert(old_self.token_map().contains_key(m));
                    assert(self.transfer_map()[m] == old_self.transfer_map()[m]);
                }
            }
        }
        Ok(())
    }
}

} // verus!
