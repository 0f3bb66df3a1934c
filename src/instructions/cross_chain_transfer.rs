use vstd::prelude::*;
use crate::constants::{
    LOCAL_CHAIN_ID, MAX_CROSS_CHAIN_DATA_LENGTH, MAX_RECIPIENT_ADDRESS_LENGTH,
};
use crate::errors::UniversalNFTError;
use crate::keyed::{lemma_push, lemma_update};
use crate::program::{history_kept, supply_bounded, counters_set, token_key, transfer_key, UniversalNft};
use crate::state::{zero_key, CrossChainTransferState, NFTMetadata, Pubkey, TransferStatus};

verus! {

/// A token record locked for transit: the owner is the sentinel, the update
/// time is `now`, everything else is as before.
pub open spec fn locked_token(before: NFTMetadata, after: NFTMetadata, now: i64) -> bool {
    &&& after.mint == before.mint
    &&& after.owner@ == zero_key()
    &&& after.metadata_uri == before.metadata_uri
    &&& after.zeta_chain_id == before.zeta_chain_id
    &&& after.cross_chain_data_hash == before.cross_chain_data_hash
    &&& after.token_id == before.token_id
    &&& after.created_at == before.created_at
    &&& after.updated_at == now
}

/// A transfer record as an outbound transfer opens it.
pub open spec fn opened_transfer(
    t: CrossChainTransferState,
    mint: Pubkey,
    token_id: u64,
    target_chain_id: u64,
    recipient: Seq<u8>,
    now: i64,
) -> bool {
    &&& t.nft_mint == mint
    &&& t.token_id == token_id
    &&& t.source_chain_id == LOCAL_CHAIN_ID
    &&& t.target_chain_id == target_chain_id
    &&& t.recipient@ == recipient
    &&& t.status == TransferStatus::InProgress
    &&& t.zeta_tx_hash@ == Seq::new(32, |i: int| 0u8)
    &&& t.created_at == now
}

impl UniversalNft {
    /// Why an outbound transfer is refused, checked in this order: no token
    /// under the mint; a transfer of the mint is still open; the caller does
    /// not own the token; the target chain is not listed, or is this chain; the
    /// recipient or the payload is too long; no token is counted.
    pub open spec fn outbound_error(
        &self,
        owner: Pubkey,
        mint: Pubkey,
        target_chain_id: u64,
        recipient_len: nat,
        data_len: nat,
    ) -> Option<UniversalNFTError> {
        if !self.token_map().contains_key(mint@) {
            Some(UniversalNFTError::NFTNotFound)
        } else if self.transfer_open(mint@) {
            Some(UniversalNFTError::TransferInProgress)
        } else if owner@ != self.token_map()[mint@].owner@ {
            Some(UniversalNFTError::Unauthorized)
        } else if !self.gateway_state.supports(target_chain_id) {
            Some(UniversalNFTError::UnsupportedTargetChain)
        } else if target_chain_id == LOCAL_CHAIN_ID {
            Some(UniversalNFTError::InvalidZetaChainID)
        } else if recipient_len > MAX_RECIPIENT_ADDRESS_LENGTH {
            Some(UniversalNFTError::InvalidRecipientAddress)
        } else if data_len > MAX_CROSS_CHAIN_DATA_LENGTH {
            Some(UniversalNFTError::InvalidCrossChainData)
        } else if self.program_state.total_minted == 0 {
            Some(UniversalNFTError::NFTNotFound)
        } else {
            None
        }
    }

    /// Opens a transfer of the token under `mint` to another chain: locks the
    /// token record (owner set to the sentinel), records the transfer as in
    /// progress with no external hash yet, replacing a terminal record of the
    /// same mint, and stops counting the token here.
    pub fn cross_chain_transfer(
        &mut self,
        owner: Pubkey,
        mint: Pubkey,
        target_chain_id: u64,
        recipient: Vec<u8>,
        zeta_chain_data: Vec<u8>,
        now: i64,
    ) -> (r: Result<(), UniversalNFTError>)
        requires
            old(self).wf(),
        ensures
            final(self).wf(),
            history_kept(*old(self), *final(self)),
            supply_bounded(*old(self)) ==> supply_bounded(*final(self)),
            match old(self).outbound_error(
                owner,
                mint,
                target_chain_id,
                recipient@.len(),
                zeta_chain_data@.len(),
            ) {
                Some(e) => r == Err::<(), UniversalNFTError>(e) && *final(self) == *old(self),
                None => {
                    &&& r is Ok
                    &&& final(self).token_map() == old(self).token_map().insert(
                        mint@,
                        final(self).token_map()[mint@],
                    )
                    &&& locked_token(
                        old(self).token_map()[mint@],
                        final(self).token_map()[mint@],
                        now,
                    )
                    &&& final(self).transfer_map() == old(self).transfer_map().insert(
                        mint@,
                        final(self).transfer_map()[mint@],
                    )
                    &&& opened_transfer(
                        final(self).transfer_map()[mint@],
                        mint,
                        old(self).token_map()[mint@].token_id,
                        target_chain_id,
                        recipient@,
                        now,
                    )
                    &&& counters_set(
                        old(self).program_state,
                        final(self).program_state,
                        old(self).program_state.total_minted - 1,
                        old(self).program_state.next_token_id as int,
                    )
                    &&& final(self).gateway_state == old(self).gateway_state
                    &&& final(self).origins == old(self).origins
                    &&& final(self).verifications == old(self).verifications
                },
            },
    {
        let idx = match self.find_token(&mint) {
            Some(i) => i,
            None => {
                return Err(UniversalNFTError::NFTNotFound);
            },
        };
        let existing = self.find_transfer(&mint);
        if let Some(ti) = existing {
            if !self.transfers[ti].status.is_terminal() {
                return Err(UniversalNFTError::TransferInProgress);
            }
        }
        if !self.tokens[idx].owner.equals(&owner) {
            return Err(UniversalNFTError::Unauthorized);
        }
        if !self.gateway_state.is_supported(target_chain_id) {
            return Err(UniversalNFTError::UnsupportedTargetChain);
        }
        if target_chain_id == LOCAL_CHAIN_ID {
            return Err(UniversalNFTError::InvalidZetaChainID);
        }
        if recipient.len() > MAX_RECIPIENT_ADDRESS_LENGTH {
            return Err(UniversalNFTError::InvalidRecipientAddress);
        }
        if zeta_chain_data.len() > MAX_CROSS_CHAIN_DATA_LENGTH {
            return Err(UniversalNFTError::InvalidCrossChainData);
        }
        if self.program_state.total_minted == 0 {
            return Err(UniversalNFTError::NFTNotFound);
        }
        let ghost old_tokens = self.tokens@;
        let ghost old_transfers = self.transfers@;
        let token_id = self.tokens[idx].token_id;
        let record = CrossChainTransferState {
            nft_mint: mint,
            token_id,
            source_chain_id: LOCAL_CHAIN_ID,
            target_chain_id,
            recipient,
            status: TransferStatus::InProgress,
            zeta_tx_hash: [0u8; 32],
            created_at: now,
        };
        assert(record.zeta_tx_hash@ =~= Seq::new(32, |i: int| 0u8));
        match existing {
            Some(ti) => {
                proof {
                    lemma_update(old_transfers, transfer_key(), ti as int, record);
                }
                self.transfers[ti] = record;
            },
            None => {
                proof {
                    lemma_push(old_transfers, transfer_key(), record);
                }
                self.transfers.push(record);
            },
        }
        self.tokens[idx].owner = Pubkey::zeroed();
        self.tokens[idx].updated_at = now;
        proof {
            lemma_update(old_tokens, token_key(), idx as int, self.tokens@[idx as int]);
            assert(self.tokens@ == old_tokens.update(idx as int, self.tokens@[idx as int]));
        }
        self.program_state.total_minted = self.program_state.total_minted - 1;
        Ok(())
    }
}

} // verus!
