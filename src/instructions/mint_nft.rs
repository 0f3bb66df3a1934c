use vstd::prelude::*;
use crate::constants::{MAX_CROSS_CHAIN_DATA_LENGTH, MAX_METADATA_URI_LENGTH};
use crate::errors::UniversalNFTError;
use crate::hashing::{keccak256, keccak_hash};
use crate::keyed::lemma_push;
use crate::program::{history_kept, supply_bounded, issued, counters_set, origin_fields, origin_key, token_fields, token_key, UniversalNft};
use crate::state::{byte_len, utf8_len, zero_key, NFTMetadata, NFTOrigin, Pubkey};

verus! {

impl UniversalNft {
    /// Why a mint is refused, checked in this order: the caller is not the
    /// authority; the holder is the sentinel identity; the mint already has a
    /// token or an open transfer, or the next identifier already has an origin; the URI is too long; the chain is not listed; the supply
    /// ceiling is reached; the payload is too long; identifiers are used up.
    pub open spec fn mint_error(
        &self,
        authority: Pubkey,
        mint: Pubkey,
        owner: Pubkey,
        uri: Seq<char>,
        chain_id: u64,
        data_len: nat,
    ) -> Option<UniversalNFTError> {
        if authority@ != self.program_state.authority@ {
            Some(UniversalNFTError::Unauthorized)
        } else if owner@ == zero_key() {
            Some(UniversalNFTError::InvalidMintAuthority)
        } else if self.token_map().contains_key(mint@) || self.transfer_open(mint@)
            || self.origin_map().contains_key(self.program_state.next_token_id) {
            Some(UniversalNFTError::NFTAlreadyExists)
        } else if utf8_len(uri) > MAX_METADATA_URI_LENGTH {
            Some(UniversalNFTError::InvalidMetadataURILength)
        } else if !self.gateway_state.supports(chain_id) {
            Some(UniversalNFTError::InvalidZetaChainID)
        } else if self.program_state.total_minted >= self.program_state.max_supply {
            Some(UniversalNFTError::MaxSupplyExceeded)
        } else if data_len > MAX_CROSS_CHAIN_DATA_LENGTH {
            Some(UniversalNFTError::InvalidCrossChainData)
        } else if self.program_state.next_token_id == u64::MAX {
            Some(UniversalNFTError::MaxSupplyExceeded)
        } else {
            None
        }
    }

    /// Mints a new token under `mint`, held by `owner`, and returns its
    /// identifier: the counter's value, which then moves up by one. Writes the
    /// token record and the token's origin record and counts the token.
    pub fn mint_nft(
        &mut self,
        authority: Pubkey,
        mint: Pubkey,
        owner: Pubkey,
        metadata_uri: String,
        zeta_chain_id: u64,
        cross_chain_data: Vec<u8>,
        now: i64,
    ) -> (r: Result<u64, UniversalNFTError>)
        requires
            old(self).wf(),
        ensures
            final(self).wf(),
            history_kept(*old(self), *final(self)),
            supply_bounded(*old(self)) ==> supply_bounded(*final(self)),
            r matches Ok(id) ==> issued(*old(self), *final(self), id),
            old(self).program_state.total_minted >= old(self).program_state.max_supply ==> r is Err
                && *final(self) == *old(self),
            match old(self).mint_error(
                authority,
                mint,
                owner,
                metadata_uri@,
                zeta_chain_id,
                cross_chain_data@.len(),
            ) {
                Some(e) => r == Err::<u64, UniversalNFTError>(e) && *final(self) == *old(self),
                None => {
                    let id = old(self).program_state.next_token_id;
                    &&& r == Ok::<u64, UniversalNFTError>(id)
                    &&& final(self).token_map() == old(self).token_map().insert(
                        mint@,
                        final(self).token_map()[mint@],
                    )
                    &&& token_fields(
                        final(self).token_map()[mint@],
                        mint,
                        owner,
                        metadata_uri@,
                        zeta_chain_id,
                        keccak256(cross_chain_data@),
                        id,
                        now,
                    )
                    &&& final(self).origin_map() == old(self).origin_map().insert(
                        id,
                        final(self).origin_map()[id],
                    )
                    &&& origin_fields(
                        final(self).origin_map()[id],
                        id,
                        mint,
                        metadata_uri@,
                        zeta_chain_id,
                        now,
                    )
                    &&& counters_set(
                        old(self).program_state,
                        final(self).program_state,
                        old(self).program_state.total_minted + 1,
                        id + 1,
                    )
                    &&& final(self).gateway_state == old(self).gateway_state
                    &&& final(self).transfers == old(self).transfers
                    &&& final(self).verifications == old(self).verifications
                },
            },
    {
        if !authority.equals(&self.program_state.authority) {
            return Err(UniversalNFTError::Unauthorized);
        }
        if owner.equals(&Pubkey::zeroed()) {
            return Err(UniversalNFTError::InvalidMintAuthority);
        }
        let open_transfer = match self.find_transfer(&mint) {
            Some(ti) => !self.transfers[ti].status.is_terminal(),
            None => false,
        };
        if self.find_token(&mint).is_some() || open_transfer || self.find_origin(
            self.program_state.next_token_id,
        ).is_some() {
            return Err(UniversalNFTError::NFTAlreadyExists);
        }
        if byte_len(&metadata_uri) > MAX_METADATA_URI_LENGTH {
            return Err(UniversalNFTError::InvalidMetadataURILength);
        }
        if !self.gateway_state.is_supported(zeta_chain_id) {
            return Err(UniversalNFTError::InvalidZetaChainID);
        }
        if self.program_state.total_minted >= self.program_state.max_supply {
            return Err(UniversalNFTError::MaxSupplyExceeded);
        }
        if cross_chain_data.len() > MAX_CROSS_CHAIN_DATA_LENGTH {
            return Err(UniversalNFTError::InvalidCrossChainData);
        }
        if self.program_state.next_token_id == u64::MAX {
            return Err(UniversalNFTError::MaxSupplyExceeded);
        }
        let token_id = self.program_state.next_token_id;
        let data_hash = keccak_hash(&cross_chain_data);
        let origin_uri = metadata_uri.clone();
        let token = NFTMetadata {
            mint,
            owner,
            metadata_uri,
            zeta_chain_id,
            cross_chain_data_hash: data_hash,
            token_id,
            created_at: now,
            updated_at: now,
        };
        let origin = NFTOrigin {
            token_id,
            original_mint: mint,
            original_metadata_uri: origin_uri,
            source_chain_id: zeta_chain_id,
            created_at: now,
        };
        proof {
            lemma_push(self.tokens@, token_key(), token);
            lemma_push(self.origins@, origin_key(), origin);
        }
        self.tokens.push(token);
        self.origins.push(origin);
        self.program_state.total_minted = self.program_state.total_minted + 1;
        self.program_state.next_token_id = token_id + 1;
        Ok(token_id)
    }
}

} // verus!
