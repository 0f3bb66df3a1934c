use vstd::prelude::*;
use crate::constants::MAX_METADATA_URI_LENGTH;
use crate::errors::UniversalNFTError;
use crate::keyed::lemma_update;
use crate::program::{history_kept, supply_bounded, token_key, UniversalNft};
use crate::state::{byte_len, utf8_len, NFTMetadata, Pubkey};

verus! {

/// A token record with a new URI at `now`, everything else as before.
pub open spec fn renamed_token(
    before: NFTMetadata,
    after: NFTMetadata,
    uri: Seq<char>,
    now: i64,
) -> bool {
    &&& after.mint == before.mint
    &&& after.owner == before.owner
    &&& after.metadata_uri@ == uri
    &&& after.zeta_chain_id == before.zeta_chain_id
    &&& after.cross_chain_data_hash == before.cross_chain_data_hash
    &&& after.token_id == before.token_id
    &&& after.created_at == before.created_at
    &&& after.updated_at == now
}

impl UniversalNft {
    /// Replaces the URI of the token under `mint`; only its owner may, and the
    /// URI must fit its slot. The origin record keeps the original URI.
    pub fn update_metadata(
        &mut self,
        owner: Pubkey,
        mint: Pubkey,
        new_metadata_uri: String,
        now: i64,
    ) -> (r: Result<(), UniversalNFTError>)
        requires
            old(self).wf(),
        ensures
            final(self).wf(),
            history_kept(*old(self), *final(self)),
            supply_bounded(*old(self)) ==> supply_bounded(*final(self)),
            match old(self).owner_error(owner, mint) {
                Some(e) => r == Err::<(), UniversalNFTError>(e),
                None => if utf8_len(new_metadata_uri@) > MAX_METADATA_URI_LENGTH {
                    r == Err::<(), UniversalNFTError>(UniversalNFTError::InvalidMetadataURILength)
                } else {
                    &&& r is Ok
                    &&& final(self).token_map() == old(self).token_map().insert(
                        mint@,
                        final(self).token_map()[mint@],
                    )
                    &&& renamed_token(
                        old(self).token_map()[mint@],
                        final(self).token_map()[mint@],
                        new_metadata_uri@,
                        now,
                    )
                    &&& final(self).program_state == old(self).program_state
                    &&& final(self).gateway_state == old(self).gateway_state
                    &&& final(self).origins == old(self).origins
                    &&& final(self).transfers == old(self).transfers
                    &&& final(self).verifications == old(self).verifications
                },
            },
            r is Err ==> *final(self) == *old(self),
    {
        let idx = match self.find_token(&mint) {
            Some(i) => i,
            None => {
                return Err(UniversalNFTError::NFTNotFound);
            },
        };
        if !self.tokens[idx].owner.equals(&owner) || owner.equals(&Pubkey::zeroed()) {
            return Err(UniversalNFTError::Unauthorized);
        }
        if byte_len(&new_metadata_uri) > MAX_METADATA_URI_LENGTH {
            return Err(UniversalNFTError::InvalidMetadataURILength);
        }
        let ghost old_tokens = self.tokens@;
        self.tokens[idx].metadata_uri = new_metadata_uri;
        self.tokens[idx].updated_at = now;
        proof {
            lemma_update(old_tokens, token_key(), idx as int, self.tokens@[idx as int]);
            assert(self.tokens@ == old_tokens.update(idx as int, self.tokens@[idx as int]));
        }
        Ok(())
    }
}

} // verus!
