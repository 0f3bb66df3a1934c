use vstd::prelude::*;
use crate::errors::UniversalNFTError;
use crate::keyed::lemma_update;
use crate::program::{history_kept, supply_bounded, token_key, UniversalNft};
use crate::state::{zero_key, NFTMetadata, Pubkey};

verus! {

/// A token record handed to a new owner at `now`, everything else as before.
pub open spec fn reassigned_token(
    before: NFTMetadata,
    after: NFTMetadata,
    new_owner: Pubkey,
    now: i64,
) -> bool {
    &&& after.mint == before.mint
    &&& after.owner == new_owner
    &&& after.metadata_uri == before.metadata_uri
    &&& after.zeta_chain_id == before.zeta_chain_id
    &&& after.cross_chain_data_hash == before.cross_chain_data_hash
    &&& after.token_id == before.token_id
    &&& after.created_at == before.created_at
    &&& after.updated_at == now
}

impl UniversalNft {
    /// Why a record change by `owner` on the token under `mint` is refused: no
    /// such token, or `owner` does not hold it or is the sentinel identity.
    pub open spec fn owner_error(&self, owner: Pubkey, mint: Pubkey) -> Option<UniversalNFTError> {
        if !self.token_map().contains_key(mint@) {
            Some(UniversalNFTError::NFTNotFound)
        } else if owner@ != self.token_map()[mint@].owner@ || owner@ == zero_key() {
            Some(UniversalNFTError::Unauthorized)
        } else {
            None
        }
    }

    /// Hands the token under `mint` from `owner` to `new_owner` on this ledger;
    /// the sentinel identity can be neither.
    pub fn transfer_nft(&mut self, owner: Pubkey, mint: Pubkey, new_owner: Pubkey, now: i64) -> (r:
        Result<(), UniversalNFTError>)
        requires
            old(self).wf(),
        ensures
            final(self).wf(),
            history_kept(*old(self), *final(self)),
            supply_bounded(*old(self)) ==> supply_bounded(*final(self)),
            match old(self).owner_error(owner, mint) {
                Some(e) => r == Err::<(), UniversalNFTError>(e) && *final(self) == *old(self),
                None => if new_owner@ == zero_key() {
                    r == Err::<(), UniversalNFTError>(UniversalNFTError::InvalidSigner)
                        && *final(self) == *old(self)
                } else {
                    &&& r is Ok
                    &&& final(self).token_map() == old(self).token_map().insert(
                        mint@,
                        final(self).token_map()[mint@],
                    )
                    &&& reassigned_token(
                        old(self).token_map()[mint@],
                        final(self).token_map()[mint@],
                        new_owner,
                        now,
                    )
                    &&& final(self).program_state == old(self).program_state
                    &&& final(self).gateway_state == old(self).gateway_state
                    &&& final(self).origins == old(self).origins
                    &&& final(self).transfers == old(self).transfers
                    &&& final(self).verifications == old(self).verifications
                },
            },
    {
        let idx = match self.find_token(&mint) {
            Some(i) => i,
            None => {
                return Err(UniversalNFTError::NFTNotFound);
            },
        };
        if !self.tokens[idx].owner.equals(&owner) || owner.equals(&Pubkey::zeroed()) {
            return Err(UniversalNFTError::Unauthorized);
        }
        if new_owner.equals(&Pubkey::zeroed()) {
            return Err(UniversalNFTError::InvalidSigner);
        }
        let ghost old_tokens = self.tokens@;
        self.tokens[idx].owner = new_owner;
        self.tokens[idx].updated_at = now;
        proof {
            lemma_update(old_tokens, token_key(), idx as int, self.tokens@[idx as int]);
            assert(self.tokens@ == old_tokens.update(idx as int, self.tokens@[idx as int]));
        }
        Ok(())
    }
}

} // verus!
