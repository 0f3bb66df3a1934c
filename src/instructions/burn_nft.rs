use vstd::prelude::*;
use crate::errors::UniversalNFTError;
use crate::keyed::lemma_remove;
use crate::program::{history_kept, supply_bounded, counters_set, token_key, UniversalNft};
use crate::state::Pubkey;

verus! {

impl UniversalNft {
    /// Destroys the token under `mint`: its record goes and it is no longer
    /// counted. Its origin record stays, so provenance outlives the token.
    /// Refused when no token is counted.
    pub fn burn_nft(&mut self, owner: Pubkey, mint: Pubkey) -> (r: Result<(), UniversalNFTError>)
        requires
            old(self).wf(),
        ensures
            final(self).wf(),
            history_kept(*old(self), *final(self)),
            supply_bounded(*old(self)) ==> supply_bounded(*final(self)),
            match old(self).owner_error(owner, mint) {
                Some(e) => r == Err::<(), UniversalNFTError>(e),
                None => if old(self).program_state.total_minted == 0 {
                    r == Err::<(), UniversalNFTError>(UniversalNFTError::NFTNotFound)
                } else {
                    &&& r is Ok
                    &&& final(self).token_map() == old(self).token_map().remove(mint@)
                    &&& counters_set(
                        old(self).program_state,
                        final(self).program_state,
                        old(self).program_state.total_minted - 1,
                        old(self).program_state.next_token_id as int,
                    )
                    &&& final(self).gateway_state == old(self).gateway_state
                    &&& final(self).origins == old(self).origins
                    &&& final(self).transfers == old(self).transfers
                    &&& final(self).verifications == old(self).verifications
                },
            },
            r is Err ==> *final(self) == *old(self),
    {
        let idx = match self.find_token(&mint) {
            Some(i) => i,
            None => {
                return Err(UniversalNFTError::NFTNotFound);
            },
        };
        if !self.tokens[idx].owner.equals(&owner) || owner.equals(&Pubkey::zeroed()) {
            return Err(UniversalNFTError::Unauthorized);
        }
        if self.program_state.total_minted == 0 {
            return Err(UniversalNFTError::NFTNotFound);
        }
        proof {
            lemma_remove(self.tokens@, token_key(), idx as int);
        }
        self.tokens.remove(idx);
        self.program_state.total_minted = self.program_state.total_minted - 1;
        Ok(())
    }
}

} // verus!
