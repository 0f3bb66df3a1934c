use vstd::prelude::*;
use crate::constants::REMOTE_OWNER_LENGTH;
use crate::errors::UniversalNFTError;
use crate::hashing::{bytes32_eq, keccak256, keccak_hash};
use crate::keyed::{lemma_push, lemma_update};
use crate::program::{history_kept, supply_bounded, verification_key, UniversalNft};
use crate::state::{OwnershipVerificationState, Pubkey};

verus! {

/// A verification record as a successful check writes it.
pub open spec fn verified_record(
    v: OwnershipVerificationState,
    mint: Pubkey,
    proof_hash: Seq<u8>,
    now: i64,
) -> bool {
    &&& v.nft_mint == mint
    &&& v.zeta_owner@ == Seq::new(REMOTE_OWNER_LENGTH as nat, |i: int| 0u8)
    &&& v.proof_hash@ == proof_hash
    &&& v.verified
    &&& v.verified_at == now
}

impl UniversalNft {
    /// Why a proof hash is refused: no token under the mint, or the hash is
    /// not the token's committed cross-chain data hash.
    pub open spec fn proof_error(&self, mint: Pubkey, proof_hash: Seq<u8>) -> Option<
        UniversalNFTError,
    > {
        if !self.token_map().contains_key(mint@) {
            Some(UniversalNFTError::NFTNotFound)
        } else if proof_hash != self.token_map()[mint@].cross_chain_data_hash@ {
            Some(UniversalNFTError::CrossChainDataHashMismatch)
        } else {
            None
        }
    }

    /// Records that the token under `mint` is verified by a proof whose hash is
    /// `proof_hash`, when that hash equals the token's committed hash; on a
    /// mismatch nothing changes.
    pub fn record_ownership_proof(&mut self, mint: Pubkey, proof_hash: [u8; 32], now: i64) -> (r:
        Result<(), UniversalNFTError>)
        requires
            old(self).wf(),
        ensures
            final(self).wf(),
            history_kept(*old(self), *final(self)),
            supply_bounded(*old(self)) ==> supply_bounded(*final(self)),
            match old(self).proof_error(mint, proof_hash@) {
                Some(e) => r == Err::<(), UniversalNFTError>(e) && *final(self) == *old(self),
                None => {
                    &&& r is Ok
                    &&& final(self).verification_map() == old(self).verification_map().insert(
                        mint@,
                        final(self).verification_map()[mint@],
                    )
                    &&& verified_record(
                        final(self).verification_map()[mint@],
                        mint,
                        proof_hash@,
                        now,
                    )
                    &&& final(self).program_state == old(self).program_state
                    &&& final(self).gateway_state == old(self).gateway_state
                    &&& final(self).tokens == old(self).tokens
                    &&& final(self).origins == old(self).origins
                    &&& final(self).transfers == old(self).transfers
                },
            },
    {
        let idx = match self.find_token(&mint) {
            Some(i) => i,
            None => {
                return Err(UniversalNFTError::NFTNotFound);
            },
        };
        if !bytes32_eq(&proof_hash, &self.tokens[idx].cross_chain_data_hash) {
            return Err(UniversalNFTError::CrossChainDataHashMismatch);
        }
        let record = OwnershipVerificationState {
            nft_mint: mint,
            zeta_owner: vec![0u8; REMOTE_OWNER_LENGTH],
            proof_hash,
            verified: true,
            verified_at: now,
        };
        assert(record.zeta_owner@ =~= Seq::new(REMOTE_OWNER_LENGTH as nat, |i: int| 0u8));
        match self.find_verification(&mint) {
            Some(k) => {
                proof {
                    lemma_update(self.verifications@, verification_key(), k as int, record);
                }
                self.verifications[k] = record;
            },
            None => {
                proof {
                    lemma_push(self.verifications@, verification_key(), record);
                }
                self.verifications.push(record);
            },
        }
        Ok(())
    }

    /// Checks a proof of cross-chain ownership of the token under `mint`: the
    /// proof must be non-empty and its Keccak-256 hash must equal the token's
    /// committed hash; then the verification is recorded.
    pub fn verify_cross_chain_ownership(&mut self, mint: Pubkey, proof_data: Vec<u8>, now: i64) -> (r:
        Result<(), UniversalNFTError>)
        requires
            old(self).wf(),
        ensures
            final(self).wf(),
            history_kept(*old(self), *final(self)),
            supply_bounded(*old(self)) ==> supply_bounded(*final(self)),
            !old(self).token_map().contains_key(mint@) ==> r == Err::<(), UniversalNFTError>(
                UniversalNFTError::NFTNotFound,
            ),
            old(self).token_map().contains_key(mint@) && proof_data@.len() == 0 ==> r == Err::<
                (),
                UniversalNFTError,
            >(UniversalNFTError::InvalidProofData),
            r is Err ==> *final(self) == *old(self),
            proof_data@.len() > 0 ==> match old(self).proof_error(mint, keccak256(proof_data@)) {
                Some(e) => r == Err::<(), UniversalNFTError>(e),
                None => {
                    &&& r is Ok
                    &&& final(self).verification_map() == old(self).verification_map().insert(
                        mint@,
                        final(self).verification_map()[mint@],
                    )
                    &&& verified_record(
                        final(self).verification_map()[mint@],
                        mint,
                        keccak256(proof_data@),
                        now,
                    )
                    &&& final(self).program_state == old(self).program_state
                    &&& final(self).gateway_state == old(self).gateway_state
                    &&& final(self).tokens == old(self).tokens
                    &&& final(self).origins == old(self).origins
                    &&& final(self).transfers == old(self).transfers
                },
            },
    {
        if self.find_token(&mint).is_none() {
            return Err(UniversalNFTError::NFTNotFound);
        }
        if proof_data.len() == 0 {
            return Err(UniversalNFTError::InvalidProofData);
        }
        let proof_hash = keccak_hash(&proof_data);
        self.record_ownership_proof(mint, proof_hash, now)
    }
}

} // verus!
