use vstd::prelude::*;
use crate::errors::UniversalNFTError;
use crate::program::{history_kept, supply_bounded, UniversalNft};
use crate::registry::registry_update_error;
use crate::state::Pubkey;

verus! {

impl UniversalNft {
    /// Reconfigures the gateway registry; only the authority may. Refused, with
    /// nothing changed, for the reasons `registry_update_error` gives.
    pub fn setup_gateway(
        &mut self,
        authority: Pubkey,
        gateway_address: [u8; 20],
        supported_chains: Vec<u64>,
        version: u8,
        now: i64,
    ) -> (r: Result<(), UniversalNFTError>)
        requires
            old(self).wf(),
        ensures
            final(self).wf(),
            history_kept(*old(self), *final(self)),
            supply_bounded(*old(self)) ==> supply_bounded(*final(self)),
            authority@ != old(self).program_state.authority@ ==> r == Err::<(), UniversalNFTError>(
                UniversalNFTError::Unauthorized,
            ),
            authority@ == old(self).program_state.authority@ ==> match registry_update_error(
                old(self).gateway_state,
                supported_chains@.len(),
                version,
                now,
            ) {
                Some(e) => r == Err::<(), UniversalNFTError>(e),
                None => {
                    &&& r is Ok
                    &&& final(self).gateway_state.gateway_address == gateway_address
                    &&& final(self).gateway_state.supported_chains@ == supported_chains@
                    &&& final(self).gateway_state.version == version
                    &&& final(self).gateway_state.updated_at == now
                },
            },
            r is Err ==> *final(self) == *old(self),
            final(self).program_state == old(self).program_state,
            final(self).tokens == old(self).tokens,
            final(self).origins == old(self).origins,
            final(self).transfers == old(self).transfers,
            final(self).verifications == old(self).verifications,
    {
        if !authority.equals(&self.program_state.authority) {
            return Err(UniversalNFTError::Unauthorized);
        }
        let ghost old_self = *self;
        let r = self.gateway_state.update(gateway_address, supported_chains, version, now);
        assert(self.token_map() == old_self.token_map());
        assert(self.transfer_map() == old_self.transfer_map());
        r
    }
}

} // verus!
