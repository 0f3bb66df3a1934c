use vstd::prelude::*;
use crate::constants::{
    GATEWAY_VERSION, LOCAL_CHAIN_ID, MAX_SUPPORTED_CHAINS, MINIMUM_GATEWAY_UPDATE_INTERVAL,
};
use crate::errors::UniversalNFTError;
use crate::state::ZetaChainGatewayState;

verus! {

/// The chain list a fresh registry starts with: identifiers 1 to 13.
pub open spec fn default_chain_list() -> Seq<u64> {
    Seq::new(MAX_SUPPORTED_CHAINS as nat, |i: int| (i + 1) as u64)
}

/// Why a registry update is refused, if it is: the list is too long, the
/// version goes below the stored one, or too little time has passed.
pub open spec fn registry_update_error(
    reg: ZetaChainGatewayState,
    chain_count: nat,
    version: u8,
    now: i64,
) -> Option<UniversalNFTError> {
    if chain_count > MAX_SUPPORTED_CHAINS {
        Some(UniversalNFTError::TooManySupportedChains)
    } else if version < reg.version {
        Some(UniversalNFTError::GatewayNotConfigured)
    } else if now - reg.updated_at < MINIMUM_GATEWAY_UPDATE_INTERVAL {
        Some(UniversalNFTError::GatewayNotConfigured)
    } else {
        None
    }
}

impl ZetaChainGatewayState {
    /// A registry never lists more chains than it can hold.
    pub open spec fn wf(&self) -> bool {
        self.supported_chains@.len() <= MAX_SUPPORTED_CHAINS
    }

    pub open spec fn supports(&self, chain_id: u64) -> bool {
        self.supported_chains@.contains(chain_id)
    }

    /// A chain a token may go to or come from: listed, and not this chain.
    pub open spec fn accepts_remote(&self, chain_id: u64) -> bool {
        self.supports(chain_id) && chain_id != LOCAL_CHAIN_ID
    }

    /// The registry written at initialization: zero gateway address, chains 1
    /// to 13, the base version.
    pub fn initial(now: i64) -> (r: ZetaChainGatewayState)
        ensures
            r.gateway_address@ == Seq::new(20, |i: int| 0u8),
            r.supported_chains@ == default_chain_list(),
            r.version == GATEWAY_VERSION,
            r.updated_at == now,
            r.wf(),
    {
        let mut chains: Vec<u64> = Vec::new();
        let mut c: u64 = 1;
        while c <= MAX_SUPPORTED_CHAINS as u64
            invariant
                1 <= c <= MAX_SUPPORTED_CHAINS + 1,
                chains@.len() == c - 1,
                forall|i: int| 0 <= i < chains@.len() ==> chains@[i] == (i + 1) as u64,
            decreases MAX_SUPPORTED_CHAINS + 1 - c,
        {
            chains.push(c);
            c = c + 1;
        }
        assert(chains@ =~= default_chain_list());
        let r = ZetaChainGatewayState {
            gateway_address: [0u8; 20],
            supported_chains: chains,
            version: GATEWAY_VERSION,
            updated_at: now,
        };
        assert(r.gateway_address@ =~= Seq::new(20, |i: int| 0u8));
        r
    }

    /// Whether the registry lists a chain.
    pub fn is_supported(&self, chain_id: u64) -> (r: bool)
        ensures
            r == self.supports(chain_id),
    {
        let mut i: usize = 0;
        while i < self.supported_chains.len()
            invariant
                0 <= i <= self.supported_chains@.len(),
                forall|j: int| 0 <= j < i ==> self.supported_chains@[j] != chain_id,
            decreases self.supported_chains@.len() - i,
        {
            if self.supported_chains[i] == chain_id {
                return true;
            }
            i = i + 1;
        }
        false
    }

    /// Whether a token may be sent to a chain.
    pub fn validate_target(&self, chain_id: u64) -> (r: bool)
        ensures
            r == self.accepts_remote(chain_id),
    {
        self.is_supported(chain_id) && chain_id != LOCAL_CHAIN_ID
    }

    /// Whether a token may arrive from a chain.
    pub fn validate_source(&self, chain_id: u64) -> (r: bool)
        ensures
            r == self.accepts_remote(chain_id),
    {
        self.is_supported(chain_id) && chain_id != LOCAL_CHAIN_ID
    }

    /// Replaces the endpoint, the chain list and the version, unless
    /// `registry_update_error` names a reason to refuse; a refused update
    /// changes nothing.
    pub fn update(
        &mut self,
        gateway_address: [u8; 20],
        supported_chains: Vec<u64>,
        version: u8,
        now: i64,
    ) -> (r: Result<(), UniversalNFTError>)
        ensures
            match registry_update_error(*old(self), supported_chains@.len(), version, now) {
                Some(e) => r == Err::<(), UniversalNFTError>(e) && *final(self) == *old(self),
                None => r is Ok && final(self).gateway_address == gateway_address
                    && final(self).supported_chains@ == supported_chains@
                    && final(self).version == version && final(self).updated_at == now,
            },
            old(self).wf() ==> final(self).wf(),
            final(self).version >= old(self).version,
    {
        if supported_chains.len() > MAX_SUPPORTED_CHAINS {
            return Err(UniversalNFTError::TooManySupportedChains);
        }
        if version < self.version {
            return Err(UniversalNFTError::GatewayNotConfigured);
        }
        if (now as i128) - (self.updated_at as i128) < MINIMUM_GATEWAY_UPDATE_INTERVAL as i128 {
            return Err(UniversalNFTError::GatewayNotConfigured);
        }
        self.gateway_address = gateway_address;
        self.supported_chains = supported_chains;
        self.version = version;
        self.updated_at = now;
        Ok(())
    }
}

} // verus!
