use crate::address::Address;
use crate::error::PocketError;
use crate::state::pocket::Pocket;
use crate::state::registry::PocketPlatformRegistry;
use vstd::prelude::*;

verus! {

/// What opening a pocket's trading account at the venue works on.
#[derive(Debug, PartialEq, Eq)]
pub struct InitializePocketTradeRegistryContext {
    /// Who asks.
    pub signer: Address,
    /// The pocket.
    pub pocket: Pocket,
    /// The registry.
    pub pocket_registry: PocketPlatformRegistry,
}

impl InitializePocketTradeRegistryContext {
    /// What the request comes to at time `now`: the signer must own the pocket and be an
    /// operator, and the pocket must be ready to swap.
    pub open spec fn outcome(&self, now: int) -> Result<(), PocketError> {
        if self.pocket@.owner != self.signer {
            Err(PocketError::OnlyOwner)
        } else if !self.pocket_registry@.has_operator(self.signer) {
            Err(PocketError::OnlyOperator)
        } else if !self.pocket@.ready_to_swap(now) {
            Err(PocketError::NotReadyToSwap)
        } else {
            Ok(())
        }
    }

    /// Decides at time `now` whether a trading account may be opened at the venue for the
    /// pocket. The caller opens it on `Ok`.
    pub fn execute(&self, now: u64) -> (r: Result<(), PocketError>)
        ensures
            r == self.outcome(now as int),
    {
        if self.pocket.owner != self.signer {
            return Err(PocketError::OnlyOwner);
        }
        if !self.pocket_registry.is_operator(self.signer) {
            return Err(PocketError::OnlyOperator);
        }
        if !self.pocket.is_ready_to_swap(now) {
            return Err(PocketError::NotReadyToSwap);
        }
        Ok(())
    }
}

} // verus!
