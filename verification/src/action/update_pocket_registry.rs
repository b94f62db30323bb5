use crate::address::Address;
use crate::error::PocketError;
use crate::event::PocketConfigUpdated;
use crate::state::registry::{PocketPlatformRegistry, PocketPlatformRegistryView};
use crate::util::copy_of;
use vstd::prelude::*;

verus! {

/// The operators a registry is to have.
#[derive(Debug, PartialEq, Eq)]
pub struct UpdatePocketRegistryParams {
    pub operators: Vec<Address>,
}

impl Default for UpdatePocketRegistryParams {
    fn default() -> (r: UpdatePocketRegistryParams)
        ensures
            r.operators@.len() == 0,
    {
        UpdatePocketRegistryParams { operators: Vec::new() }
    }
}

/// What a registry update works on: who asks, and the registry.
#[derive(Debug, PartialEq, Eq)]
pub struct UpdatePocketRegistryContext {
    /// Who asks.
    pub owner: Address,
    /// The registry.
    pub pocket_registry: PocketPlatformRegistry,
}

impl UpdatePocketRegistryContext {
    /// Replaces the list of operators. Only the registry's owner may do so; anyone
    /// else is refused and changes nothing.
    pub fn execute(&mut self, params: UpdatePocketRegistryParams) -> (r: Result<
        PocketConfigUpdated,
        PocketError,
    >)
        ensures
            final(self).owner == old(self).owner,
            old(self).owner != old(self).pocket_registry@.owner ==> r == Err::<
                PocketConfigUpdated,
                PocketError,
            >(PocketError::OnlyAdministrator) && final(self).pocket_registry@ == old(self).pocket_registry@,
            old(self).owner == old(self).pocket_registry@.owner ==> r is Ok && r->Ok_0.actor == old(self).owner && r->Ok_0.operators@ == params.operators@ && final(self).pocket_registry@ == (
            PocketPlatformRegistryView {
                operators: params.operators@,
                ..old(self).pocket_registry@
            }),
            old(self).pocket_registry@.wf() ==> final(self).pocket_registry@.wf(),
    {
        if self.owner != self.pocket_registry.owner {
            return Err(PocketError::OnlyAdministrator);
        }
        let announced = copy_of(&params.operators);
        self.pocket_registry.operators = params.operators;
        Ok(PocketConfigUpdated { actor: self.owner, operators: announced })
    }
}

} // verus!
