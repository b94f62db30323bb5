use crate::address::Address;
use crate::error::PocketError;
use crate::state::registry::{PocketPlatformRegistry, PocketPlatformRegistryView};
use vstd::prelude::*;

verus! {

/// The operators a registry starts with.
#[derive(Debug, PartialEq, Eq)]
pub struct InitializePocketPlatformParams {
    pub operators: Vec<Address>,
}

impl Default for InitializePocketPlatformParams {
    fn default() -> (r: InitializePocketPlatformParams)
        ensures
            r.operators@.len() == 0,
    {
        InitializePocketPlatformParams { operators: Vec::new() }
    }
}

/// What initialization works on: who deploys, and the registry.
#[derive(Debug, PartialEq, Eq)]
pub struct InitializePocketPlatformContext {
    /// Who deploys; the registry's owner from then on.
    pub owner: Address,
    /// The registry.
    pub pocket_registry: PocketPlatformRegistry,
}

impl InitializePocketPlatformContext {
    /// Initializes the registry: the deployer becomes its owner and names the operators.
    /// This works once. A second initialization is refused and changes nothing.
    pub fn execute(&mut self, params: InitializePocketPlatformParams, bump: u8) -> (r: Result<
        (),
        PocketError,
    >)
        ensures
            final(self).owner == old(self).owner,
            old(self).pocket_registry@.was_initialized ==> r == Err::<(), PocketError>(
                PocketError::AlreadyInitialized,
            ) && final(self).pocket_registry@ == old(self).pocket_registry@,
            !old(self).pocket_registry@.was_initialized ==> r is Ok && final(self).pocket_registry@
                == (PocketPlatformRegistryView {
                owner: old(self).owner,
                was_initialized: true,
                bump,
                operators: params.operators@,
                ..old(self).pocket_registry@
            }),
            old(self).pocket_registry@.wf() ==> final(self).pocket_registry@.wf(),
    {
        match self.pocket_registry.handle_post_initialized() {
            Err(e) => {
                return Err(e);
            },
            Ok(_) => {},
        }
        self.pocket_registry.bump = bump;
        self.pocket_registry.owner = self.owner;
        self.pocket_registry.operators = params.operators;
        Ok(())
    }
}

} // verus!
