use crate::address::Address;
use crate::error::PocketError;
use crate::event::VaultCreated;
use crate::state::pocket::Pocket;
use vstd::prelude::*;

verus! {

/// What setting up a custody account works on.
#[derive(Debug, PartialEq, Eq)]
pub struct CreateTokenVaultContext {
    /// Who asks.
    pub signer: Address,
    /// The address of the pocket.
    pub pocket_address: Address,
    /// The pocket.
    pub pocket: Pocket,
    /// The asset the custody account is for.
    pub mint_account: Address,
    /// The custody account.
    pub pocket_token_vault: Address,
}

impl CreateTokenVaultContext {
    /// Announces a custody account that the pocket controls. Only the pocket's owner
    /// may set one up.
    pub fn execute(&self) -> (r: Result<VaultCreated, PocketError>)
        ensures
            self.pocket@.owner != self.signer ==> r == Err::<VaultCreated, PocketError>(
                PocketError::OnlyOwner,
            ),
            self.pocket@.owner == self.signer ==> r == Ok::<VaultCreated, PocketError>(
                VaultCreated {
                    actor: self.signer,
                    authority: self.pocket_address,
                    mint_account: self.mint_account,
                    associated_account: self.pocket_token_vault,
                    pocket_address: self.pocket_address,
                },
            ),
    {
        if self.pocket.owner != self.signer {
            return Err(PocketError::OnlyOwner);
        }
        Ok(
            VaultCreated {
                actor: self.signer,
                authority: self.pocket_address,
                associated_account: self.pocket_token_vault,
                mint_account: self.mint_account,
                pocket_address: self.pocket_address,
            },
        )
    }
}

} // verus!
