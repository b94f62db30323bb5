use crate::address::Address;
use crate::error::PocketError;
use crate::event::PocketWithdrawn;
use crate::state::pocket::{Pocket, PocketStatus, PocketView};
use crate::swap::TokenWallet;
use vstd::prelude::*;

verus! {

/// What a withdrawal works on: who withdraws, the pocket, and the pocket's two custody
/// accounts as they stand.
#[derive(Debug, PartialEq, Eq)]
pub struct WithdrawContext {
    /// Who withdraws.
    pub signer: Address,
    /// The address of the pocket.
    pub pocket_address: Address,
    /// The pocket.
    pub pocket: Pocket,
    /// The custody account of the base asset.
    pub pocket_base_token_vault: TokenWallet,
    /// The custody account of the quote asset.
    pub pocket_quote_token_vault: TokenWallet,
}

impl PocketView {
    /// What a withdrawal by `actor` comes to: only the owner may withdraw, and only from
    /// a closed pocket; then both balances are zero and the pocket is withdrawn.
    pub open spec fn withdraw(self, actor: Address) -> Result<PocketView, PocketError> {
        if actor != self.owner {
            Err(PocketError::OnlyOwner)
        } else if !self.able_to_withdraw() {
            Err(PocketError::NotAbleToWithdraw)
        } else {
            Ok(
                PocketView {
                    base_token_balance: 0,
                    quote_token_balance: 0,
                    status: PocketStatus::Withdrawn,
                    ..self
                },
            )
        }
    }
}

impl WithdrawContext {
    /// Empties a closed pocket and marks it withdrawn. The notification names what the
    /// two custody accounts hold, which is what the caller then sends to the owner. A
    /// refused withdrawal leaves the pocket as it was.
    pub fn execute(&mut self) -> (r: Result<PocketWithdrawn, PocketError>)
        ensures
            old(self).pocket@.wf() ==> final(self).pocket@.wf(),
            final(self).signer == old(self).signer,
            final(self).pocket_address == old(self).pocket_address,
            final(self).pocket_base_token_vault == old(self).pocket_base_token_vault,
            final(self).pocket_quote_token_vault == old(self).pocket_quote_token_vault,
            match old(self).pocket@.withdraw(old(self).signer) {
                Ok(pocket) => final(self).pocket@ == pocket && r == Ok::<
                    PocketWithdrawn,
                    PocketError,
                >(
                    PocketWithdrawn {
                        owner: old(self).signer,
                        pocket_address: old(self).pocket_address,
                        base_token_mint_address: old(self).pocket.base_token_mint_address,
                        base_token_amount: old(self).pocket_base_token_vault.amount,
                        quote_token_mint_address: old(self).pocket.quote_token_mint_address,
                        quote_token_amount: old(self).pocket_quote_token_vault.amount,
                    },
                ),
                Err(e) => final(self).pocket@ == old(self).pocket@ && r == Err::<
                    PocketWithdrawn,
                    PocketError,
                >(e),
            },
    {
        if self.pocket.owner != self.signer {
            return Err(PocketError::OnlyOwner);
        }
        if !self.pocket.is_able_to_withdraw() {
            return Err(PocketError::NotAbleToWithdraw);
        }
        self.pocket.base_token_balance = 0;
        self.pocket.quote_token_balance = 0;
        self.pocket.status = PocketStatus::Withdrawn;
        Ok(
            PocketWithdrawn {
                owner: self.signer,
                pocket_address: self.pocket_address,
                base_token_mint_address: self.pocket.base_token_mint_address,
                base_token_amount: self.pocket_base_token_vault.amount,
                quote_token_mint_address: self.pocket.quote_token_mint_address,
                quote_token_amount: self.pocket_quote_token_vault.amount,
            },
        )
    }
}

} // verus!
