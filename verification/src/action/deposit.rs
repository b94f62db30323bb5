use crate::address::Address;
use crate::error::PocketError;
use crate::event::PocketDeposited;
use crate::state::pocket::{Pocket, PocketView};
use vstd::prelude::*;

verus! {

/// Which of a pocket's two assets a deposit brings.
#[derive(Clone, Copy, Debug, PartialEq, Eq, Structural)]
pub enum DepositedTokenType {
    Base,
    Quote,
}

impl Default for DepositedTokenType {
    fn default() -> (r: DepositedTokenType)
        ensures
            r == DepositedTokenType::Base,
    {
        DepositedTokenType::Base
    }
}

/// A deposit: which asset, and how much.
#[derive(Clone, Copy, Debug, PartialEq, Eq, Structural)]
pub struct DepositParams {
    pub mode: DepositedTokenType,
    pub deposit_amount: u64,
}

impl Default for DepositParams {
    fn default() -> (r: DepositParams)
        ensures
            r.mode == DepositedTokenType::Base,
            r.deposit_amount == 0,
    {
        DepositParams { mode: DepositedTokenType::Base, deposit_amount: 0 }
    }
}

/// What a deposit works on: who deposits, and the pocket.
#[derive(Debug, PartialEq, Eq)]
pub struct DepositContext {
    /// Who deposits.
    pub signer: Address,
    /// The address of the pocket.
    pub pocket_address: Address,
    /// The pocket.
    pub pocket: Pocket,
}

impl PocketView {
    /// The pocket with `amount` of one asset added to that asset's balance and to the
    /// total deposited of it.
    pub open spec fn credited(self, mode: DepositedTokenType, amount: int) -> PocketView {
        match mode {
            DepositedTokenType::Base => PocketView {
                base_token_balance: self.base_token_balance + amount,
                total_base_deposit_amount: self.total_base_deposit_amount + amount,
                ..self
            },
            DepositedTokenType::Quote => PocketView {
                quote_token_balance: self.quote_token_balance + amount,
                total_quote_deposit_amount: self.total_quote_deposit_amount + amount,
                ..self
            },
        }
    }

    /// What a deposit by `actor` comes to: only the owner may deposit, only while the
    /// pocket is neither closed nor withdrawn, and only what the counters can hold.
    pub open spec fn deposit(self, actor: Address, mode: DepositedTokenType, amount: int) -> Result<
        PocketView,
        PocketError,
    > {
        if actor != self.owner {
            Err(PocketError::OnlyOwner)
        } else if !self.able_to_deposit() {
            Err(PocketError::NotAbleToDeposit)
        } else if !self.credited(mode, amount).in_range() {
            Err(PocketError::SystemError)
        } else {
            Ok(self.credited(mode, amount))
        }
    }

    /// The asset that a deposit of `mode` brings.
    pub open spec fn deposited_mint(self, mode: DepositedTokenType) -> Address {
        match mode {
            DepositedTokenType::Base => self.base_token_mint_address,
            DepositedTokenType::Quote => self.quote_token_mint_address,
        }
    }
}

impl DepositContext {
    /// Credits a deposit to the pocket. The funds themselves are moved by the caller; a
    /// refused deposit leaves the pocket as it was.
    pub fn execute(&mut self, params: DepositParams) -> (r: Result<PocketDeposited, PocketError>)
        ensures
            old(self).pocket@.wf() ==> final(self).pocket@.wf(),
            final(self).signer == old(self).signer,
            final(self).pocket_address == old(self).pocket_address,
            match old(self).pocket@.deposit(
                old(self).signer,
                params.mode,
                params.deposit_amount as int,
            ) {
                Ok(pocket) => final(self).pocket@ == pocket && r == Ok::<
                    PocketDeposited,
                    PocketError,
                >(
                    PocketDeposited {
                        owner: old(self).signer,
                        pocket_address: old(self).pocket_address,
                        mint_address: old(self).pocket@.deposited_mint(params.mode),
                        amount: params.deposit_amount,
                    },
                ),
                Err(e) => final(self).pocket@ == old(self).pocket@ && r == Err::<
                    PocketDeposited,
                    PocketError,
                >(e),
            },
    {
        if self.pocket.owner != self.signer {
            return Err(PocketError::OnlyOwner);
        }
        if !self.pocket.is_able_to_deposit() {
            return Err(PocketError::NotAbleToDeposit);
        }
        let mint_address = match params.mode {
            DepositedTokenType::Base => {
                let balance = self.pocket.base_token_balance.checked_add(params.deposit_amount);
                let total = self.pocket.total_base_deposit_amount.checked_add(
                    params.deposit_amount,
                );
                match (balance, total) {
                    (Some(balance), Some(total)) => {
                        self.pocket.base_token_balance = balance;
                        self.pocket.total_base_deposit_amount = total;
                    },
                    _ => {
                        return Err(PocketError::SystemError);
                    },
                }
                self.pocket.base_token_mint_address
            },
            DepositedTokenType::Quote => {
                let balance = self.pocket.quote_token_balance.checked_add(params.deposit_amount);
                let total = self.pocket.total_quote_deposit_amount.checked_add(
                    params.deposit_amount,
                );
                match (balance, total) {
                    (Some(balance), Some(total)) => {
                        self.pocket.quote_token_balance = balance;
                        self.pocket.total_quote_deposit_amount = total;
                    },
                    _ => {
                        return Err(PocketError::SystemError);
                    },
                }
                self.pocket.quote_token_mint_address
            },
        };
        Ok(
            PocketDeposited {
                owner: self.signer,
                pocket_address: self.pocket_address,
                mint_address,
                amount: params.deposit_amount,
            },
        )
    }
}

} // verus!
