use crate::address::Address;
use crate::state::pocket::PocketStatus;
use vstd::prelude::*;

verus! {

/// Why a pocket's status was written.
#[derive(Clone, Copy, Debug, PartialEq, Eq, Structural)]
pub enum UpdateReason {
    /// The owner asked for it.
    UserUpdatedPocket,
    /// A stop condition was reached at the end of a cycle.
    StopConditionReached,
}

impl UpdateReason {
    /// The text under which the reason is published.
    pub open spec fn text(self) -> Seq<char> {
        match self {
            UpdateReason::UserUpdatedPocket => "USER_UPDATED_POCKET"@,
            UpdateReason::StopConditionReached => "STOP_CONDITION_REACHED"@,
        }
    }

    /// The text under which the reason is published.
    pub fn memo(&self) -> (r: String)
        ensures
            r@ == self.text(),
    {
        match self {
            UpdateReason::UserUpdatedPocket => "USER_UPDATED_POCKET".to_owned(),
            UpdateReason::StopConditionReached => "STOP_CONDITION_REACHED".to_owned(),
        }
    }
}

/// The registry's list of operators was replaced.
#[derive(Debug, PartialEq, Eq)]
pub struct PocketConfigUpdated {
    /// Who replaced it.
    pub actor: Address,
    /// The new list.
    pub operators: Vec<Address>,
}

/// A custody account was set up for a pocket.
#[derive(Clone, Copy, Debug, PartialEq, Eq)]
pub struct VaultCreated {
    /// Who set it up.
    pub actor: Address,
    /// Who controls the custody account: the pocket.
    pub authority: Address,
    /// The asset it holds.
    pub mint_account: Address,
    /// The custody account.
    pub associated_account: Address,
    /// The pocket.
    pub pocket_address: Address,
}

/// A pocket was created.
#[derive(Debug, PartialEq, Eq)]
pub struct PocketCreated {
    /// Its owner.
    pub owner: Address,
    /// The pocket.
    pub pocket_address: Address,
    /// Its display name.
    pub name: String,
}

/// A pocket's status was written.
#[derive(Clone, Copy, Debug, PartialEq, Eq)]
pub struct PocketUpdated {
    /// Who caused it.
    pub actor: Address,
    /// The pocket.
    pub pocket_address: Address,
    /// The status it has now.
    pub status: PocketStatus,
    /// Why.
    pub memo: UpdateReason,
}

/// Funds were deposited into a pocket.
#[derive(Clone, Copy, Debug, PartialEq, Eq)]
pub struct PocketDeposited {
    /// The pocket's owner.
    pub owner: Address,
    /// The pocket.
    pub pocket_address: Address,
    /// The asset deposited.
    pub mint_address: Address,
    /// How much of it.
    pub amount: u64,
}

/// A pocket's funds were returned to its owner.
#[derive(Clone, Copy, Debug, PartialEq, Eq)]
pub struct PocketWithdrawn {
    /// The pocket's owner.
    pub owner: Address,
    /// The pocket.
    pub pocket_address: Address,
    /// The base asset.
    pub base_token_mint_address: Address,
    /// How much base asset was returned.
    pub base_token_amount: u64,
    /// The quote asset.
    pub quote_token_mint_address: Address,
    /// How much quote asset was returned.
    pub quote_token_amount: u64,
}

} // verus!
