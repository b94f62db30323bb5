use crate::address::Address;
use crate::error::PocketError;
use crate::event::PocketCreated;
use crate::state::condition::{PriceCondition, StopCondition};
use crate::state::pocket::{DateDuration, Pocket, PocketStatus, PocketView, TradeSide};
use vstd::prelude::*;

verus! {

/// The configuration of a pocket to be created.
#[derive(Debug, PartialEq, Eq)]
pub struct CreatePocketParams {
    /// Unique id.
    pub id: String,
    /// Display name.
    pub name: String,
    /// The base asset.
    pub base_token_address: Address,
    /// The quote asset.
    pub quote_token_address: Address,
    /// The market to trade on.
    pub market_key: Address,
    /// The amount offered in each cycle.
    pub batch_volume: u64,
    /// The time from which cycles may run.
    pub start_at: u64,
    /// The bound a cycle's proceeds must meet, if any.
    pub buy_condition: Option<PriceCondition>,
    /// The thresholds that close the pocket.
    pub stop_conditions: Vec<StopCondition>,
    /// The interval between two cycles.
    pub frequency: DateDuration,
    /// Which way the pocket trades.
    pub side: TradeSide,
}

impl Default for CreatePocketParams {
    fn default() -> (r: CreatePocketParams)
        ensures
            r.id@.len() == 0,
            r.name@.len() == 0,
            r.base_token_address.is_unset(),
            r.quote_token_address.is_unset(),
            r.market_key.is_unset(),
            r.batch_volume == 0,
            r.start_at == 0,
            r.buy_condition is None,
            r.stop_conditions@.len() == 0,
            r.frequency.hours == 0,
            r.side == TradeSide::Buy,
    {
        CreatePocketParams {
            id: String::new(),
            name: String::new(),
            base_token_address: Address::default(),
            quote_token_address: Address::default(),
            market_key: Address::default(),
            batch_volume: 0,
            start_at: 0,
            buy_condition: None,
            stop_conditions: Vec::new(),
            frequency: DateDuration { hours: 0 },
            side: TradeSide::Buy,
        }
    }
}

impl CreatePocketParams {
    /// The pocket that this configuration describes, owned by `owner`: active, with no
    /// funds, no cycle carried out and none scheduled yet.
    pub open spec fn pocket(&self, owner: Address, bump: u8) -> PocketView {
        PocketView {
            id: self.id@,
            bump,
            owner,
            name: self.name@,
            status: PocketStatus::Active,
            base_token_mint_address: self.base_token_address,
            quote_token_mint_address: self.quote_token_address,
            market_key: self.market_key,
            batch_volume: self.batch_volume as int,
            start_at: self.start_at as int,
            side: self.side,
            buy_condition: self.buy_condition,
            stop_conditions: self.stop_conditions@,
            frequency_hours: self.frequency.hours as int,
            total_base_deposit_amount: 0,
            total_quote_deposit_amount: 0,
            base_token_balance: 0,
            quote_token_balance: 0,
            executed_batch_amount: 0,
            next_scheduled_execution_at: 0,
        }
    }
}

/// What creating a pocket works on: who creates it, and the record to fill.
#[derive(Debug, PartialEq, Eq)]
pub struct CreatePocketContext {
    /// Who creates the pocket; its owner from then on.
    pub signer: Address,
    /// The address of the pocket.
    pub pocket_address: Address,
    /// The record that the pocket is written to.
    pub pocket: Pocket,
}

impl CreatePocketContext {
    /// Creates the pocket at time `now`: see [`CreatePocketContext::initialize_pocket`].
    pub fn execute(&mut self, params: CreatePocketParams, pocket_bump: u8, now: u64) -> (r: Result<
        PocketCreated,
        PocketError,
    >)
        ensures
            final(self).signer == old(self).signer,
            final(self).pocket_address == old(self).pocket_address,
            match params.pocket(old(self).signer, pocket_bump).validation(now as int) {
                Ok(_) => {
                    &&& final(self).pocket@ == params.pocket(old(self).signer, pocket_bump)
                    &&& final(self).pocket@.wf()
                    &&& r is Ok
                    &&& r->Ok_0.owner == old(self).signer
                    &&& r->Ok_0.pocket_address == old(self).pocket_address
                    &&& r->Ok_0.name@ == params.name@
                },
                Err(rule) => final(self).pocket@ == old(self).pocket@ && r == Err::<
                    PocketCreated,
                    PocketError,
                >(PocketError::InvalidPocketData(rule)),
            },
    {
        self.initialize_pocket(params, pocket_bump, now)
    }

    /// Writes the pocket that `params` describes, owned by the signer, if the
    /// configuration is valid at time `now`. The whole configuration is accepted or
    /// rejected as one: a rejected creation leaves the record as it was and names the
    /// first rule broken.
    pub fn initialize_pocket(
        &mut self,
        params: CreatePocketParams,
        pocket_bump: u8,
        now: u64,
    ) -> (r: Result<PocketCreated, PocketError>)
        ensures
            final(self).signer == old(self).signer,
            final(self).pocket_address == old(self).pocket_address,
            match params.pocket(old(self).signer, pocket_bump).validation(now as int) {
                Ok(_) => {
                    &&& final(self).pocket@ == params.pocket(old(self).signer, pocket_bump)
                    &&& final(self).pocket@.wf()
                    &&& r is Ok
                    &&& r->Ok_0.owner == old(self).signer
                    &&& r->Ok_0.pocket_address == old(self).pocket_address
                    &&& r->Ok_0.name@ == params.name@
                },
                Err(rule) => final(self).pocket@ == old(self).pocket@ && r == Err::<
                    PocketCreated,
                    PocketError,
                >(PocketError::InvalidPocketData(rule)),
            },
    {
        let pocket = Pocket {
            id: params.id,
            bump: pocket_bump,
            owner: self.signer,
            name: params.name,
            status: PocketStatus::Active,
            base_token_mint_address: params.base_token_address,
            quote_token_mint_address: params.quote_token_address,
            market_key: params.market_key,
            batch_volume: params.batch_volume,
            start_at: params.start_at,
            side: params.side,
            buy_condition: params.buy_condition,
            stop_conditions: params.stop_conditions,
            frequency: params.frequency,
            total_base_deposit_amount: 0,
            total_quote_deposit_amount: 0,
            base_token_balance: 0,
            quote_token_balance: 0,
            executed_batch_amount: 0,
            next_scheduled_execution_at: 0,
        };
        match pocket.validate_pocket_data(now) {
            Err(rule) => Err(PocketError::InvalidPocketData(rule)),
            Ok(_) => {
                let name = pocket.name.clone();
                self.pocket = pocket;
                Ok(PocketCreated { owner: self.signer, pocket_address: self.pocket_address, name })
            },
        }
    }
}

} // verus!
