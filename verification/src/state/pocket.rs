use crate::address::Address;
use crate::error::ValidationError;
use crate::state::condition::{all_valid, primary_count, PriceCondition, Progress, StopCondition};
use crate::util::copy_of;
use vstd::prelude::*;

verus! {

/// The interval between two cycles, in whole hours.
#[derive(Clone, Copy, Debug, PartialEq, Eq, Structural)]
pub struct DateDuration {
    pub hours: u64,
}

impl Default for DateDuration {
    fn default() -> (r: DateDuration)
        ensures
            r.hours == 0,
    {
        DateDuration { hours: 0 }
    }
}

/// Which way a pocket trades: `Buy` pays quote for base, `Sell` pays base for quote.
#[derive(Clone, Copy, Debug, PartialEq, Eq, Structural)]
pub enum TradeSide {
    Buy,
    Sell,
}

impl Default for TradeSide {
    fn default() -> (r: TradeSide)
        ensures
            r == TradeSide::Buy,
    {
        TradeSide::Buy
    }
}

/// Where a pocket stands in its life.
#[derive(Clone, Copy, Debug, PartialEq, Eq, Structural)]
pub enum PocketStatus {
    /// Cycles may run.
    Active,
    /// The owner has put cycles on hold.
    Paused,
    /// No more cycles; the funds wait to be withdrawn.
    Closed,
    /// The funds have been returned. Nothing leaves this state.
    Withdrawn,
}

impl Default for PocketStatus {
    fn default() -> (r: PocketStatus)
        ensures
            r == PocketStatus::Active,
    {
        PocketStatus::Active
    }
}

/// One recurring-swap strategy: its configuration, its balances and its status.
#[derive(Debug, PartialEq, Eq)]
pub struct Pocket {
    /// Unique id, fixed at creation.
    pub id: String,
    /// Bump of the address derived for the pocket.
    pub bump: u8,
    /// Who owns the pocket.
    pub owner: Address,
    /// Display name.
    pub name: String,
    /// Lifecycle status.
    pub status: PocketStatus,
    /// The base asset.
    pub base_token_mint_address: Address,
    /// The quote asset.
    pub quote_token_mint_address: Address,
    /// The market the pocket trades on.
    pub market_key: Address,
    /// The amount offered in each cycle.
    pub batch_volume: u64,
    /// The time from which cycles may run.
    pub start_at: u64,
    /// Which way the pocket trades.
    pub side: TradeSide,
    /// The bound a cycle's proceeds must meet, if any.
    pub buy_condition: Option<PriceCondition>,
    /// The thresholds that close the pocket.
    pub stop_conditions: Vec<StopCondition>,
    /// The interval between two cycles.
    pub frequency: DateDuration,
    /// All base asset ever deposited.
    pub total_base_deposit_amount: u64,
    /// All quote asset ever deposited.
    pub total_quote_deposit_amount: u64,
    /// Base asset held now.
    pub base_token_balance: u64,
    /// Quote asset held now.
    pub quote_token_balance: u64,
    /// Number of cycles carried out.
    pub executed_batch_amount: u64,
    /// The earliest time of the next cycle.
    pub next_scheduled_execution_at: u64,
}

/// The mathematical content of a [`Pocket`]: texts as sequences of characters, amounts,
/// counters and times as integers.
pub struct PocketView {
    pub id: Seq<char>,
    pub bump: u8,
    pub owner: Address,
    pub name: Seq<char>,
    pub status: PocketStatus,
    pub base_token_mint_address: Address,
    pub quote_token_mint_address: Address,
    pub market_key: Address,
    pub batch_volume: int,
    pub start_at: int,
    pub side: TradeSide,
    pub buy_condition: Option<PriceCondition>,
    pub stop_conditions: Seq<StopCondition>,
    pub frequency_hours: int,
    pub total_base_deposit_amount: int,
    pub total_quote_deposit_amount: int,
    pub base_token_balance: int,
    pub quote_token_balance: int,
    pub executed_batch_amount: int,
    pub next_scheduled_execution_at: int,
}

impl View for Pocket {
    type V = PocketView;

    open spec fn view(&self) -> PocketView {
        PocketView {
            id: self.id@,
            bump: self.bump,
            owner: self.owner,
            name: self.name@,
            status: self.status,
            base_token_mint_address: self.base_token_mint_address,
            quote_token_mint_address: self.quote_token_mint_address,
            market_key: self.market_key,
            batch_volume: self.batch_volume as int,
            start_at: self.start_at as int,
            side: self.side,
            buy_condition: self.buy_condition,
            stop_conditions: self.stop_conditions@,
            frequency_hours: self.frequency.hours as int,
            total_base_deposit_amount: self.total_base_deposit_amount as int,
            total_quote_deposit_amount: self.total_quote_deposit_amount as int,
            base_token_balance: self.base_token_balance as int,
            quote_token_balance: self.quote_token_balance as int,
            executed_batch_amount: self.executed_batch_amount as int,
            next_scheduled_execution_at: self.next_scheduled_execution_at as int,
        }
    }
}

impl PocketView {
    /// Neither balance is below zero.
    pub open spec fn balances_non_negative(self) -> bool {
        &&& self.base_token_balance >= 0
        &&& self.quote_token_balance >= 0
    }

    /// Every figure fits a 64-bit unsigned counter.
    pub open spec fn in_range(self) -> bool {
        &&& 0 <= self.batch_volume <= u64::MAX
        &&& 0 <= self.start_at <= u64::MAX
        &&& 0 <= self.frequency_hours <= u64::MAX
        &&& 0 <= self.total_base_deposit_amount <= u64::MAX
        &&& 0 <= self.total_quote_deposit_amount <= u64::MAX
        &&& 0 <= self.base_token_balance <= u64::MAX
        &&& 0 <= self.quote_token_balance <= u64::MAX
        &&& 0 <= self.executed_batch_amount <= u64::MAX
        &&& 0 <= self.next_scheduled_execution_at <= u64::MAX
    }

    /// The figures that stop conditions are measured against at time `now`.
    pub open spec fn progress(self, now: int) -> Progress {
        Progress {
            now,
            base_token_balance: self.base_token_balance,
            quote_token_balance: self.quote_token_balance,
            total_base_deposit_amount: self.total_base_deposit_amount,
            total_quote_deposit_amount: self.total_quote_deposit_amount,
            executed_batch_amount: self.executed_batch_amount,
        }
    }

    /// Deposits are taken until the pocket is closed or withdrawn.
    pub open spec fn able_to_deposit(self) -> bool {
        self.status != PocketStatus::Closed && self.status != PocketStatus::Withdrawn
    }

    /// A pocket can be closed while it is active or paused.
    pub open spec fn able_to_close(self) -> bool {
        self.status == PocketStatus::Active || self.status == PocketStatus::Paused
    }

    /// Funds can be withdrawn once the pocket is closed.
    pub open spec fn able_to_withdraw(self) -> bool {
        self.status == PocketStatus::Closed
    }

    /// Only a paused pocket can be restarted.
    pub open spec fn able_to_restart(self) -> bool {
        self.status == PocketStatus::Paused
    }

    /// Only an active pocket can be paused.
    pub open spec fn able_to_pause(self) -> bool {
        self.status == PocketStatus::Active
    }

    /// The readiness gate: the pocket is active, its activation time has come, and so has
    /// the time of its next cycle.
    pub open spec fn ready_to_swap(self, now: int) -> bool {
        &&& self.status == PocketStatus::Active
        &&& self.start_at <= now
        &&& self.next_scheduled_execution_at <= now
    }

    /// The rules on a configuration that do not depend on the time: texts and addresses are
    /// set, interval and batch volume are positive, the conditions are valid, and at most
    /// one stop condition is primary.
    pub open spec fn configuration_valid(self) -> bool {
        &&& self.name.len() > 0
        &&& self.id.len() > 0
        &&& !self.owner.is_unset()
        &&& !self.base_token_mint_address.is_unset()
        &&& !self.quote_token_mint_address.is_unset()
        &&& !self.market_key.is_unset()
        &&& self.frequency_hours > 0
        &&& self.batch_volume > 0
        &&& (self.buy_condition matches Some(c) ==> c.valid())
        &&& all_valid(self.stop_conditions)
        &&& primary_count(self.stop_conditions) <= 1
    }

    /// What validation at time `now` answers: the first rule broken, in the order in which
    /// the rules are listed on [`ValidationError`], or nothing.
    pub open spec fn validation(self, now: int) -> Result<(), ValidationError> {
        if self.name.len() == 0 {
            Err(ValidationError::PocketNameIsNotValid)
        } else if self.id.len() == 0 {
            Err(ValidationError::PocketIdIsNotValid)
        } else if self.owner.is_unset() {
            Err(ValidationError::OwnerIsNotValid)
        } else if self.base_token_mint_address.is_unset() {
            Err(ValidationError::BaseMintIsNotValid)
        } else if self.quote_token_mint_address.is_unset() {
            Err(ValidationError::QuoteMintIsNotValid)
        } else if self.market_key.is_unset() {
            Err(ValidationError::MarketKeyIsNotValid)
        } else if self.start_at < now {
            Err(ValidationError::TimestampIsNotValid)
        } else if self.frequency_hours <= 0 {
            Err(ValidationError::FrequencyIsNotValid)
        } else if self.batch_volume <= 0 {
            Err(ValidationError::BatchVolumeIsNotValid)
        } else if self.buy_condition is Some && !self.buy_condition->0.valid() {
            Err(ValidationError::BuyConditionIsNotValid)
        } else if !all_valid(self.stop_conditions) {
            Err(ValidationError::StopConditionIsNotValid)
        } else if primary_count(self.stop_conditions) > 1 {
            Err(ValidationError::PrimaryConditionDuplicated)
        } else {
            Ok(())
        }
    }

    /// A well-formed pocket has a valid configuration, figures in range, and, once
    /// withdrawn, no balance left.
    pub open spec fn wf(self) -> bool {
        &&& self.configuration_valid()
        &&& self.in_range()
        &&& (self.status == PocketStatus::Withdrawn ==> self.base_token_balance == 0
            && self.quote_token_balance == 0)
    }
}

impl Default for Pocket {
    /// A blank record: empty texts, all-zero addresses, zero figures, active, buying.
    fn default() -> (r: Pocket)
        ensures
            r@.id.len() == 0,
            r@.name.len() == 0,
            r@.bump == 0,
            r@.owner.is_unset(),
            r@.base_token_mint_address.is_unset(),
            r@.quote_token_mint_address.is_unset(),
            r@.market_key.is_unset(),
            r@.status == PocketStatus::Active,
            r@.side == TradeSide::Buy,
            r@.buy_condition is None,
            r@.stop_conditions.len() == 0,
            r@.batch_volume == 0,
            r@.start_at == 0,
            r@.frequency_hours == 0,
            r@.total_base_deposit_amount == 0,
            r@.total_quote_deposit_amount == 0,
            r@.base_token_balance == 0,
            r@.quote_token_balance == 0,
            r@.executed_batch_amount == 0,
            r@.next_scheduled_execution_at == 0,
    {
        Pocket {
            id: String::new(),
            bump: 0,
            owner: Address::default(),
            name: String::new(),
            status: PocketStatus::Active,
            base_token_mint_address: Address::default(),
            quote_token_mint_address: Address::default(),
            market_key: Address::default(),
            batch_volume: 0,
            start_at: 0,
            side: TradeSide::Buy,
            buy_condition: None,
            stop_conditions: Vec::new(),
            frequency: DateDuration { hours: 0 },
            total_base_deposit_amount: 0,
            total_quote_deposit_amount: 0,
            base_token_balance: 0,
            quote_token_balance: 0,
            executed_batch_amount: 0,
            next_scheduled_execution_at: 0,
        }
    }
}

impl Clone for Pocket {
    fn clone(&self) -> (r: Pocket)
        ensures
            r@ == self@,
    {
        Pocket {
            id: self.id.clone(),
            bump: self.bump,
            owner: self.owner,
            name: self.name.clone(),
            status: self.status,
            base_token_mint_address: self.base_token_mint_address,
            quote_token_mint_address: self.quote_token_mint_address,
            market_key: self.market_key,
            batch_volume: self.batch_volume,
            start_at: self.start_at,
            side: self.side,
            buy_condition: self.buy_condition,
            stop_conditions: copy_of(&self.stop_conditions),
            frequency: self.frequency,
            total_base_deposit_amount: self.total_base_deposit_amount,
            total_quote_deposit_amount: self.total_quote_deposit_amount,
            base_token_balance: self.base_token_balance,
            quote_token_balance: self.quote_token_balance,
            executed_batch_amount: self.executed_batch_amount,
            next_scheduled_execution_at: self.next_scheduled_execution_at,
        }
    }
}

/// Counting the primary flags of a sequence one element further.
pub proof fn lemma_primary_count_step(conditions: Seq<StopCondition>, i: int)
    requires
        0 <= i < conditions.len(),
    ensures
        primary_count(conditions.take(i + 1)) == primary_count(conditions.take(i)) + if conditions[i].primary() {
            1nat
        } else {
            0nat
        },
        primary_count(conditions.take(i)) <= i,
    decreases i,
{
    assert(conditions.take(i + 1).drop_last() =~= conditions.take(i));
    if i > 0 {
        lemma_primary_count_step(conditions, i - 1);
    }
}

impl Pocket {
    /// Whether the pocket still takes deposits.
    pub fn is_able_to_deposit(&self) -> (r: bool)
        ensures
            r == self@.able_to_deposit(),
    {
        self.status != PocketStatus::Closed && self.status != PocketStatus::Withdrawn
    }

    /// Whether the pocket can be closed.
    pub fn is_able_to_close(&self) -> (r: bool)
        ensures
            r == self@.able_to_close(),
    {
        self.status != PocketStatus::Closed && self.status != PocketStatus::Withdrawn
    }

    /// Whether the funds can be withdrawn.
    pub fn is_able_to_withdraw(&self) -> (r: bool)
        ensures
            r == self@.able_to_withdraw(),
    {
        self.status == PocketStatus::Closed
    }

    /// Whether the pocket can be restarted.
    pub fn is_able_to_restart(&self) -> (r: bool)
        ensures
            r == self@.able_to_restart(),
    {
        self.status == PocketStatus::Paused
    }

    /// Whether the pocket can be paused.
    pub fn is_able_to_pause(&self) -> (r: bool)
        ensures
            r == self@.able_to_pause(),
    {
        self.status == PocketStatus::Active
    }

    /// The readiness gate at time `now`.
    pub fn is_ready_to_swap(&self, now: u64) -> (r: bool)
        ensures
            r == self@.ready_to_swap(now as int),
    {
        self.status == PocketStatus::Active && self.start_at <= now
            && self.next_scheduled_execution_at <= now
    }

    /// Validates the configuration at time `now` and names the first rule it breaks.
    pub fn validate_pocket_data(&self, now: u64) -> (r: Result<(), ValidationError>)
        ensures
            r == self@.validation(now as int),
            r is Ok ==> self@.configuration_valid(),
    {
        if self.name.as_str().is_empty() {
            return Err(ValidationError::PocketNameIsNotValid);
        }
        if self.id.as_str().is_empty() {
            return Err(ValidationError::PocketIdIsNotValid);
        }
        if self.owner.is_default() {
            return Err(ValidationError::OwnerIsNotValid);
        }
        if self.base_token_mint_address.is_default() {
            return Err(ValidationError::BaseMintIsNotValid);
        }
        if self.quote_token_mint_address.is_default() {
            return Err(ValidationError::QuoteMintIsNotValid);
        }
        if self.market_key.is_default() {
            return Err(ValidationError::MarketKeyIsNotValid);
        }
        if self.start_at < now {
            return Err(ValidationError::TimestampIsNotValid);
        }
        if self.frequency.hours == 0 {
            return Err(ValidationError::FrequencyIsNotValid);
        }
        if self.batch_volume == 0 {
            return Err(ValidationError::BatchVolumeIsNotValid);
        }
        match &self.buy_condition {
            Some(condition) => {
                if !PriceCondition::is_valid(condition) {
                    return Err(ValidationError::BuyConditionIsNotValid);
                }
            },
            None => {},
        }
        let mut primaries: usize = 0;
        let mut stops_valid = true;
        let mut i: usize = 0;
        while i < self.stop_conditions.len()
            invariant
                i <= self.stop_conditions.len(),
                primaries == primary_count(self.stop_conditions@.take(i as int)),
                primaries <= i,
                stops_valid == all_valid(self.stop_conditions@.take(i as int)),
            decreases self.stop_conditions.len() - i,
        {
            proof {
                lemma_primary_count_step(self.stop_conditions@, i as int);
            }
            if !StopCondition::is_valid(&self.stop_conditions[i]) {
                stops_valid = false;
            }
            if StopCondition::is_primary(&self.stop_conditions[i]) {
                primaries = primaries + 1;
            }
            i += 1;
        }
        assert(self.stop_conditions@.take(i as int) =~= self.stop_conditions@);
        if !stops_valid {
            return Err(ValidationError::StopConditionIsNotValid);
        }
        if primaries > 1 {
            return Err(ValidationError::PrimaryConditionDuplicated);
        }
        Ok(())
    }
}

} // verus!
