use vstd::prelude::*;

verus! {

/// A bound on the amount a swap must bring in for the cycle to be accepted.
#[derive(Clone, Copy, Debug, PartialEq, Eq, Structural)]
pub enum PriceCondition {
    /// Strictly more than `value`.
    Gt { value: u64 },
    /// At least `value`.
    Gte { value: u64 },
    /// Strictly less than `value`.
    Lt { value: u64 },
    /// At most `value`.
    Lte { value: u64 },
    /// Exactly `value`.
    Eq { value: u64 },
    /// Anything but `value`.
    Neq { value: u64 },
    /// Inside the closed range `[from_value, to_value]`.
    Bw { from_value: u64, to_value: u64 },
    /// Outside the closed range `[from_value, to_value]`.
    Nbw { from_value: u64, to_value: u64 },
}

impl PriceCondition {
    /// The smallest amount the condition names.
    pub open spec fn lower(self) -> u64 {
        match self {
            PriceCondition::Gt { value } => value,
            PriceCondition::Gte { value } => value,
            PriceCondition::Lt { value } => value,
            PriceCondition::Lte { value } => value,
            PriceCondition::Eq { value } => value,
            PriceCondition::Neq { value } => value,
            PriceCondition::Bw { from_value, .. } => from_value,
            PriceCondition::Nbw { from_value, .. } => from_value,
        }
    }

    /// The largest amount the condition names.
    pub open spec fn upper(self) -> u64 {
        match self {
            PriceCondition::Bw { to_value, .. } => to_value,
            PriceCondition::Nbw { to_value, .. } => to_value,
            _ => self.lower(),
        }
    }

    /// A condition is valid when its thresholds are positive and, for a range,
    /// the upper end is not below the lower end.
    pub open spec fn valid(self) -> bool {
        0 < self.lower() <= self.upper()
    }

    /// Whether an incoming `amount` meets the condition.
    pub open spec fn accepts(self, amount: u64) -> bool {
        match self {
            PriceCondition::Gt { value } => amount > value,
            PriceCondition::Gte { value } => amount >= value,
            PriceCondition::Lt { value } => amount < value,
            PriceCondition::Lte { value } => amount <= value,
            PriceCondition::Eq { value } => amount == value,
            PriceCondition::Neq { value } => amount != value,
            PriceCondition::Bw { from_value, to_value } => from_value <= amount <= to_value,
            PriceCondition::Nbw { from_value, to_value } => !(from_value <= amount <= to_value),
        }
    }

    /// The placeholder condition `Eq { value: 0 }`. It is not valid.
    pub fn default() -> (r: PriceCondition)
        ensures
            r == (PriceCondition::Eq { value: 0 }),
            !r.valid(),
    {
        PriceCondition::Eq { value: 0 }
    }

    /// Checks the thresholds of `price`.
    pub fn is_valid(price: &PriceCondition) -> (r: bool)
        ensures
            r == price.valid(),
    {
        match price {
            PriceCondition::Gt { value } => *value > 0,
            PriceCondition::Gte { value } => *value > 0,
            PriceCondition::Lt { value } => *value > 0,
            PriceCondition::Lte { value } => *value > 0,
            PriceCondition::Eq { value } => *value > 0,
            PriceCondition::Neq { value } => *value > 0,
            PriceCondition::Bw { from_value, to_value } => *to_value >= *from_value
                && *from_value > 0,
            PriceCondition::Nbw { from_value, to_value } => *to_value >= *from_value
                && *from_value > 0,
        }
    }

    /// Evaluates the condition against the amount a swap brought in.
    pub fn is_fulfilled(&self, amount: u64) -> (r: bool)
        ensures
            r == self.accepts(amount),
    {
        match self {
            PriceCondition::Gt { value } => amount > *value,
            PriceCondition::Gte { value } => amount >= *value,
            PriceCondition::Lt { value } => amount < *value,
            PriceCondition::Lte { value } => amount <= *value,
            PriceCondition::Eq { value } => amount == *value,
            PriceCondition::Neq { value } => amount != *value,
            PriceCondition::Bw { from_value, to_value } => amount <= *to_value && amount
                >= *from_value,
            PriceCondition::Nbw { from_value, to_value } => !(amount <= *to_value && amount
                >= *from_value),
        }
    }
}

/// A threshold that closes the pocket once it is reached.
///
/// `is_primary` marks the condition a client shows as the main progress metric. It plays
/// no part in evaluation.
#[derive(Clone, Copy, Debug, PartialEq, Eq, Structural)]
pub enum StopCondition {
    /// The time `value` has come.
    EndTimeReach { is_primary: bool, value: u64 },
    /// The base balance is at least `value`.
    BaseTokenAmountReach { is_primary: bool, value: u64 },
    /// The quote balance is at least `value`.
    QuoteTokenAmountReach { is_primary: bool, value: u64 },
    /// At least `value` of the deposited base asset has been spent.
    SpentBaseTokenAmountReach { is_primary: bool, value: u64 },
    /// At least `value` of the deposited quote asset has been spent.
    SpentQuoteTokenAmountReach { is_primary: bool, value: u64 },
    /// At least `value` batches have been executed.
    BatchAmountReach { is_primary: bool, value: u64 },
}

/// The runtime figures of a pocket that stop conditions are measured against.
pub struct Progress {
    pub now: int,
    pub base_token_balance: int,
    pub quote_token_balance: int,
    pub total_base_deposit_amount: int,
    pub total_quote_deposit_amount: int,
    pub executed_batch_amount: int,
}

/// `a - b`, or zero where `b` exceeds `a`.
pub open spec fn spent(deposited: int, held: int) -> int {
    if deposited >= held {
        deposited - held
    } else {
        0
    }
}

impl StopCondition {
    /// The threshold the condition carries.
    pub open spec fn threshold(self) -> u64 {
        match self {
            StopCondition::EndTimeReach { value, .. } => value,
            StopCondition::BaseTokenAmountReach { value, .. } => value,
            StopCondition::QuoteTokenAmountReach { value, .. } => value,
            StopCondition::SpentBaseTokenAmountReach { value, .. } => value,
            StopCondition::SpentQuoteTokenAmountReach { value, .. } => value,
            StopCondition::BatchAmountReach { value, .. } => value,
        }
    }

    /// The primary flag the condition carries.
    pub open spec fn primary(self) -> bool {
        match self {
            StopCondition::EndTimeReach { is_primary, .. } => is_primary,
            StopCondition::BaseTokenAmountReach { is_primary, .. } => is_primary,
            StopCondition::QuoteTokenAmountReach { is_primary, .. } => is_primary,
            StopCondition::SpentBaseTokenAmountReach { is_primary, .. } => is_primary,
            StopCondition::SpentQuoteTokenAmountReach { is_primary, .. } => is_primary,
            StopCondition::BatchAmountReach { is_primary, .. } => is_primary,
        }
    }

    /// A stop condition is valid when its threshold is positive.
    pub open spec fn valid(self) -> bool {
        self.threshold() > 0
    }

    /// The figure of `progress` that the condition watches.
    pub open spec fn measured(self, progress: Progress) -> int {
        match self {
            StopCondition::EndTimeReach { .. } => progress.now,
            StopCondition::BaseTokenAmountReach { .. } => progress.base_token_balance,
            StopCondition::QuoteTokenAmountReach { .. } => progress.quote_token_balance,
            StopCondition::SpentBaseTokenAmountReach { .. } => spent(
                progress.total_base_deposit_amount,
                progress.base_token_balance,
            ),
            StopCondition::SpentQuoteTokenAmountReach { .. } => spent(
                progress.total_quote_deposit_amount,
                progress.quote_token_balance,
            ),
            StopCondition::BatchAmountReach { .. } => progress.executed_batch_amount,
        }
    }

    /// The condition is reached when the watched figure is at least the threshold.
    pub open spec fn reached(self, progress: Progress) -> bool {
        self.threshold() <= self.measured(progress)
    }

    /// The placeholder condition: a primary end time of zero. It is not valid.
    pub fn default() -> (r: StopCondition)
        ensures
            r == (StopCondition::EndTimeReach { is_primary: true, value: 0 }),
            !r.valid(),
    {
        StopCondition::EndTimeReach { is_primary: true, value: 0 }
    }

    /// Checks the threshold of `stop_condition`.
    pub fn is_valid(stop_condition: &StopCondition) -> (r: bool)
        ensures
            r == stop_condition.valid(),
    {
        match stop_condition {
            StopCondition::EndTimeReach { value, .. } => *value > 0,
            StopCondition::BaseTokenAmountReach { value, .. } => *value > 0,
            StopCondition::QuoteTokenAmountReach { value, .. } => *value > 0,
            StopCondition::BatchAmountReach { value, .. } => *value > 0,
            StopCondition::SpentBaseTokenAmountReach { value, .. } => *value > 0,
            StopCondition::SpentQuoteTokenAmountReach { value, .. } => *value > 0,
        }
    }

    /// Reads the primary flag of `stop_condition`.
    pub fn is_primary(stop_condition: &StopCondition) -> (r: bool)
        ensures
            r == stop_condition.primary(),
    {
        match stop_condition {
            StopCondition::EndTimeReach { is_primary, .. } => *is_primary,
            StopCondition::BaseTokenAmountReach { is_primary, .. } => *is_primary,
            StopCondition::QuoteTokenAmountReach { is_primary, .. } => *is_primary,
            StopCondition::BatchAmountReach { is_primary, .. } => *is_primary,
            StopCondition::SpentBaseTokenAmountReach { is_primary, .. } => *is_primary,
            StopCondition::SpentQuoteTokenAmountReach { is_primary, .. } => *is_primary,
        }
    }
}

/// How many of the conditions carry the primary flag.
pub open spec fn primary_count(conditions: Seq<StopCondition>) -> nat
    decreases conditions.len(),
{
    if conditions.len() == 0 {
        0
    } else {
        primary_count(conditions.drop_last()) + if conditions.last().primary() {
            1nat
        } else {
            0nat
        }
    }
}

/// Whether at least one of the conditions is reached.
pub open spec fn any_reached(conditions: Seq<StopCondition>, progress: Progress) -> bool {
    exists|i: int| 0 <= i < conditions.len() && (#[trigger] conditions[i]).reached(progress)
}

/// Whether every one of the conditions is valid.
pub open spec fn all_valid(conditions: Seq<StopCondition>) -> bool {
    forall|i: int| 0 <= i < conditions.len() ==> (#[trigger] conditions[i]).valid()
}

} // verus!
