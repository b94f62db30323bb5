use crate::address::Address;
use crate::error::PocketError;
use crate::event::{PocketUpdated, UpdateReason};
use crate::state::condition::{any_reached, StopCondition};
use crate::state::pocket::{Pocket, PocketStatus, PocketView, TradeSide};
use crate::state::registry::{PocketPlatformRegistry, PocketPlatformRegistryView};
use crate::swap::{
    measurable, measured_swap, swap, swap_outcome, DidSwap, ExchangeRate, NewOrder, Side, Swap,
};
use vstd::arithmetic::power::lemma_pow0;
use vstd::prelude::*;

verus! {

/// Seconds in one hour.
pub const SECONDS_PER_HOUR: u64 = 3600;

/// What a cycle works on: the operator who triggers it, the pocket, and the registry.
#[derive(Debug, PartialEq, Eq)]
pub struct ExecuteSwapContext {
    /// Who triggers the cycle.
    pub signer: Address,
    /// The address of the pocket.
    pub pocket_address: Address,
    /// The pocket.
    pub pocket: Pocket,
    /// The registry.
    pub pocket_registry: PocketPlatformRegistry,
}

/// The mathematical content of an [`ExecuteSwapContext`].
pub struct ExecuteSwapContextView {
    pub signer: Address,
    pub pocket_address: Address,
    pub pocket: PocketView,
    pub pocket_registry: PocketPlatformRegistryView,
}

impl View for ExecuteSwapContext {
    type V = ExecuteSwapContextView;

    open spec fn view(&self) -> ExecuteSwapContextView {
        ExecuteSwapContextView {
            signer: self.signer,
            pocket_address: self.pocket_address,
            pocket: self.pocket@,
            pocket_registry: self.pocket_registry@,
        }
    }
}

/// The rate under which a cycle trades: it asks for no minimum.
pub open spec fn no_minimum_rate() -> ExchangeRate {
    ExchangeRate { rate: 0, from_decimals: 0, quote_decimals: 0, strict: false }
}

impl PocketView {
    /// The side of the order that a cycle places: a buying pocket bids, a selling one asks.
    pub open spec fn order_side(self) -> Side {
        match self.side {
            TradeSide::Buy => Side::Bid,
            TradeSide::Sell => Side::Ask,
        }
    }

    /// The balance of the asset that the pocket pays with: quote when buying, base when
    /// selling.
    pub open spec fn paying_balance(self) -> int {
        match self.side {
            TradeSide::Buy => self.quote_token_balance,
            TradeSide::Sell => self.base_token_balance,
        }
    }

    /// The amount that a cycle offers: the batch volume, or the whole paying balance where
    /// that is less.
    pub open spec fn amount_to_swap(self) -> int {
        if self.batch_volume <= self.paying_balance() {
            self.batch_volume
        } else {
            self.paying_balance()
        }
    }

    /// Whether the buy condition, if there is one, accepts what the swap brought in.
    pub open spec fn accepts_swap(self, did_swap: DidSwap) -> bool {
        self.buy_condition matches Some(condition) ==> condition.accepts(did_swap.to_amount)
    }

    /// The pocket after the swap is booked at time `now`: what came in is added, what
    /// went out is taken off, the next cycle is due one interval later, and one more
    /// batch is counted.
    pub open spec fn booked(self, did_swap: DidSwap, now: int) -> PocketView {
        let next = now + self.frequency_hours * SECONDS_PER_HOUR;
        match self.side {
            TradeSide::Buy => PocketView {
                base_token_balance: self.base_token_balance + did_swap.to_amount,
                quote_token_balance: self.quote_token_balance - did_swap.from_amount,
                next_scheduled_execution_at: next,
                executed_batch_amount: self.executed_batch_amount + 1,
                ..self
            },
            TradeSide::Sell => PocketView {
                base_token_balance: self.base_token_balance - did_swap.from_amount,
                quote_token_balance: self.quote_token_balance + did_swap.to_amount,
                next_scheduled_execution_at: next,
                executed_batch_amount: self.executed_batch_amount + 1,
                ..self
            },
        }
    }

    /// Whether one of the stop conditions is reached at time `now`.
    pub open spec fn should_stop(self, now: int) -> bool {
        any_reached(self.stop_conditions, self.progress(now))
    }

    /// The pocket after its stop conditions are looked at: closed where one is reached,
    /// else as it was.
    pub open spec fn stopped(self, now: int) -> PocketView {
        if self.should_stop(now) {
            PocketView { status: PocketStatus::Closed, ..self }
        } else {
            self
        }
    }

    /// What the end of a cycle comes to at time `now`, the swap being done. In this order:
    /// the pocket must still be ready; the buy condition must accept what came in; the
    /// swap is booked, which must leave every figure in range; and the stop conditions
    /// are looked at on the figures as booked. A refusal at any step leaves the pocket as
    /// it was.
    pub open spec fn integrity(self, did_swap: DidSwap, now: int) -> Result<PocketView, PocketError> {
        if !self.ready_to_swap(now) {
            Err(PocketError::NotReadyToSwap)
        } else if !self.accepts_swap(did_swap) {
            Err(PocketError::BuyConditionNotFulfilled)
        } else if !self.booked(did_swap, now).in_range() {
            Err(PocketError::SystemError)
        } else {
            Ok(self.booked(did_swap, now).stopped(now))
        }
    }
}

impl ExecuteSwapContextView {
    /// The notification that goes with the end of a cycle, `pocket` being the pocket as
    /// booked: one, naming the operator, where a stop condition closes the pocket; none
    /// otherwise.
    pub open spec fn stop_notice(self, pocket: PocketView, now: int) -> Option<PocketUpdated> {
        if pocket.should_stop(now) {
            Some(
                PocketUpdated {
                    actor: self.signer,
                    pocket_address: self.pocket_address,
                    status: PocketStatus::Closed,
                    memo: UpdateReason::StopConditionReached,
                },
            )
        } else {
            None
        }
    }
}

impl ExecuteSwapContext {

    /// The side and the amount of the order that a cycle places.
    pub fn plan_swap(&self) -> (r: (Side, u64))
        ensures
            r.0 == self.pocket@.order_side(),
            r.1 == self.pocket@.amount_to_swap(),
    {
        match self.pocket.side {
            TradeSide::Buy => {
                if self.pocket.batch_volume <= self.pocket.quote_token_balance {
                    (Side::Bid, self.pocket.batch_volume)
                } else {
                    (Side::Bid, self.pocket.quote_token_balance)
                }
            },
            TradeSide::Sell => {
                if self.pocket.batch_volume <= self.pocket.base_token_balance {
                    (Side::Ask, self.pocket.batch_volume)
                } else {
                    (Side::Ask, self.pocket.base_token_balance)
                }
            },
        }
    }

    /// Ends a cycle at time `now`, the swap being done: checks the outcome against the
    /// pocket's rules, books it, and closes the pocket where a stop condition is reached.
    /// Either all of this happens or none of it.
    pub fn ensure_pocket_integrity(&mut self, did_swap: &DidSwap, now: u64) -> (r: Result<
        Option<PocketUpdated>,
        PocketError,
    >)
        ensures
            old(self).pocket@.wf() ==> final(self).pocket@.wf(),
            final(self).pocket@.executed_batch_amount >= old(self).pocket@.executed_batch_amount,
            final(self).signer == old(self).signer,
            final(self).pocket_address == old(self).pocket_address,
            final(self).pocket_registry@ == old(self).pocket_registry@,
            match old(self).pocket@.integrity(*did_swap, now as int) {
                Ok(pocket) => final(self).pocket@ == pocket && r == Ok::<
                    Option<PocketUpdated>,
                    PocketError,
                >(old(self)@.stop_notice(old(self).pocket@.booked(*did_swap, now as int), now as int)),
                Err(e) => final(self).pocket@ == old(self).pocket@ && r == Err::<
                    Option<PocketUpdated>,
                    PocketError,
                >(e),
            },
    {
        match self.check_for_swap_possibility(did_swap, now) {
            Err(e) => {
                return Err(e);
            },
            Ok(_) => {},
        }
        match self.update_pocket_info(did_swap, now) {
            Err(e) => {
                return Err(e);
            },
            Ok(_) => {},
        }
        Ok(self.update_pocket_status(now))
    }

    /// Looks at the swap before anything is booked: the pocket must be ready at time
    /// `now`, and its buy condition, if any, must accept what came in.
    fn check_for_swap_possibility(&self, did_swap: &DidSwap, now: u64) -> (r: Result<
        (),
        PocketError,
    >)
        ensures
            !self.pocket@.ready_to_swap(now as int) ==> r == Err::<(), PocketError>(
                PocketError::NotReadyToSwap,
            ),
            self.pocket@.ready_to_swap(now as int) && !self.pocket@.accepts_swap(*did_swap) ==> r
                == Err::<(), PocketError>(PocketError::BuyConditionNotFulfilled),
            self.pocket@.ready_to_swap(now as int) && self.pocket@.accepts_swap(*did_swap) ==> r
                is Ok,
    {
        if !self.pocket.is_ready_to_swap(now) {
            return Err(PocketError::NotReadyToSwap);
        }
        match &self.pocket.buy_condition {
            None => {},
            Some(condition) => {
                if !condition.is_fulfilled(did_swap.to_amount) {
                    return Err(PocketError::BuyConditionNotFulfilled);
                }
            },
        }
        Ok(())
    }

    /// Books the swap at time `now`. Nothing is booked where a figure would leave its range.
    fn update_pocket_info(&mut self, did_swap: &DidSwap, now: u64) -> (r: Result<(), PocketError>)
        ensures
            final(self).signer == old(self).signer,
            final(self).pocket_address == old(self).pocket_address,
            final(self).pocket_registry@ == old(self).pocket_registry@,
            old(self).pocket@.booked(*did_swap, now as int).in_range() ==> r is Ok && final(self).pocket@ == old(self).pocket@.booked(*did_swap, now as int),
            !old(self).pocket@.booked(*did_swap, now as int).in_range() ==> r == Err::<
                (),
                PocketError,
            >(PocketError::SystemError) && final(self).pocket@ == old(self).pocket@,
    {
        let (paying, receiving) = match self.pocket.side {
            TradeSide::Buy => (self.pocket.quote_token_balance, self.pocket.base_token_balance),
            TradeSide::Sell => (self.pocket.base_token_balance, self.pocket.quote_token_balance),
        };
        let paid = paying.checked_sub(did_swap.from_amount);
        let received = receiving.checked_add(did_swap.to_amount);
        let interval = self.pocket.frequency.hours.checked_mul(SECONDS_PER_HOUR);
        let next = match interval {
            Some(seconds) => now.checked_add(seconds),
            None => None,
        };
        let executed = self.pocket.executed_batch_amount.checked_add(1);
        match (paid, received, next, executed) {
            (Some(paid), Some(received), Some(next), Some(executed)) => {
                match self.pocket.side {
                    TradeSide::Buy => {
                        self.pocket.base_token_balance = received;
                        self.pocket.quote_token_balance = paid;
                    },
                    TradeSide::Sell => {
                        self.pocket.base_token_balance = paid;
                        self.pocket.quote_token_balance = received;
                    },
                }
                self.pocket.next_scheduled_execution_at = next;
                self.pocket.executed_batch_amount = executed;
                Ok(())
            },
            _ => Err(PocketError::SystemError),
        }
    }

    /// Closes the pocket where one of its stop conditions is reached at time `now`, and
    /// says so in a notification.
    fn update_pocket_status(&mut self, now: u64) -> (r: Option<PocketUpdated>)
        ensures
            final(self).signer == old(self).signer,
            final(self).pocket_address == old(self).pocket_address,
            final(self).pocket_registry@ == old(self).pocket_registry@,
            final(self).pocket@ == old(self).pocket@.stopped(now as int),
            r == old(self)@.stop_notice(old(self).pocket@, now as int),
    {
        let mut should_stop = false;
        let mut i: usize = 0;
        let ghost progress = self.pocket@.progress(now as int);
        while i < self.pocket.stop_conditions.len()
            invariant_except_break
                !should_stop,
                forall|j: int|
                    0 <= j < i ==> !(#[trigger] self.pocket.stop_conditions@[j]).reached(progress),
            invariant
                i <= self.pocket.stop_conditions.len(),
                progress == self.pocket@.progress(now as int),
            ensures
                should_stop == any_reached(self.pocket.stop_conditions@, progress),
            decreases self.pocket.stop_conditions.len() - i,
        {
            let reached = match self.pocket.stop_conditions[i] {
                StopCondition::EndTimeReach { value, .. } => value <= now,
                StopCondition::BaseTokenAmountReach { value, .. } => value
                    <= self.pocket.base_token_balance,
                StopCondition::QuoteTokenAmountReach { value, .. } => value
                    <= self.pocket.quote_token_balance,
                StopCondition::SpentBaseTokenAmountReach { value, .. } => value
                    <= self.pocket.total_base_deposit_amount.saturating_sub(
                    self.pocket.base_token_balance,
                ),
                StopCondition::SpentQuoteTokenAmountReach { value, .. } => value
                    <= self.pocket.total_quote_deposit_amount.saturating_sub(
                    self.pocket.quote_token_balance,
                ),
                StopCondition::BatchAmountReach { value, .. } => value
                    <= self.pocket.executed_batch_amount,
            };
            if reached {
                assert(self.pocket.stop_conditions@[i as int].reached(progress));
                should_stop = true;
                break ;
            }
            i += 1;
        }
        if should_stop {
            self.pocket.status = PocketStatus::Closed;
            Some(
                PocketUpdated {
                    actor: self.signer,
                    pocket_address: self.pocket_address,
                    status: PocketStatus::Closed,
                    memo: UpdateReason::StopConditionReached,
                },
            )
        } else {
            None
        }
    }
}

/// How far a cycle has come.
#[derive(Clone, Copy, Debug, PartialEq, Eq)]
pub enum CycleState {
    /// Nothing has happened yet.
    Idle,
    /// The order is sized, and the custody accounts are being sampled before it goes out.
    Sampling { side: Side, amount: u64 },
    /// The order is with the venue.
    Placing { side: Side, amount: u64, before: Swap },
    /// The venue is settling.
    Settling { side: Side, amount: u64, before: Swap },
    /// The custody accounts are being sampled after settlement.
    Measuring { side: Side, amount: u64, before: Swap },
    /// The cycle is over.
    Done,
}

/// What the host reports to a cycle.
#[derive(Clone, Copy, Debug, PartialEq, Eq)]
pub enum CycleEvent {
    /// An operator asks for a cycle.
    Triggered,
    /// The custody accounts were sampled.
    Sampled(Swap),
    /// The venue took the order.
    OrderPlaced,
    /// The venue settled.
    FundsSettled,
    /// A call to the venue failed.
    VenueFailed,
}

/// What a cycle asks of the host next.
#[derive(Clone, Copy, Debug, PartialEq, Eq)]
pub enum CycleAction {
    /// Sample the custody accounts and report them.
    Sample,
    /// Hand this order to the venue.
    PlaceOrder(NewOrder),
    /// Have the venue settle.
    Settle,
    /// The cycle succeeded and is booked: publish the swap and the notification, if any.
    Commit { did_swap: DidSwap, notice: Option<PocketUpdated> },
    /// The cycle failed. The pocket is as it was.
    Abort(PocketError),
}

/// Where a step of a cycle leads: the pocket after it, the state after it, and what the
/// host is asked to do.
pub struct CycleOutcome {
    pub pocket: PocketView,
    pub state: CycleState,
    pub action: CycleAction,
}

impl ExecuteSwapContextView {
    /// The cycle ends with `error`, and the pocket stays as it is.
    pub open spec fn aborted(self, error: PocketError) -> CycleOutcome {
        CycleOutcome { pocket: self.pocket, state: CycleState::Done, action: CycleAction::Abort(error) }
    }

    /// The cycle goes on to `state`, asking for `action`, and the pocket stays as it is.
    pub open spec fn proceeding(self, state: CycleState, action: CycleAction) -> CycleOutcome {
        CycleOutcome { pocket: self.pocket, state, action }
    }

    /// The start of a cycle at time `now`: only an operator may trigger it, and only on a
    /// pocket that is ready; then the order is sized and the first sample asked for.
    pub open spec fn triggered(self, now: int) -> CycleOutcome {
        if !self.pocket_registry.has_operator(self.signer) {
            self.aborted(PocketError::OnlyOperator)
        } else if !self.pocket.ready_to_swap(now) {
            self.aborted(PocketError::NotReadyToSwap)
        } else {
            self.proceeding(
                CycleState::Sampling {
                    side: self.pocket.order_side(),
                    amount: self.pocket.amount_to_swap() as u64,
                },
                CycleAction::Sample,
            )
        }
    }

    /// The first sample has come: the two custody accounts must hold different assets,
    /// and the sized amount must make an order that the venue takes.
    pub open spec fn sampled_before(self, side: Side, amount: u64, before: Swap) -> CycleOutcome {
        if !before.assets_differ() {
            self.aborted(PocketError::Swap(crate::error::ErrorCode::SwapTokensCannotMatch))
        } else {
            match NewOrder::offering(side, before.market.coin_lot_size, amount) {
                None => self.aborted(PocketError::SystemError),
                Some(order) => self.proceeding(
                    CycleState::Placing { side, amount, before },
                    CycleAction::PlaceOrder(order),
                ),
            }
        }
    }

    /// The second sample has come, at time `now`: the swap is measured as the difference
    /// of the two samples, judged, and booked on the pocket. Samples that do not fit
    /// together end the cycle, as does any refusal; the pocket changes only where the
    /// cycle is committed.
    pub open spec fn sampled_after(
        self,
        side: Side,
        amount: u64,
        before: Swap,
        after: Swap,
        now: int,
    ) -> CycleOutcome {
        if !before.assets_differ() {
            self.aborted(PocketError::Swap(crate::error::ErrorCode::SwapTokensCannotMatch))
        } else if !measurable(before, after, side) {
            self.aborted(PocketError::SystemError)
        } else {
            match swap_outcome(before, after, side, amount, no_minimum_rate()) {
                Err(e) => self.aborted(PocketError::Swap(e)),
                Ok(did_swap) => match self.pocket.integrity(did_swap, now) {
                    Err(e) => self.aborted(e),
                    Ok(pocket) => CycleOutcome {
                        pocket,
                        state: CycleState::Done,
                        action: CycleAction::Commit {
                            did_swap,
                            notice: self.stop_notice(self.pocket.booked(did_swap, now), now),
                        },
                    },
                },
            }
        }
    }

    /// One step of a cycle: from the state the cycle is in and what the host reports at
    /// time `now` to the state it is in next and what the host is asked to do. A report
    /// that the state does not wait for, and a failed call to the venue, end the cycle.
    pub open spec fn cycle_step(self, state: CycleState, event: CycleEvent, now: int) -> CycleOutcome {
        match (state, event) {
            (CycleState::Idle, CycleEvent::Triggered) => self.triggered(now),
            (CycleState::Sampling { side, amount }, CycleEvent::Sampled(before)) => self.sampled_before(
                side,
                amount,
                before,
            ),
            (CycleState::Placing { side, amount, before }, CycleEvent::OrderPlaced) => self.proceeding(
                CycleState::Settling { side, amount, before },
                CycleAction::Settle,
            ),
            (CycleState::Settling { side, amount, before }, CycleEvent::FundsSettled) => self.proceeding(
                CycleState::Measuring { side, amount, before },
                CycleAction::Sample,
            ),
            (
                CycleState::Measuring { side, amount, before },
                CycleEvent::Sampled(after),
            ) => self.sampled_after(side, amount, before, after, now),
            _ => self.aborted(PocketError::SystemError),
        }
    }
}

/// A swap at the rate that asks for no minimum can always be judged.
pub proof fn lemma_no_minimum_rate_is_defined(before: Swap, after: Swap, side: Side, amount: u64)
    ensures
        measured_swap(before, after, side, amount, no_minimum_rate()).risk_checks_defined(),
        measured_swap(before, after, side, amount, no_minimum_rate()).min_expected_amount() == 0,
{
    let d = measured_swap(before, after, side, amount, no_minimum_rate());
    lemma_pow0(10);
    assert(d.from_amount * 0 * 1 == 0) by (nonlinear_arith);
    assert(d.to_amount * 1 * 1 == d.to_amount) by (nonlinear_arith);
}

/// Carries a cycle one step further at time `now`. The host starts a cycle in the state
/// `Idle` with the report `Triggered`, does what each answer asks, and reports back, until
/// the answer is `Commit` or `Abort`. The pocket is written in the step that answers
/// `Commit` and in no other.
pub fn handle_execute_swap(
    ctx: &mut ExecuteSwapContext,
    state: CycleState,
    event: CycleEvent,
    now: u64,
) -> (r: (CycleState, CycleAction))
    ensures
        old(ctx).pocket@.wf() ==> final(ctx).pocket@.wf(),
        final(ctx).pocket@.executed_batch_amount >= old(ctx).pocket@.executed_batch_amount,
        final(ctx)@ == (ExecuteSwapContextView {
            pocket: old(ctx)@.cycle_step(state, event, now as int).pocket,
            ..old(ctx)@
        }),
        r.0 == old(ctx)@.cycle_step(state, event, now as int).state,
        r.1 == old(ctx)@.cycle_step(state, event, now as int).action,
{
    match (state, event) {
        (CycleState::Idle, CycleEvent::Triggered) => {
            if !ctx.pocket_registry.is_operator(ctx.signer) {
                return (CycleState::Done, CycleAction::Abort(PocketError::OnlyOperator));
            }
            if !ctx.pocket.is_ready_to_swap(now) {
                return (CycleState::Done, CycleAction::Abort(PocketError::NotReadyToSwap));
            }
            let (side, amount) = ctx.plan_swap();
            (CycleState::Sampling { side, amount }, CycleAction::Sample)
        },
        (CycleState::Sampling { side, amount }, CycleEvent::Sampled(before)) => {
            match crate::swap::is_valid_swap(&before) {
                Err(e) => {
                    return (CycleState::Done, CycleAction::Abort(PocketError::Swap(e)));
                },
                Ok(_) => {},
            }
            let order = match side {
                Side::Bid => NewOrder::buy(amount),
                Side::Ask => NewOrder::sell(&before.market, amount),
            };
            match order {
                None => (CycleState::Done, CycleAction::Abort(PocketError::SystemError)),
                Some(order) => (
                    CycleState::Placing { side, amount, before },
                    CycleAction::PlaceOrder(order),
                ),
            }
        },
        (CycleState::Placing { side, amount, before }, CycleEvent::OrderPlaced) => (
            CycleState::Settling { side, amount, before },
            CycleAction::Settle,
        ),
        (CycleState::Settling { side, amount, before }, CycleEvent::FundsSettled) => (
            CycleState::Measuring { side, amount, before },
            CycleAction::Sample,
        ),
        (CycleState::Measuring { side, amount, before }, CycleEvent::Sampled(after)) => {
            match crate::swap::is_valid_swap(&before) {
                Err(e) => {
                    return (CycleState::Done, CycleAction::Abort(PocketError::Swap(e)));
                },
                Ok(_) => {},
            }
            if !crate::swap::is_measurable(&before, &after, side) {
                return (CycleState::Done, CycleAction::Abort(PocketError::SystemError));
            }
            proof {
                lemma_no_minimum_rate_is_defined(before, after, side, amount);
            }
            let rate = ExchangeRate { rate: 0, from_decimals: 0, quote_decimals: 0, strict: false };
            match swap(&before, &after, side, amount, rate) {
                Err(e) => (CycleState::Done, CycleAction::Abort(PocketError::Swap(e))),
                Ok(did_swap) => match ctx.ensure_pocket_integrity(&did_swap, now) {
                    Err(e) => (CycleState::Done, CycleAction::Abort(e)),
                    Ok(notice) => (CycleState::Done, CycleAction::Commit { did_swap, notice }),
                },
            }
        },
        _ => (CycleState::Done, CycleAction::Abort(PocketError::SystemError)),
    }
}

} // verus!
