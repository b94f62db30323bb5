use crate::action::deposit::DepositedTokenType;
use crate::action::execute_swap::{CycleAction, CycleEvent, CycleState, ExecuteSwapContextView};
use crate::address::Address;
use crate::error::PocketError;
use crate::state::condition::{all_valid, primary_count, StopCondition};
use crate::state::pocket::{PocketStatus, PocketView};
use crate::swap::DidSwap;
use vstd::prelude::*;

verus! {

/// An operation on a pocket, with what it is given.
pub enum Operation {
    /// `actor` asks for the status `target`.
    UpdateStatus { actor: Address, target: PocketStatus },
    /// `actor` deposits `amount` of one asset.
    Deposit { actor: Address, mode: DepositedTokenType, amount: u64 },
    /// `actor` withdraws the funds.
    Withdraw { actor: Address },
    /// A cycle ends at time `now` with the swap `did_swap`.
    Cycle { did_swap: DidSwap, now: u64 },
}

impl PocketView {
    /// What `operation` comes to on this pocket: the pocket after it, or why it is refused.
    pub open spec fn outcome(self, operation: Operation) -> Result<PocketView, PocketError> {
        match operation {
            Operation::UpdateStatus { actor, target } => self.update_status(actor, target),
            Operation::Deposit { actor, mode, amount } => self.deposit(actor, mode, amount as int),
            Operation::Withdraw { actor } => self.withdraw(actor),
            Operation::Cycle { did_swap, now } => self.integrity(did_swap, now as int),
        }
    }

    /// The pocket after `operation`: changed as the operation says where it succeeds, and
    /// as it was where it is refused.
    pub open spec fn after(self, operation: Operation) -> PocketView {
        match self.outcome(operation) {
            Ok(pocket) => pocket,
            Err(_) => self,
        }
    }
}

/// Balances are never negative: after any operation on a pocket whose figures are in
/// range, succeeding or not, both balances are zero or more and every figure is still in
/// range.
pub proof fn law_balances_never_negative(pocket: PocketView, operation: Operation)
    requires
        pocket.in_range(),
    ensures
        pocket.after(operation).balances_non_negative(),
        pocket.after(operation).in_range(),
{
}

/// The count of executed batches never goes down: no operation lowers it, a cycle that
/// succeeds raises it by one, and so it does not go down over two operations in a row.
pub proof fn law_executed_batches_never_decrease(
    pocket: PocketView,
    first: Operation,
    second: Operation,
)
    ensures
        pocket.after(first).executed_batch_amount >= pocket.executed_batch_amount,
        pocket.after(first).after(second).executed_batch_amount >= pocket.after(
            first,
        ).executed_batch_amount,
        first is Cycle && pocket.outcome(first) is Ok ==> pocket.after(first).executed_batch_amount
            == pocket.executed_batch_amount + 1,
        !(first is Cycle) ==> pocket.after(first).executed_batch_amount
            == pocket.executed_batch_amount,
{
}

/// A withdrawn pocket is final: every operation on it is refused and leaves it as it is,
/// balances and status included.
pub proof fn law_withdrawn_is_final(pocket: PocketView, operation: Operation)
    requires
        pocket.status == PocketStatus::Withdrawn,
    ensures
        pocket.outcome(operation) is Err,
        pocket.after(operation) == pocket,
{
}

/// No cycle starts on a pocket that is not active, whoever triggers it and whenever: the
/// answer is a refusal, and the pocket stays as it is.
pub proof fn law_no_cycle_unless_active(context: ExecuteSwapContextView, now: int)
    requires
        context.pocket.status != PocketStatus::Active,
    ensures
        context.cycle_step(CycleState::Idle, CycleEvent::Triggered, now).action is Abort,
        context.cycle_step(CycleState::Idle, CycleEvent::Triggered, now).state == CycleState::Done,
        context.cycle_step(CycleState::Idle, CycleEvent::Triggered, now).pocket == context.pocket,
        context.pocket_registry.has_operator(context.signer) ==> context.cycle_step(
            CycleState::Idle,
            CycleEvent::Triggered,
            now,
        ).action == CycleAction::Abort(PocketError::NotReadyToSwap),
{
}

/// A step of a cycle writes the pocket only where it commits: the answer `Commit` goes
/// with the pocket as the end of the cycle books it, and every other answer with the
/// pocket as it was.
pub proof fn law_cycle_writes_on_commit_only(
    context: ExecuteSwapContextView,
    state: CycleState,
    event: CycleEvent,
    now: int,
)
    ensures
        match context.cycle_step(state, event, now).action {
            CycleAction::Commit { did_swap, notice } => context.pocket.integrity(did_swap, now) == Ok::<
                PocketView,
                PocketError,
            >(context.cycle_step(state, event, now).pocket) && did_swap.to_amount > 0,
            _ => context.cycle_step(state, event, now).pocket == context.pocket,
        },
{
}

/// A cycle that reaches a stop condition closes the pocket in that same cycle, and the
/// next cycle that an operator triggers is refused as not ready.
pub proof fn law_stop_condition_closes_within_the_cycle(
    context: ExecuteSwapContextView,
    did_swap: DidSwap,
    now: int,
    later: int,
)
    requires
        context.pocket.integrity(did_swap, now) is Ok,
        context.pocket.booked(did_swap, now).should_stop(now),
        context.pocket_registry.has_operator(context.signer),
    ensures
        context.pocket.integrity(did_swap, now)->Ok_0.status == PocketStatus::Closed,
        (ExecuteSwapContextView {
            pocket: context.pocket.integrity(did_swap, now)->Ok_0,
            ..context
        }).cycle_step(CycleState::Idle, CycleEvent::Triggered, later).action == CycleAction::Abort(
            PocketError::NotReadyToSwap,
        ),
{
}

/// Two conditions flagged primary make a count of two or more.
pub proof fn lemma_two_primaries_counted(conditions: Seq<StopCondition>, i: int, j: int)
    requires
        0 <= i < j < conditions.len(),
        conditions[i].primary(),
        conditions[j].primary(),
    ensures
        primary_count(conditions) >= 2,
    decreases conditions.len(),
{
    let rest = conditions.drop_last();
    if j == conditions.len() - 1 {
        lemma_one_primary_counted(rest, i);
    } else {
        lemma_two_primaries_counted(rest, i, j);
    }
}

/// One condition flagged primary makes a count of one or more.
pub proof fn lemma_one_primary_counted(conditions: Seq<StopCondition>, i: int)
    requires
        0 <= i < conditions.len(),
        conditions[i].primary(),
    ensures
        primary_count(conditions) >= 1,
    decreases conditions.len(),
{
    if i < conditions.len() - 1 {
        lemma_one_primary_counted(conditions.drop_last(), i);
    }
}

/// At most one stop condition is primary in a configuration that validation accepts: a
/// configuration in which two stop conditions carry the flag is rejected, whatever else
/// it holds.
pub proof fn law_second_primary_is_rejected(pocket: PocketView, now: int, i: int, j: int)
    requires
        0 <= i < j < pocket.stop_conditions.len(),
        pocket.stop_conditions[i].primary(),
        pocket.stop_conditions[j].primary(),
    ensures
        pocket.validation(now) is Err,
        !pocket.configuration_valid(),
{
    lemma_two_primaries_counted(pocket.stop_conditions, i, j);
}

/// What validation accepts is a valid configuration, with at most one primary stop
/// condition; and a valid configuration is accepted unless its activation time has passed.
pub proof fn law_validation_accepts_valid_configurations(pocket: PocketView, now: int)
    ensures
        pocket.validation(now) is Ok ==> pocket.configuration_valid() && primary_count(
            pocket.stop_conditions,
        ) <= 1 && all_valid(pocket.stop_conditions),
        pocket.validation(now) is Ok <==> pocket.configuration_valid() && pocket.start_at >= now,
{
}

/// Pausing and restarting comes back to where it started: on a pocket that is active or
/// paused, the owner asking for active, then paused, then active again leaves the pocket
/// active with nothing else changed.
pub proof fn law_pause_restart_round_trip(pocket: PocketView)
    requires
        pocket.status == PocketStatus::Active || pocket.status == PocketStatus::Paused,
    ensures
        pocket.after(Operation::UpdateStatus { actor: pocket.owner, target: PocketStatus::Active })
            .after(Operation::UpdateStatus { actor: pocket.owner, target: PocketStatus::Paused })
            .after(Operation::UpdateStatus { actor: pocket.owner, target: PocketStatus::Active })
            == (PocketView { status: PocketStatus::Active, ..pocket }),
        pocket.after(Operation::UpdateStatus { actor: pocket.owner, target: PocketStatus::Active })
            .outcome(Operation::UpdateStatus { actor: pocket.owner, target: PocketStatus::Paused })
            is Ok,
        pocket.after(Operation::UpdateStatus { actor: pocket.owner, target: PocketStatus::Active })
            .after(Operation::UpdateStatus { actor: pocket.owner, target: PocketStatus::Paused })
            .outcome(Operation::UpdateStatus { actor: pocket.owner, target: PocketStatus::Active })
            is Ok,
{
}

/// Nobody can ask for the status withdrawn: the request is refused whatever the pocket's
/// status and whoever asks, and the pocket stays as it is.
pub proof fn law_withdrawn_cannot_be_asked_for(pocket: PocketView, actor: Address)
    ensures
        pocket.update_status(actor, PocketStatus::Withdrawn) is Err,
        pocket.after(Operation::UpdateStatus { actor, target: PocketStatus::Withdrawn }) == pocket,
{
}

/// Well-formed pockets stay well-formed: no operation, succeeding or not, breaks the
/// configuration, the ranges, or the rule that a withdrawn pocket holds nothing.
pub proof fn law_well_formed_is_kept(pocket: PocketView, operation: Operation)
    requires
        pocket.wf(),
    ensures
        pocket.after(operation).wf(),
{
}

/// There is one unset address: any two addresses made of zero bytes are the same, so
/// "unset" names a single value.
pub proof fn law_unset_address_is_unique(a: Address, b: Address)
    requires
        a.is_unset(),
        b.is_unset(),
    ensures
        a == b,
{
    assert(a.bytes =~= b.bytes);
}

/// A cycle never offers more than the pocket holds of the asset it pays with, nor more
/// than the batch volume.
pub proof fn law_offer_is_bounded(pocket: PocketView)
    ensures
        pocket.amount_to_swap() <= pocket.batch_volume,
        pocket.amount_to_swap() <= pocket.paying_balance(),
        pocket.amount_to_swap() == pocket.batch_volume || pocket.amount_to_swap()
            == pocket.paying_balance(),
{
}

} // verus!
