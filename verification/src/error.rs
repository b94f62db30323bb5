use vstd::prelude::*;

verus! {

/// Why a swap measured at the venue was refused.
#[derive(Clone, Copy, Debug, PartialEq, Eq, Structural)]
pub enum ErrorCode {
    /// The tokens being swapped must have different mints.
    SwapTokensCannotMatch,
    /// Slippage tolerance exceeded.
    SlippageExceeded,
    /// No tokens received when swapping.
    ZeroSwap,
}

/// The first rule that a pocket's configuration breaks.
#[derive(Clone, Copy, Debug, PartialEq, Eq, Structural)]
pub enum ValidationError {
    /// The name is empty.
    PocketNameIsNotValid,
    /// The id is empty.
    PocketIdIsNotValid,
    /// The owner is the all-zero address.
    OwnerIsNotValid,
    /// The base mint is the all-zero address.
    BaseMintIsNotValid,
    /// The quote mint is the all-zero address.
    QuoteMintIsNotValid,
    /// The market key is the all-zero address.
    MarketKeyIsNotValid,
    /// The activation time lies in the past.
    TimestampIsNotValid,
    /// The interval is zero hours.
    FrequencyIsNotValid,
    /// The batch volume is zero.
    BatchVolumeIsNotValid,
    /// The buy condition has a threshold that is not valid.
    BuyConditionIsNotValid,
    /// A stop condition has a threshold that is not valid.
    StopConditionIsNotValid,
    /// More than one stop condition is flagged primary.
    PrimaryConditionDuplicated,
}

/// Why an operation on a pocket or on the registry was refused.
#[derive(Clone, Copy, Debug, PartialEq, Eq, Structural)]
pub enum PocketError {
    /// A figure would leave the range of a 64-bit counter, or the venue reported
    /// something that cannot be.
    SystemError,
    /// The program was already initialized.
    AlreadyInitialized,
    /// The mint account was existed.
    MintAccountExisted,
    /// Only Platform operator.
    OnlyOperator,
    /// Only Platform Administrator.
    OnlyAdministrator,
    /// Only Owner.
    OnlyOwner,
    /// Not ready to swap.
    NotReadyToSwap,
    /// The configuration handed in at creation is rejected.
    InvalidPocketData(ValidationError),
    /// The status asked for cannot be reached from the current one.
    InvalidTransition,
    /// The pocket is closed or withdrawn and takes no deposit.
    NotAbleToDeposit,
    /// The pocket is not closed, so nothing can be withdrawn.
    NotAbleToWithdraw,
    /// The swap brought in an amount that the buy condition does not accept.
    BuyConditionNotFulfilled,
    /// The venue's outcome was refused.
    Swap(ErrorCode),
}

} // verus!
