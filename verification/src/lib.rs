//! The execution core of recurring swaps: pockets, their lifecycle, the registry of
//! operators, the measuring and judging of swaps, and the cycle that ties them together.

pub mod action;
pub mod address;
pub mod error;
pub mod event;
pub mod laws;
pub mod state;
pub mod swap;
pub mod util;

pub use crate::action::close_pocket_accounts::ClosePocketAccountsContext;
pub use crate::action::create_pocket::{CreatePocketContext, CreatePocketParams};
pub use crate::action::create_token_vault::CreateTokenVaultContext;
pub use crate::action::deposit::{DepositContext, DepositParams, DepositedTokenType};
pub use crate::action::execute_swap::{
    handle_execute_swap, CycleAction, CycleEvent, CycleState, ExecuteSwapContext,
};
pub use crate::action::initialize_pocket_program::{
    InitializePocketPlatformContext, InitializePocketPlatformParams,
};
pub use crate::action::initialize_pocket_trade_registry::InitializePocketTradeRegistryContext;
pub use crate::action::update_pocket::{UpdatePocketContext, UpdatePocketParams};
pub use crate::action::update_pocket_registry::{
    UpdatePocketRegistryContext, UpdatePocketRegistryParams,
};
pub use crate::action::withdraw::WithdrawContext;
pub use crate::address::Address;
pub use crate::error::{ErrorCode, PocketError, ValidationError};
pub use crate::event::{
    PocketConfigUpdated, PocketCreated, PocketDeposited, PocketUpdated, PocketWithdrawn,
    UpdateReason, VaultCreated,
};
pub use crate::state::condition::{PriceCondition, StopCondition};
pub use crate::state::pocket::{DateDuration, Pocket, PocketStatus, TradeSide};
pub use crate::state::registry::{LookupTableRegistry, MintInfo, PocketPlatformRegistry};
pub use crate::swap::{
    apply_risk_checks, can_apply_risk_checks, coin_lots, is_measurable, is_measurable_transitive,
    is_valid_swap, is_valid_swap_transitive, swap, swap_transitive, try_swap,
    try_swap_transitive, DidSwap, ExchangeRate, MarketAccounts, NewOrder, OrderType,
    SelfTradeBehavior, Side, Swap, SwapTransitive, TokenWallet,
};
