pub mod close_pocket_accounts;
pub mod create_pocket;
pub mod create_token_vault;
pub mod deposit;
pub mod execute_swap;
pub mod initialize_pocket_program;
pub mod initialize_pocket_trade_registry;
pub mod update_pocket;
pub mod update_pocket_registry;
pub mod withdraw;
