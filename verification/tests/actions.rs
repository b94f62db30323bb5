use pocket::{
    Address, ClosePocketAccountsContext, CreatePocketContext, CreatePocketParams,
    CreateTokenVaultContext, DateDuration, DepositContext, DepositParams, DepositedTokenType,
    InitializePocketTradeRegistryContext, Pocket, PocketCreated, PocketDeposited, PocketError,
    PocketPlatformRegistry, PocketStatus, PocketUpdated, PocketWithdrawn, PriceCondition,
    StopCondition, TokenWallet, TradeSide, UpdatePocketContext, UpdatePocketParams, UpdateReason,
    ValidationError, VaultCreated, WithdrawContext,
};

fn key(n: u8) -> Address {
    Address::new([n; 32])
}

const OWNER: u8 = 1;
const STRANGER: u8 = 9;
const POCKET: u8 = 50;
const ACTIVE: PocketStatus = PocketStatus::Active;
const PAUSED: PocketStatus = PocketStatus::Paused;
const CLOSED: PocketStatus = PocketStatus::Closed;
const WITHDRAWN: PocketStatus = PocketStatus::Withdrawn;

fn pocket_in(status: PocketStatus) -> Pocket {
    Pocket {
        id: String::from("pocket-1"),
        bump: 254,
        owner: key(OWNER),
        name: String::from("weekly"),
        status,
        base_token_mint_address: key(2),
        quote_token_mint_address: key(3),
        market_key: key(4),
        batch_volume: 100,
        start_at: 1_000,
        side: TradeSide::Buy,
        buy_condition: None,
        stop_conditions: vec![StopCondition::BatchAmountReach { is_primary: true, value: 5 }],
        frequency: DateDuration { hours: 24 },
        total_base_deposit_amount: 70,
        total_quote_deposit_amount: 700,
        base_token_balance: 40,
        quote_token_balance: 400,
        executed_batch_amount: 2,
        next_scheduled_execution_at: 3_000,
    }
}

fn update(signer: u8, from: PocketStatus, to: PocketStatus) -> (Result<PocketUpdated, PocketError>, Pocket) {
    let mut ctx = UpdatePocketContext { signer: key(signer), pocket_address: key(POCKET), pocket: pocket_in(from) };
    let r = ctx.execute(UpdatePocketParams { status: to });
    (r, ctx.pocket)
}

fn params() -> CreatePocketParams {
    CreatePocketParams {
        id: String::from("pocket-7"),
        name: String::from("monthly"),
        base_token_address: key(2),
        quote_token_address: key(3),
        market_key: key(4),
        batch_volume: 100,
        start_at: 5_000,
        buy_condition: Some(PriceCondition::Bw { from_value: 10, to_value: 20 }),
        stop_conditions: vec![
            StopCondition::EndTimeReach { is_primary: true, value: 90_000 },
            StopCondition::SpentQuoteTokenAmountReach { is_primary: false, value: 1_000 },
        ],
        frequency: DateDuration { hours: 12 },
        side: TradeSide::Sell,
    }
}

#[test]
fn every_allowed_transition_changes_only_the_status() {
    for (from, to) in [(PAUSED, ACTIVE), (ACTIVE, PAUSED), (ACTIVE, CLOSED), (PAUSED, CLOSED)] {
        let (r, after) = update(OWNER, from, to);
        assert_eq!(
            r,
            Ok(PocketUpdated {
                actor: key(OWNER),
                pocket_address: key(POCKET),
                status: to,
                memo: UpdateReason::UserUpdatedPocket,
            })
        );
        assert_eq!(after, pocket_in(to));
    }
}

#[test]
fn every_other_transition_is_refused_and_changes_nothing() {
    let refused = [
        (ACTIVE, ACTIVE),
        (CLOSED, ACTIVE),
        (WITHDRAWN, ACTIVE),
        (PAUSED, PAUSED),
        (CLOSED, PAUSED),
        (WITHDRAWN, PAUSED),
        (CLOSED, CLOSED),
        (WITHDRAWN, CLOSED),
    ];
    for (from, to) in refused {
        let (r, after) = update(OWNER, from, to);
        assert_eq!(r, Err(PocketError::InvalidTransition));
        assert_eq!(after, pocket_in(from));
    }
}

#[test]
fn withdrawn_cannot_be_asked_for_from_any_status() {
    for from in [ACTIVE, PAUSED, CLOSED, WITHDRAWN] {
        let (r, after) = update(OWNER, from, WITHDRAWN);
        assert_eq!(r, Err(PocketError::InvalidTransition));
        assert_eq!(after, pocket_in(from));
    }
}

#[test]
fn only_the_owner_updates_the_status() {
    let (r, after) = update(STRANGER, PocketStatus::Active, PocketStatus::Paused);
    assert_eq!(r, Err(PocketError::OnlyOwner));
    assert_eq!(after, pocket_in(PocketStatus::Active));
    // the owner check comes first
    let (r, _) = update(STRANGER, PocketStatus::Active, PocketStatus::Withdrawn);
    assert_eq!(r, Err(PocketError::OnlyOwner));
}

#[test]
fn active_paused_active_round_trip_changes_nothing_else() {
    for start in [PocketStatus::Active, PocketStatus::Paused] {
        let mut ctx = UpdatePocketContext { signer: key(OWNER), pocket_address: key(POCKET), pocket: pocket_in(start) };
        let first = ctx.execute(UpdatePocketParams { status: PocketStatus::Active });
        assert_eq!(first.is_ok(), start == PocketStatus::Paused);
        assert_eq!(ctx.pocket.status, PocketStatus::Active);
        assert!(ctx.execute(UpdatePocketParams { status: PocketStatus::Paused }).is_ok());
        assert_eq!(ctx.pocket.status, PocketStatus::Paused);
        assert!(ctx.execute(UpdatePocketParams { status: PocketStatus::Active }).is_ok());
        assert_eq!(ctx.pocket, pocket_in(PocketStatus::Active));
    }
    assert_eq!(UpdatePocketParams::default().status, PocketStatus::Active);
}

#[test]
fn update_reasons_have_their_published_text() {
    assert_eq!(UpdateReason::UserUpdatedPocket.memo(), "USER_UPDATED_POCKET");
    assert_eq!(UpdateReason::StopConditionReached.memo(), "STOP_CONDITION_REACHED");
}

#[test]
fn deposit_credits_balance_and_total_of_the_asset() {
    let mut ctx = DepositContext { signer: key(OWNER), pocket_address: key(POCKET), pocket: pocket_in(PocketStatus::Active) };
    let r = ctx.execute(DepositParams { mode: DepositedTokenType::Base, deposit_amount: 5 });
    assert_eq!(
        r,
        Ok(PocketDeposited { owner: key(OWNER), pocket_address: key(POCKET), mint_address: key(2), amount: 5 })
    );
    let mut expected = pocket_in(PocketStatus::Active);
    expected.base_token_balance = 45;
    expected.total_base_deposit_amount = 75;
    assert_eq!(ctx.pocket, expected);

    let r = ctx.execute(DepositParams { mode: DepositedTokenType::Quote, deposit_amount: 600 });
    assert_eq!(
        r,
        Ok(PocketDeposited { owner: key(OWNER), pocket_address: key(POCKET), mint_address: key(3), amount: 600 })
    );
    expected.quote_token_balance = 1_000;
    expected.total_quote_deposit_amount = 1_300;
    assert_eq!(ctx.pocket, expected);
    assert_eq!(DepositParams::default(), DepositParams { mode: DepositedTokenType::Base, deposit_amount: 0 });
}

#[test]
fn deposit_is_taken_while_paused_but_not_once_closed_or_withdrawn() {
    let mut ctx = DepositContext { signer: key(OWNER), pocket_address: key(POCKET), pocket: pocket_in(PocketStatus::Paused) };
    assert!(ctx.execute(DepositParams { mode: DepositedTokenType::Quote, deposit_amount: 1 }).is_ok());
    for status in [PocketStatus::Closed, PocketStatus::Withdrawn] {
        let mut ctx = DepositContext { signer: key(OWNER), pocket_address: key(POCKET), pocket: pocket_in(status) };
        for mode in [DepositedTokenType::Base, DepositedTokenType::Quote] {
            let r = ctx.execute(DepositParams { mode, deposit_amount: 1 });
            assert_eq!(r, Err(PocketError::NotAbleToDeposit));
            assert_eq!(ctx.pocket, pocket_in(status));
        }
    }
}

#[test]
fn deposit_by_a_stranger_is_refused() {
    let mut ctx = DepositContext { signer: key(STRANGER), pocket_address: key(POCKET), pocket: pocket_in(PocketStatus::Active) };
    let r = ctx.execute(DepositParams { mode: DepositedTokenType::Base, deposit_amount: 1 });
    assert_eq!(r, Err(PocketError::OnlyOwner));
    assert_eq!(ctx.pocket, pocket_in(PocketStatus::Active));
}

#[test]
fn deposit_that_a_counter_cannot_hold_is_refused_whole() {
    // the total would overflow though the balance would not
    let mut pocket = pocket_in(PocketStatus::Active);
    pocket.total_base_deposit_amount = u64::MAX - 4;
    let mut ctx = DepositContext { signer: key(OWNER), pocket_address: key(POCKET), pocket: pocket.clone() };
    let r = ctx.execute(DepositParams { mode: DepositedTokenType::Base, deposit_amount: 5 });
    assert_eq!(r, Err(PocketError::SystemError));
    assert_eq!(ctx.pocket, pocket);
    assert!(ctx.execute(DepositParams { mode: DepositedTokenType::Base, deposit_amount: 4 }).is_ok());
    assert_eq!(ctx.pocket.total_base_deposit_amount, u64::MAX);
    assert_eq!(ctx.pocket.base_token_balance, 44);

    // the balance would overflow though the total would not
    let mut pocket = pocket_in(PocketStatus::Active);
    pocket.quote_token_balance = u64::MAX;
    let mut ctx = DepositContext { signer: key(OWNER), pocket_address: key(POCKET), pocket: pocket.clone() };
    let r = ctx.execute(DepositParams { mode: DepositedTokenType::Quote, deposit_amount: 1 });
    assert_eq!(r, Err(PocketError::SystemError));
    assert_eq!(ctx.pocket, pocket);
}

fn withdraw_ctx(signer: u8, status: PocketStatus) -> WithdrawContext {
    WithdrawContext {
        signer: key(signer),
        pocket_address: key(POCKET),
        pocket: pocket_in(status),
        pocket_base_token_vault: TokenWallet { mint: key(2), amount: 41 },
        pocket_quote_token_vault: TokenWallet { mint: key(3), amount: 399 },
    }
}

#[test]
fn withdrawal_empties_a_closed_pocket_and_reports_the_custody_balances() {
    let mut ctx = withdraw_ctx(OWNER, PocketStatus::Closed);
    let r = ctx.execute();
    assert_eq!(
        r,
        Ok(PocketWithdrawn {
            owner: key(OWNER),
            pocket_address: key(POCKET),
            base_token_mint_address: key(2),
            base_token_amount: 41,
            quote_token_mint_address: key(3),
            quote_token_amount: 399,
        })
    );
    let mut expected = pocket_in(PocketStatus::Withdrawn);
    expected.base_token_balance = 0;
    expected.quote_token_balance = 0;
    assert_eq!(ctx.pocket, expected);
    assert_eq!(ctx.pocket_base_token_vault.amount, 41);
}

#[test]
fn withdrawal_needs_a_closed_pocket_and_its_owner() {
    for status in [PocketStatus::Active, PocketStatus::Paused, PocketStatus::Withdrawn] {
        let mut ctx = withdraw_ctx(OWNER, status);
        assert_eq!(ctx.execute(), Err(PocketError::NotAbleToWithdraw));
        assert_eq!(ctx.pocket, pocket_in(status));
    }
    let mut ctx = withdraw_ctx(STRANGER, PocketStatus::Closed);
    assert_eq!(ctx.execute(), Err(PocketError::OnlyOwner));
    assert_eq!(ctx.pocket, pocket_in(PocketStatus::Closed));
}

#[test]
fn nothing_changes_a_withdrawn_pocket() {
    let mut w = withdraw_ctx(OWNER, PocketStatus::Closed);
    assert!(w.execute().is_ok());
    let withdrawn = w.pocket.clone();

    let mut d = DepositContext { signer: key(OWNER), pocket_address: key(POCKET), pocket: withdrawn.clone() };
    assert_eq!(
        d.execute(DepositParams { mode: DepositedTokenType::Base, deposit_amount: 1 }),
        Err(PocketError::NotAbleToDeposit)
    );
    assert_eq!(d.pocket, withdrawn);
    assert_eq!(w.execute(), Err(PocketError::NotAbleToWithdraw));
    assert_eq!(w.pocket, withdrawn);
    for to in [PocketStatus::Active, PocketStatus::Paused, PocketStatus::Closed, PocketStatus::Withdrawn] {
        let mut u = UpdatePocketContext { signer: key(OWNER), pocket_address: key(POCKET), pocket: withdrawn.clone() };
        assert_eq!(u.execute(UpdatePocketParams { status: to }), Err(PocketError::InvalidTransition));
        assert_eq!(u.pocket, withdrawn);
    }
}

#[test]
fn accounts_are_closed_for_the_owner_of_a_withdrawn_pocket_only() {
    let ok = ClosePocketAccountsContext { signer: key(OWNER), pocket: pocket_in(PocketStatus::Withdrawn) };
    assert_eq!(ok.execute(), Ok(()));
    let stranger = ClosePocketAccountsContext { signer: key(STRANGER), pocket: pocket_in(PocketStatus::Withdrawn) };
    assert_eq!(stranger.execute(), Err(PocketError::OnlyOwner));
    for status in [PocketStatus::Active, PocketStatus::Paused, PocketStatus::Closed] {
        let early = ClosePocketAccountsContext { signer: key(OWNER), pocket: pocket_in(status) };
        assert_eq!(early.execute(), Err(PocketError::OnlyOwner));
    }
}

#[test]
fn vault_creation_is_announced_for_the_owner() {
    let ctx = CreateTokenVaultContext {
        signer: key(OWNER),
        pocket_address: key(POCKET),
        pocket: pocket_in(PocketStatus::Active),
        mint_account: key(2),
        pocket_token_vault: key(60),
    };
    assert_eq!(
        ctx.execute(),
        Ok(VaultCreated {
            actor: key(OWNER),
            authority: key(POCKET),
            mint_account: key(2),
            associated_account: key(60),
            pocket_address: key(POCKET),
        })
    );
    let stranger = CreateTokenVaultContext { signer: key(STRANGER), ..ctx };
    assert_eq!(stranger.execute(), Err(PocketError::OnlyOwner));
}

#[test]
fn creation_writes_the_configuration_with_empty_books() {
    let mut ctx = CreatePocketContext { signer: key(OWNER), pocket_address: key(POCKET), pocket: Pocket::default() };
    let r = ctx.execute(params(), 253, 5_000);
    assert_eq!(
        r,
        Ok(PocketCreated { owner: key(OWNER), pocket_address: key(POCKET), name: String::from("monthly") })
    );
    assert_eq!(
        ctx.pocket,
        Pocket {
            id: String::from("pocket-7"),
            bump: 253,
            owner: key(OWNER),
            name: String::from("monthly"),
            status: PocketStatus::Active,
            base_token_mint_address: key(2),
            quote_token_mint_address: key(3),
            market_key: key(4),
            batch_volume: 100,
            start_at: 5_000,
            side: TradeSide::Sell,
            buy_condition: Some(PriceCondition::Bw { from_value: 10, to_value: 20 }),
            stop_conditions: vec![
                StopCondition::EndTimeReach { is_primary: true, value: 90_000 },
                StopCondition::SpentQuoteTokenAmountReach { is_primary: false, value: 1_000 },
            ],
            frequency: DateDuration { hours: 12 },
            total_base_deposit_amount: 0,
            total_quote_deposit_amount: 0,
            base_token_balance: 0,
            quote_token_balance: 0,
            executed_batch_amount: 0,
            next_scheduled_execution_at: 0,
        }
    );
}

#[test]
fn creation_is_rejected_whole_and_names_the_rule() {
    let mut ctx = CreatePocketContext { signer: key(OWNER), pocket_address: key(POCKET), pocket: Pocket::default() };
    let r = ctx.execute(params(), 253, 5_001);
    assert_eq!(r, Err(PocketError::InvalidPocketData(ValidationError::TimestampIsNotValid)));
    assert_eq!(ctx.pocket, Pocket::default());

    let mut bad = params();
    bad.batch_volume = 0;
    let r = ctx.initialize_pocket(bad, 253, 5_000);
    assert_eq!(r, Err(PocketError::InvalidPocketData(ValidationError::BatchVolumeIsNotValid)));
    assert_eq!(ctx.pocket, Pocket::default());

    let mut nobody = CreatePocketContext { signer: Address::default(), pocket_address: key(POCKET), pocket: Pocket::default() };
    let r = nobody.execute(params(), 253, 5_000);
    assert_eq!(r, Err(PocketError::InvalidPocketData(ValidationError::OwnerIsNotValid)));

    let r = ctx.execute(CreatePocketParams::default(), 0, 0);
    assert_eq!(r, Err(PocketError::InvalidPocketData(ValidationError::PocketNameIsNotValid)));
}

#[test]
fn creation_rejects_a_second_primary_stop_condition() {
    let mut ctx = CreatePocketContext { signer: key(OWNER), pocket_address: key(POCKET), pocket: Pocket::default() };
    let mut two = params();
    two.stop_conditions.push(StopCondition::BatchAmountReach { is_primary: true, value: 3 });
    let r = ctx.execute(two, 253, 5_000);
    assert_eq!(r, Err(PocketError::InvalidPocketData(ValidationError::PrimaryConditionDuplicated)));
    assert_eq!(ctx.pocket, Pocket::default());
}

#[test]
fn trade_registry_needs_owner_operator_and_readiness() {
    let registry = |operators: Vec<Address>| PocketPlatformRegistry {
        owner: key(7),
        was_initialized: true,
        bump: 1,
        allowed_mint_accounts: vec![],
        operators,
    };
    let ctx = InitializePocketTradeRegistryContext {
        signer: key(OWNER),
        pocket: pocket_in(PocketStatus::Active),
        pocket_registry: registry(vec![key(OWNER)]),
    };
    assert_eq!(ctx.execute(3_000), Ok(()));
    assert_eq!(ctx.execute(2_999), Err(PocketError::NotReadyToSwap));
    let not_operator = InitializePocketTradeRegistryContext {
        signer: key(OWNER),
        pocket: pocket_in(PocketStatus::Active),
        pocket_registry: registry(vec![key(STRANGER)]),
    };
    assert_eq!(not_operator.execute(3_000), Err(PocketError::OnlyOperator));
    let not_owner = InitializePocketTradeRegistryContext {
        signer: key(STRANGER),
        pocket: pocket_in(PocketStatus::Active),
        pocket_registry: registry(vec![key(STRANGER)]),
    };
    assert_eq!(not_owner.execute(3_000), Err(PocketError::OnlyOwner));
}
