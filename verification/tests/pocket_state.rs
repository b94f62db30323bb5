use pocket::{
    Address, DateDuration, Pocket, PocketStatus, PriceCondition, StopCondition, TradeSide,
    ValidationError,
};

fn key(n: u8) -> Address {
    Address::new([n; 32])
}

fn valid_pocket() -> Pocket {
    Pocket {
        id: String::from("pocket-1"),
        bump: 254,
        owner: key(1),
        name: String::from("weekly"),
        status: PocketStatus::Active,
        base_token_mint_address: key(2),
        quote_token_mint_address: key(3),
        market_key: key(4),
        batch_volume: 100,
        start_at: 1_000,
        side: TradeSide::Buy,
        buy_condition: Some(PriceCondition::Gte { value: 10 }),
        stop_conditions: vec![
            StopCondition::BatchAmountReach { is_primary: true, value: 5 },
            StopCondition::EndTimeReach { is_primary: false, value: 9_000 },
        ],
        frequency: DateDuration { hours: 24 },
        total_base_deposit_amount: 0,
        total_quote_deposit_amount: 0,
        base_token_balance: 0,
        quote_token_balance: 0,
        executed_batch_amount: 0,
        next_scheduled_execution_at: 0,
    }
}

fn with_status(status: PocketStatus) -> Pocket {
    let mut p = valid_pocket();
    p.status = status;
    p
}

#[test]
fn address_equality_is_bytewise() {
    let mut bytes = [7u8; 32];
    assert_eq!(Address::new(bytes), key(7));
    bytes[31] = 8;
    assert_ne!(Address::new(bytes), key(7));
    bytes[31] = 7;
    bytes[0] = 0;
    assert_ne!(Address::new(bytes), key(7));
    assert_eq!(Address::new(bytes).to_bytes(), bytes);
}

#[test]
fn address_default_is_all_zero() {
    assert!(Address::default().is_default());
    assert_eq!(Address::default().to_bytes(), [0u8; 32]);
    assert!(!key(1).is_default());
    let mut bytes = [0u8; 32];
    bytes[31] = 1;
    assert!(!Address::new(bytes).is_default());
}

#[test]
fn pocket_default_is_blank_and_active() {
    let p = Pocket::default();
    assert_eq!(p.id, "");
    assert_eq!(p.name, "");
    assert_eq!(p.status, PocketStatus::Active);
    assert_eq!(p.side, TradeSide::Buy);
    assert!(p.owner.is_default());
    assert_eq!(p.buy_condition, None);
    assert!(p.stop_conditions.is_empty());
    assert_eq!(p.base_token_balance, 0);
    assert_eq!(p.quote_token_balance, 0);
    assert_eq!(p.executed_batch_amount, 0);
    assert_eq!(PocketStatus::default(), PocketStatus::Active);
    assert_eq!(TradeSide::default(), TradeSide::Buy);
    assert_eq!(DateDuration::default(), DateDuration { hours: 0 });
}

#[test]
fn pocket_clone_keeps_every_field() {
    let mut p = valid_pocket();
    p.base_token_balance = 11;
    p.quote_token_balance = 22;
    p.executed_batch_amount = 3;
    assert_eq!(p.clone(), p);
}

#[test]
fn lifecycle_predicates_by_status() {
    let active = with_status(PocketStatus::Active);
    let paused = with_status(PocketStatus::Paused);
    let closed = with_status(PocketStatus::Closed);
    let withdrawn = with_status(PocketStatus::Withdrawn);

    assert!(active.is_able_to_deposit());
    assert!(paused.is_able_to_deposit());
    assert!(!closed.is_able_to_deposit());
    assert!(!withdrawn.is_able_to_deposit());

    assert!(active.is_able_to_close());
    assert!(paused.is_able_to_close());
    assert!(!closed.is_able_to_close());
    assert!(!withdrawn.is_able_to_close());

    assert!(!active.is_able_to_withdraw());
    assert!(!paused.is_able_to_withdraw());
    assert!(closed.is_able_to_withdraw());
    assert!(!withdrawn.is_able_to_withdraw());

    assert!(!active.is_able_to_restart());
    assert!(paused.is_able_to_restart());
    assert!(!closed.is_able_to_restart());
    assert!(!withdrawn.is_able_to_restart());

    assert!(active.is_able_to_pause());
    assert!(!paused.is_able_to_pause());
    assert!(!closed.is_able_to_pause());
    assert!(!withdrawn.is_able_to_pause());
}

#[test]
fn readiness_needs_active_status_and_both_times_reached() {
    let mut p = valid_pocket();
    p.start_at = 1_000;
    p.next_scheduled_execution_at = 2_000;
    assert!(!p.is_ready_to_swap(999));
    assert!(!p.is_ready_to_swap(1_000));
    assert!(!p.is_ready_to_swap(1_999));
    assert!(p.is_ready_to_swap(2_000));
    assert!(p.is_ready_to_swap(2_001));
    p.next_scheduled_execution_at = 0;
    assert!(!p.is_ready_to_swap(999));
    assert!(p.is_ready_to_swap(1_000));
    for status in [PocketStatus::Paused, PocketStatus::Closed, PocketStatus::Withdrawn] {
        p.status = status;
        assert!(!p.is_ready_to_swap(5_000));
    }
}

#[test]
fn validation_accepts_a_valid_configuration() {
    let p = valid_pocket();
    assert_eq!(p.validate_pocket_data(1_000), Ok(()));
    assert_eq!(p.validate_pocket_data(0), Ok(()));
}

#[test]
fn validation_accepts_no_conditions_at_all() {
    let mut p = valid_pocket();
    p.buy_condition = None;
    p.stop_conditions = vec![];
    assert_eq!(p.validate_pocket_data(1_000), Ok(()));
}

#[test]
fn validation_names_each_broken_rule() {
    let now = 1_000;
    let mut p = valid_pocket();
    p.name = String::new();
    assert_eq!(p.validate_pocket_data(now), Err(ValidationError::PocketNameIsNotValid));
    let mut p = valid_pocket();
    p.id = String::new();
    assert_eq!(p.validate_pocket_data(now), Err(ValidationError::PocketIdIsNotValid));
    let mut p = valid_pocket();
    p.owner = Address::default();
    assert_eq!(p.validate_pocket_data(now), Err(ValidationError::OwnerIsNotValid));
    let mut p = valid_pocket();
    p.base_token_mint_address = Address::default();
    assert_eq!(p.validate_pocket_data(now), Err(ValidationError::BaseMintIsNotValid));
    let mut p = valid_pocket();
    p.quote_token_mint_address = Address::default();
    assert_eq!(p.validate_pocket_data(now), Err(ValidationError::QuoteMintIsNotValid));
    let mut p = valid_pocket();
    p.market_key = Address::default();
    assert_eq!(p.validate_pocket_data(now), Err(ValidationError::MarketKeyIsNotValid));
    let p = valid_pocket();
    assert_eq!(p.validate_pocket_data(1_001), Err(ValidationError::TimestampIsNotValid));
    let mut p = valid_pocket();
    p.frequency = DateDuration { hours: 0 };
    assert_eq!(p.validate_pocket_data(now), Err(ValidationError::FrequencyIsNotValid));
    let mut p = valid_pocket();
    p.batch_volume = 0;
    assert_eq!(p.validate_pocket_data(now), Err(ValidationError::BatchVolumeIsNotValid));
    let mut p = valid_pocket();
    p.buy_condition = Some(PriceCondition::Bw { from_value: 9, to_value: 3 });
    assert_eq!(p.validate_pocket_data(now), Err(ValidationError::BuyConditionIsNotValid));
    let mut p = valid_pocket();
    p.buy_condition = Some(PriceCondition::Eq { value: 0 });
    assert_eq!(p.validate_pocket_data(now), Err(ValidationError::BuyConditionIsNotValid));
    let mut p = valid_pocket();
    p.stop_conditions.push(StopCondition::BaseTokenAmountReach { is_primary: false, value: 0 });
    assert_eq!(p.validate_pocket_data(now), Err(ValidationError::StopConditionIsNotValid));
}

#[test]
fn validation_reports_the_first_broken_rule() {
    let mut p = valid_pocket();
    p.name = String::new();
    p.id = String::new();
    p.batch_volume = 0;
    assert_eq!(p.validate_pocket_data(1_000), Err(ValidationError::PocketNameIsNotValid));
    p.name = String::from("n");
    assert_eq!(p.validate_pocket_data(1_000), Err(ValidationError::PocketIdIsNotValid));
    p.id = String::from("i");
    p.frequency = DateDuration { hours: 0 };
    assert_eq!(p.validate_pocket_data(2_000), Err(ValidationError::TimestampIsNotValid));
    assert_eq!(p.validate_pocket_data(1_000), Err(ValidationError::FrequencyIsNotValid));
}

#[test]
fn validation_rejects_a_second_primary_stop_condition() {
    let mut p = valid_pocket();
    p.stop_conditions = vec![
        StopCondition::BatchAmountReach { is_primary: true, value: 5 },
        StopCondition::EndTimeReach { is_primary: false, value: 9_000 },
        StopCondition::QuoteTokenAmountReach { is_primary: true, value: 1 },
    ];
    assert_eq!(p.validate_pocket_data(1_000), Err(ValidationError::PrimaryConditionDuplicated));
    p.stop_conditions.pop();
    assert_eq!(p.validate_pocket_data(1_000), Ok(()));
}

#[test]
fn validation_puts_an_invalid_stop_condition_before_duplicated_primaries() {
    let mut p = valid_pocket();
    p.stop_conditions = vec![
        StopCondition::BatchAmountReach { is_primary: true, value: 5 },
        StopCondition::QuoteTokenAmountReach { is_primary: true, value: 1 },
        StopCondition::EndTimeReach { is_primary: false, value: 0 },
    ];
    assert_eq!(p.validate_pocket_data(1_000), Err(ValidationError::StopConditionIsNotValid));
}

#[test]
fn validation_accepts_no_primary_stop_condition() {
    let mut p = valid_pocket();
    p.stop_conditions = vec![
        StopCondition::BatchAmountReach { is_primary: false, value: 5 },
        StopCondition::EndTimeReach { is_primary: false, value: 9_000 },
    ];
    assert_eq!(p.validate_pocket_data(1_000), Ok(()));
}
