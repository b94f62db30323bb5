use pocket::{PriceCondition, StopCondition};

#[test]
fn price_condition_default_is_eq_zero_and_not_valid() {
    let d = PriceCondition::default();
    assert_eq!(d, PriceCondition::Eq { value: 0 });
    assert!(!PriceCondition::is_valid(&d));
}

#[test]
fn price_condition_single_threshold_must_be_positive() {
    assert!(PriceCondition::is_valid(&PriceCondition::Gt { value: 1 }));
    assert!(!PriceCondition::is_valid(&PriceCondition::Gt { value: 0 }));
    assert!(PriceCondition::is_valid(&PriceCondition::Gte { value: 1000 }));
    assert!(!PriceCondition::is_valid(&PriceCondition::Gte { value: 0 }));
    assert!(PriceCondition::is_valid(&PriceCondition::Lt { value: u64::MAX }));
    assert!(!PriceCondition::is_valid(&PriceCondition::Lt { value: 0 }));
    assert!(PriceCondition::is_valid(&PriceCondition::Lte { value: 7 }));
    assert!(!PriceCondition::is_valid(&PriceCondition::Lte { value: 0 }));
    assert!(PriceCondition::is_valid(&PriceCondition::Eq { value: 7 }));
    assert!(!PriceCondition::is_valid(&PriceCondition::Eq { value: 0 }));
    assert!(PriceCondition::is_valid(&PriceCondition::Neq { value: 7 }));
    assert!(!PriceCondition::is_valid(&PriceCondition::Neq { value: 0 }));
}

#[test]
fn price_condition_range_needs_positive_lower_end_and_order() {
    assert!(PriceCondition::is_valid(&PriceCondition::Bw { from_value: 5, to_value: 5 }));
    assert!(PriceCondition::is_valid(&PriceCondition::Bw { from_value: 5, to_value: 9 }));
    assert!(!PriceCondition::is_valid(&PriceCondition::Bw { from_value: 9, to_value: 5 }));
    assert!(!PriceCondition::is_valid(&PriceCondition::Bw { from_value: 0, to_value: 5 }));
    assert!(!PriceCondition::is_valid(&PriceCondition::Bw { from_value: 0, to_value: 0 }));
    assert!(PriceCondition::is_valid(&PriceCondition::Nbw { from_value: 1, to_value: 2 }));
    assert!(!PriceCondition::is_valid(&PriceCondition::Nbw { from_value: 2, to_value: 1 }));
    assert!(!PriceCondition::is_valid(&PriceCondition::Nbw { from_value: 0, to_value: 1 }));
}

#[test]
fn price_condition_evaluation_at_the_edges() {
    assert!(!PriceCondition::Gt { value: 10 }.is_fulfilled(10));
    assert!(PriceCondition::Gt { value: 10 }.is_fulfilled(11));
    assert!(PriceCondition::Gte { value: 10 }.is_fulfilled(10));
    assert!(!PriceCondition::Gte { value: 10 }.is_fulfilled(9));
    assert!(PriceCondition::Lt { value: 10 }.is_fulfilled(9));
    assert!(!PriceCondition::Lt { value: 10 }.is_fulfilled(10));
    assert!(PriceCondition::Lte { value: 10 }.is_fulfilled(10));
    assert!(!PriceCondition::Lte { value: 10 }.is_fulfilled(11));
    assert!(PriceCondition::Eq { value: 10 }.is_fulfilled(10));
    assert!(!PriceCondition::Eq { value: 10 }.is_fulfilled(11));
    assert!(PriceCondition::Neq { value: 10 }.is_fulfilled(11));
    assert!(!PriceCondition::Neq { value: 10 }.is_fulfilled(10));
}

#[test]
fn price_condition_ranges_are_closed() {
    let bw = PriceCondition::Bw { from_value: 10, to_value: 20 };
    assert!(!bw.is_fulfilled(9));
    assert!(bw.is_fulfilled(10));
    assert!(bw.is_fulfilled(15));
    assert!(bw.is_fulfilled(20));
    assert!(!bw.is_fulfilled(21));
    let nbw = PriceCondition::Nbw { from_value: 10, to_value: 20 };
    assert!(nbw.is_fulfilled(9));
    assert!(!nbw.is_fulfilled(10));
    assert!(!nbw.is_fulfilled(20));
    assert!(nbw.is_fulfilled(21));
}

#[test]
fn stop_condition_default_is_primary_end_time_zero() {
    let d = StopCondition::default();
    assert_eq!(d, StopCondition::EndTimeReach { is_primary: true, value: 0 });
    assert!(!StopCondition::is_valid(&d));
    assert!(StopCondition::is_primary(&d));
}

#[test]
fn stop_condition_threshold_must_be_positive() {
    let all = |value: u64| {
        vec![
            StopCondition::EndTimeReach { is_primary: false, value },
            StopCondition::BaseTokenAmountReach { is_primary: false, value },
            StopCondition::QuoteTokenAmountReach { is_primary: false, value },
            StopCondition::SpentBaseTokenAmountReach { is_primary: false, value },
            StopCondition::SpentQuoteTokenAmountReach { is_primary: false, value },
            StopCondition::BatchAmountReach { is_primary: false, value },
        ]
    };
    for c in all(0) {
        assert!(!StopCondition::is_valid(&c));
    }
    for c in all(1) {
        assert!(StopCondition::is_valid(&c));
    }
}

#[test]
fn stop_condition_primary_flag_is_read_from_each_variant() {
    let all = |is_primary: bool| {
        vec![
            StopCondition::EndTimeReach { is_primary, value: 1 },
            StopCondition::BaseTokenAmountReach { is_primary, value: 1 },
            StopCondition::QuoteTokenAmountReach { is_primary, value: 1 },
            StopCondition::SpentBaseTokenAmountReach { is_primary, value: 1 },
            StopCondition::SpentQuoteTokenAmountReach { is_primary, value: 1 },
            StopCondition::BatchAmountReach { is_primary, value: 1 },
        ]
    };
    for c in all(true) {
        assert!(StopCondition::is_primary(&c));
    }
    for c in all(false) {
        assert!(!StopCondition::is_primary(&c));
    }
}
