use crate::address::Address;
use crate::error::ErrorCode;
use vstd::arithmetic::power::{lemma_pow0, lemma_pow_increases, lemma_pow_positive, pow};
use vstd::prelude::*;

verus! {

/// The side of an order: `Bid` pays the quote asset for the base asset, `Ask` the
/// other way round.
#[derive(Clone, Copy, Debug, PartialEq, Eq, Structural)]
pub enum Side {
    Bid,
    Ask,
}

/// The lowest rate at which a swap is still accepted.
#[derive(Clone, Copy, Debug, PartialEq, Eq, Structural)]
pub struct ExchangeRate {
    /// How much of the incoming asset one unit of the outgoing asset must bring, in the
    /// incoming asset's smallest unit.
    pub rate: u64,
    /// Decimals of the outgoing asset.
    pub from_decimals: u8,
    /// Decimals of the asset that two markets are quoted in. Zero for a direct swap.
    pub quote_decimals: u8,
    /// Whether quote proceeds left over by the second leg are ignored. Where it is
    /// false they are credited at the second leg's rate.
    pub strict: bool,
}

/// What a swap did, as measured on the custody accounts.
#[derive(Clone, Copy, Debug, PartialEq, Eq)]
pub struct DidSwap {
    /// The pocket the swap was made for.
    pub pocket_address: Address,
    /// The most that was offered of the outgoing asset.
    pub given_amount: u64,
    /// The lowest rate the caller accepts.
    pub min_exchange_rate: ExchangeRate,
    /// How much of the outgoing asset left.
    pub from_amount: u64,
    /// How much of the incoming asset arrived.
    pub to_amount: u64,
    /// In a swap over two markets, the quote proceeds of the first leg.
    pub quote_amount: u64,
    /// In a swap over two markets, the quote proceeds that the second leg left over.
    pub spill_amount: u64,
    /// The outgoing asset.
    pub from_mint: Address,
    /// The incoming asset.
    pub to_mint: Address,
    /// The asset the markets are quoted in.
    pub quote_mint: Address,
    /// Who authorized the swap.
    pub authority: Address,
}

/// Ten to the power of `decimals`.
pub open spec fn scale(decimals: u8) -> int {
    pow(10, decimals as nat)
}

impl DidSwap {
    /// The least the caller expects, scaled by the quote decimals.
    pub open spec fn min_expected_amount(self) -> int {
        self.from_amount * self.min_exchange_rate.rate * scale(
            self.min_exchange_rate.quote_decimals,
        )
    }

    /// Whether left-over quote proceeds are credited.
    pub open spec fn credits_spill(self) -> bool {
        self.spill_amount != 0 && !self.min_exchange_rate.strict
    }

    /// The left-over quote proceeds, turned into the incoming asset at the rate of the
    /// second leg and scaled like the incoming amount. Zero where nothing is credited.
    pub open spec fn spill_surplus(self) -> int {
        if self.credits_spill() {
            (self.to_amount * self.spill_amount * scale(self.min_exchange_rate.from_decimals)
                * scale(self.min_exchange_rate.quote_decimals)) / (self.quote_amount
                - self.spill_amount)
        } else {
            0
        }
    }

    /// The incoming amount scaled by both decimals.
    pub open spec fn scaled_to_amount(self) -> int {
        self.to_amount * scale(self.min_exchange_rate.from_decimals) * scale(
            self.min_exchange_rate.quote_decimals,
        )
    }

    /// What the swap is counted as having brought in: the scaled incoming amount and the
    /// credited spill.
    pub open spec fn effective_to_amount(self) -> int {
        self.scaled_to_amount() + self.spill_surplus()
    }

    /// The verdict on a swap: nothing came in, or less than expected, or it passes.
    pub open spec fn risk_checks(self) -> Result<(), ErrorCode> {
        if self.to_amount == 0 {
            Err(ErrorCode::ZeroSwap)
        } else if self.effective_to_amount() < self.min_expected_amount() {
            Err(ErrorCode::SlippageExceeded)
        } else {
            Ok(())
        }
    }

    /// The verdict can be computed in 128 bits: either nothing came in, or both scales,
    /// the expected amount and the effective amount fit, and credited spill is less than
    /// the first leg's proceeds and its scaled product fits.
    pub open spec fn risk_checks_defined(self) -> bool {
        self.to_amount == 0 || {
            &&& scale(self.min_exchange_rate.quote_decimals) <= u128::MAX
            &&& scale(self.min_exchange_rate.from_decimals) <= u128::MAX
            &&& self.min_expected_amount() <= u128::MAX
            &&& self.credits_spill() ==> {
                &&& self.spill_amount < self.quote_amount
                &&& self.to_amount * self.spill_amount * scale(
                    self.min_exchange_rate.from_decimals,
                ) * scale(self.min_exchange_rate.quote_decimals) <= u128::MAX
            }
            &&& self.effective_to_amount() <= u128::MAX
        }
    }
}

/// Ten to the power of `decimals`, or nothing where that does not fit 128 bits.
fn checked_power_of_ten(decimals: u8) -> (r: Option<u128>)
    ensures
        scale(decimals) <= u128::MAX ==> r == Some(scale(decimals) as u128),
        scale(decimals) > u128::MAX ==> r is None,
        scale(decimals) >= 1,
{
    let mut power: u128 = 1;
    let mut i: u8 = 0;
    proof {
        lemma_pow0(10);
        lemma_pow_positive(10, decimals as nat);
    }
    while i < decimals
        invariant
            i <= decimals,
            power == pow(10, i as nat),
            power >= 1,
        decreases decimals - i,
    {
        proof {
            lemma_pow_increases(10, (i + 1) as nat, decimals as nat);
            assert(pow(10, (i + 1) as nat) == 10 * pow(10, i as nat)) by {
                reveal(pow);
            }
        }
        match power.checked_mul(10) {
            None => {
                return None;
            },
            Some(next) => {
                power = next;
            },
        }
        i += 1;
    }
    Some(power)
}

/// Ten to the power of `decimals`, where that fits 128 bits.
fn power_of_ten(decimals: u8) -> (r: u128)
    requires
        scale(decimals) <= u128::MAX,
    ensures
        r == scale(decimals),
        r >= 1,
{
    checked_power_of_ten(decimals).unwrap()
}

/// Tells whether the verdict on a swap can be computed in 128 bits, which is what
/// [`apply_risk_checks`] asks of its caller.
pub fn can_apply_risk_checks(event: &DidSwap) -> (r: bool)
    ensures
        r == event.risk_checks_defined(),
{
    if event.to_amount == 0 {
        return true;
    }
    let quote_scale = match checked_power_of_ten(event.min_exchange_rate.quote_decimals) {
        None => {
            return false;
        },
        Some(n) => n,
    };
    let from_scale = match checked_power_of_ten(event.min_exchange_rate.from_decimals) {
        None => {
            return false;
        },
        Some(n) => n,
    };
    let from_amount = event.from_amount as u128;
    let to_amount = event.to_amount as u128;
    let rate = event.min_exchange_rate.rate as u128;
    assert(from_amount * rate <= u64::MAX * u64::MAX) by (nonlinear_arith)
        requires
            from_amount <= u64::MAX,
            rate <= u64::MAX,
    ;
    if (from_amount * rate).checked_mul(quote_scale).is_none() {
        return false;
    }
    let spill_surplus: u128 = if event.spill_amount == 0 || event.min_exchange_rate.strict {
        0
    } else {
        if event.spill_amount >= event.quote_amount {
            return false;
        }
        let spill_amount = event.spill_amount as u128;
        assert(to_amount * spill_amount <= u64::MAX * u64::MAX) by (nonlinear_arith)
            requires
                to_amount <= u64::MAX,
                spill_amount <= u64::MAX,
        ;
        assert(to_amount * spill_amount * from_scale <= to_amount * spill_amount * from_scale
            * quote_scale) by (nonlinear_arith)
            requires
                quote_scale >= 1,
        ;
        let scaled = match (to_amount * spill_amount).checked_mul(from_scale) {
            None => {
                return false;
            },
            Some(n) => n,
        };
        let scaled = match scaled.checked_mul(quote_scale) {
            None => {
                return false;
            },
            Some(n) => n,
        };
        scaled / ((event.quote_amount - event.spill_amount) as u128)
    };
    assert(to_amount * from_scale <= to_amount * from_scale * quote_scale) by (nonlinear_arith)
        requires
            quote_scale >= 1,
    ;
    let scaled = match to_amount.checked_mul(from_scale) {
        None => {
            return false;
        },
        Some(n) => n,
    };
    let scaled = match scaled.checked_mul(quote_scale) {
        None => {
            return false;
        },
        Some(n) => n,
    };
    scaled.checked_add(spill_surplus).is_some()
}

/// Judges a swap by what it brought in: a swap that brought in nothing is refused as
/// `ZeroSwap`, one that brought in less than the lowest accepted rate allows is refused
/// as `SlippageExceeded`.
pub fn apply_risk_checks(event: &DidSwap) -> (r: Result<(), ErrorCode>)
    requires
        event.risk_checks_defined(),
    ensures
        r == event.risk_checks(),
{
    if event.to_amount == 0 {
        return Err(ErrorCode::ZeroSwap);
    }
    let quote_scale = power_of_ten(event.min_exchange_rate.quote_decimals);
    let from_scale = power_of_ten(event.min_exchange_rate.from_decimals);
    let from_amount = event.from_amount as u128;
    let to_amount = event.to_amount as u128;
    let rate = event.min_exchange_rate.rate as u128;
    assert(from_amount * rate <= u64::MAX * u64::MAX) by (nonlinear_arith)
        requires
            from_amount <= u64::MAX,
            rate <= u64::MAX,
    ;
    let min_expected_amount = from_amount * rate * quote_scale;
    let spill_surplus: u128 = if event.spill_amount == 0 || event.min_exchange_rate.strict {
        0
    } else {
        let spill_amount = event.spill_amount as u128;
        assert(to_amount * spill_amount <= u64::MAX * u64::MAX) by (nonlinear_arith)
            requires
                to_amount <= u64::MAX,
                spill_amount <= u64::MAX,
        ;
        assert(to_amount * spill_amount * from_scale <= to_amount * spill_amount * from_scale
            * quote_scale) by (nonlinear_arith)
            requires
                quote_scale >= 1,
        ;
        let remaining = (event.quote_amount - event.spill_amount) as u128;
        to_amount * spill_amount * from_scale * quote_scale / remaining
    };
    assert(to_amount * from_scale <= to_amount * from_scale * quote_scale) by (nonlinear_arith)
        requires
            quote_scale >= 1,
    ;
    let effective_to_amount = to_amount * from_scale * quote_scale + spill_surplus;
    if effective_to_amount < min_expected_amount {
        return Err(ErrorCode::SlippageExceeded);
    }
    Ok(())
}

/// What is read from a custody account: the asset it holds and how much of it.
#[derive(Clone, Copy, Debug, PartialEq, Eq)]
pub struct TokenWallet {
    /// The asset.
    pub mint: Address,
    /// The balance.
    pub amount: u64,
}

/// What a swap reads of one market: the size of a lot of its base asset and the
/// pocket's custody account for that asset.
#[derive(Clone, Copy, Debug, PartialEq, Eq)]
pub struct MarketAccounts {
    /// How many smallest units of the base asset make one lot.
    pub coin_lot_size: u64,
    /// The custody account of the market's base asset.
    pub coin_wallet: TokenWallet,
}

/// The accounts of a swap on one market, as they stand at one moment.
#[derive(Clone, Copy, Debug, PartialEq, Eq)]
pub struct Swap {
    /// The pocket the swap is made for.
    pub pocket: Address,
    /// The market and the base custody account.
    pub market: MarketAccounts,
    /// Who authorizes the swap.
    pub authority: Address,
    /// The custody account of the quote asset.
    pub pc_wallet: TokenWallet,
}

/// The accounts of a swap over two markets quoted in one asset, as they stand at one
/// moment.
#[derive(Clone, Copy, Debug, PartialEq, Eq)]
pub struct SwapTransitive {
    /// The pocket the swap is made for.
    pub pocket: Address,
    /// The market on which the outgoing asset is sold.
    pub from: MarketAccounts,
    /// The market on which the incoming asset is bought.
    pub to: MarketAccounts,
    /// Who authorizes the swap.
    pub authority: Address,
    /// The custody account of the quote asset.
    pub pc_wallet: TokenWallet,
}

impl Swap {
    /// The custody account that pays on `side`.
    pub open spec fn paying(self, side: Side) -> TokenWallet {
        match side {
            Side::Bid => self.pc_wallet,
            Side::Ask => self.market.coin_wallet,
        }
    }

    /// The custody account that receives on `side`.
    pub open spec fn receiving(self, side: Side) -> TokenWallet {
        match side {
            Side::Bid => self.market.coin_wallet,
            Side::Ask => self.pc_wallet,
        }
    }

    /// A swap needs two different assets.
    pub open spec fn assets_differ(self) -> bool {
        self.market.coin_wallet.mint != self.pc_wallet.mint
    }
}

/// Between the two samples the paying account did not grow and the receiving account did
/// not shrink, so both differences are amounts.
pub open spec fn measurable(before: Swap, after: Swap, side: Side) -> bool {
    &&& after.paying(side).amount <= before.paying(side).amount
    &&& before.receiving(side).amount <= after.receiving(side).amount
}

/// The record of a swap on one market, measured as the difference of two samples of
/// the custody accounts. The quote decimals of the rate play no part in a direct swap
/// and are set to zero.
pub open spec fn measured_swap(
    before: Swap,
    after: Swap,
    side: Side,
    amount: u64,
    min_exchange_rate: ExchangeRate,
) -> DidSwap {
    DidSwap {
        pocket_address: before.pocket,
        given_amount: amount,
        min_exchange_rate: ExchangeRate { quote_decimals: 0, ..min_exchange_rate },
        from_amount: (before.paying(side).amount - after.paying(side).amount) as u64,
        to_amount: (after.receiving(side).amount - before.receiving(side).amount) as u64,
        quote_amount: 0,
        spill_amount: 0,
        from_mint: after.paying(side).mint,
        to_mint: after.receiving(side).mint,
        quote_mint: after.pc_wallet.mint,
        authority: before.authority,
    }
}

/// What a swap on one market comes to: refused where both custody accounts hold the same
/// asset, else measured and judged.
pub open spec fn swap_outcome(
    before: Swap,
    after: Swap,
    side: Side,
    amount: u64,
    min_exchange_rate: ExchangeRate,
) -> Result<DidSwap, ErrorCode> {
    if !before.assets_differ() {
        Err(ErrorCode::SwapTokensCannotMatch)
    } else {
        let did_swap = measured_swap(before, after, side, amount, min_exchange_rate);
        match did_swap.risk_checks() {
            Ok(_) => Ok(did_swap),
            Err(e) => Err(e),
        }
    }
}

/// A swap on one market can be settled: where the custody accounts hold two assets, the
/// samples fit together and the verdict can be computed.
pub open spec fn swap_defined(
    before: Swap,
    after: Swap,
    side: Side,
    amount: u64,
    min_exchange_rate: ExchangeRate,
) -> bool {
    before.assets_differ() ==> measurable(before, after, side) && measured_swap(
        before,
        after,
        side,
        amount,
        min_exchange_rate,
    ).risk_checks_defined()
}

/// Checks that the two custody accounts of a swap hold different assets.
pub fn is_valid_swap(ctx: &Swap) -> (r: Result<(), ErrorCode>)
    ensures
        ctx.assets_differ() ==> r is Ok,
        !ctx.assets_differ() ==> r == Err::<(), ErrorCode>(ErrorCode::SwapTokensCannotMatch),
{
    if ctx.market.coin_wallet.mint == ctx.pc_wallet.mint {
        return Err(ErrorCode::SwapTokensCannotMatch);
    }
    Ok(())
}

/// Tells whether two samples of a swap on one market fit together.
pub fn is_measurable(before: &Swap, after: &Swap, side: Side) -> (r: bool)
    ensures
        r == measurable(*before, *after, side),
{
    match side {
        Side::Bid => after.pc_wallet.amount <= before.pc_wallet.amount
            && before.market.coin_wallet.amount <= after.market.coin_wallet.amount,
        Side::Ask => after.market.coin_wallet.amount <= before.market.coin_wallet.amount
            && before.pc_wallet.amount <= after.pc_wallet.amount,
    }
}

/// Measures a swap on one market as the difference of two samples.
fn measure(
    before: &Swap,
    after: &Swap,
    side: Side,
    amount: u64,
    min_exchange_rate: ExchangeRate,
) -> (r: DidSwap)
    requires
        measurable(*before, *after, side),
    ensures
        r == measured_swap(*before, *after, side, amount, min_exchange_rate),
{
    let (from_before, to_before) = match side {
        Side::Bid => (before.pc_wallet, before.market.coin_wallet),
        Side::Ask => (before.market.coin_wallet, before.pc_wallet),
    };
    let (from_after, to_after) = match side {
        Side::Bid => (after.pc_wallet, after.market.coin_wallet),
        Side::Ask => (after.market.coin_wallet, after.pc_wallet),
    };
    DidSwap {
        pocket_address: before.pocket,
        given_amount: amount,
        min_exchange_rate: ExchangeRate {
            rate: min_exchange_rate.rate,
            from_decimals: min_exchange_rate.from_decimals,
            quote_decimals: 0,
            strict: min_exchange_rate.strict,
        },
        from_amount: from_before.amount - from_after.amount,
        to_amount: to_after.amount - to_before.amount,
        quote_amount: 0,
        spill_amount: 0,
        from_mint: from_after.mint,
        to_mint: to_after.mint,
        quote_mint: after.pc_wallet.mint,
        authority: before.authority,
    }
}

/// Settles the books on a swap on one market. `before` is the sample of the custody
/// accounts taken before the order went to the venue, `after` the sample taken once the
/// venue had settled; `amount` is what was offered. The realized amounts are the
/// differences of the two samples, whatever the venue itself reported.
pub fn swap(
    before: &Swap,
    after: &Swap,
    side: Side,
    amount: u64,
    min_exchange_rate: ExchangeRate,
) -> (r: Result<DidSwap, ErrorCode>)
    requires
        swap_defined(*before, *after, side, amount, min_exchange_rate),
    ensures
        r == swap_outcome(*before, *after, side, amount, min_exchange_rate),
{
    match is_valid_swap(before) {
        Err(e) => {
            return Err(e);
        },
        Ok(_) => {},
    }
    let did_swap = measure(before, after, side, amount, min_exchange_rate);
    match apply_risk_checks(&did_swap) {
        Err(e) => Err(e),
        Ok(_) => Ok(did_swap),
    }
}

/// Settles the books on a swap on one market as [`swap`] does, where that can be done,
/// and answers nothing where the samples do not fit together or the verdict cannot be
/// computed.
pub fn try_swap(
    before: &Swap,
    after: &Swap,
    side: Side,
    amount: u64,
    min_exchange_rate: ExchangeRate,
) -> (r: Option<Result<DidSwap, ErrorCode>>)
    ensures
        swap_defined(*before, *after, side, amount, min_exchange_rate) ==> r == Some(
            swap_outcome(*before, *after, side, amount, min_exchange_rate),
        ),
        !swap_defined(*before, *after, side, amount, min_exchange_rate) ==> r is None,
{
    if is_valid_swap(before).is_ok() {
        if !is_measurable(before, after, side) {
            return None;
        }
        let did_swap = measure(before, after, side, amount, min_exchange_rate);
        if !can_apply_risk_checks(&did_swap) {
            return None;
        }
    }
    Some(swap(before, after, side, amount, min_exchange_rate))
}

impl SwapTransitive {
    /// A swap over two markets needs two different base assets.
    pub open spec fn assets_differ(self) -> bool {
        self.from.coin_wallet.mint != self.to.coin_wallet.mint
    }
}

/// The three samples of a swap over two markets fit together: the first leg took base
/// asset and brought quote asset, the second leg took quote asset and brought the
/// incoming asset, and the second leg took no more quote asset than the first brought.
pub open spec fn measurable_transitive(
    start: SwapTransitive,
    middle: SwapTransitive,
    end: SwapTransitive,
) -> bool {
    &&& middle.from.coin_wallet.amount <= start.from.coin_wallet.amount
    &&& start.pc_wallet.amount <= middle.pc_wallet.amount
    &&& middle.to.coin_wallet.amount <= end.to.coin_wallet.amount
    &&& start.pc_wallet.amount <= end.pc_wallet.amount <= middle.pc_wallet.amount
}

/// The record of a swap over two markets, measured on three samples of the custody
/// accounts: before the first leg, between the legs, after the second leg.
pub open spec fn measured_swap_transitive(
    start: SwapTransitive,
    middle: SwapTransitive,
    end: SwapTransitive,
    amount: u64,
    min_exchange_rate: ExchangeRate,
) -> DidSwap {
    DidSwap {
        pocket_address: start.pocket,
        given_amount: amount,
        min_exchange_rate,
        from_amount: (start.from.coin_wallet.amount - middle.from.coin_wallet.amount) as u64,
        to_amount: (end.to.coin_wallet.amount - middle.to.coin_wallet.amount) as u64,
        quote_amount: (middle.pc_wallet.amount - start.pc_wallet.amount) as u64,
        spill_amount: (end.pc_wallet.amount - start.pc_wallet.amount) as u64,
        from_mint: end.from.coin_wallet.mint,
        to_mint: end.to.coin_wallet.mint,
        quote_mint: end.pc_wallet.mint,
        authority: start.authority,
    }
}

/// What a swap over two markets comes to: refused where both markets have the same base
/// asset, else measured and judged.
pub open spec fn swap_transitive_outcome(
    start: SwapTransitive,
    middle: SwapTransitive,
    end: SwapTransitive,
    amount: u64,
    min_exchange_rate: ExchangeRate,
) -> Result<DidSwap, ErrorCode> {
    if !start.assets_differ() {
        Err(ErrorCode::SwapTokensCannotMatch)
    } else {
        let did_swap = measured_swap_transitive(start, middle, end, amount, min_exchange_rate);
        match did_swap.risk_checks() {
            Ok(_) => Ok(did_swap),
            Err(e) => Err(e),
        }
    }
}

/// A swap over two markets can be settled: where the markets have two base assets, the
/// samples fit together and the verdict can be computed.
pub open spec fn swap_transitive_defined(
    start: SwapTransitive,
    middle: SwapTransitive,
    end: SwapTransitive,
    amount: u64,
    min_exchange_rate: ExchangeRate,
) -> bool {
    start.assets_differ() ==> measurable_transitive(start, middle, end)
        && measured_swap_transitive(
        start,
        middle,
        end,
        amount,
        min_exchange_rate,
    ).risk_checks_defined()
}

/// Checks that the two markets of a swap have different base assets.
pub fn is_valid_swap_transitive(ctx: &SwapTransitive) -> (r: Result<(), ErrorCode>)
    ensures
        ctx.assets_differ() ==> r is Ok,
        !ctx.assets_differ() ==> r == Err::<(), ErrorCode>(ErrorCode::SwapTokensCannotMatch),
{
    if ctx.from.coin_wallet.mint == ctx.to.coin_wallet.mint {
        return Err(ErrorCode::SwapTokensCannotMatch);
    }
    Ok(())
}

/// The quote proceeds of the first leg, which is what the second leg offers.
pub fn sell_proceeds(start: &SwapTransitive, middle: &SwapTransitive) -> (r: u64)
    requires
        start.pc_wallet.amount <= middle.pc_wallet.amount,
    ensures
        r == middle.pc_wallet.amount - start.pc_wallet.amount,
{
    middle.pc_wallet.amount - start.pc_wallet.amount
}

/// Tells whether three samples of a swap over two markets fit together.
pub fn is_measurable_transitive(
    start: &SwapTransitive,
    middle: &SwapTransitive,
    end: &SwapTransitive,
) -> (r: bool)
    ensures
        r == measurable_transitive(*start, *middle, *end),
{
    middle.from.coin_wallet.amount <= start.from.coin_wallet.amount && start.pc_wallet.amount
        <= middle.pc_wallet.amount && middle.to.coin_wallet.amount <= end.to.coin_wallet.amount
        && start.pc_wallet.amount <= end.pc_wallet.amount && end.pc_wallet.amount
        <= middle.pc_wallet.amount
}

/// Measures a swap over two markets on three samples.
fn measure_transitive(
    start: &SwapTransitive,
    middle: &SwapTransitive,
    end: &SwapTransitive,
    amount: u64,
    min_exchange_rate: ExchangeRate,
) -> (r: DidSwap)
    requires
        measurable_transitive(*start, *middle, *end),
    ensures
        r == measured_swap_transitive(*start, *middle, *end, amount, min_exchange_rate),
{
    let from_amount = start.from.coin_wallet.amount - middle.from.coin_wallet.amount;
    let proceeds = sell_proceeds(start, middle);
    let to_amount = end.to.coin_wallet.amount - middle.to.coin_wallet.amount;
    let buy_proceeds = middle.pc_wallet.amount - end.pc_wallet.amount;
    let spill_amount = proceeds - buy_proceeds;
    DidSwap {
        pocket_address: start.pocket,
        given_amount: amount,
        min_exchange_rate,
        from_amount,
        to_amount,
        quote_amount: proceeds,
        spill_amount,
        from_mint: end.from.coin_wallet.mint,
        to_mint: end.to.coin_wallet.mint,
        quote_mint: end.pc_wallet.mint,
        authority: start.authority,
    }
}

/// Settles the books on a swap over two markets: the outgoing asset was sold for the
/// quote asset on the first, and the incoming asset bought with the proceeds on the
/// second. `start`, `middle` and `end` are the samples of the custody accounts taken
/// before the first leg, between the legs and after the second leg. Quote proceeds that
/// the second leg left over are the spill.
pub fn swap_transitive(
    start: &SwapTransitive,
    middle: &SwapTransitive,
    end: &SwapTransitive,
    amount: u64,
    min_exchange_rate: ExchangeRate,
) -> (r: Result<DidSwap, ErrorCode>)
    requires
        swap_transitive_defined(*start, *middle, *end, amount, min_exchange_rate),
    ensures
        r == swap_transitive_outcome(*start, *middle, *end, amount, min_exchange_rate),
{
    match is_valid_swap_transitive(start) {
        Err(e) => {
            return Err(e);
        },
        Ok(_) => {},
    }
    let did_swap = measure_transitive(start, middle, end, amount, min_exchange_rate);
    match apply_risk_checks(&did_swap) {
        Err(e) => Err(e),
        Ok(_) => Ok(did_swap),
    }
}

/// Settles the books on a swap over two markets as [`swap_transitive`] does, where that
/// can be done, and answers nothing where the samples do not fit together or the verdict
/// cannot be computed.
pub fn try_swap_transitive(
    start: &SwapTransitive,
    middle: &SwapTransitive,
    end: &SwapTransitive,
    amount: u64,
    min_exchange_rate: ExchangeRate,
) -> (r: Option<Result<DidSwap, ErrorCode>>)
    ensures
        swap_transitive_defined(*start, *middle, *end, amount, min_exchange_rate) ==> r == Some(
            swap_transitive_outcome(*start, *middle, *end, amount, min_exchange_rate),
        ),
        !swap_transitive_defined(*start, *middle, *end, amount, min_exchange_rate) ==> r is None,
{
    if is_valid_swap_transitive(start).is_ok() {
        if !is_measurable_transitive(start, middle, end) {
            return None;
        }
        let did_swap = measure_transitive(start, middle, end, amount, min_exchange_rate);
        if !can_apply_risk_checks(&did_swap) {
            return None;
        }
    }
    Some(swap_transitive(start, middle, end, amount, min_exchange_rate))
}

/// What the venue does when an order would trade against an order of the same owner.
#[derive(Clone, Copy, Debug, PartialEq, Eq, Structural)]
pub enum SelfTradeBehavior {
    DecrementTake,
    CancelProvide,
    AbortTransaction,
}

/// How long an order stays on the book.
#[derive(Clone, Copy, Debug, PartialEq, Eq, Structural)]
pub enum OrderType {
    Limit,
    ImmediateOrCancel,
    PostOnly,
}

/// An order as it is handed to the venue. The three quantities are never zero.
#[derive(Clone, Copy, Debug, PartialEq, Eq, Structural)]
pub struct NewOrder {
    /// Bid or ask.
    pub side: Side,
    /// The worst price accepted, in lots.
    pub limit_price: u64,
    /// The most base asset to trade, in lots.
    pub max_coin_qty: u64,
    /// The most quote asset to trade, fees included, in its smallest unit.
    pub max_native_pc_qty: u64,
    /// The self-trade policy.
    pub self_trade_behavior: SelfTradeBehavior,
    /// The time in force.
    pub order_type: OrderType,
    /// An id by which the order could be cancelled.
    pub client_order_id: u64,
    /// The most matching rounds the venue may spend on the order.
    pub limit: u16,
}

/// The id given to every order. Orders are never cancelled, so one id serves.
pub const CLIENT_ORDER_ID: u64 = 0;

/// The most matching rounds the venue may spend on one order.
pub const MATCHING_LIMIT: u16 = 65535;

impl NewOrder {
    /// The order that sells `lots` lots of the base asset at any price: an
    /// immediate-or-cancel ask with the lowest limit price and no bound on the quote side.
    pub open spec fn selling(lots: u64) -> NewOrder {
        NewOrder {
            side: Side::Ask,
            limit_price: 1,
            max_coin_qty: lots,
            max_native_pc_qty: u64::MAX,
            self_trade_behavior: SelfTradeBehavior::DecrementTake,
            order_type: OrderType::ImmediateOrCancel,
            client_order_id: CLIENT_ORDER_ID,
            limit: MATCHING_LIMIT,
        }
    }

    /// The order that spends up to `quote_amount` of the quote asset at any price: an
    /// immediate-or-cancel bid with the highest limit price and no bound on the base side.
    pub open spec fn buying(quote_amount: u64) -> NewOrder {
        NewOrder {
            side: Side::Bid,
            limit_price: u64::MAX,
            max_coin_qty: u64::MAX,
            max_native_pc_qty: quote_amount,
            self_trade_behavior: SelfTradeBehavior::DecrementTake,
            order_type: OrderType::ImmediateOrCancel,
            client_order_id: CLIENT_ORDER_ID,
            limit: MATCHING_LIMIT,
        }
    }

    /// The venue takes an order only where none of the three quantities is zero.
    pub open spec fn wf(self) -> bool {
        self.limit_price != 0 && self.max_coin_qty != 0 && self.max_native_pc_qty != 0
    }

    /// The order that offers `amount` on `side` of a market with lots of `coin_lot_size`,
    /// where there is one: a bid needs a positive amount, an ask an amount of at least
    /// one lot.
    pub open spec fn offering(side: Side, coin_lot_size: u64, amount: u64) -> Option<NewOrder> {
        match side {
            Side::Bid => if amount > 0 {
                Some(NewOrder::buying(amount))
            } else {
                None
            },
            Side::Ask => if coin_lot_size > 0 && amount / coin_lot_size > 0 {
                Some(NewOrder::selling((amount / coin_lot_size) as u64))
            } else {
                None
            },
        }
    }

    /// The order that sells `base_amount` of the base asset on `market` for as much quote
    /// asset as it fetches. There is none where the amount is less than one lot, or the
    /// lot size is zero.
    pub fn sell(market: &MarketAccounts, base_amount: u64) -> (r: Option<NewOrder>)
        ensures
            r == NewOrder::offering(Side::Ask, market.coin_lot_size, base_amount),
            r matches Some(order) ==> order.wf(),
    {
        match coin_lots(market, base_amount) {
            None => None,
            Some(lots) => {
                if lots == 0 {
                    None
                } else {
                    Some(
                        NewOrder {
                            side: Side::Ask,
                            limit_price: 1,
                            max_coin_qty: lots,
                            max_native_pc_qty: u64::MAX,
                            self_trade_behavior: SelfTradeBehavior::DecrementTake,
                            order_type: OrderType::ImmediateOrCancel,
                            client_order_id: CLIENT_ORDER_ID,
                            limit: MATCHING_LIMIT,
                        },
                    )
                }
            },
        }
    }

    /// The order that spends `quote_amount` of the quote asset on as much base asset as
    /// it buys. There is none for an amount of zero.
    pub fn buy(quote_amount: u64) -> (r: Option<NewOrder>)
        ensures
            r == NewOrder::offering(Side::Bid, 0, quote_amount),
            r matches Some(order) ==> order.wf(),
    {
        if quote_amount == 0 {
            None
        } else {
            Some(
                NewOrder {
                    side: Side::Bid,
                    limit_price: u64::MAX,
                    max_coin_qty: u64::MAX,
                    max_native_pc_qty: quote_amount,
                    self_trade_behavior: SelfTradeBehavior::DecrementTake,
                    order_type: OrderType::ImmediateOrCancel,
                    client_order_id: CLIENT_ORDER_ID,
                    limit: MATCHING_LIMIT,
                },
            )
        }
    }
}

/// How many whole lots of the market's base asset `size` comes to. There is no answer
/// for a market whose lot size is zero.
pub fn coin_lots(market: &MarketAccounts, size: u64) -> (r: Option<u64>)
    ensures
        market.coin_lot_size == 0 ==> r is None,
        market.coin_lot_size > 0 ==> r == Some((size / market.coin_lot_size) as u64),
{
    if market.coin_lot_size == 0 {
        None
    } else {
        Some(size / market.coin_lot_size)
    }
}

} // verus!
