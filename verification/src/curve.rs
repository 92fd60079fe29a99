use vstd::prelude::*;
use vstd::arithmetic::div_mod::{
    lemma_div_is_ordered, lemma_div_multiples_vanish, lemma_div_pos_is_pos,
};
use vstd::arithmetic::mul::{lemma_mul_inequality, lemma_mul_nonnegative};
use crate::errors::CoreError;

verus! {

/// Denominator of the fixed-point `growth_factor`: a factor of 110 means a
/// slope of 1.10 price units per unit of supply.
pub const PRICE_SCALE: u64 = 100;

/// Platform fee in basis points, taken from every gross trade amount.
pub const FEE_BPS: u64 = 100;

/// Basis-point denominator of the platform fee.
pub const FEE_DENOMINATOR: u64 = 10_000;

/// Market-cap level past which a pool graduates (a one-way latch).
pub const GRADUATION_THRESHOLD: u64 = 10_000;

/// Curve parameters of one bonding-curve pool, fixed at pool creation.
///
/// The curve is linear in fixed-point arithmetic: the spot price at market
/// cap `m` is `base_price + growth_factor * m / PRICE_SCALE`, and the cost
/// of a trade is the unit-by-unit sum of spot prices over the traded
/// interval. A linear curve is monotone by construction and keeps every
/// intermediate value within checked 64-bit arithmetic.
#[derive(Clone, Copy, Debug, PartialEq, Eq, Structural)]
pub struct BondingCurve {
    pub base_price: u64,
    pub growth_factor: u64,
}

/// Spot price of the curve at position `market_cap`.
pub open spec fn spot_price(base_price: u64, growth_factor: u64, market_cap: int) -> int {
    base_price + (growth_factor * market_cap) / (PRICE_SCALE as int)
}

/// The spot-price computation at `market_cap` stays within 64 bits.
pub open spec fn price_fits(base_price: u64, growth_factor: u64, market_cap: int) -> bool {
    &&& growth_factor * market_cap <= u64::MAX
    &&& spot_price(base_price, growth_factor, market_cap) <= u64::MAX
}

/// Cost of buying `amount` units starting at `market_cap`: the sum of the
/// spot prices of the units in `[market_cap, market_cap + amount)`.
pub open spec fn buy_cost_of(
    base_price: u64,
    growth_factor: u64,
    market_cap: int,
    amount: nat,
) -> int
    decreases amount,
{
    if amount == 0 {
        0
    } else {
        spot_price(base_price, growth_factor, market_cap) + buy_cost_of(
            base_price,
            growth_factor,
            market_cap + 1,
            (amount - 1) as nat,
        )
    }
}

/// Gross proceeds of selling `amount` units at `market_cap`: the sum of the
/// spot prices of the units in `[market_cap - amount, market_cap)`.
pub open spec fn sell_gross_of(
    base_price: u64,
    growth_factor: u64,
    market_cap: int,
    amount: nat,
) -> int {
    buy_cost_of(base_price, growth_factor, market_cap - amount, amount)
}

/// Platform fee on a gross amount: `FEE_BPS` basis points, rounded down.
pub open spec fn fee_of(gross: int) -> int {
    (gross * FEE_BPS) / (FEE_DENOMINATOR as int)
}

/// The fee computation on `gross` stays within 64 bits.
pub open spec fn fee_fits(gross: int) -> bool {
    gross * FEE_BPS <= u64::MAX
}

/// Every computation of a buy of `amount` units at `market_cap` stays
/// within 64 bits.
pub open spec fn buy_fits(c: BondingCurve, market_cap: u64, amount: u64) -> bool {
    &&& market_cap + amount <= u64::MAX
    &&& forall|i: int|
        0 <= i < amount ==> #[trigger] price_fits(c.base_price, c.growth_factor, market_cap + i)
    &&& buy_cost_of(c.base_price, c.growth_factor, market_cap as int, amount as nat) <= u64::MAX
}

/// What `BondingCurve::calculate_price` returns.
pub open spec fn price_result(c: BondingCurve, market_cap: u64) -> Result<u64, CoreError> {
    if c.base_price == 0 {
        Err(CoreError::InvalidCurveParameters)
    } else if price_fits(c.base_price, c.growth_factor, market_cap as int) {
        Ok(spot_price(c.base_price, c.growth_factor, market_cap as int) as u64)
    } else {
        Err(CoreError::ArithmeticOverflow)
    }
}

/// What `BondingCurve::calculate_buy_cost` returns.
pub open spec fn buy_cost_result(c: BondingCurve, market_cap: u64, amount: u64) -> Result<
    u64,
    CoreError,
> {
    if c.base_price == 0 {
        Err(CoreError::InvalidCurveParameters)
    } else if buy_fits(c, market_cap, amount) {
        Ok(buy_cost_of(c.base_price, c.growth_factor, market_cap as int, amount as nat) as u64)
    } else {
        Err(CoreError::ArithmeticOverflow)
    }
}

/// What `BondingCurve::calculate_sell_amount` returns.
pub open spec fn sell_amount_result(c: BondingCurve, market_cap: u64, amount: u64) -> Result<
    u64,
    CoreError,
> {
    if c.base_price == 0 {
        Err(CoreError::InvalidCurveParameters)
    } else if amount > market_cap {
        Err(CoreError::ArithmeticUnderflow)
    } else {
        buy_cost_result(c, (market_cap - amount) as u64, amount)
    }
}

/// What `BondingCurve::calculate_platform_fee` returns.
pub open spec fn fee_result(gross: u64) -> Result<u64, CoreError> {
    if fee_fits(gross as int) {
        Ok(fee_of(gross as int) as u64)
    } else {
        Err(CoreError::ArithmeticOverflow)
    }
}

/// What `BondingCurve::calculate_net_cost` returns.
pub open spec fn net_result(gross: u64) -> Result<u64, CoreError> {
    if fee_fits(gross as int) {
        Ok((gross - fee_of(gross as int)) as u64)
    } else {
        Err(CoreError::ArithmeticOverflow)
    }
}

/// The spot price is never negative.
pub proof fn lemma_spot_price_nonneg(base_price: u64, growth_factor: u64, market_cap: int)
    requires
        market_cap >= 0,
    ensures
        spot_price(base_price, growth_factor, market_cap) >= 0,
{
    lemma_mul_nonnegative(growth_factor as int, market_cap);
    lemma_div_pos_is_pos(growth_factor as int * market_cap, PRICE_SCALE as int);
}

/// Law: the spot price is monotone non-decreasing in the market cap.
pub proof fn lemma_price_monotone(base_price: u64, growth_factor: u64, m1: int, m2: int)
    requires
        0 <= m1 <= m2,
    ensures
        spot_price(base_price, growth_factor, m1) <= spot_price(base_price, growth_factor, m2),
{
    lemma_mul_inequality(m1, m2, growth_factor as int);
    lemma_div_is_ordered(
        growth_factor as int * m1,
        growth_factor as int * m2,
        PRICE_SCALE as int,
    );
}

/// The cost of a buy over a non-negative interval is never negative.
pub proof fn lemma_buy_cost_nonneg(
    base_price: u64,
    growth_factor: u64,
    market_cap: int,
    amount: nat,
)
    requires
        market_cap >= 0,
    ensures
        buy_cost_of(base_price, growth_factor, market_cap, amount) >= 0,
    decreases amount,
{
    if amount > 0 {
        lemma_spot_price_nonneg(base_price, growth_factor, market_cap);
        lemma_buy_cost_nonneg(base_price, growth_factor, market_cap + 1, (amount - 1) as nat);
    }
}

/// Buying `a + b` units in one go costs the same as buying `a` units and
/// then `b` units from the advanced curve position.
pub proof fn lemma_buy_cost_split(
    base_price: u64,
    growth_factor: u64,
    market_cap: int,
    a: nat,
    b: nat,
)
    ensures
        buy_cost_of(base_price, growth_factor, market_cap, a + b) == buy_cost_of(
            base_price,
            growth_factor,
            market_cap,
            a,
        ) + buy_cost_of(base_price, growth_factor, market_cap + a, b),
    decreases a,
{
    if a > 0 {
        lemma_buy_cost_split(base_price, growth_factor, market_cap + 1, (a - 1) as nat, b);
    }
}

/// The cost of a buy grows strictly with the amount bought, for a valid
/// curve (one whose base price is at least one unit).
pub proof fn lemma_buy_cost_increases_with_amount(
    base_price: u64,
    growth_factor: u64,
    market_cap: int,
    a1: nat,
    a2: nat,
)
    requires
        base_price >= 1,
        market_cap >= 0,
        a1 < a2,
    ensures
        buy_cost_of(base_price, growth_factor, market_cap, a1) < buy_cost_of(
            base_price,
            growth_factor,
            market_cap,
            a2,
        ),
{
    lemma_buy_cost_split(base_price, growth_factor, market_cap, a1, (a2 - a1) as nat);
    lemma_mul_nonnegative(growth_factor as int, market_cap + a1);
    lemma_div_pos_is_pos(growth_factor as int * (market_cap + a1), PRICE_SCALE as int);
    lemma_buy_cost_nonneg(base_price, growth_factor, market_cap + a1 + 1, (a2 - a1 - 1) as nat);
}

/// The cost of a buy is monotone non-decreasing in the starting market
/// cap: buying into a higher curve position never costs less.
pub proof fn lemma_buy_cost_monotone_in_market_cap(
    base_price: u64,
    growth_factor: u64,
    m1: int,
    m2: int,
    amount: nat,
)
    requires
        0 <= m1 <= m2,
    ensures
        buy_cost_of(base_price, growth_factor, m1, amount) <= buy_cost_of(
            base_price,
            growth_factor,
            m2,
            amount,
        ),
    decreases amount,
{
    if amount > 0 {
        lemma_price_monotone(base_price, growth_factor, m1, m2);
        lemma_buy_cost_monotone_in_market_cap(
            base_price,
            growth_factor,
            m1 + 1,
            m2 + 1,
            (amount - 1) as nat,
        );
    }
}

/// Within a buy that fits, the spot-price computation at the starting
/// position itself stays within 64 bits.
pub proof fn lemma_buy_fits_first_price(c: BondingCurve, market_cap: u64, amount: u64)
    requires
        buy_fits(c, market_cap, amount),
        amount > 0,
    ensures
        price_fits(c.base_price, c.growth_factor, market_cap as int),
{
    assert(price_fits(c.base_price, c.growth_factor, market_cap + 0));
}

/// Law (no-arbitrage): the gross proceeds of selling `amount` units never
/// exceed the cost of buying the same units back over the same interval of
/// the curve. With this curve the two sums are equal by construction.
pub proof fn lemma_no_arbitrage(base_price: u64, growth_factor: u64, market_cap: u64, amount: u64)
    requires
        amount <= market_cap,
    ensures
        sell_gross_of(base_price, growth_factor, market_cap as int, amount as nat) <= buy_cost_of(
            base_price,
            growth_factor,
            market_cap - amount,
            amount as nat,
        ),
{
}

/// The platform fee is never negative and never exceeds the gross amount.
pub proof fn lemma_fee_le_gross(gross: int)
    requires
        gross >= 0,
    ensures
        0 <= fee_of(gross) <= gross,
{
    lemma_mul_nonnegative(gross, FEE_BPS as int);
    lemma_div_pos_is_pos(gross * FEE_BPS, FEE_DENOMINATOR as int);
    lemma_mul_inequality(FEE_BPS as int, FEE_DENOMINATOR as int, gross);
    lemma_div_is_ordered(gross * FEE_BPS, gross * FEE_DENOMINATOR, FEE_DENOMINATOR as int);
    lemma_div_multiples_vanish(gross, FEE_DENOMINATOR as int);
}

impl BondingCurve {
    /// Spot price at `market_cap`, in checked fixed-point arithmetic.
    pub fn calculate_price(&self, market_cap: u64) -> (r: Result<u64, CoreError>)
        ensures
            r == price_result(*self, market_cap),
    {
        if self.base_price == 0 {
            return Err(CoreError::InvalidCurveParameters);
        }
        match self.growth_factor.checked_mul(market_cap) {
            None => Err(CoreError::ArithmeticOverflow),
            Some(scaled) => {
                let increment = scaled / PRICE_SCALE;
                match self.base_price.checked_add(increment) {
                    None => Err(CoreError::ArithmeticOverflow),
                    Some(p) => Ok(p),
                }
            },
        }
    }

    /// Total cost of buying `amount` units starting at `market_cap`,
    /// summed unit by unit over the curve in checked arithmetic.
    pub fn calculate_buy_cost(&self, market_cap: u64, amount: u64) -> (r: Result<u64, CoreError>)
        ensures
            r == buy_cost_result(*self, market_cap, amount),
    {
        if self.base_price == 0 {
            return Err(CoreError::InvalidCurveParameters);
        }
        if market_cap.checked_add(amount).is_none() {
            return Err(CoreError::ArithmeticOverflow);
        }
        let mut cost: u64 = 0;
        let mut i: u64 = 0;
        while i < amount
            invariant
                self.base_price > 0,
                i <= amount,
                market_cap + amount <= u64::MAX,
                forall|j: int|
                    0 <= j < i ==> #[trigger] price_fits(
                        self.base_price,
                        self.growth_factor,
                        market_cap + j,
                    ),
                cost == buy_cost_of(
                    self.base_price,
                    self.growth_factor,
                    market_cap as int,
                    i as nat,
                ),
            decreases amount - i,
        {
            let p = match self.calculate_price(market_cap + i) {
                Ok(p) => p,
                Err(e) => {
                    return Err(e);
                },
            };
            proof {
                lemma_spot_price_nonneg(self.base_price, self.growth_factor, market_cap + i);
                lemma_buy_cost_split(
                    self.base_price,
                    self.growth_factor,
                    market_cap as int,
                    i as nat,
                    1,
                );
                assert(buy_cost_of(self.base_price, self.growth_factor, market_cap + i + 1, 0)
                    == 0);
                assert(buy_cost_of(self.base_price, self.growth_factor, market_cap + i, 1)
                    == spot_price(self.base_price, self.growth_factor, market_cap + i));
            }
            let new_cost = match cost.checked_add(p) {
                Some(c) => c,
                None => {
                    proof {
                        lemma_buy_cost_split(
                            self.base_price,
                            self.growth_factor,
                            market_cap as int,
                            (i + 1) as nat,
                            (amount - i - 1) as nat,
                        );
                        lemma_buy_cost_nonneg(
                            self.base_price,
                            self.growth_factor,
                            market_cap + i + 1,
                            (amount - i - 1) as nat,
                        );
                    }
                    return Err(CoreError::ArithmeticOverflow);
                },
            };
            cost = new_cost;
            i = i + 1;
        }
        Ok(cost)
    }

    /// Gross proceeds of selling `amount` units at `market_cap`, summed
    /// unit by unit over `[market_cap - amount, market_cap)`.
    pub fn calculate_sell_amount(&self, market_cap: u64, amount: u64) -> (r: Result<
        u64,
        CoreError,
    >)
        ensures
            r == sell_amount_result(*self, market_cap, amount),
    {
        if self.base_price == 0 {
            return Err(CoreError::InvalidCurveParameters);
        }
        match market_cap.checked_sub(amount) {
            None => Err(CoreError::ArithmeticUnderflow),
            Some(start) => self.calculate_buy_cost(start, amount),
        }
    }

    /// Platform fee on a gross amount: `FEE_BPS` basis points, rounded
    /// down.
    pub fn calculate_platform_fee(&self, gross_amount: u64) -> (r: Result<u64, CoreError>)
        ensures
            r == fee_result(gross_amount),
    {
        match gross_amount.checked_mul(FEE_BPS) {
            None => Err(CoreError::ArithmeticOverflow),
            Some(scaled) => Ok(scaled / FEE_DENOMINATOR),
        }
    }

    /// Net amount after the platform fee is deducted from the gross.
    pub fn calculate_net_cost(&self, gross_amount: u64) -> (r: Result<u64, CoreError>)
        ensures
            r == net_result(gross_amount),
    {
        let fee = match self.calculate_platform_fee(gross_amount) {
            Ok(f) => f,
            Err(e) => {
                return Err(e);
            },
        };
        proof {
            lemma_fee_le_gross(gross_amount as int);
        }
        match gross_amount.checked_sub(fee) {
            None => Err(CoreError::ArithmeticUnderflow),
            Some(net) => Ok(net),
        }
    }

    /// True once the market cap has moved past the graduation threshold.
    pub fn is_past_threshold(&self, market_cap: u64) -> (r: bool)
        ensures
            r == (market_cap > GRADUATION_THRESHOLD),
    {
        market_cap > GRADUATION_THRESHOLD
    }
}

} // verus!
