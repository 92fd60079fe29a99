use vstd::prelude::*;
use vstd::arithmetic::div_mod::{
    lemma_add_mod_noop, lemma_mod_pos_bound, lemma_mod_sub_multiples_vanish, lemma_small_mod,
};
use crate::account::{lemma_sum_update, sum_balances, Address, UserAccount};
use crate::backend::{map_backend_error, LedgerBackend};
use crate::curve::{
    buy_cost_of, buy_fits, fee_fits, fee_of, lemma_buy_cost_nonneg, lemma_buy_fits_first_price,
    lemma_fee_le_gross, price_fits, sell_gross_of, spot_price, BondingCurve, GRADUATION_THRESHOLD,
};
use crate::errors::CoreError;

verus! {

/// One bonding-curve pool: curve parameters, curve position, issued
/// supply, the graduation latch and the recent-price ring buffer.
pub struct BondingCurvePool {
    pub base_price: u64,
    pub growth_factor: u64,
    /// Cumulative synthetic supply issued net of burns; the curve position.
    pub current_market_cap: u64,
    /// Synthetic supply outstanding; tracks `current_market_cap`.
    pub total_supply: u64,
    /// One-way latch, set when the market cap first exceeds
    /// `GRADUATION_THRESHOLD` and never unset.
    pub past_threshold: bool,
    /// Ring buffer of the most recent spot prices, oldest overwritten first.
    pub price_history: [u64; 10],
    /// Next ring-buffer slot to overwrite; always below 10.
    pub price_history_idx: u8,
}

impl BondingCurvePool {
    /// The pool's curve parameters.
    pub open spec fn curve_spec(self) -> BondingCurve {
        BondingCurve { base_price: self.base_price, growth_factor: self.growth_factor }
    }

    /// The ring-buffer cursor stays in range.
    pub open spec fn well_formed(self) -> bool {
        self.price_history_idx < 10
    }

    /// The pool's ledger is balanced: outstanding supply equals the curve
    /// position, since both count issued units net of burns.
    pub open spec fn balanced(self) -> bool {
        self.total_supply == self.current_market_cap
    }
}

/// Receipt of a settled bonding-curve trade.
#[derive(Clone, Copy, Debug, PartialEq, Eq, Structural)]
pub struct TradeReceipt {
    pub amount: u64,
    pub gross: u64,
    pub fee: u64,
    pub net: u64,
    /// Spot price at the new curve position.
    pub price: u64,
    pub new_market_cap: u64,
}

/// The first failure a buy of `amount` units runs into, or `None` when the
/// core owes success (the backend may still decline custody).
pub open spec fn buy_error(p: BondingCurvePool, u: UserAccount, amount: u64) -> Option<CoreError> {
    let gross = buy_cost_of(
        p.base_price,
        p.growth_factor,
        p.current_market_cap as int,
        amount as nat,
    );
    if p.base_price == 0 {
        Some(CoreError::InvalidCurveParameters)
    } else if !buy_fits(p.curve_spec(), p.current_market_cap, amount) {
        Some(CoreError::ArithmeticOverflow)
    } else if !fee_fits(gross) {
        Some(CoreError::ArithmeticOverflow)
    } else if !price_fits(p.base_price, p.growth_factor, p.current_market_cap + amount) {
        Some(CoreError::ArithmeticOverflow)
    } else if p.total_supply + amount > u64::MAX {
        Some(CoreError::ArithmeticOverflow)
    } else if u.synthetic_sol_balance + amount > u64::MAX {
        Some(CoreError::ArithmeticOverflow)
    } else if u.real_sol_balance + fee_of(gross) > u64::MAX {
        Some(CoreError::ArithmeticOverflow)
    } else {
        None
    }
}

/// Relates the pool and user state after a successful buy of `amount`
/// units to the state before it.
pub open spec fn buy_applies(
    p0: BondingCurvePool,
    p1: BondingCurvePool,
    u0: UserAccount,
    u1: UserAccount,
    amount: u64,
) -> bool {
    let gross = buy_cost_of(
        p0.base_price,
        p0.growth_factor,
        p0.current_market_cap as int,
        amount as nat,
    );
    let new_cap = p0.current_market_cap + amount;
    &&& p1.base_price == p0.base_price
    &&& p1.growth_factor == p0.growth_factor
    &&& p1.current_market_cap == new_cap
    &&& p1.total_supply == p0.total_supply + amount
    &&& p1.past_threshold == (p0.past_threshold || new_cap > GRADUATION_THRESHOLD)
    &&& p1.price_history@ == p0.price_history@.update(
        p0.price_history_idx as int,
        spot_price(p0.base_price, p0.growth_factor, new_cap) as u64,
    )
    &&& p1.price_history_idx == (p0.price_history_idx + 1) % 10
    &&& u1.owner == u0.owner
    &&& u1.synthetic_sol_balance == u0.synthetic_sol_balance + amount
    &&& u1.real_sol_balance == u0.real_sol_balance + fee_of(gross)
    &&& u1.owned_nfts@ == u0.owned_nfts@
}

/// What the receipt of a successful buy reports.
pub open spec fn buy_receipt_ok(p0: BondingCurvePool, rc: TradeReceipt, amount: u64) -> bool {
    let gross = buy_cost_of(
        p0.base_price,
        p0.growth_factor,
        p0.current_market_cap as int,
        amount as nat,
    );
    &&& rc.amount == amount
    &&& rc.gross == gross
    &&& rc.fee == fee_of(gross)
    &&& rc.net == gross - fee_of(gross)
    &&& rc.price == spot_price(p0.base_price, p0.growth_factor, p0.current_market_cap + amount)
    &&& rc.new_market_cap == p0.current_market_cap + amount
}

/// Buys `amount` synthetic units from the pool's bonding curve.
///
/// The reserve-asset payment into the pool's custody and the synthetic
/// mint to the buyer go through `backend` under the pool's identifier
/// `pool_id` (the backend derives the pool's vault and synthetic mint from
/// it). All arithmetic is validated before custody moves and custody moves
/// before any state field is mutated: the transition is all-or-nothing,
/// and on any error neither the pool nor the user account has changed.
pub fn buy_token<B: LedgerBackend>(
    backend: &mut B,
    pool: &mut BondingCurvePool,
    pool_id: Address,
    user: &mut UserAccount,
    amount: u64,
) -> (r: Result<TradeReceipt, CoreError>)
    requires
        amount > 0,
        old(pool).well_formed(),
    ensures
        final(pool).well_formed(),
        r is Err ==> *final(pool) == *old(pool) && *final(user) == *old(user),
        buy_error(*old(pool), *old(user), amount) matches Some(e) ==> r == Err::<
            TradeReceipt,
            CoreError,
        >(e),
        buy_error(*old(pool), *old(user), amount) is None ==> (r matches Err(e) ==> e
            == CoreError::InsufficientUserBalance || e == CoreError::CustodyTransferFailed),
        r matches Ok(rc) ==> {
            &&& buy_applies(*old(pool), *final(pool), *old(user), *final(user), amount)
            &&& buy_receipt_ok(*old(pool), rc, amount)
            &&& buy_error(*old(pool), *old(user), amount) is None
        },
{
    let curve = BondingCurve { base_price: pool.base_price, growth_factor: pool.growth_factor };
    let gross = match curve.calculate_buy_cost(pool.current_market_cap, amount) {
        Ok(g) => g,
        Err(e) => {
            return Err(e);
        },
    };
    proof {
        lemma_buy_cost_nonneg(
            pool.base_price,
            pool.growth_factor,
            pool.current_market_cap as int,
            amount as nat,
        );
    }
    let fee = match curve.calculate_platform_fee(gross) {
        Ok(f) => f,
        Err(e) => {
            return Err(e);
        },
    };
    proof {
        lemma_fee_le_gross(gross as int);
    }
    let new_market_cap = match pool.current_market_cap.checked_add(amount) {
        Some(m) => m,
        None => {
            return Err(CoreError::ArithmeticOverflow);
        },
    };
    let price = match curve.calculate_price(new_market_cap) {
        Ok(p) => p,
        Err(e) => {
            return Err(e);
        },
    };
    let new_supply = match pool.total_supply.checked_add(amount) {
        Some(s) => s,
        None => {
            return Err(CoreError::ArithmeticOverflow);
        },
    };
    let new_synthetic = match user.synthetic_sol_balance.checked_add(amount) {
        Some(b) => b,
        None => {
            return Err(CoreError::ArithmeticOverflow);
        },
    };
    let new_real = match user.real_sol_balance.checked_add(fee) {
        Some(b) => b,
        None => {
            return Err(CoreError::ArithmeticOverflow);
        },
    };
    if let Err(e) = backend.transfer(pool_id, user.owner, pool_id, gross) {
        return Err(map_backend_error(e));
    }
    if let Err(e) = backend.mint(pool_id, user.owner, amount) {
        return Err(map_backend_error(e));
    }
    let was_past_threshold = pool.past_threshold;
    pool.current_market_cap = new_market_cap;
    pool.total_supply = new_supply;
    if curve.is_past_threshold(new_market_cap) && !was_past_threshold {
        pool.past_threshold = true;
    }
    let idx = pool.price_history_idx as usize;
    pool.price_history[idx] = price;
    pool.price_history_idx = (pool.price_history_idx + 1) % 10;
    user.synthetic_sol_balance = new_synthetic;
    user.real_sol_balance = new_real;
    proof {
        lemma_fee_le_gross(gross as int);
    }
    Ok(TradeReceipt { amount, gross, fee, net: gross - fee, price, new_market_cap })
}

/// The first failure a sell of `amount` units runs into, or `None` when
/// the core owes success (the backend may still decline custody).
pub open spec fn sell_error(p: BondingCurvePool, u: UserAccount, amount: u64) -> Option<
    CoreError,
> {
    let gross = sell_gross_of(
        p.base_price,
        p.growth_factor,
        p.current_market_cap as int,
        amount as nat,
    );
    if amount > p.current_market_cap {
        Some(CoreError::InsufficientPoolBalance)
    } else if p.base_price == 0 {
        Some(CoreError::InvalidCurveParameters)
    } else if !buy_fits(p.curve_spec(), (p.current_market_cap - amount) as u64, amount) {
        Some(CoreError::ArithmeticOverflow)
    } else if !fee_fits(gross) {
        Some(CoreError::ArithmeticOverflow)
    } else if p.total_supply < amount {
        Some(CoreError::ArithmeticUnderflow)
    } else if u.synthetic_sol_balance < amount {
        Some(CoreError::ArithmeticUnderflow)
    } else if u.real_sol_balance + fee_of(gross) > u64::MAX {
        Some(CoreError::ArithmeticOverflow)
    } else {
        None
    }
}

/// Relates the pool and user state after a successful sell of `amount`
/// units to the state before it.
pub open spec fn sell_applies(
    p0: BondingCurvePool,
    p1: BondingCurvePool,
    u0: UserAccount,
    u1: UserAccount,
    amount: u64,
) -> bool {
    let gross = sell_gross_of(
        p0.base_price,
        p0.growth_factor,
        p0.current_market_cap as int,
        amount as nat,
    );
    let new_cap = p0.current_market_cap - amount;
    &&& p1.base_price == p0.base_price
    &&& p1.growth_factor == p0.growth_factor
    &&& p1.current_market_cap == new_cap
    &&& p1.total_supply == p0.total_supply - amount
    &&& p1.past_threshold == p0.past_threshold
    &&& p1.price_history@ == p0.price_history@.update(
        p0.price_history_idx as int,
        spot_price(p0.base_price, p0.growth_factor, new_cap) as u64,
    )
    &&& p1.price_history_idx == (p0.price_history_idx + 1) % 10
    &&& u1.owner == u0.owner
    &&& u1.synthetic_sol_balance == u0.synthetic_sol_balance - amount
    &&& u1.real_sol_balance == u0.real_sol_balance + fee_of(gross)
    &&& u1.owned_nfts@ == u0.owned_nfts@
}

/// What the receipt of a successful sell reports.
pub open spec fn sell_receipt_ok(p0: BondingCurvePool, rc: TradeReceipt, amount: u64) -> bool {
    let gross = sell_gross_of(
        p0.base_price,
        p0.growth_factor,
        p0.current_market_cap as int,
        amount as nat,
    );
    &&& rc.amount == amount
    &&& rc.gross == gross
    &&& rc.fee == fee_of(gross)
    &&& rc.net == gross - fee_of(gross)
    &&& rc.price == spot_price(p0.base_price, p0.growth_factor, p0.current_market_cap - amount)
    &&& rc.new_market_cap == p0.current_market_cap - amount
}

/// Sells `amount` synthetic units back to the pool's bonding curve.
///
/// The synthetic burn and the net reserve-asset payout go through
/// `backend` under the pool's identifier `pool_id`. A request for more
/// units than the pool has issued fails with `InsufficientPoolBalance`.
/// All arithmetic is validated before custody moves and custody moves
/// before any state field is mutated: the transition is all-or-nothing,
/// and on any error neither the pool nor the user account has changed.
pub fn sell_token<B: LedgerBackend>(
    backend: &mut B,
    pool: &mut BondingCurvePool,
    pool_id: Address,
    user: &mut UserAccount,
    amount: u64,
) -> (r: Result<TradeReceipt, CoreError>)
    requires
        amount > 0,
        old(pool).well_formed(),
    ensures
        final(pool).well_formed(),
        r is Err ==> *final(pool) == *old(pool) && *final(user) == *old(user),
        sell_error(*old(pool), *old(user), amount) matches Some(e) ==> r == Err::<
            TradeReceipt,
            CoreError,
        >(e),
        sell_error(*old(pool), *old(user), amount) is None ==> (r matches Err(e) ==> e
            == CoreError::InsufficientUserBalance || e == CoreError::CustodyTransferFailed),
        r matches Ok(rc) ==> {
            &&& sell_applies(*old(pool), *final(pool), *old(user), *final(user), amount)
            &&& sell_receipt_ok(*old(pool), rc, amount)
            &&& sell_error(*old(pool), *old(user), amount) is None
        },
{
    if amount > pool.current_market_cap {
        return Err(CoreError::InsufficientPoolBalance);
    }
    let curve = BondingCurve { base_price: pool.base_price, growth_factor: pool.growth_factor };
    let gross = match curve.calculate_sell_amount(pool.current_market_cap, amount) {
        Ok(g) => g,
        Err(e) => {
            return Err(e);
        },
    };
    proof {
        lemma_buy_cost_nonneg(
            pool.base_price,
            pool.growth_factor,
            pool.current_market_cap - amount,
            amount as nat,
        );
    }
    let fee = match curve.calculate_platform_fee(gross) {
        Ok(f) => f,
        Err(e) => {
            return Err(e);
        },
    };
    proof {
        lemma_fee_le_gross(gross as int);
    }
    let net = match curve.calculate_net_cost(gross) {
        Ok(n) => n,
        Err(e) => {
            return Err(e);
        },
    };
    let new_market_cap = pool.current_market_cap - amount;
    let new_supply = match pool.total_supply.checked_sub(amount) {
        Some(s) => s,
        None => {
            return Err(CoreError::ArithmeticUnderflow);
        },
    };
    proof {
        lemma_buy_fits_first_price(curve, new_market_cap, amount);
    }
    let price = match curve.calculate_price(new_market_cap) {
        Ok(p) => p,
        Err(e) => {
            return Err(e);
        },
    };
    let new_synthetic = match user.synthetic_sol_balance.checked_sub(amount) {
        Some(b) => b,
        None => {
            return Err(CoreError::ArithmeticUnderflow);
        },
    };
    let new_real = match user.real_sol_balance.checked_add(fee) {
        Some(b) => b,
        None => {
            return Err(CoreError::ArithmeticOverflow);
        },
    };
    if let Err(e) = backend.burn(pool_id, user.owner, amount) {
        return Err(map_backend_error(e));
    }
    if let Err(e) = backend.transfer(pool_id, pool_id, user.owner, net) {
        return Err(map_backend_error(e));
    }
    pool.current_market_cap = new_market_cap;
    pool.total_supply = new_supply;
    let idx = pool.price_history_idx as usize;
    pool.price_history[idx] = price;
    pool.price_history_idx = (pool.price_history_idx + 1) % 10;
    user.synthetic_sol_balance = new_synthetic;
    user.real_sol_balance = new_real;
    Ok(TradeReceipt { amount, gross, fee, net, price, new_market_cap })
}

/// Law (round trip): buying `amount` units and then immediately selling
/// `amount` units returns the market cap exactly to its pre-buy value and
/// never increases the total supply beyond its pre-buy value.
pub proof fn lemma_round_trip(
    p0: BondingCurvePool,
    p1: BondingCurvePool,
    p2: BondingCurvePool,
    u0: UserAccount,
    u1: UserAccount,
    u2: UserAccount,
    amount: u64,
)
    requires
        buy_applies(p0, p1, u0, u1, amount),
        sell_applies(p1, p2, u1, u2, amount),
    ensures
        p2.current_market_cap == p0.current_market_cap,
        p2.total_supply == p0.total_supply,
        u2.synthetic_sol_balance == u0.synthetic_sol_balance,
{
}

/// Law (threshold latch): once `past_threshold` is set, it stays set
/// through every further buy or sell, even when the market cap falls back
/// below the threshold.
pub proof fn lemma_threshold_latch(
    p0: BondingCurvePool,
    p1: BondingCurvePool,
    u0: UserAccount,
    u1: UserAccount,
    amount: u64,
)
    requires
        p0.past_threshold,
        buy_applies(p0, p1, u0, u1, amount) || sell_applies(p0, p1, u0, u1, amount),
    ensures
        p1.past_threshold,
{
}

/// A chain of successive trades against one pool: `ps[i]` and `us[i]` are
/// the pool and user state before operation `i`, and each operation is a
/// buy or a sell of `amounts[i]` units.
pub open spec fn trade_chain(
    ps: Seq<BondingCurvePool>,
    us: Seq<UserAccount>,
    amounts: Seq<u64>,
) -> bool {
    &&& ps.len() == amounts.len() + 1
    &&& us.len() == ps.len()
    &&& forall|i: int|
        0 <= i < amounts.len() ==> (buy_applies(ps[i], ps[i + 1], us[i], us[i + 1], #[trigger] amounts[i])
            || sell_applies(ps[i], ps[i + 1], us[i], us[i + 1], amounts[i]))
}

/// Along any chain of trades the curve parameters never change, and the
/// ring-buffer cursor of the i-th state is the initial cursor advanced
/// once per operation, modulo 10.
pub proof fn lemma_chain_state_at(
    ps: Seq<BondingCurvePool>,
    us: Seq<UserAccount>,
    amounts: Seq<u64>,
    i: int,
)
    requires
        trade_chain(ps, us, amounts),
        ps[0].well_formed(),
        0 <= i < ps.len(),
    ensures
        ps[i].base_price == ps[0].base_price,
        ps[i].growth_factor == ps[0].growth_factor,
        ps[i].price_history_idx == (ps[0].price_history_idx + i) % 10,
    decreases i,
{
    let idx0 = ps[0].price_history_idx as int;
    if i == 0 {
        lemma_small_mod(ps[0].price_history_idx as nat, 10);
    } else {
        lemma_chain_state_at(ps, us, amounts, i - 1);
        assert(buy_applies(ps[i - 1], ps[i], us[i - 1], us[i], amounts[i - 1]) || sell_applies(
            ps[i - 1],
            ps[i],
            us[i - 1],
            us[i],
            amounts[i - 1],
        ));
        lemma_add_mod_noop(idx0 + i - 1, 1, 10);
        lemma_small_mod(1, 10);
    }
}

/// Two distinct cursor positions at most nine operations apart occupy
/// distinct ring-buffer slots.
proof fn lemma_cursor_slots_distinct(a: int, b: int)
    requires
        0 <= a < b,
        b - a < 10,
    ensures
        a % 10 != b % 10,
{
    let d = b - a;
    let s = a % 10;
    lemma_mod_pos_bound(a, 10);
    lemma_add_mod_noop(a, d, 10);
    lemma_small_mod(d as nat, 10);
    if s + d < 10 {
        lemma_small_mod((s + d) as nat, 10);
    } else {
        lemma_mod_sub_multiples_vanish(s + d, 10);
        lemma_small_mod((s + d - 10) as nat, 10);
    }
}

/// Once operation `j` of a chain has recorded its spot price, the next up
/// to nine operations leave that ring-buffer slot untouched: state `k`
/// still holds the price operation `j` recorded.
pub proof fn lemma_history_slot_preserved(
    ps: Seq<BondingCurvePool>,
    us: Seq<UserAccount>,
    amounts: Seq<u64>,
    j: int,
    k: int,
)
    requires
        trade_chain(ps, us, amounts),
        ps[0].well_formed(),
        0 <= j < k <= amounts.len(),
        k - j <= 10,
    ensures
        ps[k].price_history@[(ps[0].price_history_idx + j) % 10] == (spot_price(
            ps[0].base_price,
            ps[0].growth_factor,
            ps[j + 1].current_market_cap as int,
        ) as u64),
    decreases k,
{
    let idx0 = ps[0].price_history_idx as int;
    lemma_chain_state_at(ps, us, amounts, j);
    lemma_mod_pos_bound(idx0 + j, 10);
    if k == j + 1 {
        assert(buy_applies(ps[j], ps[j + 1], us[j], us[j + 1], amounts[j]) || sell_applies(
            ps[j],
            ps[j + 1],
            us[j],
            us[j + 1],
            amounts[j],
        ));
    } else {
        lemma_history_slot_preserved(ps, us, amounts, j, k - 1);
        lemma_chain_state_at(ps, us, amounts, k - 1);
        assert(buy_applies(ps[k - 1], ps[k], us[k - 1], us[k], amounts[k - 1]) || sell_applies(
            ps[k - 1],
            ps[k],
            us[k - 1],
            us[k],
            amounts[k - 1],
        ));
        lemma_cursor_slots_distinct(idx0 + j, idx0 + k - 1);
        lemma_mod_pos_bound(idx0 + k - 1, 10);
    }
}

/// Law (ring buffer): after any chain of trades, the ring buffer holds the
/// spot prices recorded by the ten most recent operations — operation `j`
/// recorded the spot price at its resulting market cap in the slot the
/// cursor pointed at, and the cursor has advanced once per operation,
/// modulo 10, so the oldest entries are overwritten first.
pub proof fn lemma_ring_buffer_recent_prices(
    ps: Seq<BondingCurvePool>,
    us: Seq<UserAccount>,
    amounts: Seq<u64>,
    j: int,
)
    requires
        trade_chain(ps, us, amounts),
        ps[0].well_formed(),
        0 <= j < amounts.len(),
        amounts.len() - j <= 10,
    ensures
        ps[amounts.len() as int].price_history_idx == (ps[0].price_history_idx + amounts.len())
            % 10,
        ps[amounts.len() as int].price_history@[(ps[0].price_history_idx + j) % 10]
            == (spot_price(
            ps[0].base_price,
            ps[0].growth_factor,
            ps[j + 1].current_market_cap as int,
        ) as u64),
{
    lemma_chain_state_at(ps, us, amounts, amounts.len() as int);
    lemma_history_slot_preserved(ps, us, amounts, j, amounts.len() as int);
}

/// Law (ledger consistency under buys): a buy keeps the pool balanced
/// (`total_supply == current_market_cap`) and keeps the sum of all users'
/// synthetic balances equal to the total supply, where `balances` lists
/// every user's balance and entry `k` is the trading user's.
pub proof fn lemma_ledger_invariant_buy(
    p0: BondingCurvePool,
    p1: BondingCurvePool,
    u0: UserAccount,
    u1: UserAccount,
    amount: u64,
    balances: Seq<u64>,
    k: int,
)
    requires
        buy_applies(p0, p1, u0, u1, amount),
        p0.balanced(),
        0 <= k < balances.len(),
        balances[k] == u0.synthetic_sol_balance,
        sum_balances(balances) == p0.total_supply,
    ensures
        p1.balanced(),
        sum_balances(balances.update(k, u1.synthetic_sol_balance)) == p1.total_supply,
{
    lemma_sum_update(balances, k, u1.synthetic_sol_balance);
}

/// Law (ledger consistency under sells): the sell-side counterpart of
/// `lemma_ledger_invariant_buy`.
pub proof fn lemma_ledger_invariant_sell(
    p0: BondingCurvePool,
    p1: BondingCurvePool,
    u0: UserAccount,
    u1: UserAccount,
    amount: u64,
    balances: Seq<u64>,
    k: int,
)
    requires
        sell_applies(p0, p1, u0, u1, amount),
        p0.balanced(),
        0 <= k < balances.len(),
        balances[k] == u0.synthetic_sol_balance,
        sum_balances(balances) == p0.total_supply,
    ensures
        p1.balanced(),
        sum_balances(balances.update(k, u1.synthetic_sol_balance)) == p1.total_supply,
{
    lemma_sum_update(balances, k, u1.synthetic_sol_balance);
}

} // verus!
