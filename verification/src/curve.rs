//! The constant-product curve: the reserves of the two sides, the outstanding
//! claim supply and the fee, with the arithmetic of deposit, withdrawal and
//! swap. Every intermediate is 128 bits wide; a value that does not fit back
//! into 64 bits is an error, never wrapped or saturated.

use vstd::prelude::*;
use crate::errors::ProgramError;
use crate::math::{mul_div, mul_div_ceil, mul_div_spec, mul_div_ceil_spec, lemma_product_fits};

verus! {

/// The denominator of a fee given in basis points.
pub const BPS_DENOMINATOR: u16 = 10_000;

/// The side of the pool that a trader pays into.
#[derive(Clone, Copy, Debug, PartialEq, Eq, Structural)]
pub enum LiquidityPair {
    X,
    Y,
}

/// An amount of each of the two reserve tokens.
#[derive(Clone, Copy, Debug, PartialEq, Eq, Structural)]
pub struct XYAmounts {
    pub x: u64,
    pub y: u64,
}

/// The two legs of a trade and the part of the input kept as fee.
#[derive(Clone, Copy, Debug, PartialEq, Eq, Structural)]
pub struct SwapResult {
    /// Debited from the trader on the input side.
    pub deposit: u64,
    /// Credited to the trader on the output side.
    pub withdraw: u64,
    /// The part of `deposit` that does not take part in pricing.
    pub fee: u64,
}

/// The balances a pool trades on.
#[derive(Clone, Copy, Debug, PartialEq, Eq, Structural)]
pub struct ConstantProduct {
    /// Reserve of token X.
    pub x: u64,
    /// Reserve of token Y.
    pub y: u64,
    /// Outstanding claim-token supply.
    pub l: u64,
    /// Swap fee in basis points.
    pub fee: u16,
}

/// `n / d` rounded up.
pub open spec fn div_ceil(n: nat, d: nat) -> nat
    recommends
        d > 0,
{
    (n + d - 1) as nat / d
}

/// The input that takes part in pricing once the fee is taken off.
pub open spec fn effective_input(a: u64, fee: u16) -> nat
    recommends
        fee <= BPS_DENOMINATOR,
{
    (a as nat) * ((BPS_DENOMINATOR - fee) as nat) / (BPS_DENOMINATOR as nat)
}

/// The output reserve after a trade: the least balance that keeps the product
/// of the priced reserves from falling.
pub open spec fn output_reserve_after(reserve_in: u64, reserve_out: u64, a: u64, fee: u16) -> nat
    recommends
        fee <= BPS_DENOMINATOR,
        reserve_in as nat + effective_input(a, fee) > 0,
{
    div_ceil(
        (reserve_in as nat) * (reserve_out as nat),
        reserve_in as nat + effective_input(a, fee),
    )
}

/// A rounded-up quotient times its divisor covers the dividend, and the
/// quotient is the least such.
pub proof fn lemma_div_ceil(n: nat, d: nat)
    requires
        d > 0,
    ensures
        div_ceil(n, d) * d >= n,
        div_ceil(n, d) * d < n + d,
{
    let q = div_ceil(n, d);
    let m = (n + d - 1) as nat;
    assert(m == d * (m / d) + m % d && 0 <= m % d < d) by {
        vstd::arithmetic::div_mod::lemma_fundamental_div_mod(m as int, d as int);
        vstd::arithmetic::div_mod::lemma_mod_bound(m as int, d as int);
    }
    assert(q * d == d * (m / d)) by (nonlinear_arith)
        requires
            q == m / d,
    ;
}

/// A rounded-up quotient never exceeds a bound whose product with the divisor
/// covers the dividend.
pub proof fn lemma_div_ceil_upper(n: nat, d: nat, bound: nat)
    requires
        d > 0,
        n <= bound * d,
    ensures
        div_ceil(n, d) <= bound,
{
    lemma_div_ceil(n, d);
    let q = div_ceil(n, d);
    assert(q <= bound) by (nonlinear_arith)
        requires
            q * d < n + d,
            n <= bound * d,
            d > 0,
    ;
}

/// A rounded-down quotient never exceeds a bound whose product with the
/// divisor covers the dividend.
pub proof fn lemma_div_floor_upper(n: nat, d: nat, bound: nat)
    requires
        d > 0,
        n <= bound * d,
    ensures
        n / d <= bound,
{
    assert(n == d * (n / d) + n % d && 0 <= n % d < d) by {
        vstd::arithmetic::div_mod::lemma_fundamental_div_mod(n as int, d as int);
        vstd::arithmetic::div_mod::lemma_mod_bound(n as int, d as int);
    }
    let q = n / d;
    assert(q <= bound) by (nonlinear_arith)
        requires
            d * q <= n,
            n <= bound * d,
            d > 0,
    ;
}

impl ConstantProduct {
    /// The fee is at most the whole input.
    pub open spec fn wf(&self) -> bool {
        self.fee <= BPS_DENOMINATOR
    }

    /// No reserves and no claims: the state before the first deposit.
    pub open spec fn is_empty(&self) -> bool {
        self.l == 0 && self.x == 0 && self.y == 0
    }

    /// A curve over the given balances; a fee above the whole input is refused.
    pub fn init(x: u64, y: u64, l: u64, fee: u16) -> (r: Result<ConstantProduct, ProgramError>)
        ensures
            r == if fee > BPS_DENOMINATOR {
                Err::<ConstantProduct, ProgramError>(ProgramError::InvalidArgument)
            } else {
                Ok(ConstantProduct { x, y, l, fee })
            },
            r is Ok ==> r->Ok_0.wf(),
    {
        if fee > BPS_DENOMINATOR {
            return Err(ProgramError::InvalidArgument);
        }
        Ok(ConstantProduct { x, y, l, fee })
    }

    /// The amounts that minting `a` claims costs at the current ratio, each
    /// rounded up so that the depositor never underpays.
    pub open spec fn xy_deposit_amounts_from_l_spec(x: u64, y: u64, l: u64, a: u64) -> Result<
        XYAmounts,
        ProgramError,
    > {
        match (mul_div_ceil_spec(a, x, l), mul_div_ceil_spec(a, y, l)) {
            (Ok(dx), Ok(dy)) => Ok(XYAmounts { x: dx, y: dy }),
            _ => Err(ProgramError::ArithmeticOverflow),
        }
    }

    /// The amounts of X and Y to pay in for `a` new claims on reserves
    /// `(x, y)` with `l` claims outstanding.
    pub fn xy_deposit_amounts_from_l(x: u64, y: u64, l: u64, a: u64) -> (r: Result<
        XYAmounts,
        ProgramError,
    >)
        ensures
            r == Self::xy_deposit_amounts_from_l_spec(x, y, l, a),
    {
        let dx = mul_div_ceil(a, x, l)?;
        let dy = mul_div_ceil(a, y, l)?;
        Ok(XYAmounts { x: dx, y: dy })
    }

    /// The amounts that burning `a` claims releases at the current ratio, each
    /// rounded down so that the remaining holders are never diluted.
    pub open spec fn xy_withdraw_amounts_from_l_spec(x: u64, y: u64, l: u64, a: u64) -> Result<
        XYAmounts,
        ProgramError,
    > {
        match (mul_div_spec(a, x, l), mul_div_spec(a, y, l)) {
            (Ok(wx), Ok(wy)) => Ok(XYAmounts { x: wx, y: wy }),
            _ => Err(ProgramError::ArithmeticOverflow),
        }
    }

    /// The amounts of X and Y to pay out for `a` burnt claims on reserves
    /// `(x, y)` with `l` claims outstanding.
    pub fn xy_withdraw_amounts_from_l(x: u64, y: u64, l: u64, a: u64) -> (r: Result<
        XYAmounts,
        ProgramError,
    >)
        ensures
            r == Self::xy_withdraw_amounts_from_l_spec(x, y, l, a),
    {
        let wx = mul_div(a, x, l)?;
        let wy = mul_div(a, y, l)?;
        Ok(XYAmounts { x: wx, y: wy })
    }

    /// What a deposit of `a` claims debits. On an empty pool the caller's
    /// maxima are taken literally and set the first price; otherwise the
    /// amounts follow the ratio and must stay within the maxima, and the new
    /// balances must fit.
    pub open spec fn deposit_liquidity_spec(&self, a: u64, max_x: u64, max_y: u64) -> Result<
        XYAmounts,
        ProgramError,
    > {
        let amounts = if self.is_empty() {
            Ok(XYAmounts { x: max_x, y: max_y })
        } else {
            Self::xy_deposit_amounts_from_l_spec(self.x, self.y, self.l, a)
        };
        match amounts {
            Err(e) => Err(e),
            Ok(d) => if !(d.x <= max_x && d.y <= max_y) {
                Err(ProgramError::InvalidArgument)
            } else if self.x + d.x > u64::MAX || self.y + d.y > u64::MAX || self.l + a > u64::MAX {
                Err(ProgramError::ArithmeticOverflow)
            } else {
                Ok(d)
            },
        }
    }

    /// The balances once `d` has been paid in for `a` new claims.
    pub open spec fn after_deposit(&self, a: u64, d: XYAmounts) -> ConstantProduct
        recommends
            self.x + d.x <= u64::MAX,
            self.y + d.y <= u64::MAX,
            self.l + a <= u64::MAX,
    {
        ConstantProduct {
            x: (self.x + d.x) as u64,
            y: (self.y + d.y) as u64,
            l: (self.l + a) as u64,
            fee: self.fee,
        }
    }

    /// Mints `a` claims against at most `max_x` and `max_y`, and returns what
    /// was debited. A failure leaves the balances as they were.
    pub fn deposit_liquidity(&mut self, a: u64, max_x: u64, max_y: u64) -> (r: Result<
        XYAmounts,
        ProgramError,
    >)
        ensures
            r == old(self).deposit_liquidity_spec(a, max_x, max_y),
            match r {
                Ok(d) => *final(self) == old(self).after_deposit(a, d),
                Err(_) => *final(self) == *old(self),
            },
    {
        let d = if self.l == 0 && self.x == 0 && self.y == 0 {
            XYAmounts { x: max_x, y: max_y }
        } else {
            Self::xy_deposit_amounts_from_l(self.x, self.y, self.l, a)?
        };
        if !(d.x <= max_x && d.y <= max_y) {
            return Err(ProgramError::InvalidArgument);
        }
        let x = self.x.checked_add(d.x);
        let y = self.y.checked_add(d.y);
        let l = self.l.checked_add(a);
        match (x, y, l) {
            (Some(x), Some(y), Some(l)) => {
                *self = ConstantProduct { x, y, l, fee: self.fee };
                Ok(d)
            },
            _ => Err(ProgramError::ArithmeticOverflow),
        }
    }

    /// What a withdrawal of `a` claims credits. Burning the whole supply
    /// releases the reserves exactly; otherwise the amounts follow the ratio.
    /// They must reach the minima and be covered by the balances.
    pub open spec fn withdraw_liquidity_spec(&self, a: u64, min_x: u64, min_y: u64) -> Result<
        XYAmounts,
        ProgramError,
    > {
        let amounts = if a == self.l {
            Ok(XYAmounts { x: self.x, y: self.y })
        } else {
            Self::xy_withdraw_amounts_from_l_spec(self.x, self.y, self.l, a)
        };
        match amounts {
            Err(e) => Err(e),
            Ok(w) => if w.x < min_x || w.y < min_y {
                Err(ProgramError::InvalidArgument)
            } else if w.x > self.x || w.y > self.y || a > self.l {
                Err(ProgramError::ArithmeticOverflow)
            } else {
                Ok(w)
            },
        }
    }

    /// The balances once `w` has been paid out for `a` burnt claims.
    pub open spec fn after_withdraw(&self, a: u64, w: XYAmounts) -> ConstantProduct
        recommends
            w.x <= self.x,
            w.y <= self.y,
            a <= self.l,
    {
        ConstantProduct {
            x: (self.x - w.x) as u64,
            y: (self.y - w.y) as u64,
            l: (self.l - a) as u64,
            fee: self.fee,
        }
    }

    /// Burns `a` claims for at least `min_x` and `min_y`, and returns what was
    /// credited. A failure leaves the balances as they were.
    pub fn withdraw_liquidity(&mut self, a: u64, min_x: u64, min_y: u64) -> (r: Result<
        XYAmounts,
        ProgramError,
    >)
        ensures
            r == old(self).withdraw_liquidity_spec(a, min_x, min_y),
            match r {
                Ok(w) => *final(self) == old(self).after_withdraw(a, w),
                Err(_) => *final(self) == *old(self),
            },
            a == old(self).l && min_x <= old(self).x && min_y <= old(self).y ==> {
                &&& r == Ok::<XYAmounts, ProgramError>(XYAmounts { x: old(self).x, y: old(self).y })
                &&& final(self).x == 0
                &&& final(self).y == 0
                &&& final(self).l == 0
            },
    {
        let w = if a == self.l {
            XYAmounts { x: self.x, y: self.y }
        } else {
            Self::xy_withdraw_amounts_from_l(self.x, self.y, self.l, a)?
        };
        if w.x < min_x || w.y < min_y {
            return Err(ProgramError::InvalidArgument);
        }
        if w.x > self.x || w.y > self.y || a > self.l {
            return Err(ProgramError::ArithmeticOverflow);
        }
        *self = ConstantProduct { x: self.x - w.x, y: self.y - w.y, l: self.l - a, fee: self.fee };
        Ok(w)
    }

    /// The reserve that a trade on side `p` pays into.
    pub open spec fn reserve_in(&self, p: LiquidityPair) -> u64 {
        match p {
            LiquidityPair::X => self.x,
            LiquidityPair::Y => self.y,
        }
    }

    /// The reserve that a trade on side `p` is paid from.
    pub open spec fn reserve_out(&self, p: LiquidityPair) -> u64 {
        match p {
            LiquidityPair::X => self.y,
            LiquidityPair::Y => self.x,
        }
    }

    /// What a trade of `a` on side `p` yields. The whole of `a` is debited;
    /// the output is the output reserve less the least balance that keeps the
    /// product of the priced reserves. A curve whose fee exceeds the whole
    /// input trades nothing; a trade with an empty leg is refused, as is one
    /// that pays out less than `min`.
    pub open spec fn swap_spec(&self, p: LiquidityPair, a: u64, min: u64) -> Result<
        SwapResult,
        ProgramError,
    > {
        let reserve_in = self.reserve_in(p);
        let reserve_out = self.reserve_out(p);
        let effective = effective_input(a, self.fee);
        if !self.wf() {
            Err(ProgramError::InvalidArgument)
        } else if reserve_in as nat + effective == 0 || reserve_in + a > u64::MAX {
            Err(ProgramError::ArithmeticOverflow)
        } else {
            let withdraw = reserve_out - output_reserve_after(reserve_in, reserve_out, a, self.fee);
            if a == 0 || withdraw == 0 || withdraw < min {
                Err(ProgramError::InvalidArgument)
            } else {
                Ok(
                    SwapResult {
                        deposit: a,
                        withdraw: withdraw as u64,
                        fee: (a - effective) as u64,
                    },
                )
            }
        }
    }

    /// The balances once a trade on side `p` has settled.
    pub open spec fn after_swap(&self, p: LiquidityPair, s: SwapResult) -> ConstantProduct
        recommends
            self.reserve_in(p) + s.deposit <= u64::MAX,
            s.withdraw <= self.reserve_out(p),
    {
        match p {
            LiquidityPair::X => ConstantProduct {
                x: (self.x + s.deposit) as u64,
                y: (self.y - s.withdraw) as u64,
                l: self.l,
                fee: self.fee,
            },
            LiquidityPair::Y => ConstantProduct {
                x: (self.x - s.withdraw) as u64,
                y: (self.y + s.deposit) as u64,
                l: self.l,
                fee: self.fee,
            },
        }
    }

    /// Trades `a` on side `p` for at least `min` of the other token. On
    /// success the product of the reserves has not fallen; a failure leaves
    /// the balances as they were.
    pub fn swap(&mut self, p: LiquidityPair, a: u64, min: u64) -> (r: Result<SwapResult, ProgramError>)
        ensures
            r == old(self).swap_spec(p, a, min),
            match r {
                Ok(s) => {
                    &&& *final(self) == old(self).after_swap(p, s)
                    &&& old(self).reserve_in(p) + s.deposit <= u64::MAX
                    &&& s.withdraw <= old(self).reserve_out(p)
                    &&& final(self).x * final(self).y >= old(self).x * old(self).y
                },
                Err(_) => *final(self) == *old(self),
            },
    {
        if self.fee > BPS_DENOMINATOR {
            return Err(ProgramError::InvalidArgument);
        }
        let (reserve_in, reserve_out) = match p {
            LiquidityPair::X => (self.x, self.y),
            LiquidityPair::Y => (self.y, self.x),
        };
        let keep: u128 = (BPS_DENOMINATOR - self.fee) as u128;
        assert((a as u128) * keep <= (a as u128) * 10_000) by (nonlinear_arith)
            requires
                keep <= 10_000,
        ;
        let effective: u128 = (a as u128) * keep / (BPS_DENOMINATOR as u128);
        assert(effective <= a);
        let priced_in: u128 = reserve_in as u128 + effective;
        if priced_in == 0 {
            return Err(ProgramError::ArithmeticOverflow);
        }
        let new_in: u64 = match reserve_in.checked_add(a) {
            Some(v) => v,
            None => {
                return Err(ProgramError::ArithmeticOverflow);
            },
        };
        proof {
            lemma_product_fits(reserve_in, reserve_out, 0);
        }
        let k: u128 = (reserve_in as u128) * (reserve_out as u128);
        let new_out: u128 = (k + (priced_in - 1)) / priced_in;
        proof {
            assert(new_out == output_reserve_after(reserve_in, reserve_out, a, self.fee));
            assert(k <= (reserve_out as nat) * (priced_in as nat)) by (nonlinear_arith)
                requires
                    k == (reserve_in as nat) * (reserve_out as nat),
                    reserve_in <= priced_in,
            ;
            lemma_div_ceil_upper(k as nat, priced_in as nat, reserve_out as nat);
            lemma_div_ceil(k as nat, priced_in as nat);
            assert((new_in as nat) * (new_out as nat) >= k) by (nonlinear_arith)
                requires
                    (new_out as nat) * (priced_in as nat) >= k,
                    new_in >= priced_in,
            ;
        }
        let withdraw: u64 = reserve_out - (new_out as u64);
        if a == 0 || withdraw == 0 || withdraw < min {
            return Err(ProgramError::InvalidArgument);
        }
        let result = SwapResult { deposit: a, withdraw, fee: a - (effective as u64) };
        match p {
            LiquidityPair::X => {
                assert((new_in as nat) * (new_out as nat) == new_in * (new_out as u64));
                *self = ConstantProduct { x: new_in, y: new_out as u64, l: self.l, fee: self.fee };
            },
            LiquidityPair::Y => {
                assert((new_out as u64) * new_in == (new_in as nat) * (new_out as nat))
                    by (nonlinear_arith)
                    requires
                        new_out as u64 == new_out,
                ;
                assert(self.x * self.y == (reserve_in as nat) * (reserve_out as nat))
                    by (nonlinear_arith)
                    requires
                        self.x == reserve_out,
                        self.y == reserve_in,
                ;
                *self = ConstantProduct { x: new_out as u64, y: new_in, l: self.l, fee: self.fee };
            },
        }
        Ok(result)
    }
}

/// Across any trade that succeeds, the product of the two reserves does not
/// fall: rounding goes to the pool and the fee stays in it.
pub proof fn lemma_swap_product_non_decreasing(c: ConstantProduct, p: LiquidityPair, a: u64, min: u64)
    requires
        c.swap_spec(p, a, min) is Ok,
    ensures
        ({
            let after = c.after_swap(p, c.swap_spec(p, a, min)->Ok_0);
            &&& after.wf()
            &&& after.l == c.l
            &&& after.reserve_in(p) == c.reserve_in(p) + a
            &&& after.reserve_out(p) <= c.reserve_out(p)
            &&& after.x * after.y >= c.x * c.y
        }),
{
    let reserve_in = c.reserve_in(p);
    let reserve_out = c.reserve_out(p);
    let effective = effective_input(a, c.fee);
    let priced_in = reserve_in as nat + effective;
    let k = (reserve_in as nat) * (reserve_out as nat);
    let new_out = output_reserve_after(reserve_in, reserve_out, a, c.fee);
    let keep = (BPS_DENOMINATOR - c.fee) as nat;
    assert((a as nat) * keep <= (a as nat) * 10_000) by (nonlinear_arith)
        requires
            keep <= 10_000,
    ;
    assert(effective <= a);
    assert(k <= (reserve_out as nat) * priced_in) by (nonlinear_arith)
        requires
            k == (reserve_in as nat) * (reserve_out as nat),
            reserve_in <= priced_in,
    ;
    lemma_div_ceil_upper(k, priced_in, reserve_out as nat);
    lemma_div_ceil(k, priced_in);
    let new_in = (reserve_in + a) as nat;
    assert(new_in * new_out >= k) by (nonlinear_arith)
        requires
            new_out * priced_in >= k,
            new_in >= priced_in,
    ;
    let after = c.after_swap(p, c.swap_spec(p, a, min)->Ok_0);
    match p {
        LiquidityPair::X => {
            assert(after.x == new_in && after.y == new_out);
        },
        LiquidityPair::Y => {
            assert(after.y == new_in && after.x == new_out);
            assert(after.x * after.y == new_in * new_out) by (nonlinear_arith)
                requires
                    after.y == new_in,
                    after.x == new_out,
            ;
            assert(c.x * c.y == k) by (nonlinear_arith)
                requires
                    c.x == reserve_out,
                    c.y == reserve_in,
                    k == (reserve_in as nat) * (reserve_out as nat),
            ;
        },
    }
}

/// What one side pays in for `a` claims, rounded up, and gets back for the
/// same `a` claims straight after, rounded down, differ by at most one unit,
/// in the pool's favour.
pub proof fn lemma_round_trip_one_side(reserve: u64, l: u64, a: u64)
    requires
        l > 0,
        (l as nat) + (a as nat) > 0,
    ensures
        ({
            let paid = div_ceil((a as nat) * (reserve as nat), l as nat);
            let back = ((a as nat) * (reserve as nat + paid)) / ((l + a) as nat);
            back <= paid <= back + 1
        }),
{
    let n = (a as nat) * (reserve as nat);
    let ln = l as nat;
    let an = a as nat;
    let paid = div_ceil(n, ln);
    let total = an * (reserve as nat + paid);
    let d = (l + a) as nat;
    let back = total / d;
    lemma_div_ceil(n, ln);
    assert(total <= paid * d) by (nonlinear_arith)
        requires
            total == an * (reserve as nat + paid),
            n == an * (reserve as nat),
            paid * ln >= n,
            d == ln + an,
    ;
    lemma_div_floor_upper(total, d, paid);
    assert(total == d * (total / d) + total % d && 0 <= total % d < d) by {
        vstd::arithmetic::div_mod::lemma_fundamental_div_mod(total as int, d as int);
        vstd::arithmetic::div_mod::lemma_mod_bound(total as int, d as int);
    }
    assert(paid <= back + 1) by (nonlinear_arith)
        requires
            total == an * (reserve as nat + paid),
            n == an * (reserve as nat),
            paid * ln < n + ln,
            d == ln + an,
            total < d * back + d,
            d > 0,
    ;
}

/// Depositing for `a` claims and at once withdrawing the same `a` claims
/// succeeds, returns no more than was paid in, and leaves the claim supply as
/// it was and each reserve at its earlier balance or one unit above it.
pub proof fn lemma_deposit_withdraw_round_trip(c: ConstantProduct, a: u64, max_x: u64, max_y: u64)
    requires
        c.deposit_liquidity_spec(a, max_x, max_y) is Ok,
    ensures
        ({
            let paid = c.deposit_liquidity_spec(a, max_x, max_y)->Ok_0;
            let mid = c.after_deposit(a, paid);
            let back = mid.withdraw_liquidity_spec(a, 0, 0);
            let end = mid.after_withdraw(a, back->Ok_0);
            &&& back is Ok
            &&& back->Ok_0.x <= paid.x <= back->Ok_0.x + 1
            &&& back->Ok_0.y <= paid.y <= back->Ok_0.y + 1
            &&& end.l == c.l
            &&& c.x <= end.x <= c.x + 1
            &&& c.y <= end.y <= c.y + 1
        }),
{
    let paid = c.deposit_liquidity_spec(a, max_x, max_y)->Ok_0;
    let mid = c.after_deposit(a, paid);
    if c.l == 0 {
        assert(c.is_empty());
        assert(a == mid.l);
    } else {
        assert(a != mid.l);
        lemma_round_trip_one_side(c.x, c.l, a);
        lemma_round_trip_one_side(c.y, c.l, a);
        assert((a as nat) * (c.x as nat + paid.x as nat) == (a as nat) * (mid.x as nat));
        assert((a as nat) * (c.y as nat + paid.y as nat) == (a as nat) * (mid.y as nat));
    }
}

} // verus!
