//! Shares: a depositor's part of the funding goal, in thousandths.

use vstd::prelude::*;
use vstd::arithmetic::div_mod::lemma_fundamental_div_mod_converse;

verus! {

/// A full share: the balance equals the funding limit.
pub const SHARE_SCALE: u128 = 1000;

/// The share of `balance` in `limit`, in thousandths, rounded down.
pub open spec fn share_of(balance: nat, limit: nat) -> nat
    recommends
        limit > 0,
{
    balance * 1000 / limit
}

/// One step of the long multiplication: from `balance * times` as
/// `quotient * limit + rest` to the same for twice `times`, plus one where
/// `plus_one` is set. No intermediate value exceeds `limit`.
fn advance(
    balance: u128,
    limit: u128,
    times: u128,
    quotient: u128,
    rest: u128,
    plus_one: bool,
) -> (next: (u128, u128, u128))
    requires
        balance < limit,
        rest < limit,
        times <= 500,
        balance * times == quotient * limit + rest,
    ensures
        next.0 == 2 * times + (if plus_one { 1int } else { 0int }),
        next.2 < limit,
        balance * next.0 == next.1 * limit + next.2,
{
    assert(quotient <= times) by (nonlinear_arith)
        requires
            balance < limit,
            balance * times == quotient * limit + rest,
            times >= 0,
            quotient >= 0,
            rest >= 0,
    {
        if quotient > times {
            assert(quotient * limit >= (times + 1) * limit);
            assert(balance * times <= limit * times);
        }
    }
    let mut k: u128 = times + times;
    let mut q: u128 = quotient + quotient;
    let mut r: u128 = rest;
    if rest >= limit - rest {
        r = rest - (limit - rest);
        q = q + 1;
    } else {
        r = rest + rest;
    }
    assert(balance * k == q * limit + r) by (nonlinear_arith)
        requires
            balance * times == quotient * limit + rest,
            k == 2 * times,
            (q == 2 * quotient + 1 && r == 2 * rest - limit) || (q == 2 * quotient && r == 2
                * rest),
    ;
    if plus_one {
        let ghost q0 = q;
        let ghost r0 = r;
        let ghost k0 = k;
        k = k + 1;
        if r >= limit - balance {
            r = r - (limit - balance);
            q = q + 1;
        } else {
            r = r + balance;
        }
        assert(balance * k == q * limit + r) by (nonlinear_arith)
            requires
                balance * k0 == q0 * limit + r0,
                k == k0 + 1,
                (q == q0 + 1 && r == r0 + balance - limit) || (q == q0 && r == r0 + balance),
        ;
    }
    (k, q, r)
}

/// The share of `balance` in `limit`, in thousandths and rounded down,
/// computed without a product that could leave the range of the amounts.
pub fn scaled_share(balance: u128, limit: u128) -> (share: u128)
    requires
        0 < limit,
        balance <= limit,
    ensures
        share == share_of(balance as nat, limit as nat),
        share <= SHARE_SCALE,
{
    if balance == limit {
        proof {
            lemma_fundamental_div_mod_converse(balance * 1000, limit as int, 1000, 0);
        }
        return SHARE_SCALE;
    }
    assert(balance * 0 == 0 * limit + 0) by (nonlinear_arith);
    // 1000 is 1111101000 in binary, taken from the highest digit down
    let s = advance(balance, limit, 0, 0, 0, true);
    let s = advance(balance, limit, s.0, s.1, s.2, true);
    let s = advance(balance, limit, s.0, s.1, s.2, true);
    let s = advance(balance, limit, s.0, s.1, s.2, true);
    let s = advance(balance, limit, s.0, s.1, s.2, true);
    let s = advance(balance, limit, s.0, s.1, s.2, false);
    let s = advance(balance, limit, s.0, s.1, s.2, true);
    let s = advance(balance, limit, s.0, s.1, s.2, false);
    let s = advance(balance, limit, s.0, s.1, s.2, false);
    let s = advance(balance, limit, s.0, s.1, s.2, false);
    assert(s.0 == 1000);
    proof {
        lemma_fundamental_div_mod_converse(balance * 1000, limit as int, s.1 as int, s.2 as int);
        assert(s.1 <= 1000) by (nonlinear_arith)
            requires
                balance < limit,
                balance * 1000 == s.1 * limit + s.2,
                s.2 >= 0,
        {
            if s.1 > 1000 {
                assert(s.1 * limit >= 1001 * limit);
                assert(balance * 1000 <= limit * 1000);
            }
        }
    }
    s.1
}

} // verus!
