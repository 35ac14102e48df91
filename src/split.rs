//! Arithmetic of one settlement: scaling to smallest units and the three shares.
use vstd::prelude::*;

verus! {

/// Number of reward-currency units in one priced block.
pub const REWARD_BLOCK: u64 = 1_000_000;

/// `10^d`.
pub open spec fn pow10(d: nat) -> nat
    decreases d,
{
    if d == 0 {
        1
    } else {
        10 * pow10((d - 1) as nat)
    }
}

/// `amount` expressed in smallest units of a currency with `decimals` decimals.
pub open spec fn scaled(amount: nat, decimals: nat) -> nat {
    amount * pow10(decimals)
}

/// The operator's thirty percent of `amount`, truncated to a whole unit, then
/// scaled to smallest units.
pub open spec fn operator_share_of(amount: nat, decimals: nat) -> nat {
    scaled(amount * 3 / 10, decimals)
}

/// The royalty recipient's seventy percent of `amount`, truncated to a whole
/// unit, then scaled to smallest units.
pub open spec fn royalty_share_of(amount: nat, decimals: nat) -> nat {
    scaled(amount * 7 / 10, decimals)
}

/// Ten percent of `amount`, divided by the price of one reward block and truncated,
/// counted in reward blocks and scaled to smallest units of the reward currency.
pub open spec fn reward_share_of(amount: nat, rate: nat, reward_decimals: nat) -> nat
    recommends
        rate > 0,
{
    amount / 10 / rate * REWARD_BLOCK as nat * pow10(reward_decimals)
}

/// Whether every share of a settlement of `amount` fits in a transfer amount.
pub open spec fn shares_fit(amount: nat, decimals: nat, reward_decimals: nat, rate: nat) -> bool {
    &&& operator_share_of(amount, decimals) <= u64::MAX
    &&& royalty_share_of(amount, decimals) <= u64::MAX
    &&& reward_share_of(amount, rate, reward_decimals) <= u64::MAX
}

/// The three amounts that one settlement transfers.
#[derive(Clone, Copy, Debug, PartialEq, Eq, Structural)]
pub struct SplitPlan {
    /// Payment currency, payer to operator.
    pub operator_share: u64,
    /// Payment currency, payer to royalty recipient.
    pub royalty_share: u64,
    /// Reward currency, reward pool to reward recipient.
    pub reward_share: u64,
}

/// The plan that a settlement of `amount` makes, in the model.
pub open spec fn plan_of(amount: nat, decimals: nat, reward_decimals: nat, rate: nat) -> SplitPlan {
    SplitPlan {
        operator_share: operator_share_of(amount, decimals) as u64,
        royalty_share: royalty_share_of(amount, decimals) as u64,
        reward_share: reward_share_of(amount, rate, reward_decimals) as u64,
    }
}

proof fn lemma_pow10_positive(d: nat)
    ensures
        pow10(d) >= 1,
    decreases d,
{
    if d > 0 {
        lemma_pow10_positive((d - 1) as nat);
    }
}

proof fn lemma_pow10_monotone(a: nat, b: nat)
    requires
        a <= b,
    ensures
        pow10(a) <= pow10(b),
    decreases b,
{
    if a < b {
        lemma_pow10_monotone(a, (b - 1) as nat);
    }
}

proof fn lemma_mul_exceeds(x: nat, y: nat, bound: nat)
    requires
        x > bound,
        y >= 1,
    ensures
        x * y > bound,
{
    assert(x * y >= x * 1) by (nonlinear_arith)
        requires
            y >= 1,
    ;
}

/// `10^d`, or `None` where it exceeds `u64::MAX`.
fn checked_pow10(d: u8) -> (r: Option<u64>)
    ensures
        r == (if pow10(d as nat) <= u64::MAX {
            Some(pow10(d as nat) as u64)
        } else {
            None::<u64>
        }),
{
    let mut v: u64 = 1;
    let mut i: u8 = 0;
    while i < d
        invariant
            i <= d,
            v as nat == pow10(i as nat),
        decreases d - i,
    {
        match v.checked_mul(10) {
            Some(w) => {
                v = w;
                i = i + 1;
            },
            None => {
                proof {
                    lemma_pow10_monotone((i + 1) as nat, d as nat);
                }
                return None;
            },
        }
    }
    Some(v)
}

/// `x * 10^d`, or `None` where it exceeds `u64::MAX`.
pub fn checked_scale(x: u64, d: u8) -> (r: Option<u64>)
    ensures
        r == (if x * pow10(d as nat) <= u64::MAX {
            Some((x * pow10(d as nat)) as u64)
        } else {
            None::<u64>
        }),
{
    if x == 0 {
        return Some(0);
    }
    match checked_pow10(d) {
        Some(p) => x.checked_mul(p),
        None => {
            proof {
                assert(pow10(d as nat) * x > u64::MAX) by {
                    lemma_mul_exceeds(pow10(d as nat), x as nat, u64::MAX as nat);
                }
            }
            None
        },
    }
}

/// Splits `amount` into the operator's, the royalty recipient's and the reward
/// shares; `None` where one of them does not fit in a transfer amount.
pub fn split_amount(amount: u64, decimals: u8, reward_decimals: u8, rate: u64) -> (r: Option<
    SplitPlan,
>)
    requires
        rate > 0,
    ensures
        r is Some <==> shares_fit(amount as nat, decimals as nat, reward_decimals as nat, rate as nat),
        r matches Some(p) ==> p == plan_of(
            amount as nat,
            decimals as nat,
            reward_decimals as nat,
            rate as nat,
        ),
{
    let operator_units = (amount as u128 * 3 / 10) as u64;
    let royalty_units = (amount as u128 * 7 / 10) as u64;
    let operator_share = match checked_scale(operator_units, decimals) {
        Some(t) => t,
        None => return None,
    };
    let royalty_share = match checked_scale(royalty_units, decimals) {
        Some(t) => t,
        None => return None,
    };
    let blocks = amount / 10 / rate;
    let reward_share = if blocks == 0 {
        0
    } else {
        match blocks.checked_mul(REWARD_BLOCK) {
            Some(units) => match checked_scale(units, reward_decimals) {
                Some(s) => s,
                None => return None,
            },
            None => {
                proof {
                    lemma_pow10_positive(reward_decimals as nat);
                    lemma_mul_exceeds(
                        blocks as nat * REWARD_BLOCK as nat,
                        pow10(reward_decimals as nat),
                        u64::MAX as nat,
                    );
                }
                return None;
            },
        }
    };
    Some(SplitPlan { operator_share, royalty_share, reward_share })
}

/// The two payment-currency shares never exceed the scaled amount, fall short
/// of it by at most one whole unit, and add up to it exactly when the amount is
/// a multiple of ten.
pub proof fn lemma_split_conserves(amount: nat, decimals: nat)
    ensures
        operator_share_of(amount, decimals) + royalty_share_of(amount, decimals) <= scaled(
            amount,
            decimals,
        ),
        scaled(amount, decimals) <= operator_share_of(amount, decimals) + royalty_share_of(
            amount,
            decimals,
        ) + pow10(decimals),
        amount % 10 == 0 ==> operator_share_of(amount, decimals) + royalty_share_of(
            amount,
            decimals,
        ) == scaled(amount, decimals),
{
    let a = amount;
    let p = a * 3 / 10;
    let q = a * 7 / 10;
    let k = pow10(decimals);
    assert(10 * p <= a * 3 < 10 * p + 10) by (nonlinear_arith)
        requires
            p == a * 3 / 10,
    ;
    assert(10 * q <= a * 7 < 10 * q + 10) by (nonlinear_arith)
        requires
            q == a * 7 / 10,
    ;
    assert(p + q <= a <= p + q + 1);
    if a % 10 == 0 {
        assert(p + q == a) by (nonlinear_arith)
            requires
                p == a * 3 / 10,
                q == a * 7 / 10,
                a % 10 == 0,
        ;
    }
    assert(p * k + q * k <= a * k <= p * k + q * k + k) by (nonlinear_arith)
        requires
            p + q <= a <= p + q + 1,
            k >= 0,
    ;
    assert(a % 10 == 0 ==> p * k + q * k == a * k) by (nonlinear_arith)
        requires
            a % 10 == 0 ==> p + q == a,
    ;
}

} // verus!
