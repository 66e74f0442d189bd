//! Values shared by all contracts.
use vstd::prelude::*;

verus! {

/// An account or contract on the ledger, identified by a number that the host
/// assigns to each address it has seen.
pub type Address = u64;

/// Seconds in a day: the day number of a timestamp is `timestamp / DAY_SECS`.
pub const DAY_SECS: u64 = 86_400;

/// A token movement that the host carries out after a successful call, between
/// the contract's own account and another account.
#[derive(Clone, Copy, Debug, PartialEq, Eq)]
pub enum Transfer {
    /// `amount` of `token` moves from `from` into the contract.
    Collect { token: Address, from: Address, amount: i128 },
    /// `amount` of `token` moves from the contract to `to`.
    Pay { token: Address, to: Address, amount: i128 },
}

/// The key under which a value indexed by two numbers (an identifier and an
/// address) is stored: the first number in the high 64 bits, the second in the
/// low 64 bits.
pub open spec fn pair_key(a: u64, b: u64) -> u128 {
    (a as int * 0x1_0000_0000_0000_0000 + b as int) as u128
}

/// Computes `pair_key(a, b)`.
pub fn make_pair_key(a: u64, b: u64) -> (k: u128)
    ensures
        k == pair_key(a, b),
{
    (a as u128) * 0x1_0000_0000_0000_0000u128 + (b as u128)
}

/// Two different pairs never share a key.
pub proof fn lemma_pair_key_injective(a1: u64, b1: u64, a2: u64, b2: u64)
    ensures
        pair_key(a1, b1) == pair_key(a2, b2) <==> (a1 == a2 && b1 == b2),
{
    assert(pair_key(a1, b1) == pair_key(a2, b2) ==> (a1 == a2 && b1 == b2)) by (nonlinear_arith)
        requires
            a1 <= u64::MAX,
            b1 <= u64::MAX,
            a2 <= u64::MAX,
            b2 <= u64::MAX,
            a1 >= 0,
            a2 >= 0,
            b1 >= 0,
            b2 >= 0,
            pair_key(a1, b1) == a1 * 0x1_0000_0000_0000_0000 + b1,
            pair_key(a2, b2) == a2 * 0x1_0000_0000_0000_0000 + b2,
    ;
}

/// Integer division rounded toward zero, as Rust's `/` divides (0 for a
/// zero divisor, where Rust's would not return).
pub open spec fn div_trunc(a: int, b: int) -> int {
    if b == 0 {
        0
    } else if b > 0 {
        if a >= 0 {
            a / b
        } else {
            -((-a) / b)
        }
    } else {
        if a >= 0 {
            -(a / (-b))
        } else {
            (-a) / (-b)
        }
    }
}

/// `a / b` rounded toward zero, or `None` when `b` is 0 or the quotient does
/// not fit an `i128`.
pub fn checked_div_i128(a: i128, b: i128) -> (q: Option<i128>)
    ensures
        q == (if b == 0 || (a == i128::MIN && b == -1) {
            None
        } else {
            Some(div_trunc(a as int, b as int) as i128)
        }),
        q is Some ==> i128::MIN <= div_trunc(a as int, b as int) <= i128::MAX,
{
    if b == 0 || (a == i128::MIN && b == -1) {
        None
    } else if b > 0 {
        Some(a / b)
    } else if b == i128::MIN {
        if a == i128::MIN {
            Some(1)
        } else {
            assert(div_trunc(a as int, b as int) == 0) by {
                if a >= 0 {
                    assert((a as int) / (-(b as int)) == 0);
                } else {
                    assert((-(a as int)) / (-(b as int)) == 0);
                }
            }
            Some(0)
        }
    } else {
        let nb: i128 = -b;
        let q = a / nb;
        assert(q != i128::MIN) by {
            if a >= 0 {
                assert((a as int) / (nb as int) >= 0);
            } else if nb == 1 {
                assert(a != i128::MIN);
            } else {
                assert((-a) / (nb as int) < -(i128::MIN as int)) by {
                    vstd::arithmetic::div_mod::lemma_div_decreases(-a, nb as int);
                }
            }
        }
        Some(-q)
    }
}

/// `x` clamped to the range of `i128`.
pub open spec fn clamp_i128(x: int) -> int {
    if x > i128::MAX {
        i128::MAX as int
    } else if x < i128::MIN {
        i128::MIN as int
    } else {
        x
    }
}

/// `a - b`, saturating at the bounds of `i128`.
pub fn saturating_sub_i128(a: i128, b: i128) -> (r: i128)
    ensures
        r == clamp_i128(a - b),
{
    match a.checked_sub(b) {
        Some(v) => v,
        None => if b < 0 { i128::MAX } else { i128::MIN },
    }
}

/// `a * b`, saturating at the bounds of `i128`.
pub fn saturating_mul_i128(a: i128, b: i128) -> (r: i128)
    ensures
        r == clamp_i128(a * b),
{
    match a.checked_mul(b) {
        Some(v) => v,
        None => {
            assert((a < 0) == (b < 0) ==> a * b >= 0) by (nonlinear_arith);
            assert((a < 0) != (b < 0) ==> a * b <= 0) by (nonlinear_arith);
            if (a < 0) == (b < 0) {
                i128::MAX
            } else {
                i128::MIN
            }
        },
    }
}

} // verus!
