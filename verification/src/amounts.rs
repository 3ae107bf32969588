//! Scaling whole-token amounts to base units.
//!
//! The token ledger counts balances in base units; an instruction argument is
//! given in whole tokens and must be multiplied by ten to the power of the
//! mint's decimal count before it is forwarded.

use vstd::prelude::*;

verus! {

/// Ten to the power of `d`, as a mathematical integer.
pub open spec fn pow10_spec(d: nat) -> nat
    decreases d,
{
    if d == 0 {
        1
    } else {
        10 * pow10_spec((d - 1) as nat)
    }
}

/// Ten to a larger power is at least ten to a smaller one.
pub proof fn lemma_pow10_monotone(a: nat, b: nat)
    requires
        a <= b,
    ensures
        pow10_spec(a) <= pow10_spec(b),
    decreases b,
{
    if a < b {
        lemma_pow10_monotone(a, (b - 1) as nat);
    }
}

/// Ten to the power of `d`, or `None` when it does not fit in a `u64`.
pub fn pow10(d: u8) -> (r: Option<u64>)
    ensures
        r == (if pow10_spec(d as nat) <= u64::MAX {
            Some(pow10_spec(d as nat) as u64)
        } else {
            None::<u64>
        }),
{
    let mut acc: u64 = 1;
    let mut i: u8 = 0;
    while i < d
        invariant
            i <= d,
            acc == pow10_spec(i as nat),
        decreases d - i,
    {
        match acc.checked_mul(10) {
            Some(next) => {
                acc = next;
                i = i + 1;
            },
            None => {
                proof {
                    lemma_pow10_monotone((i + 1) as nat, d as nat);
                }
                return None;
            },
        }
    }
    Some(acc)
}

/// A whole-token amount in base units: `amount * 10^decimals`, or `None`
/// when the product does not fit in a `u64`.
pub fn scale_to_base_units(amount: u64, decimals: u8) -> (r: Option<u64>)
    ensures
        r == (if amount * pow10_spec(decimals as nat) <= u64::MAX {
            Some((amount * pow10_spec(decimals as nat)) as u64)
        } else {
            None::<u64>
        }),
{
    if amount == 0 {
        return Some(0);
    }
    match pow10(decimals) {
        Some(p) => amount.checked_mul(p),
        None => {
            proof {
                assert(amount * pow10_spec(decimals as nat) >= pow10_spec(decimals as nat))
                    by (nonlinear_arith)
                    requires
                        amount >= 1,
                ;
            }
            None
        },
    }
}

} // verus!
