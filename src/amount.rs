//! Non-negative decimal amounts and their two renderings.
use crate::digits::{decimal, low_digits, pow10, push_decimal, push_low_digits};
use vstd::prelude::*;

verus! {

/// `units` and `scale` with the trailing zeros of the fraction removed.
pub open spec fn trimmed(units: nat, scale: nat) -> (nat, nat)
    decreases scale,
{
    if scale > 0 && units % 10 == 0 {
        trimmed(units / 10, (scale - 1) as nat)
    } else {
        (units, scale)
    }
}

/// The shortest plain rendering of `units / 10^scale`: no trailing zeros in
/// the fraction, and no decimal point when the value is whole.
pub open spec fn plain_decimal(units: nat, scale: nat) -> Seq<char> {
    let (u, s) = trimmed(units, scale);
    if s == 0 {
        decimal(u)
    } else {
        decimal(u / pow10(s)) + seq!['.'] + low_digits(u, s)
    }
}

/// `n / d` rounded to the nearest integer, ties going to the even one.
pub open spec fn round_half_even(n: nat, d: nat) -> nat
    recommends
        d > 0,
{
    let q = n / d;
    let r = n % d;
    if 2 * r > d || (2 * r == d && q % 2 == 1) {
        q + 1
    } else {
        q
    }
}

/// `units / 10^scale` in hundredths, rounded half to even.
pub open spec fn hundredths(units: nat, scale: nat) -> nat {
    if scale <= 2 {
        units * pow10((2 - scale) as nat)
    } else {
        round_half_even(units, pow10((scale - 2) as nat))
    }
}

/// `units / 10^scale` with exactly two fraction digits.
pub open spec fn two_decimals(units: nat, scale: nat) -> Seq<char> {
    let c = hundredths(units, scale);
    decimal(c / 100) + seq!['.'] + low_digits(c, 2)
}

/// A non-negative decimal amount, worth `units / 10^scale`: `23.99` is
/// `Amount::new(2399, 2)`. The value is exact; rounding happens only when it
/// is written with two fraction digits.
#[derive(Clone, Copy, Debug, PartialEq, Eq, Structural)]
pub struct Amount {
    pub units: u64,
    pub scale: u8,
}

proof fn lemma_pow10_positive(e: nat)
    ensures
        pow10(e) >= 1,
    decreases e,
{
    if e > 0 {
        lemma_pow10_positive((e - 1) as nat);
    }
}

proof fn lemma_pow10_monotone(a: nat, b: nat)
    requires
        a <= b,
    ensures
        pow10(a) <= pow10(b),
    decreases b,
{
    if a < b {
        lemma_pow10_monotone(a, (b - 1) as nat);
        lemma_pow10_positive((b - 1) as nat);
    }
}

proof fn lemma_pow10_twenty()
    ensures
        pow10(19) == 10000000000000000000nat,
        pow10(20) == 100000000000000000000nat,
{
    reveal_with_fuel(pow10, 21);
}

/// Ten to the power `e`, for the exponents that fit in a `u64`.
fn pow10_u64(e: u8) -> (r: u64)
    requires
        e <= 19,
    ensures
        r == pow10(e as nat),
{
    proof {
        lemma_pow10_twenty();
    }
    let mut r: u64 = 1;
    let mut i: u8 = 0;
    while i < e
        invariant
            i <= e <= 19,
            r == pow10(i as nat),
        decreases e - i,
    {
        proof {
            lemma_pow10_monotone(i as nat, 18);
            lemma_pow10_twenty();
        }
        r = r * 10;
        i = i + 1;
    }
    r
}

impl Amount {
    /// The amount `units / 10^scale`.
    pub fn new(units: u64, scale: u8) -> (r: Amount)
        ensures
            r.units == units,
            r.scale == scale,
    {
        Amount { units, scale }
    }

    /// The shortest plain rendering: `23.9`, `100.43`, `5`.
    pub fn plain_text(&self) -> (r: String)
        ensures
            r@ == plain_decimal(self.units as nat, self.scale as nat),
    {
        let mut u: u64 = self.units;
        let mut s: u8 = self.scale;
        while s > 0 && u % 10 == 0
            invariant
                trimmed(u as nat, s as nat) == trimmed(self.units as nat, self.scale as nat),
            decreases s,
        {
            u = u / 10;
            s = s - 1;
        }
        assert(trimmed(u as nat, s as nat) == (u as nat, s as nat));
        let mut out = String::new();
        if s == 0 {
            push_decimal(&mut out, u as u128);
        } else {
            let whole: u64 = if s >= 20 {
                proof {
                    lemma_pow10_twenty();
                    lemma_pow10_monotone(20, s as nat);
                    assert(u as nat / pow10(s as nat) == 0) by (nonlinear_arith)
                        requires
                            u < pow10(s as nat),
                    ;
                }
                0
            } else {
                let p = pow10_u64(s);
                proof {
                    lemma_pow10_positive(s as nat);
                }
                u / p
            };
            push_decimal(&mut out, whole as u128);
            out.append(".");
            push_low_digits(&mut out, u as u128, s);
            proof {
                reveal_strlit(".");
                assert(out@ =~= plain_decimal(self.units as nat, self.scale as nat));
            }
        }
        out
    }

    /// The amount in hundredths, rounded half to even.
    fn to_hundredths(&self) -> (r: u128)
        ensures
            r == hundredths(self.units as nat, self.scale as nat),
    {
        let u = self.units;
        let s = self.scale;
        if s <= 2 {
            let p = pow10_u64(2 - s);
            proof {
                reveal_with_fuel(pow10, 3);
                lemma_pow10_monotone((2 - s) as nat, 2);
                assert((u as nat) * (p as nat) <= 18446744073709551615nat * 100) by (nonlinear_arith)
                    requires
                        u <= 18446744073709551615nat,
                        p <= 100,
                ;
            }
            (u as u128) * (p as u128)
        } else if s >= 22 {
            proof {
                lemma_pow10_twenty();
                lemma_pow10_monotone(20, (s - 2) as nat);
                let d = pow10((s - 2) as nat);
                assert(u as nat / d == 0 && u as nat % d == u as nat) by (nonlinear_arith)
                    requires
                        u < d,
                ;
            }
            0
        } else {
            let d = pow10_u64(s - 2);
            proof {
                lemma_pow10_positive((s - 2) as nat);
            }
            let q = u / d;
            let r = u % d;
            if 2 * (r as u128) > d as u128 || (2 * (r as u128) == d as u128 && q % 2 == 1) {
                (q as u128) + 1
            } else {
                q as u128
            }
        }
    }

    /// The rendering with exactly two fraction digits: `23.90`, `0.01`.
    pub fn two_decimal_text(&self) -> (r: String)
        ensures
            r@ == two_decimals(self.units as nat, self.scale as nat),
    {
        let c = self.to_hundredths();
        let mut out = String::new();
        push_decimal(&mut out, c / 100);
        out.append(".");
        push_low_digits(&mut out, c, 2);
        proof {
            reveal_strlit(".");
            assert(out@ =~= two_decimals(self.units as nat, self.scale as nat));
        }
        out
    }
}

} // verus!
