//! Exact fixed-point money and rate arithmetic.
//!
//! Every value carries exactly eight fractional digits: one whole unit is
//! `SCALE` atoms, so a `Money` of one dollar is 100_000_000 atoms and a
//! satoshi-sized quantity is a single atom. Every arithmetic result is
//! rounded half-away-from-zero to this scale, and the rounding is part of
//! each operation's contract.

use vstd::prelude::*;
use crate::errors::FacilityError;

verus! {

/// Atoms per whole unit: values carry exactly eight fractional digits.
pub const SCALE: i128 = 100_000_000;

/// Largest operand magnitude, in atoms, accepted by addition/subtraction.
pub const AMOUNT_LIMIT: i128 = 1_000_000_000_000_000_000_000_000_000;

/// Largest money magnitude, in atoms, accepted where a rate multiplies it.
pub const MUL_LIMIT: i128 = 1_000_000_000_000_000_000_000_000;

/// Largest rate magnitude in atoms (a ratio of one hundred, i.e. 10_000%).
pub const RATE_LIMIT: i128 = 10_000_000_000;

/// Largest day count accepted by a single interest computation.
pub const DAYS_LIMIT: u32 = 10_000;

/// Largest compound-factor magnitude, in atoms, reached during iteration.
pub const FACTOR_LIMIT: i128 = 100_000_000_000_000_000_000;

/// Largest money magnitude accepted as the base of `Money::compound`.
pub const POW_BASE_LIMIT: i128 = 1_000_000_000_000_000_000;

/// Division of `n` by positive `d`, rounded half-away-from-zero.
pub open spec fn round_half_div(n: int, d: int) -> int
    recommends
        d > 0,
{
    if n >= 0 {
        (n + d / 2) / d
    } else {
        -(((-n) + d / 2) / d)
    }
}

/// The product of two eight-digit values, renormalized to eight digits.
pub open spec fn mul_scaled(a: int, b: int) -> int {
    round_half_div(a * b, SCALE as int)
}

/// Two-sided bound on a product, from bounds on its factors.
pub proof fn lemma_mul_bounds(a: int, b: int, am: int, bm: int)
    by (nonlinear_arith)
    requires
        0 <= am,
        0 <= bm,
        -am <= a <= am,
        -bm <= b <= bm,
    ensures
        -(am * bm) <= a * b <= am * bm,
{
}

/// Rounded division of a bounded dividend stays within the scaled bound.
pub proof fn lemma_round_half_div_bound(n: int, d: int, nm: int)
    requires
        0 < d,
        0 <= nm,
        -nm <= n <= nm,
    ensures
        -(nm / d + 1) <= round_half_div(n, d) <= nm / d + 1,
{
    vstd::arithmetic::div_mod::lemma_div_pos_is_pos(nm + d / 2, d);
    if n >= 0 {
        vstd::arithmetic::div_mod::lemma_div_is_ordered(n + d / 2, nm + d / 2, d);
        vstd::arithmetic::div_mod::lemma_div_is_ordered(nm + d / 2, nm + d, d);
        vstd::arithmetic::div_mod::lemma_div_plus_one(nm, d);
        vstd::arithmetic::div_mod::lemma_div_pos_is_pos(n + d / 2, d);
    } else {
        vstd::arithmetic::div_mod::lemma_div_is_ordered((-n) + d / 2, nm + d / 2, d);
        vstd::arithmetic::div_mod::lemma_div_is_ordered(nm + d / 2, nm + d, d);
        vstd::arithmetic::div_mod::lemma_div_plus_one(nm, d);
        vstd::arithmetic::div_mod::lemma_div_pos_is_pos((-n) + d / 2, d);
    }
}

/// Rounded division is monotone in the dividend.
pub proof fn lemma_round_half_div_mono(n1: int, n2: int, d: int)
    requires
        0 < d,
        n1 <= n2,
    ensures
        round_half_div(n1, d) <= round_half_div(n2, d),
{
    if n1 >= 0 {
        vstd::arithmetic::div_mod::lemma_div_is_ordered(n1 + d / 2, n2 + d / 2, d);
    } else if n2 < 0 {
        vstd::arithmetic::div_mod::lemma_div_is_ordered((-n2) + d / 2, (-n1) + d / 2, d);
    } else {
        vstd::arithmetic::div_mod::lemma_div_pos_is_pos((-n1) + d / 2, d);
        vstd::arithmetic::div_mod::lemma_div_pos_is_pos(n2 + d / 2, d);
    }
}

/// Rounded division by a positive divisor never grows a magnitude.
pub proof fn lemma_round_half_div_le(a: int, n: int)
    requires
        n >= 1,
    ensures
        a >= 0 ==> 0 <= round_half_div(a, n) <= a,
        a < 0 ==> a <= round_half_div(a, n) <= 0,
{
    let m = if a >= 0 {
        a
    } else {
        -a
    };
    assert(m * (n - 1) >= 0) by (nonlinear_arith)
        requires
            m >= 0,
            n >= 1,
    ;
    assert(m + n / 2 <= n * m + (n - 1)) by (nonlinear_arith)
        requires
            m >= 0,
            n >= 1,
    ;
    vstd::arithmetic::div_mod::lemma_div_is_ordered(m + n / 2, n * m + (n - 1), n);
    vstd::arithmetic::div_mod::lemma_div_multiples_vanish_fancy(m, n - 1, n);
    vstd::arithmetic::div_mod::lemma_div_pos_is_pos(m + n / 2, n);
}

/// Rounded division helper shared by the arithmetic of the crate.
pub(crate) fn div_round(n: i128, d: i128) -> (r: i128)
    requires
        0 < d <= 1_000_000_000_000_000_000_000_000,
        -160_000_000_000_000_000_000_000_000_000_000_000_000 <= n
            <= 160_000_000_000_000_000_000_000_000_000_000_000_000,
    ensures
        r as int == round_half_div(n as int, d as int),
        n >= 0 ==> 0 <= r && r * d <= n + d / 2,
        n < 0 ==> r <= 0 && n - d / 2 <= r * d,
{
    let du = d as u128;
    if n >= 0 {
        let nm = n as u128;
        let x = nm + du / 2;
        let q = x / du;
        proof {
            vstd::arithmetic::div_mod::lemma_div_is_ordered_by_denominator(
                x as int, 1, du as int);
            vstd::arithmetic::div_mod::lemma_fundamental_div_mod(x as int, du as int);
            vstd::arithmetic::div_mod::lemma_mod_bound(x as int, du as int);
            assert(q as int == (x as int) / (du as int));
            assert((q as int) * (d as int) == (du as int) * ((x as int) / (du as int)))
                by (nonlinear_arith)
                requires
                    q as int == (x as int) / (du as int),
                    d as int == du as int,
            ;
        }
        q as i128
    } else {
        let nm = (-n) as u128;
        let x = nm + du / 2;
        let q = x / du;
        proof {
            vstd::arithmetic::div_mod::lemma_div_is_ordered_by_denominator(
                x as int, 1, du as int);
            vstd::arithmetic::div_mod::lemma_fundamental_div_mod(x as int, du as int);
            vstd::arithmetic::div_mod::lemma_mod_bound(x as int, du as int);
            assert(q as int == (x as int) / (du as int));
            assert((q as int) * (d as int) == (du as int) * ((x as int) / (du as int)))
                by (nonlinear_arith)
                requires
                    q as int == (x as int) / (du as int),
                    d as int == du as int,
            ;
            assert((-(q as int)) * (d as int) == -((q as int) * (d as int)))
                by (nonlinear_arith);
        }
        -(q as i128)
    }
}

/// Money with eight decimal digits of precision, stored as a count of atoms.
///
/// Negative values are legal (an overdrawn balance, for instance); every
/// operation states its result exactly in terms of `atoms`.
#[derive(Clone, Copy, Debug, PartialEq, Eq, PartialOrd, Ord, Hash, Structural)]
pub struct Money {
    pub atoms: i128,
}

/// A ratio such as an interest rate, also at eight-digit precision
/// (`0.05` = 5% is 5_000_000 atoms).
#[derive(Clone, Copy, Debug, PartialEq, Eq, PartialOrd, Ord, Hash, Structural)]
pub struct Rate {
    pub atoms: i128,
}

impl Money {
    /// The zero value.
    pub fn zero() -> (r: Money)
        ensures
            r.atoms == 0,
    {
        Money { atoms: 0 }
    }

    /// One whole unit.
    pub fn one() -> (r: Money)
        ensures
            r.atoms == SCALE,
    {
        Money { atoms: SCALE }
    }

    /// The smallest representable positive value: one atom.
    pub fn satoshi() -> (r: Money)
        ensures
            r.atoms == 1,
    {
        Money { atoms: 1 }
    }

    /// Construct directly from a count of atoms.
    pub fn from_atoms(atoms: i128) -> (r: Money)
        ensures
            r.atoms == atoms,
    {
        Money { atoms }
    }

    /// Construct from a count of whole major units (dollars, euros...).
    pub fn from_major(amount: i64) -> (r: Money)
        ensures
            r.atoms == amount * SCALE,
    {
        Money { atoms: (amount as i128) * SCALE }
    }

    /// Construct from minor units at the given scale (cents at 2,
    /// satoshis at 8), rounded to eight digits.
    pub fn from_minor(amount: i64, scale: u32) -> (r: Money)
        requires
            scale <= 19,
        ensures
            r.atoms as int == round_half_div(amount * SCALE, pow10(scale as nat)),
    {
        let mut d: i128 = 1;
        let mut i: u32 = 0;
        while i < scale
            invariant
                i <= scale,
                scale <= 19,
                d == pow10(i as nat),
                1 <= d <= 10_000_000_000_000_000_000,
            decreases scale - i,
        {
            proof {
                lemma_pow10_bounds(scale as nat);
                lemma_pow10_mono(i as nat + 1, scale as nat);
            }
            d = d * 10;
            i = i + 1;
        }
        let n = (amount as i128) * SCALE;
        Money { atoms: div_round(n, d) }
    }

    /// Parse an amount from decimal text: an optional minus sign, up to
    /// eighteen integer digits, and optionally a point followed by one to
    /// twenty-seven fraction digits; digits beyond the eighth are rounded
    /// away, half away from zero. Fails exactly on any other shape.
    pub fn from_str_exact(s: &str) -> (r: Result<Money, FacilityError>)
        ensures
            r is Ok <==> money_str_ok(s@),
            r matches Ok(m) ==> m.atoms as int == money_str_val(s@),
    {
        let len = s.unicode_len();
        let c0: u32 = if len > 0 {
            s.get_char(0) as u32
        } else {
            0
        };
        let neg = len > 0 && c0 == 45;
        let start: usize = if neg {
            1
        } else {
            0
        };
        let ghost body = if neg {
            s@.skip(1)
        } else {
            s@
        };
        let mut i: usize = start;
        let mut int_acc: i128 = 0;
        let mut int_len: usize = 0;
        let mut seen_dot = false;
        let mut dot_at: usize = 0;
        let mut frac_acc: i128 = 0;
        let mut frac_len: usize = 0;
        proof {
            assert(pow10(17) == 100_000_000_000_000_000) by {
                reveal_with_fuel(pow10, 18);
            }
            assert(pow10(7) == 10_000_000) by {
                reveal_with_fuel(pow10, 8);
            }
        }
        while i < len
            invariant
                len == s@.len(),
                neg == (s@.len() > 0 && is_minus_char(s@[0])),
                start == (if neg { 1int } else { 0int }),
                body == (if neg { s@.skip(1) } else { s@ }),
                body.len() == len - start,
                start <= i <= len,
                !seen_dot ==> {
                    let bi = i - start;
                    &&& forall|j: int| 0 <= j < bi ==> is_digit_char(#[trigger] body[j])
                        && !is_dot_char(body[j])
                    &&& int_len == bi
                    &&& int_acc as int == digits_val(body.take(bi as int))
                    &&& 0 <= int_acc < pow10(int_len as nat)
                    &&& int_len <= 18
                    &&& frac_len == 0
                    &&& frac_acc == 0
                },
                seen_dot ==> {
                    let bi = i - start;
                    let dp = dot_at - start;
                    &&& start <= dot_at < i
                    &&& is_dot_char(body[dp as int])
                    &&& forall|j: int| 0 <= j < dp ==> is_digit_char(#[trigger] body[j])
                        && !is_dot_char(body[j])
                    &&& forall|j: int| dp < j < bi ==> is_digit_char(#[trigger] body[j])
                    &&& int_len == dp
                    &&& int_acc as int == digits_val(body.take(dp as int))
                    &&& 0 <= int_acc < pow10(int_len as nat)
                    &&& int_len <= 18
                    &&& frac_len == bi - dp - 1
                    &&& frac_acc as int == digits_val(body.subrange(dp + 1, bi as int))
                    &&& 0 <= frac_acc < pow10(frac_len as nat)
                    &&& frac_len <= 27
                },
            decreases len - i,
        {
            let c = s.get_char(i);
            let ghost bi = (i - start) as int;
            proof {
                assert(body[bi] == s@[i as int]);
            }
            let cv = c as u32;
            if cv == 46 {
                if seen_dot {
                    proof {
                        let dp = (dot_at - start) as int;
                        lemma_dot_index_of(body, dp);
                        assert(!is_digit_char(body.skip(dp + 1)[bi - dp - 1]));
                    }
                    return Err(FacilityError::CalculationError {
                        message: String::new(),
                    });
                }
                seen_dot = true;
                dot_at = i;
                proof {
                    assert(cv as int == c as int);
                    assert(is_dot_char(body[bi]));
                    assert(body.subrange(bi + 1, bi + 1) =~= Seq::<char>::empty());
                }
            } else if 48 <= cv && cv <= 57 {
                let d = (cv - 48) as i128;
                if !seen_dot {
                    if int_len >= 18 {
                        proof {
                            lemma_dot_index_at_least(body, bi + 1);
                            lemma_dot_index_le(body);
                        }
                        return Err(FacilityError::CalculationError {
                            message: String::new(),
                        });
                    }
                    proof {
                        assert(pow10(17) == 100_000_000_000_000_000) by {
                            reveal_with_fuel(pow10, 18);
                        }
                        lemma_pow10_mono(int_len as nat, 17);
                        assert(pow10((int_len + 1) as nat) == 10 * pow10(int_len as nat));
                        assert(body.take(bi + 1).drop_last() =~= body.take(bi));
                        assert(body.take(bi + 1).last() == body[bi]);
                    }
                    int_acc = int_acc * 10 + d;
                    int_len = int_len + 1;
                } else {
                    let ghost dp = (dot_at - start) as int;
                    if frac_len >= 27 {
                        proof {
                            lemma_dot_index_of(body, dp);
                        }
                        return Err(FacilityError::CalculationError {
                            message: String::new(),
                        });
                    }
                    proof {
                        assert(pow10(26) == pow10(19) * 10_000_000) by {
                            reveal_with_fuel(pow10, 27);
                        }
                        assert(pow10(19) == 10_000_000_000_000_000_000) by {
                            reveal_with_fuel(pow10, 20);
                        }
                        lemma_pow10_mono(frac_len as nat, 26);
                        assert(pow10((frac_len + 1) as nat) == 10 * pow10(frac_len as nat));
                        assert(body.subrange(dp + 1, bi + 1).drop_last() =~= body.subrange(
                            dp + 1, bi));
                        assert(body.subrange(dp + 1, bi + 1).last() == body[bi]);
                    }
                    frac_acc = frac_acc * 10 + d;
                    frac_len = frac_len + 1;
                }
            } else {
                proof {
                    if !seen_dot {
                        lemma_dot_index_at_least(body, bi + 1);
                        lemma_dot_index_le(body);
                        assert(!is_digit_char(body.take(dot_index(body))[bi]));
                    } else {
                        let dp = (dot_at - start) as int;
                        lemma_dot_index_of(body, dp);
                        assert(!is_digit_char(body.skip(dp + 1)[bi - dp - 1]));
                    }
                }
                return Err(FacilityError::CalculationError { message: String::new() });
            }
            i = i + 1;
        }
        if int_len == 0 && frac_len == 0 {
            proof {
                if !seen_dot {
                    lemma_dot_index_of(body, 0);
                } else {
                    lemma_dot_index_of(body, (dot_at - start) as int);
                }
            }
            return Err(FacilityError::CalculationError { message: String::new() });
        }
        if seen_dot && frac_len == 0 {
            proof {
                lemma_dot_index_of(body, (dot_at - start) as int);
            }
            return Err(FacilityError::CalculationError { message: String::new() });
        }
        proof {
            if !seen_dot {
                lemma_dot_index_of(body, body.len() as int);
                assert(body.take(body.len() as int) =~= body);
            } else {
                let dp = (dot_at - start) as int;
                lemma_dot_index_of(body, dp);
                assert(body.skip(dp + 1) =~= body.subrange(dp + 1, body.len() as int));
            }
            assert(pow10(18) == 1_000_000_000_000_000_000) by {
                reveal_with_fuel(pow10, 19);
            }
            lemma_pow10_mono(int_len as nat, 18);
        }
        let frac_atoms: i128 = if frac_len <= 8 {
            let mut scale_mul: i128 = 1;
            let mut k: usize = frac_len;
            while k < 8
                invariant
                    frac_len <= k <= 8,
                    scale_mul == pow10((k - frac_len) as nat),
                    1 <= scale_mul <= 100_000_000,
                decreases 8 - k,
            {
                proof {
                    lemma_pow10_mono((k - frac_len + 1) as nat, 8);
                    assert(pow10(8) == 100_000_000) by {
                        reveal_with_fuel(pow10, 9);
                    }
                }
                scale_mul = scale_mul * 10;
                k = k + 1;
            }
            proof {
                assert(pow10(8) == 100_000_000) by {
                    reveal_with_fuel(pow10, 9);
                }
                lemma_pow10_mono(frac_len as nat, 8);
                lemma_mul_bounds(frac_acc as int, scale_mul as int, 100_000_000,
                    100_000_000);
            }
            frac_acc * scale_mul
        } else {
            // round the ninth and later digits away, half away from zero
            let mut div: i128 = 1;
            let mut k: usize = 8;
            while k < frac_len
                invariant
                    8 <= k <= frac_len <= 27,
                    div == pow10((k - 8) as nat),
                    1 <= div <= 10_000_000_000_000_000_000,
                decreases frac_len - k,
            {
                proof {
                    lemma_pow10_mono((k - 8 + 1) as nat, 19);
                    assert(pow10(19) == 10_000_000_000_000_000_000) by {
                        reveal_with_fuel(pow10, 20);
                    }
                }
                div = div * 10;
                k = k + 1;
            }
            proof {
                assert(pow10(27) == pow10(19) * 100_000_000) by {
                    reveal_with_fuel(pow10, 28);
                }
                assert(pow10(19) == 10_000_000_000_000_000_000) by {
                    reveal_with_fuel(pow10, 20);
                }
                lemma_pow10_mono(frac_len as nat, 27);
            }
            let rounded = div_round(frac_acc, div);
            proof {
                lemma_round_half_div_le(frac_acc as int, div as int);
            }
            rounded
        };
        let v = int_acc * SCALE + frac_atoms;
        if neg {
            Ok(Money { atoms: -v })
        } else {
            Ok(Money { atoms: v })
        }
    }

    /// The count of atoms.
    pub fn as_atoms(&self) -> (r: i128)
        ensures
            r == self.atoms,
    {
        self.atoms
    }

    /// True iff the value is exactly zero.
    pub fn is_zero(&self) -> (r: bool)
        ensures
            r == (self.atoms == 0),
    {
        self.atoms == 0
    }

    /// True iff the value is strictly positive.
    pub fn is_positive(&self) -> (r: bool)
        ensures
            r == (self.atoms > 0),
    {
        self.atoms > 0
    }

    /// True iff the value is strictly negative.
    pub fn is_negative(&self) -> (r: bool)
        ensures
            r == (self.atoms < 0),
    {
        self.atoms < 0
    }

    /// Absolute value.
    pub fn abs(&self) -> (r: Money)
        requires
            -AMOUNT_LIMIT <= self.atoms <= AMOUNT_LIMIT,
        ensures
            r.atoms == if self.atoms >= 0 { self.atoms as int } else { -self.atoms as int },
    {
        if self.atoms >= 0 { *self } else { Money { atoms: -self.atoms } }
    }

    /// Exact sum; money addition never rounds.
    pub fn add(self, other: Money) -> (r: Money)
        requires
            -AMOUNT_LIMIT <= self.atoms <= AMOUNT_LIMIT,
            -AMOUNT_LIMIT <= other.atoms <= AMOUNT_LIMIT,
        ensures
            r.atoms == self.atoms + other.atoms,
    {
        Money { atoms: self.atoms + other.atoms }
    }

    /// Exact difference; may be negative.
    pub fn sub(self, other: Money) -> (r: Money)
        requires
            -AMOUNT_LIMIT <= self.atoms <= AMOUNT_LIMIT,
            -AMOUNT_LIMIT <= other.atoms <= AMOUNT_LIMIT,
        ensures
            r.atoms == self.atoms - other.atoms,
    {
        Money { atoms: self.atoms - other.atoms }
    }

    /// The smaller of the two values.
    pub fn min_of(self, other: Money) -> (r: Money)
        ensures
            r.atoms == if self.atoms <= other.atoms { self.atoms } else { other.atoms },
    {
        if self.atoms <= other.atoms { self } else { other }
    }

    /// The larger of the two values.
    pub fn max_of(self, other: Money) -> (r: Money)
        ensures
            r.atoms == if self.atoms >= other.atoms { self.atoms } else { other.atoms },
    {
        if self.atoms >= other.atoms { self } else { other }
    }

    /// Round to `dp` decimal places (half-away-from-zero); `dp >= 8` is the
    /// identity.
    pub fn round_dp(&self, dp: u32) -> (r: Money)
        requires
            -AMOUNT_LIMIT <= self.atoms <= AMOUNT_LIMIT,
        ensures
            dp >= 8 ==> r.atoms == self.atoms,
            dp < 8 ==> r.atoms as int == round_half_div(self.atoms as int, pow10((8 - dp) as nat))
                * pow10((8 - dp) as nat),
    {
        if dp >= 8 {
            *self
        } else {
            let mut d: i128 = 1;
            let mut i: u32 = 0;
            let k: u32 = 8 - dp;
            while i < k
                invariant
                    i <= k,
                    k <= 8,
                    d == pow10(i as nat),
                    1 <= d <= 100_000_000,
                decreases k - i,
            {
                proof {
                    lemma_pow10_small(k as nat);
                    lemma_pow10_mono(i as nat + 1, k as nat);
                }
                d = d * 10;
                i = i + 1;
            }
            let q = div_round(self.atoms, d);
            proof {
                if self.atoms >= 0 {
                    assert(q * d >= 0) by (nonlinear_arith)
                        requires
                            q >= 0,
                            d > 0,
                    ;
                } else {
                    assert(q * d <= 0) by (nonlinear_arith)
                        requires
                            q <= 0,
                            d > 0,
                    ;
                }
            }
            Money { atoms: q * d }
        }
    }

    /// Multiply by a ratio, rounding the product to eight digits.
    pub fn times(self, rate: Rate) -> (r: Money)
        requires
            -MUL_LIMIT <= self.atoms <= MUL_LIMIT,
            -RATE_LIMIT <= rate.atoms <= RATE_LIMIT,
        ensures
            r.atoms as int == mul_scaled(self.atoms as int, rate.atoms as int),
    {
        proof {
            lemma_mul_bounds(self.atoms as int, rate.atoms as int, MUL_LIMIT as int,
                RATE_LIMIT as int);
        }
        Money { atoms: div_round(self.atoms * rate.atoms, SCALE) }
    }

    /// `rate` percent of the value (`rate` is a percentage figure: a rate of
    /// five stands for 5%), rounded to eight digits.
    pub fn percentage(&self, rate: Rate) -> (r: Money)
        requires
            -MUL_LIMIT <= self.atoms <= MUL_LIMIT,
            -RATE_LIMIT * 100 <= rate.atoms <= RATE_LIMIT * 100,
        ensures
            r.atoms as int == round_half_div(self.atoms * rate.atoms, 100 * SCALE),
    {
        proof {
            lemma_mul_bounds(self.atoms as int, rate.atoms as int, MUL_LIMIT as int,
                100 * RATE_LIMIT as int);
        }
        Money { atoms: div_round(self.atoms * rate.atoms, 100 * SCALE) }
    }

    /// Simple interest for `days` days at an annual rate over a 365-day
    /// year: `self * rate * days / 365`, rounded once to eight digits.
    pub fn apply_rate(&self, annual_rate: Rate, days: u32) -> (r: Money)
        requires
            -MUL_LIMIT <= self.atoms <= MUL_LIMIT,
            -RATE_LIMIT <= annual_rate.atoms <= RATE_LIMIT,
            days <= DAYS_LIMIT,
        ensures
            r.atoms as int == simple_interest(self.atoms as int, annual_rate.atoms as int,
                days as int, 365),
    {
        self.interest_for_days(annual_rate, days, 365)
    }

    /// Simple interest for `days` days at an annual rate over a year of
    /// `basis` days: `self * rate * days / basis`, rounded once to eight
    /// digits.
    pub fn interest_for_days(&self, annual_rate: Rate, days: u32, basis: u32) -> (r: Money)
        requires
            -MUL_LIMIT <= self.atoms <= MUL_LIMIT,
            -RATE_LIMIT <= annual_rate.atoms <= RATE_LIMIT,
            days <= DAYS_LIMIT,
            0 < basis <= 1000,
        ensures
            r.atoms as int == simple_interest(self.atoms as int, annual_rate.atoms as int,
                days as int, basis as int),
    {
        proof {
            lemma_mul_bounds(self.atoms as int, annual_rate.atoms as int, MUL_LIMIT as int,
                RATE_LIMIT as int);
            lemma_mul_bounds(self.atoms * annual_rate.atoms, days as int,
                MUL_LIMIT * RATE_LIMIT, DAYS_LIMIT as int);
        }
        Money { atoms: div_round(self.atoms * annual_rate.atoms * (days as i128),
            (basis as i128) * SCALE) }
    }

    /// Compound growth: the interest-free base grows by `rate` once per
    /// period, each intermediate factor rounded to eight digits; returns
    /// the grown value rounded to eight digits.
    pub fn compound(&self, rate: Rate, periods: u32) -> (r: Money)
        requires
            -POW_BASE_LIMIT <= self.atoms <= POW_BASE_LIMIT,
            -RATE_LIMIT <= rate.atoms <= RATE_LIMIT,
            pow_within(rate.atoms as int, periods as nat),
        ensures
            r.atoms as int == mul_scaled(self.atoms as int,
                pow_factor(rate.atoms as int, periods as nat)),
    {
        let factor = compound_factor(rate, periods);
        proof {
            lemma_mul_bounds(self.atoms as int, factor as int, POW_BASE_LIMIT as int,
                FACTOR_LIMIT as int);
        }
        Money { atoms: div_round(self.atoms * factor, SCALE) }
    }
}

impl Rate {
    /// The zero ratio.
    pub fn zero() -> (r: Rate)
        ensures
            r.atoms == 0,
    {
        Rate { atoms: 0 }
    }

    /// The ratio one (100%).
    pub fn one() -> (r: Rate)
        ensures
            r.atoms == SCALE,
    {
        Rate { atoms: SCALE }
    }

    /// Construct directly from a count of atoms.
    pub fn from_atoms(atoms: i128) -> (r: Rate)
        ensures
            r.atoms == atoms,
    {
        Rate { atoms }
    }

    /// Construct from a percentage: 5 gives the ratio 0.05.
    pub fn from_percentage(p: u32) -> (r: Rate)
        ensures
            r.atoms == p * 1_000_000,
    {
        Rate { atoms: (p as i128) * 1_000_000 }
    }

    /// Construct from basis points: 500 gives the ratio 0.05.
    pub fn from_bps(bps: u32) -> (r: Rate)
        ensures
            r.atoms == bps * 10_000,
    {
        Rate { atoms: (bps as i128) * 10_000 }
    }

    /// The count of atoms.
    pub fn as_atoms(&self) -> (r: i128)
        ensures
            r == self.atoms,
    {
        self.atoms
    }

    /// True iff the ratio is exactly zero.
    pub fn is_zero(&self) -> (r: bool)
        ensures
            r == (self.atoms == 0),
    {
        self.atoms == 0
    }

    /// The ratio as a percentage figure: 0.05 reads as 5.
    pub fn as_percentage(&self) -> (r: Rate)
        requires
            -AMOUNT_LIMIT <= self.atoms <= AMOUNT_LIMIT,
        ensures
            r.atoms == self.atoms * 100,
    {
        Rate { atoms: self.atoms * 100 }
    }

    /// The ratio as basis points: 0.05 reads as 500.
    pub fn as_bps(&self) -> (r: Rate)
        requires
            -AMOUNT_LIMIT <= self.atoms <= AMOUNT_LIMIT,
        ensures
            r.atoms == self.atoms * 10_000,
    {
        Rate { atoms: self.atoms * 10_000 }
    }

    /// The ratio divided by an integer (365 for a daily rate, 12 for a
    /// monthly one), rounded to eight digits.
    pub fn div_int(&self, n: u32) -> (r: Rate)
        requires
            n > 0,
            -AMOUNT_LIMIT <= self.atoms <= AMOUNT_LIMIT,
        ensures
            r.atoms as int == round_half_div(self.atoms as int, n as int),
    {
        Rate { atoms: div_round(self.atoms, n as i128) }
    }

    /// Daily rate derived from an annual rate over a 365-day year.
    pub fn daily_rate(&self) -> (r: Rate)
        requires
            -AMOUNT_LIMIT <= self.atoms <= AMOUNT_LIMIT,
        ensures
            r.atoms as int == round_half_div(self.atoms as int, 365),
    {
        self.div_int(365)
    }

    /// Monthly rate derived from an annual rate.
    pub fn monthly_rate(&self) -> (r: Rate)
        requires
            -AMOUNT_LIMIT <= self.atoms <= AMOUNT_LIMIT,
        ensures
            r.atoms as int == round_half_div(self.atoms as int, 12),
    {
        self.div_int(12)
    }

    /// Product of two ratios, rounded to eight digits.
    pub fn times(self, other: Rate) -> (r: Rate)
        requires
            -MUL_LIMIT <= self.atoms <= MUL_LIMIT,
            -RATE_LIMIT <= other.atoms <= RATE_LIMIT,
        ensures
            r.atoms as int == mul_scaled(self.atoms as int, other.atoms as int),
    {
        proof {
            lemma_mul_bounds(self.atoms as int, other.atoms as int, MUL_LIMIT as int,
                RATE_LIMIT as int);
        }
        Rate { atoms: div_round(self.atoms * other.atoms, SCALE) }
    }

    /// Exact sum of two ratios.
    pub fn add(self, other: Rate) -> (r: Rate)
        requires
            -AMOUNT_LIMIT <= self.atoms <= AMOUNT_LIMIT,
            -AMOUNT_LIMIT <= other.atoms <= AMOUNT_LIMIT,
        ensures
            r.atoms == self.atoms + other.atoms,
    {
        Rate { atoms: self.atoms + other.atoms }
    }

    /// The smaller of the two ratios.
    pub fn min_of(self, other: Rate) -> (r: Rate)
        ensures
            r.atoms == if self.atoms <= other.atoms { self.atoms } else { other.atoms },
    {
        if self.atoms <= other.atoms { self } else { other }
    }
}

/// Powers of ten, as used by the scale conversions.
pub open spec fn pow10(n: nat) -> int
    decreases n,
{
    if n == 0 {
        1
    } else {
        10 * pow10((n - 1) as nat)
    }
}

/// Whether `c` is a decimal digit.
pub open spec fn is_digit_char(c: char) -> bool {
    48 <= c as int <= 57
}

/// Whether `c` is the decimal point.
pub open spec fn is_dot_char(c: char) -> bool {
    c as int == 46
}

/// Whether `c` is the minus sign.
pub open spec fn is_minus_char(c: char) -> bool {
    c as int == 45
}

/// The value of a decimal digit.
pub open spec fn digit_of(c: char) -> int {
    c as int - 48
}

/// The value of a digit string read in base ten.
pub open spec fn digits_val(s: Seq<char>) -> int
    decreases s.len(),
{
    if s.len() == 0 {
        0
    } else {
        digits_val(s.drop_last()) * 10 + digit_of(s.last())
    }
}

/// Whether every character is a decimal digit.
pub open spec fn all_digits(s: Seq<char>) -> bool {
    forall|i: int| 0 <= i < s.len() ==> is_digit_char(#[trigger] s[i])
}

/// The index of the first decimal point; the length where none occurs.
pub open spec fn dot_index(s: Seq<char>) -> int
    decreases s.len(),
{
    if s.len() == 0 {
        0
    } else if is_dot_char(s[0]) {
        0
    } else {
        1 + dot_index(s.skip(1))
    }
}

/// Whether a string spells an amount this type can parse: an optional
/// minus sign, up to eighteen integer digits, and optionally a point
/// followed by one to twenty-seven fraction digits, with at least one
/// digit in all. Fraction digits beyond the eighth are rounded away,
/// half away from zero.
pub open spec fn money_str_ok(s: Seq<char>) -> bool {
    let body = if s.len() > 0 && is_minus_char(s[0]) {
        s.skip(1)
    } else {
        s
    };
    let d = dot_index(body);
    let ip = body.take(d);
    let fp = if d < body.len() {
        body.skip(d + 1)
    } else {
        Seq::<char>::empty()
    };
    &&& ip.len() + fp.len() > 0
    &&& (d < body.len() ==> d + 1 < body.len())
    &&& ip.len() <= 18
    &&& fp.len() <= 27
    &&& all_digits(ip)
    &&& all_digits(fp)
}

/// The amount a well-formed string spells, in atoms.
pub open spec fn money_str_val(s: Seq<char>) -> int {
    let neg = s.len() > 0 && is_minus_char(s[0]);
    let body = if neg {
        s.skip(1)
    } else {
        s
    };
    let d = dot_index(body);
    let ip = body.take(d);
    let fp = if d < body.len() {
        body.skip(d + 1)
    } else {
        Seq::<char>::empty()
    };
    let fa = if fp.len() <= 8 {
        digits_val(fp) * pow10((8 - fp.len()) as nat)
    } else {
        round_half_div(digits_val(fp), pow10((fp.len() - 8) as nat))
    };
    let v = digits_val(ip) * (SCALE as int) + fa;
    if neg {
        -v
    } else {
        v
    }
}

proof fn lemma_dot_index_of(s: Seq<char>, k: int)
    requires
        0 <= k <= s.len(),
        forall|j: int| 0 <= j < k ==> !is_dot_char(#[trigger] s[j]),
        k < s.len() ==> is_dot_char(s[k]),
    ensures
        dot_index(s) == k,
    decreases s.len(),
{
    if s.len() > 0 && !is_dot_char(s[0]) {
        assert(k >= 1);
        assert(forall|j: int| 0 <= j < k - 1 ==> #[trigger] s.skip(1)[j] == s[j + 1]);
        assert(k - 1 < s.skip(1).len() ==> s.skip(1)[k - 1] == s[k]);
        lemma_dot_index_of(s.skip(1), k - 1);
    }
}

proof fn lemma_dot_index_at_least(s: Seq<char>, k: int)
    requires
        0 <= k <= s.len(),
        forall|j: int| 0 <= j < k ==> !is_dot_char(#[trigger] s[j]),
    ensures
        dot_index(s) >= k,
    decreases s.len(),
{
    lemma_dot_index_le(s);
    if s.len() > 0 && !is_dot_char(s[0]) && k >= 1 {
        assert(forall|j: int| 0 <= j < k - 1 ==> #[trigger] s.skip(1)[j] == s[j + 1]);
        lemma_dot_index_at_least(s.skip(1), k - 1);
    }
}

proof fn lemma_dot_index_le(s: Seq<char>)
    ensures
        0 <= dot_index(s) <= s.len(),
    decreases s.len(),
{
    if s.len() > 0 && !is_dot_char(s[0]) {
        lemma_dot_index_le(s.skip(1));
    }
}

proof fn lemma_digits_val_bound(s: Seq<char>)
    requires
        all_digits(s),
    ensures
        0 <= digits_val(s) < pow10(s.len()),
    decreases s.len(),
{
    if s.len() > 0 {
        assert(forall|i: int| 0 <= i < s.len() - 1 ==> #[trigger] s.drop_last()[i] == s[i]);
        lemma_digits_val_bound(s.drop_last());
        lemma_pow10_pos((s.len() - 1) as nat);
    }
}

proof fn lemma_pow10_mono(i: nat, j: nat)
    requires
        i <= j,
    ensures
        pow10(i) <= pow10(j),
    decreases j,
{
    if i < j {
        lemma_pow10_mono(i, (j - 1) as nat);
        lemma_pow10_pos((j - 1) as nat);
    }
}

proof fn lemma_pow10_pos(n: nat)
    ensures
        pow10(n) >= 1,
    decreases n,
{
    if n > 0 {
        lemma_pow10_pos((n - 1) as nat);
    }
}

proof fn lemma_pow10_bounds(n: nat)
    requires
        n <= 19,
    ensures
        1 <= pow10(n) <= 10_000_000_000_000_000_000,
{
    assert(pow10(19) == 10_000_000_000_000_000_000) by {
        reveal_with_fuel(pow10, 20);
    }
    lemma_pow10_pos(n);
    lemma_pow10_mono(n, 19);
}

proof fn lemma_pow10_small(n: nat)
    requires
        n <= 8,
    ensures
        1 <= pow10(n) <= 100_000_000,
{
    assert(pow10(8) == 100_000_000) by {
        reveal_with_fuel(pow10, 9);
    }
    lemma_pow10_pos(n);
    lemma_pow10_mono(n, 8);
}

/// Simple interest in atoms: the exact product
/// `principal * rate * days / basis`, rounded once to eight digits.
pub open spec fn simple_interest(principal: int, rate: int, days: int, basis: int) -> int
    recommends
        basis > 0,
{
    round_half_div(principal * rate * days, basis * (SCALE as int))
}

/// The factor `(1 + r)^n`, one rounding to eight digits per step.
pub open spec fn pow_factor(r: int, n: nat) -> int
    decreases n,
{
    if n == 0 {
        SCALE as int
    } else {
        mul_scaled(pow_factor(r, (n - 1) as nat), (SCALE + r) as int)
    }
}

/// Whether every intermediate factor of `pow_factor(r, i)`, `i <= n`,
/// stays within `FACTOR_LIMIT`, so the iteration can be carried out.
pub open spec fn pow_within(r: int, n: nat) -> bool
    decreases n,
{
    if n == 0 {
        true
    } else {
        pow_within(r, (n - 1) as nat) && -(FACTOR_LIMIT as int) <= pow_factor(r, n)
            <= FACTOR_LIMIT as int
    }
}

pub proof fn lemma_pow_within_prefix(r: int, i: nat, n: nat)
    requires
        pow_within(r, n),
        i <= n,
    ensures
        pow_within(r, i),
        -(FACTOR_LIMIT as int) <= pow_factor(r, i) <= FACTOR_LIMIT as int,
    decreases n,
{
    if i < n {
        lemma_pow_within_prefix(r, i, (n - 1) as nat);
    } else {
        if n == 0 {
        } else {
            lemma_pow_within_prefix(r, (n - 1) as nat, (n - 1) as nat);
        }
    }
}

/// The iterated factor `(1 + r)^n` at eight-digit precision, or `None`
/// where an intermediate factor leaves `FACTOR_LIMIT`.
pub fn try_compound_factor(rate: Rate, periods: u32) -> (r: Option<i128>)
    requires
        -RATE_LIMIT <= rate.atoms <= RATE_LIMIT,
    ensures
        match r {
            Some(f) => pow_within(rate.atoms as int, periods as nat) && f as int == pow_factor(
                rate.atoms as int, periods as nat) && -FACTOR_LIMIT <= f <= FACTOR_LIMIT,
            None => !pow_within(rate.atoms as int, periods as nat),
        },
{
    let base: i128 = SCALE + rate.atoms;
    let mut factor: i128 = SCALE;
    let mut i: u32 = 0;
    while i < periods
        invariant
            i <= periods,
            base == SCALE + rate.atoms,
            -RATE_LIMIT <= rate.atoms <= RATE_LIMIT,
            pow_within(rate.atoms as int, i as nat),
            factor as int == pow_factor(rate.atoms as int, i as nat),
            -FACTOR_LIMIT <= factor <= FACTOR_LIMIT,
        decreases periods - i,
    {
        proof {
            lemma_mul_bounds(factor as int, base as int, FACTOR_LIMIT as int,
                SCALE + RATE_LIMIT as int);
        }
        let next = div_round(factor * base, SCALE);
        if next < -FACTOR_LIMIT || next > FACTOR_LIMIT {
            proof {
                if pow_within(rate.atoms as int, periods as nat) {
                    lemma_pow_within_prefix(rate.atoms as int, (i + 1) as nat, periods as nat);
                }
            }
            return None;
        }
        factor = next;
        i = i + 1;
    }
    Some(factor)
}

/// The iterated factor `(1 + r)^n` at eight-digit precision.
pub fn compound_factor(rate: Rate, periods: u32) -> (r: i128)
    requires
        -RATE_LIMIT <= rate.atoms <= RATE_LIMIT,
        pow_within(rate.atoms as int, periods as nat),
    ensures
        r as int == pow_factor(rate.atoms as int, periods as nat),
        -FACTOR_LIMIT <= r <= FACTOR_LIMIT,
{
    let base: i128 = SCALE + rate.atoms;
    let mut factor: i128 = SCALE;
    let mut i: u32 = 0;
    proof {
        lemma_pow_within_prefix(rate.atoms as int, 0, periods as nat);
    }
    while i < periods
        invariant
            i <= periods,
            base == SCALE + rate.atoms,
            -RATE_LIMIT <= rate.atoms <= RATE_LIMIT,
            pow_within(rate.atoms as int, periods as nat),
            factor as int == pow_factor(rate.atoms as int, i as nat),
            -FACTOR_LIMIT <= factor <= FACTOR_LIMIT,
        decreases periods - i,
    {
        proof {
            lemma_mul_bounds(factor as int, base as int, FACTOR_LIMIT as int,
                SCALE + RATE_LIMIT as int);
        }
        let next = div_round(factor * base, SCALE);
        proof {
            lemma_pow_within_prefix(rate.atoms as int, (i + 1) as nat, periods as nat);
        }
        factor = next;
        i = i + 1;
    }
    factor
}

} // verus!
