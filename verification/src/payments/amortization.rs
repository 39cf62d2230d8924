//! Amortization schedules: equal installments, declining principal, and
//! interest-only with balloon.

use vstd::prelude::*;
use crate::dates::{add_months, add_months_spec, MAX_TIMESTAMP, SECS_PER_DAY};
use crate::errors::FacilityError;
use crate::money::{
    div_round, lemma_mul_bounds, lemma_round_half_div_bound, lemma_round_half_div_le,
    mul_scaled, pow_factor, pow_within, round_half_div, try_compound_factor, Money, Rate,
    MUL_LIMIT, RATE_LIMIT, SCALE,
};
use crate::types::{AmortizationMethod, FacilityId};

verus! {

/// Longest supported schedule, in months.
pub const TERM_LIMIT: u32 = 600;

/// One scheduled payment of an amortization table.
#[derive(Clone, Copy, Debug, PartialEq, Eq, Structural)]
pub struct ScheduledPayment {
    pub payment_number: u32,
    pub payment_date: i64,
    pub beginning_balance: Money,
    pub payment_amount: Money,
    pub principal_portion: Money,
    pub interest_portion: Money,
    pub ending_balance: Money,
    pub cumulative_interest: Money,
    pub cumulative_principal: Money,
}

/// The monthly rate at eight digits: the annual rate over twelve.
pub open spec fn monthly_rate_of(annual: int) -> int {
    round_half_div(annual, 12)
}

/// Whether the equated installment can be computed within the supported
/// factor and product ranges.
pub open spec fn emi_within(p: int, annual: int, n: int) -> bool {
    let mr = monthly_rate_of(annual);
    n == 0 || mr == 0 || {
        &&& pow_within(mr, n as nat)
        &&& pow_factor(mr, n as nat) > SCALE
        &&& -100_000_000_000_000_000_000 <= round_half_div(mr * pow_factor(mr, n as nat),
            SCALE as int) <= 100_000_000_000_000_000_000
    }
}

/// The equated monthly installment: `P*r*(1+r)^n / ((1+r)^n - 1)` at
/// eight digits, `P/n` for a zero rate, and `P` itself for a zero term.
pub open spec fn emi_spec(p: int, annual: int, n: int) -> int {
    let mr = monthly_rate_of(annual);
    if n == 0 {
        p
    } else if mr == 0 {
        round_half_div(p, n)
    } else {
        let c = pow_factor(mr, n as nat);
        round_half_div(p * round_half_div(mr * c, SCALE as int), c - SCALE)
    }
}

/// The equated monthly installment.
pub fn calculate_emi_amount(principal: Money, annual_rate: Rate, months: u32)
    -> (r: Result<Money, FacilityError>)
    requires
        0 <= principal.atoms <= crate::money::POW_BASE_LIMIT,
        0 <= annual_rate.atoms <= RATE_LIMIT,
    ensures
        r matches Ok(m) ==> emi_within(principal.atoms as int, annual_rate.atoms as int,
            months as int) && m.atoms as int == emi_spec(principal.atoms as int,
            annual_rate.atoms as int, months as int),
        r is Err <==> !emi_within(principal.atoms as int, annual_rate.atoms as int,
            months as int),
{
    if months == 0 {
        return Ok(principal);
    }
    let mr_val = div_round(annual_rate.atoms, 12);
    proof {
        lemma_round_half_div_le(annual_rate.atoms as int, 12);
    }
    if mr_val == 0 {
        return Ok(Money { atoms: div_round(principal.atoms, months as i128) });
    }
    let mr = Rate { atoms: mr_val };
    match try_compound_factor(mr, months) {
        Some(c) => {
            if c <= SCALE {
                return Err(FacilityError::CalculationError { message: String::new() });
            }
            proof {
                lemma_mul_bounds(mr_val as int, c as int, RATE_LIMIT as int,
                    crate::money::FACTOR_LIMIT as int);
            }
            let t = div_round(mr_val * c, SCALE);
            if t < -100_000_000_000_000_000_000 || t > 100_000_000_000_000_000_000 {
                return Err(FacilityError::CalculationError { message: String::new() });
            }
            proof {
                lemma_mul_bounds(principal.atoms as int, t as int,
                    crate::money::POW_BASE_LIMIT as int, 100_000_000_000_000_000_000);
            }
            Ok(Money { atoms: div_round(principal.atoms * t, c - SCALE) })
        },
        None => Err(FacilityError::CalculationError { message: String::new() }),
    }
}

/// The balance after `i` equal installments: each month accrues one month
/// of interest and the installment's remainder repays principal, clamped
/// at zero.
pub open spec fn emi_balance(p: int, mr: int, emi: int, i: nat) -> int
    decreases i,
{
    if i == 0 {
        p
    } else {
        let prev = emi_balance(p, mr, emi, (i - 1) as nat);
        let interest = mul_scaled(prev, mr);
        let principal = emi - interest;
        if prev - principal >= 0 {
            prev - principal
        } else {
            0
        }
    }
}

/// Whether the first `n` balances stay within the computable range.
pub open spec fn emi_balances_within(p: int, mr: int, emi: int, n: nat) -> bool
    decreases n,
{
    if n == 0 {
        -MUL_LIMIT <= p <= MUL_LIMIT
    } else {
        emi_balances_within(p, mr, emi, (n - 1) as nat) && -MUL_LIMIT <= emi_balance(p, mr,
            emi, n) <= MUL_LIMIT
    }
}

proof fn lemma_emi_balances_prefix(p: int, mr: int, emi: int, i: nat, n: nat)
    requires
        emi_balances_within(p, mr, emi, n),
        i <= n,
    ensures
        emi_balances_within(p, mr, emi, i),
        -MUL_LIMIT <= emi_balance(p, mr, emi, i) <= MUL_LIMIT,
    decreases n,
{
    if i < n {
        lemma_emi_balances_prefix(p, mr, emi, i, (n - 1) as nat);
    } else {
        if n > 0 {
            lemma_emi_balances_prefix(p, mr, emi, (n - 1) as nat, (n - 1) as nat);
        }
    }
}

/// The interest portion of row `i` (one-based).
pub open spec fn emi_interest_at(p: int, mr: int, emi: int, i: nat) -> int
    recommends
        i >= 1,
{
    mul_scaled(emi_balance(p, mr, emi, (i - 1) as nat), mr)
}

/// The cumulative interest over rows one through `i`.
pub open spec fn emi_cum_interest(p: int, mr: int, emi: int, i: nat) -> int
    decreases i,
{
    if i == 0 {
        0
    } else {
        emi_cum_interest(p, mr, emi, (i - 1) as nat) + emi_interest_at(p, mr, emi, i)
    }
}

/// The cumulative principal over rows one through `i`.
pub open spec fn emi_cum_principal(p: int, mr: int, emi: int, i: nat) -> int
    decreases i,
{
    if i == 0 {
        0
    } else {
        emi_cum_principal(p, mr, emi, (i - 1) as nat) + (emi - emi_interest_at(p, mr, emi, i))
    }
}

/// The unadjusted equal-installment row `i` (one-based) for a schedule
/// starting at `start`.
pub open spec fn emi_row(p: int, mr: int, emi: int, start: int, i: nat) -> ScheduledPayment {
    ScheduledPayment {
        payment_number: i as u32,
        payment_date: add_months_spec(start, i) as i64,
        beginning_balance: Money { atoms: emi_balance(p, mr, emi, (i - 1) as nat) as i128 },
        payment_amount: Money { atoms: emi as i128 },
        principal_portion: Money { atoms: (emi - emi_interest_at(p, mr, emi, i)) as i128 },
        interest_portion: Money { atoms: emi_interest_at(p, mr, emi, i) as i128 },
        ending_balance: Money { atoms: emi_balance(p, mr, emi, i) as i128 },
        cumulative_interest: Money { atoms: emi_cum_interest(p, mr, emi, i) as i128 },
        cumulative_principal: Money { atoms: emi_cum_principal(p, mr, emi, i) as i128 },
    }
}

/// The whole unadjusted equal-installment table.
pub open spec fn emi_rows(p: int, mr: int, emi: int, start: int, n: nat)
    -> Seq<ScheduledPayment> {
    Seq::new(n, |i: int| emi_row(p, mr, emi, start, (i + 1) as nat))
}

/// Whether the whole equal-installment schedule stays computable: the
/// installment exists and every running balance stays in range.
pub open spec fn emi_schedule_within(p: int, a: int, n: int) -> bool {
    let mr = monthly_rate_of(a);
    let emi = emi_spec(p, a, n);
    &&& emi_within(p, a, n)
    &&& -MUL_LIMIT <= emi <= MUL_LIMIT
    &&& emi_balances_within(p, mr, emi, n as nat)
}

/// The final-row absorption: where the last row leaves a residue smaller
/// than one whole unit, the residue is folded into its principal portion
/// and payment so the table ends exactly at zero.
pub open spec fn absorb_residue(rows: Seq<ScheduledPayment>) -> Seq<ScheduledPayment> {
    if rows.len() == 0 {
        rows
    } else {
        let last = rows.last();
        if 0 < last.ending_balance.atoms < SCALE {
            rows.update(rows.len() - 1, ScheduledPayment {
                principal_portion: Money {
                    atoms: (last.principal_portion.atoms + last.ending_balance.atoms) as i128,
                },
                payment_amount: Money {
                    atoms: (last.payment_amount.atoms + last.ending_balance.atoms) as i128,
                },
                ending_balance: Money { atoms: 0 },
                ..last
            })
        } else {
            rows
        }
    }
}

/// Calculator for amortization tables.
pub struct AmortizationCalculator {
    pub method: AmortizationMethod,
}

impl AmortizationCalculator {
    /// A calculator for the given method.
    pub fn new(method: AmortizationMethod) -> (r: AmortizationCalculator)
        ensures
            r.method == method,
    {
        AmortizationCalculator { method }
    }

    /// The equal-installment table: every payment is the equated
    /// installment, split into the month's interest on the running
    /// balance and the principal remainder; the final row absorbs any
    /// sub-unit residue.
    pub fn calculate_equal_installments(&self, principal: Money, annual_rate: Rate,
        term_months: u32, start_date: i64) -> (r: Result<Vec<ScheduledPayment>, FacilityError>)
        requires
            0 <= principal.atoms <= crate::money::POW_BASE_LIMIT,
            0 <= annual_rate.atoms <= RATE_LIMIT,
            term_months <= TERM_LIMIT,
            0 <= start_date,
            start_date + term_months * 31 * (SECS_PER_DAY as int) <= MAX_TIMESTAMP,
        ensures
            r matches Ok(rows) ==> {
                let p = principal.atoms as int;
                let a = annual_rate.atoms as int;
                let mr = monthly_rate_of(a);
                let emi = emi_spec(p, a, term_months as int);
                &&& rows@ == absorb_residue(emi_rows(p, mr, emi, start_date as int,
                    term_months as nat))
                &&& rows@.len() == term_months
            },
            r is Ok <==> emi_schedule_within(principal.atoms as int, annual_rate.atoms as int,
                term_months as int),
    {
        let p = principal.atoms;
        let a = annual_rate.atoms;
        let emi_money = match calculate_emi_amount(principal, annual_rate, term_months) {
            Ok(m) => m,
            Err(e) => {
                return Err(e);
            },
        };
        let emi = emi_money.atoms;
        if emi < -MUL_LIMIT || emi > MUL_LIMIT {
            return Err(FacilityError::CalculationError { message: String::new() });
        }
        let mr_val = div_round(a, 12);
        proof {
            lemma_round_half_div_le(a as int, 12);
        }
        let ghost mr_g = mr_val as int;
        let ghost emi_g = emi as int;
        let mut rows: Vec<ScheduledPayment> = Vec::new();
        let mut balance: i128 = p;
        let mut cum_interest: i128 = 0;
        let mut cum_principal: i128 = 0;
        let mut i: u32 = 0;
        while i < term_months
            invariant
                0 <= i <= term_months <= TERM_LIMIT,
                0 <= start_date,
                start_date + term_months * 31 * (SECS_PER_DAY as int) <= MAX_TIMESTAMP,
                p == principal.atoms,
                0 <= p <= crate::money::POW_BASE_LIMIT,
                a == annual_rate.atoms,
                0 <= a <= RATE_LIMIT,
                emi_g == emi_spec(p as int, a as int, term_months as int),
                emi_within(p as int, a as int, term_months as int),
                mr_g == monthly_rate_of(a as int),
                0 <= mr_val <= RATE_LIMIT,
                mr_val as int == mr_g,
                emi as int == emi_g,
                -MUL_LIMIT <= emi <= MUL_LIMIT,
                balance as int == emi_balance(p as int, mr_g, emi_g, i as nat),
                -MUL_LIMIT <= balance <= MUL_LIMIT,
                emi_balances_within(p as int, mr_g, emi_g, i as nat),
                cum_interest as int == emi_cum_interest(p as int, mr_g, emi_g, i as nat),
                cum_principal as int == emi_cum_principal(p as int, mr_g, emi_g, i as nat),
                -(i as int) * 3_000_000_000_000_000_000_000_000_000 <= cum_interest
                    <= (i as int) * 3_000_000_000_000_000_000_000_000_000,
                -(i as int) * 4_000_000_000_000_000_000_000_000_000 <= cum_principal
                    <= (i as int) * 4_000_000_000_000_000_000_000_000_000,
                rows@ == emi_rows(p as int, mr_g, emi_g, start_date as int, i as nat),
            decreases term_months - i,
        {
            let payment_date = add_months(start_date, i + 1);
            proof {
                lemma_mul_bounds(balance as int, mr_val as int, MUL_LIMIT as int,
                    RATE_LIMIT as int);
            }
            let interest = div_round(balance * mr_val, SCALE);
            proof {
                lemma_round_half_div_bound((balance as int) * (mr_val as int), SCALE as int,
                    (MUL_LIMIT as int) * (RATE_LIMIT as int));
            }
            let principal_portion = emi - interest;
            let ending = if balance - principal_portion >= 0 {
                balance - principal_portion
            } else {
                0
            };
            if ending > MUL_LIMIT {
                proof {
                    if emi_balances_within(p as int, mr_g, emi_g, term_months as nat) {
                        lemma_emi_balances_prefix(p as int, mr_g, emi_g, (i + 1) as nat,
                            term_months as nat);
                    }
                }
                return Err(FacilityError::CalculationError { message: String::new() });
            }
            cum_interest = cum_interest + interest;
            cum_principal = cum_principal + principal_portion;
            let row = ScheduledPayment {
                payment_number: i + 1,
                payment_date,
                beginning_balance: Money { atoms: balance },
                payment_amount: Money { atoms: emi },
                principal_portion: Money { atoms: principal_portion },
                interest_portion: Money { atoms: interest },
                ending_balance: Money { atoms: ending },
                cumulative_interest: Money { atoms: cum_interest },
                cumulative_principal: Money { atoms: cum_principal },
            };
            rows.push(row);
            proof {
                assert(rows@ =~= emi_rows(p as int, mr_g, emi_g, start_date as int,
                    (i + 1) as nat));
            }
            balance = ending;
            i = i + 1;
        }
        // fold a sub-unit residue into the final row
        if rows.len() > 0 {
            let last_ix = rows.len() - 1;
            let last = rows[last_ix];
            if last.ending_balance.atoms > 0 && last.ending_balance.atoms < SCALE {
                let fixed = ScheduledPayment {
                    principal_portion: Money {
                        atoms: last.principal_portion.atoms + last.ending_balance.atoms,
                    },
                    payment_amount: Money {
                        atoms: last.payment_amount.atoms + last.ending_balance.atoms,
                    },
                    ending_balance: Money { atoms: 0 },
                    ..last
                };
                rows.set(last_ix, fixed);
            }
        }
        proof {
            assert(rows@ =~= absorb_residue(emi_rows(p as int, mr_g, emi_g,
                start_date as int, term_months as nat)));
        }
        Ok(rows)
    }
}

/// The fixed principal share of a declining-principal schedule.
pub open spec fn dp_share(p: int, n: int) -> int {
    round_half_div(p, n)
}

/// The balance after `i` declining-principal rows.
pub open spec fn dp_balance(p: int, share: int, i: nat) -> int
    decreases i,
{
    if i == 0 {
        p
    } else {
        let prev = dp_balance(p, share, (i - 1) as nat);
        if prev - share >= 0 {
            prev - share
        } else {
            0
        }
    }
}

/// The cumulative interest over `i` declining-principal rows.
pub open spec fn dp_cum_interest(p: int, share: int, mr: int, i: nat) -> int
    decreases i,
{
    if i == 0 {
        0
    } else {
        dp_cum_interest(p, share, mr, (i - 1) as nat) + mul_scaled(dp_balance(p, share,
            (i - 1) as nat), mr)
    }
}

/// Declining-principal row `i` (one-based).
pub open spec fn dp_row(p: int, share: int, mr: int, start: int, i: nat) -> ScheduledPayment {
    let beginning = dp_balance(p, share, (i - 1) as nat);
    let interest = mul_scaled(beginning, mr);
    ScheduledPayment {
        payment_number: i as u32,
        payment_date: add_months_spec(start, i) as i64,
        beginning_balance: Money { atoms: beginning as i128 },
        payment_amount: Money { atoms: (share + interest) as i128 },
        principal_portion: Money { atoms: share as i128 },
        interest_portion: Money { atoms: interest as i128 },
        ending_balance: Money { atoms: dp_balance(p, share, i) as i128 },
        cumulative_interest: Money { atoms: dp_cum_interest(p, share, mr, i) as i128 },
        cumulative_principal: Money { atoms: (share * i) as i128 },
    }
}

/// The whole declining-principal table.
pub open spec fn dp_rows(p: int, a: int, start: int, n: nat) -> Seq<ScheduledPayment> {
    Seq::new(n, |i: int| dp_row(p, dp_share(p, n as int), monthly_rate_of(a), start,
        (i + 1) as nat))
}

/// Interest-only row `i` (one-based) of an `n`-row table: interest on the
/// full principal every month, the principal itself with the final row.
pub open spec fn io_row(p: int, mr: int, start: int, i: nat, n: nat) -> ScheduledPayment {
    let interest = mul_scaled(p, mr);
    let is_last = i == n;
    ScheduledPayment {
        payment_number: i as u32,
        payment_date: add_months_spec(start, i) as i64,
        beginning_balance: Money { atoms: p as i128 },
        payment_amount: Money {
            atoms: (if is_last {
                interest + p
            } else {
                interest
            }) as i128,
        },
        principal_portion: Money {
            atoms: (if is_last {
                p
            } else {
                0
            }) as i128,
        },
        interest_portion: Money { atoms: interest as i128 },
        ending_balance: Money {
            atoms: (if is_last {
                0
            } else {
                p
            }) as i128,
        },
        cumulative_interest: Money { atoms: (interest * i) as i128 },
        cumulative_principal: Money {
            atoms: (if is_last {
                p
            } else {
                0
            }) as i128,
        },
    }
}

/// The whole interest-only table.
pub open spec fn io_rows(p: int, a: int, start: int, n: nat) -> Seq<ScheduledPayment> {
    Seq::new(n, |i: int| io_row(p, monthly_rate_of(a), start, (i + 1) as nat, n))
}

/// The table a method yields.
pub open spec fn schedule_rows(m: AmortizationMethod, p: int, a: int, n: nat, start: int)
    -> Seq<ScheduledPayment> {
    match m {
        AmortizationMethod::EqualInstallments => absorb_residue(emi_rows(p, monthly_rate_of(a),
            emi_spec(p, a, n as int), start, n)),
        AmortizationMethod::DecliningPrincipal => dp_rows(p, a, start, n),
        AmortizationMethod::InterestOnly => io_rows(p, a, start, n),
    }
}

/// Whether a method's table stays computable for the given inputs.
pub open spec fn schedule_within(m: AmortizationMethod, p: int, a: int, n: int) -> bool {
    match m {
        AmortizationMethod::EqualInstallments => emi_schedule_within(p, a, n),
        AmortizationMethod::DecliningPrincipal => n > 0,
        AmortizationMethod::InterestOnly => true,
    }
}

impl AmortizationCalculator {
    /// The declining-principal table: a fixed principal share per row and
    /// interest on the running balance.
    pub fn calculate_declining_principal(&self, principal: Money, annual_rate: Rate,
        term_months: u32, start_date: i64) -> (r: Result<Vec<ScheduledPayment>, FacilityError>)
        requires
            0 <= principal.atoms <= crate::money::POW_BASE_LIMIT,
            0 <= annual_rate.atoms <= RATE_LIMIT,
            term_months <= TERM_LIMIT,
            0 <= start_date,
            start_date + term_months * 31 * (SECS_PER_DAY as int) <= MAX_TIMESTAMP,
        ensures
            r matches Ok(rows) ==> rows@ == dp_rows(principal.atoms as int,
                annual_rate.atoms as int, start_date as int, term_months as nat)
                && rows@.len() == term_months,
            r is Ok <==> term_months > 0,
    {
        if term_months == 0 {
            return Err(FacilityError::CalculationError { message: String::new() });
        }
        let p = principal.atoms;
        let a = annual_rate.atoms;
        let share = div_round(p, term_months as i128);
        let mr = div_round(a, 12);
        proof {
            lemma_round_half_div_le(p as int, term_months as int);
            lemma_round_half_div_le(a as int, 12);
        }
        let mut rows: Vec<ScheduledPayment> = Vec::new();
        let mut balance: i128 = p;
        let mut cum_interest: i128 = 0;
        let mut i: u32 = 0;
        while i < term_months
            invariant
                0 <= i <= term_months <= TERM_LIMIT,
                term_months > 0,
                0 <= start_date,
                start_date + term_months * 31 * (SECS_PER_DAY as int) <= MAX_TIMESTAMP,
                p == principal.atoms,
                0 <= p <= crate::money::POW_BASE_LIMIT,
                a == annual_rate.atoms,
                0 <= a <= RATE_LIMIT,
                share as int == dp_share(p as int, term_months as int),
                0 <= share <= p,
                mr as int == monthly_rate_of(a as int),
                0 <= mr <= RATE_LIMIT,
                balance as int == dp_balance(p as int, share as int, i as nat),
                0 <= balance <= p,
                cum_interest as int == dp_cum_interest(p as int, share as int, mr as int,
                    i as nat),
                0 <= cum_interest <= (i as int) * 200_000_000_000_000_000_000_000_000,
                rows@ =~= Seq::new(i as nat, |j: int| dp_row(p as int, dp_share(p as int,
                    term_months as int), mr as int, start_date as int, (j + 1) as nat)),
            decreases term_months - i,
        {
            let payment_date = add_months(start_date, i + 1);
            proof {
                lemma_mul_bounds(balance as int, mr as int, MUL_LIMIT as int,
                    RATE_LIMIT as int);
                lemma_round_half_div_bound((balance as int) * (mr as int), SCALE as int,
                    (MUL_LIMIT as int) * (RATE_LIMIT as int));
            }
            let interest = div_round(balance * mr, SCALE);
            let ending = if balance - share >= 0 {
                balance - share
            } else {
                0
            };
            cum_interest = cum_interest + interest;
            proof {
                lemma_mul_bounds(share as int, (i + 1) as int,
                    crate::money::POW_BASE_LIMIT as int, TERM_LIMIT as int);
            }
            let row = ScheduledPayment {
                payment_number: i + 1,
                payment_date,
                beginning_balance: Money { atoms: balance },
                payment_amount: Money { atoms: share + interest },
                principal_portion: Money { atoms: share },
                interest_portion: Money { atoms: interest },
                ending_balance: Money { atoms: ending },
                cumulative_interest: Money { atoms: cum_interest },
                cumulative_principal: Money { atoms: share * ((i + 1) as i128) },
            };
            rows.push(row);
            proof {
                assert(rows@ =~= Seq::new((i + 1) as nat, |j: int| dp_row(p as int,
                    dp_share(p as int, term_months as int), mr as int, start_date as int,
                    (j + 1) as nat)));
            }
            balance = ending;
            i = i + 1;
        }
        proof {
            assert(rows@ =~= dp_rows(p as int, a as int, start_date as int,
                term_months as nat));
        }
        Ok(rows)
    }

    /// The interest-only table: interest on the full principal each month
    /// and a balloon of the whole principal with the final row.
    pub fn calculate_interest_only(&self, principal: Money, annual_rate: Rate,
        term_months: u32, start_date: i64) -> (r: Result<Vec<ScheduledPayment>, FacilityError>)
        requires
            0 <= principal.atoms <= crate::money::POW_BASE_LIMIT,
            0 <= annual_rate.atoms <= RATE_LIMIT,
            term_months <= TERM_LIMIT,
            0 <= start_date,
            start_date + term_months * 31 * (SECS_PER_DAY as int) <= MAX_TIMESTAMP,
        ensures
            r matches Ok(rows) ==> rows@ == io_rows(principal.atoms as int,
                annual_rate.atoms as int, start_date as int, term_months as nat)
                && rows@.len() == term_months,
            r is Ok,
    {
        let p = principal.atoms;
        let a = annual_rate.atoms;
        let mr = div_round(a, 12);
        proof {
            lemma_round_half_div_le(a as int, 12);
            lemma_mul_bounds(p as int, mr as int, MUL_LIMIT as int, RATE_LIMIT as int);
            lemma_round_half_div_bound((p as int) * (mr as int), SCALE as int,
                (MUL_LIMIT as int) * (RATE_LIMIT as int));
        }
        let interest = div_round(p * mr, SCALE);
        let mut rows: Vec<ScheduledPayment> = Vec::new();
        let mut i: u32 = 0;
        while i < term_months
            invariant
                0 <= i <= term_months <= TERM_LIMIT,
                0 <= start_date,
                start_date + term_months * 31 * (SECS_PER_DAY as int) <= MAX_TIMESTAMP,
                p == principal.atoms,
                0 <= p <= crate::money::POW_BASE_LIMIT,
                a == annual_rate.atoms,
                0 <= a <= RATE_LIMIT,
                mr as int == monthly_rate_of(a as int),
                interest as int == mul_scaled(p as int, mr as int),
                0 <= interest <= 10_000_000_000_000_000_000_000_000_001,
                rows@ =~= Seq::new(i as nat, |j: int| io_row(p as int, mr as int,
                    start_date as int, (j + 1) as nat, term_months as nat)),
            decreases term_months - i,
        {
            let payment_date = add_months(start_date, i + 1);
            let is_last = i + 1 == term_months;
            proof {
                lemma_mul_bounds(interest as int, (i + 1) as int,
                    10_000_000_000_000_000_000_000_000_001, TERM_LIMIT as int);
            }
            let row = ScheduledPayment {
                payment_number: i + 1,
                payment_date,
                beginning_balance: Money { atoms: p },
                payment_amount: Money {
                    atoms: if is_last {
                        interest + p
                    } else {
                        interest
                    },
                },
                principal_portion: Money {
                    atoms: if is_last {
                        p
                    } else {
                        0
                    },
                },
                interest_portion: Money { atoms: interest },
                ending_balance: Money {
                    atoms: if is_last {
                        0
                    } else {
                        p
                    },
                },
                cumulative_interest: Money { atoms: interest * ((i + 1) as i128) },
                cumulative_principal: Money {
                    atoms: if is_last {
                        p
                    } else {
                        0
                    },
                },
            };
            rows.push(row);
            proof {
                assert(rows@ =~= Seq::new((i + 1) as nat, |j: int| io_row(p as int, mr as int,
                    start_date as int, (j + 1) as nat, term_months as nat)));
            }
            i = i + 1;
        }
        proof {
            assert(rows@ =~= io_rows(p as int, a as int, start_date as int,
                term_months as nat));
        }
        Ok(rows)
    }

    /// The table of the calculator's method.
    pub fn calculate_schedule(&self, principal: Money, annual_rate: Rate, term_months: u32,
        start_date: i64) -> (r: Result<Vec<ScheduledPayment>, FacilityError>)
        requires
            0 <= principal.atoms <= crate::money::POW_BASE_LIMIT,
            0 <= annual_rate.atoms <= RATE_LIMIT,
            term_months <= TERM_LIMIT,
            0 <= start_date,
            start_date + term_months * 31 * (SECS_PER_DAY as int) <= MAX_TIMESTAMP,
        ensures
            r matches Ok(rows) ==> rows@ == schedule_rows(self.method, principal.atoms as int,
                annual_rate.atoms as int, term_months as nat, start_date as int)
                && rows@.len() == term_months,
            r is Ok <==> schedule_within(self.method, principal.atoms as int,
                annual_rate.atoms as int, term_months as int),
    {
        match self.method {
            AmortizationMethod::EqualInstallments => self.calculate_equal_installments(
                principal, annual_rate, term_months, start_date),
            AmortizationMethod::DecliningPrincipal => self.calculate_declining_principal(
                principal, annual_rate, term_months, start_date),
            AmortizationMethod::InterestOnly => self.calculate_interest_only(principal,
                annual_rate, term_months, start_date),
        }
    }
}

/// The sum of the interest portions of a table.
pub open spec fn sum_interest(rows: Seq<ScheduledPayment>) -> int
    decreases rows.len(),
{
    if rows.len() == 0 {
        0
    } else {
        sum_interest(rows.drop_last()) + rows.last().interest_portion.atoms
    }
}

/// The sum of the payment amounts of a table.
pub open spec fn sum_payment(rows: Seq<ScheduledPayment>) -> int
    decreases rows.len(),
{
    if rows.len() == 0 {
        0
    } else {
        sum_payment(rows.drop_last()) + rows.last().payment_amount.atoms
    }
}

/// The sum of the principal portions of a table.
pub open spec fn sum_principal(rows: Seq<ScheduledPayment>) -> int
    decreases rows.len(),
{
    if rows.len() == 0 {
        0
    } else {
        sum_principal(rows.drop_last()) + rows.last().principal_portion.atoms
    }
}

/// Whether consecutive rows chain: every row repays exactly the
/// difference between its beginning and ending balance, and each row
/// starts where the one before ended.
pub open spec fn rows_chained(rows: Seq<ScheduledPayment>) -> bool {
    &&& forall|i: int| 0 <= i < rows.len() ==> (#[trigger] rows[i]).principal_portion.atoms
        == rows[i].beginning_balance.atoms - rows[i].ending_balance.atoms
    &&& forall|i: int| 0 < i < rows.len() ==> (#[trigger] rows[i]).beginning_balance.atoms
        == rows[i - 1].ending_balance.atoms
}

/// Over a chained table, the principal portions telescope: their sum is
/// exactly the first beginning balance less the last ending balance. In
/// particular a chained table that starts at the original principal and
/// ends at zero repays the principal exactly.
pub proof fn lemma_principal_telescopes(rows: Seq<ScheduledPayment>)
    requires
        rows_chained(rows),
        rows.len() > 0,
    ensures
        sum_principal(rows) == rows.first().beginning_balance.atoms
            - rows.last().ending_balance.atoms,
    decreases rows.len(),
{
    if rows.len() > 1 {
        assert(forall|i: int| 0 <= i < rows.len() - 1 ==> rows.drop_last()[i]
            == #[trigger] rows[i]);
        assert(rows_chained(rows.drop_last()));
        lemma_principal_telescopes(rows.drop_last());
        assert(rows.drop_last().first() == rows.first());
        assert(rows.drop_last().last() == rows[rows.len() - 2]);
        assert(rows.last().principal_portion.atoms == rows[rows.len() - 1
            ].beginning_balance.atoms - rows[rows.len() - 1].ending_balance.atoms);
        assert(rows[rows.len() - 1].beginning_balance.atoms == rows[rows.len() - 2
            ].ending_balance.atoms);
    } else {
        assert(sum_principal(rows.drop_last()) == 0);
        assert(rows.last().principal_portion.atoms == rows[0].beginning_balance.atoms
            - rows[0].ending_balance.atoms);
    }
}

/// For a zero rate the installment is exactly the principal over the
/// term, and every scheduled interest portion is zero.
pub proof fn lemma_zero_rate_schedule(p: int, n: int, start: int)
    requires
        n > 0,
    ensures
        emi_spec(p, 0, n) == round_half_div(p, n),
        forall|i: int| 0 <= i < n ==> (#[trigger] emi_rows(p, 0, emi_spec(p, 0, n), start,
            n as nat)[i]).interest_portion.atoms == 0,
{
    assert(monthly_rate_of(0) == 0);
    assert forall|i: int| 0 <= i < n implies (#[trigger] emi_rows(p, 0, emi_spec(p, 0, n),
        start, n as nat)[i]).interest_portion.atoms == 0 by {
        let row = emi_rows(p, 0, emi_spec(p, 0, n), start, n as nat)[i];
        assert(row.interest_portion.atoms as int == emi_interest_at(p, 0, emi_spec(p, 0, n),
            (i + 1) as nat));
        lemma_mul_scaled_zero(emi_balance(p, 0, emi_spec(p, 0, n), i as nat));
    }
}

proof fn lemma_sum_principal_const(rows: Seq<ScheduledPayment>, v: i128)
    requires
        forall|i: int| 0 <= i < rows.len() ==> (#[trigger] rows[i]).principal_portion.atoms
            == v,
    ensures
        sum_principal(rows) == rows.len() * v,
    decreases rows.len(),
{
    if rows.len() > 0 {
        assert(forall|i: int| 0 <= i < rows.len() - 1 ==> (#[trigger] rows.drop_last()[
            i]).principal_portion.atoms == v);
        lemma_sum_principal_const(rows.drop_last(), v);
        assert((rows.len() - 1) * (v as int) + v == rows.len() * v) by (nonlinear_arith);
    } else {
        assert(rows.len() * v == 0) by (nonlinear_arith)
            requires
                rows.len() == 0,
        ;
    }
}

/// Over a declining-principal table the principal portions sum to the
/// term times the fixed share, which is the principal up to the one
/// rounding the share itself carries.
pub proof fn lemma_dp_principal_total(p: int, a: int, start: int, n: nat)
    requires
        n >= 1,
        -MUL_LIMIT <= dp_share(p, n as int) <= MUL_LIMIT,
    ensures
        sum_principal(dp_rows(p, a, start, n)) == n * dp_share(p, n as int),
{
    let rows = dp_rows(p, a, start, n);
    assert(forall|i: int| 0 <= i < n ==> (#[trigger] rows[i]).principal_portion.atoms
        == dp_share(p, n as int) as i128);
    lemma_sum_principal_const(rows, dp_share(p, n as int) as i128);
}

/// Whether every equal-installment step repays no more than the balance
/// it starts from, so no running balance clamps at zero.
pub open spec fn emi_no_clamp(p: int, mr: int, emi: int, n: nat) -> bool {
    forall|i: int| 0 <= i < n ==> emi_balance(p, mr, emi, i as nat) - (emi
        - #[trigger] emi_interest_at(p, mr, emi, (i + 1) as nat)) >= 0
}

proof fn lemma_sum_principal_zero(rows: Seq<ScheduledPayment>)
    requires
        forall|i: int| 0 <= i < rows.len() ==> (#[trigger] rows[i]).principal_portion.atoms
            == 0,
    ensures
        sum_principal(rows) == 0,
    decreases rows.len(),
{
    if rows.len() > 0 {
        assert(forall|i: int| 0 <= i < rows.len() - 1 ==> (#[trigger] rows.drop_last()[
            i]).principal_portion.atoms == 0);
        lemma_sum_principal_zero(rows.drop_last());
    }
}

/// Over any interest-only table the principal portions sum to the
/// principal exactly: every row but the last repays nothing, and the
/// final row repays the whole principal.
pub proof fn lemma_io_principal_total(p: int, a: int, start: int, n: nat)
    requires
        n >= 1,
        -MUL_LIMIT <= p <= MUL_LIMIT,
    ensures
        sum_principal(io_rows(p, a, start, n)) == p,
{
    let rows = io_rows(p, a, start, n);
    assert(rows.last() == io_row(p, monthly_rate_of(a), start, n, n));
    assert(forall|i: int| 0 <= i < n - 1 ==> (#[trigger] rows.drop_last()[
        i]).principal_portion.atoms == 0);
    lemma_sum_principal_zero(rows.drop_last());
}

/// Over an unclamped equal-installment table the rows chain and the
/// principal portions telescope to the principal less the final balance;
/// where that final residue is under one whole unit, the absorbed table
/// repays the principal exactly.
#[verifier::rlimit(100)]
pub proof fn lemma_emi_principal_total(p: int, mr: int, emi: int, start: int, n: nat)
    requires
        n >= 1,
        -MUL_LIMIT <= emi <= MUL_LIMIT,
        -RATE_LIMIT <= mr <= RATE_LIMIT,
        emi_balances_within(p, mr, emi, n),
        emi_no_clamp(p, mr, emi, n),
    ensures
        rows_chained(emi_rows(p, mr, emi, start, n)),
        sum_principal(emi_rows(p, mr, emi, start, n)) == p - emi_balance(p, mr, emi, n),
        0 <= emi_balance(p, mr, emi, n) < SCALE ==> sum_principal(absorb_residue(emi_rows(
            p, mr, emi, start, n))) == p,
{
    let rows = emi_rows(p, mr, emi, start, n);
    assert forall|i: int| 0 <= i < n implies ({
        let bal_i = #[trigger] emi_balance(p, mr, emi, i as nat);
        let bal_next = emi_balance(p, mr, emi, (i + 1) as nat);
        let pp = emi - emi_interest_at(p, mr, emi, (i + 1) as nat);
        &&& bal_next == bal_i - pp
        &&& -MUL_LIMIT <= bal_i <= MUL_LIMIT
        &&& -MUL_LIMIT <= bal_next <= MUL_LIMIT
        &&& -2_000_000_000_000_000_000_000_000_000 <= pp
            <= 2_000_000_000_000_000_000_000_000_000
    }) by {
        lemma_emi_balances_prefix(p, mr, emi, i as nat, n);
        lemma_emi_balances_prefix(p, mr, emi, (i + 1) as nat, n);
        lemma_mul_bounds(emi_balance(p, mr, emi, i as nat), mr, MUL_LIMIT as int,
            RATE_LIMIT as int);
        lemma_round_half_div_bound(emi_balance(p, mr, emi, i as nat) * mr, SCALE as int,
            (MUL_LIMIT as int) * (RATE_LIMIT as int));
    }
    assert(rows_chained(rows));
    lemma_principal_telescopes(rows);
    assert(rows.first() == emi_row(p, mr, emi, start, 1));
    assert(rows.first().beginning_balance.atoms as int == emi_balance(p, mr, emi, 0));
    assert(rows.last() == emi_row(p, mr, emi, start, n));
    assert(rows.last().ending_balance.atoms as int == emi_balance(p, mr, emi, n));
    if 0 <= emi_balance(p, mr, emi, n) < SCALE {
        let last = rows.last();
        if 0 < last.ending_balance.atoms < SCALE {
            let fixed = absorb_residue(rows);
            assert(fixed.drop_last() =~= rows.drop_last());
            assert(fixed.last().principal_portion.atoms == last.principal_portion.atoms
                + last.ending_balance.atoms);
            assert(sum_principal(fixed) == sum_principal(rows.drop_last())
                + last.principal_portion.atoms + last.ending_balance.atoms);
            assert(sum_principal(rows) == sum_principal(rows.drop_last())
                + last.principal_portion.atoms);
        } else {
            assert(absorb_residue(rows) == rows);
        }
    }
}

/// Anything times a zero rate is zero.
proof fn lemma_mul_scaled_zero(a: int)
    ensures
        mul_scaled(a, 0) == 0,
{
    assert(a * 0 == 0) by (nonlinear_arith);
}

/// A complete amortization table with its totals.
#[derive(Clone, Debug)]
pub struct AmortizationSchedule {
    pub facility_id: FacilityId,
    pub principal: Money,
    pub interest_rate: Rate,
    pub term_months: u32,
    pub start_date: i64,
    pub amortization_method: AmortizationMethod,
    pub payments: Vec<ScheduledPayment>,
    pub total_interest: Money,
    pub total_payment: Money,
}

/// Whether the running interest totals of a table stay within the checked
/// magnitudes: every portion within one bound and every partial sum within
/// another.
pub open spec fn sum_interest_fits(rows: Seq<ScheduledPayment>) -> bool
    decreases rows.len(),
{
    if rows.len() == 0 {
        true
    } else {
        &&& sum_interest_fits(rows.drop_last())
        &&& -1_000_000_000_000_000_000_000_000_000_000
            <= rows.last().interest_portion.atoms
            <= 1_000_000_000_000_000_000_000_000_000_000
        &&& -99_000_000_000_000_000_000_000_000_000_000_000 <= sum_interest(rows.drop_last())
            <= 99_000_000_000_000_000_000_000_000_000_000_000
    }
}

/// Whether the running payment totals of a table stay within the checked
/// magnitudes.
pub open spec fn sum_payment_fits(rows: Seq<ScheduledPayment>) -> bool
    decreases rows.len(),
{
    if rows.len() == 0 {
        true
    } else {
        &&& sum_payment_fits(rows.drop_last())
        &&& -1_000_000_000_000_000_000_000_000_000_000 <= rows.last().payment_amount.atoms
            <= 1_000_000_000_000_000_000_000_000_000_000
        &&& -99_000_000_000_000_000_000_000_000_000_000_000 <= sum_payment(rows.drop_last())
            <= 99_000_000_000_000_000_000_000_000_000_000_000
    }
}

proof fn lemma_sum_interest_fits_prefix(rows: Seq<ScheduledPayment>, i: int)
    requires
        sum_interest_fits(rows),
        0 <= i <= rows.len(),
    ensures
        sum_interest_fits(rows.take(i)),
    decreases rows.len(),
{
    if i < rows.len() {
        assert(rows.drop_last() =~= rows.take(rows.len() - 1));
        lemma_sum_interest_fits_prefix(rows.drop_last(), i);
        assert(rows.drop_last().take(i) =~= rows.take(i));
    } else {
        assert(rows.take(i) =~= rows);
    }
}

proof fn lemma_sum_payment_fits_prefix(rows: Seq<ScheduledPayment>, i: int)
    requires
        sum_payment_fits(rows),
        0 <= i <= rows.len(),
    ensures
        sum_payment_fits(rows.take(i)),
    decreases rows.len(),
{
    if i < rows.len() {
        assert(rows.drop_last() =~= rows.take(rows.len() - 1));
        lemma_sum_payment_fits_prefix(rows.drop_last(), i);
        assert(rows.drop_last().take(i) =~= rows.take(i));
    } else {
        assert(rows.take(i) =~= rows);
    }
}

/// Sum the interest portions of a table.
fn sum_interest_exec(rows: &Vec<ScheduledPayment>) -> (r: Option<i128>)
    ensures
        r matches Some(v) ==> v as int == sum_interest(rows@),
        r is Some <==> sum_interest_fits(rows@),
{
    let mut acc: i128 = 0;
    let mut i: usize = 0;
    while i < rows.len()
        invariant
            0 <= i <= rows@.len(),
            acc as int == sum_interest(rows@.take(i as int)),
            sum_interest_fits(rows@.take(i as int)),
            -100_000_000_000_000_000_000_000_000_000_000_000 <= acc
                <= 100_000_000_000_000_000_000_000_000_000_000_000,
        decreases rows@.len() - i,
    {
        let x = rows[i].interest_portion.atoms;
        if x < -1_000_000_000_000_000_000_000_000_000_000 || x
            > 1_000_000_000_000_000_000_000_000_000_000 || acc
            < -99_000_000_000_000_000_000_000_000_000_000_000 || acc
            > 99_000_000_000_000_000_000_000_000_000_000_000 {
            proof {
                assert(rows@.take(i + 1).drop_last() =~= rows@.take(i as int));
                assert(rows@.take(i + 1).last() == rows@[i as int]);
                assert(!sum_interest_fits(rows@.take(i + 1)));
                if sum_interest_fits(rows@) {
                    lemma_sum_interest_fits_prefix(rows@, i + 1);
                }
            }
            return None;
        }
        proof {
            assert(rows@.take(i + 1).drop_last() =~= rows@.take(i as int));
            assert(rows@.take(i + 1).last() == rows@[i as int]);
        }
        acc = acc + x;
        i = i + 1;
    }
    proof {
        assert(rows@.take(rows@.len() as int) =~= rows@);
    }
    Some(acc)
}

/// Sum the payment amounts of a table.
fn sum_payment_exec(rows: &Vec<ScheduledPayment>) -> (r: Option<i128>)
    ensures
        r matches Some(v) ==> v as int == sum_payment(rows@),
        r is Some <==> sum_payment_fits(rows@),
{
    let mut acc: i128 = 0;
    let mut i: usize = 0;
    while i < rows.len()
        invariant
            0 <= i <= rows@.len(),
            acc as int == sum_payment(rows@.take(i as int)),
            sum_payment_fits(rows@.take(i as int)),
            -100_000_000_000_000_000_000_000_000_000_000_000 <= acc
                <= 100_000_000_000_000_000_000_000_000_000_000_000,
        decreases rows@.len() - i,
    {
        let x = rows[i].payment_amount.atoms;
        if x < -1_000_000_000_000_000_000_000_000_000_000 || x
            > 1_000_000_000_000_000_000_000_000_000_000 || acc
            < -99_000_000_000_000_000_000_000_000_000_000_000 || acc
            > 99_000_000_000_000_000_000_000_000_000_000_000 {
            proof {
                assert(rows@.take(i + 1).drop_last() =~= rows@.take(i as int));
                assert(rows@.take(i + 1).last() == rows@[i as int]);
                assert(!sum_payment_fits(rows@.take(i + 1)));
                if sum_payment_fits(rows@) {
                    lemma_sum_payment_fits_prefix(rows@, i + 1);
                }
            }
            return None;
        }
        proof {
            assert(rows@.take(i + 1).drop_last() =~= rows@.take(i as int));
            assert(rows@.take(i + 1).last() == rows@[i as int]);
        }
        acc = acc + x;
        i = i + 1;
    }
    proof {
        assert(rows@.take(rows@.len() as int) =~= rows@);
    }
    Some(acc)
}

/// Which way a schedule is rebuilt after a prepayment.
#[derive(Clone, Copy, Debug, PartialEq, Eq, Structural)]
pub enum RecalculationStrategy {
    /// Keep the remaining term and lower the installment.
    ReduceEmi,
    /// Keep the installment and shorten the term.
    ReduceTerm,
}

/// The remaining months a rebuild uses: the unchanged remainder of the
/// term, or the term recomputed for the unchanged installment.
pub open spec fn recalc_months(s: AmortizationSchedule, prepayment: int, after: int,
    strategy: RecalculationStrategy) -> int {
    let remaining = s.payments@[after - 1].ending_balance.atoms - prepayment;
    match strategy {
        RecalculationStrategy::ReduceEmi => s.term_months - after,
        RecalculationStrategy::ReduceTerm => crate::payments::overpayment::term_for_emi_spec(
            remaining, s.interest_rate.atoms as int, s.payments@[0].payment_amount.atoms as int),
    }
}

/// Whether a rebuild after a prepayment goes through: the row's ending
/// balance and the rebuilt table's dates, term, every row and both running
/// totals all stay within the computable ranges.
pub open spec fn recalc_accepted(s: AmortizationSchedule, prepayment: int, after: int,
    strategy: RecalculationStrategy) -> bool {
    let ending = s.payments@[after - 1].ending_balance.atoms as int;
    let remaining = ending - prepayment;
    let restart = s.payments@[after].payment_date as int;
    let months = recalc_months(s, prepayment, after, strategy);
    let combined = s.payments@.take(after) + schedule_rows(s.amortization_method, remaining,
        s.interest_rate.atoms as int, months as nat, restart);
    &&& 0 <= ending <= crate::money::POW_BASE_LIMIT
    &&& remaining >= 0
    &&& 0 <= restart <= MAX_TIMESTAMP
    &&& (strategy == RecalculationStrategy::ReduceTerm ==> -MUL_LIMIT
        <= s.payments@[0].payment_amount.atoms <= MUL_LIMIT)
    &&& months <= TERM_LIMIT
    &&& restart <= MAX_TIMESTAMP - months * 31 * (SECS_PER_DAY as int)
    &&& schedule_within(s.amortization_method, remaining, s.interest_rate.atoms as int,
        months)
    &&& sum_interest_fits(combined)
    &&& sum_payment_fits(combined)
}

impl AmortizationSchedule {
    /// Generate the full table for the method and sum its totals.
    pub fn generate(facility_id: FacilityId, principal: Money, interest_rate: Rate,
        term_months: u32, start_date: i64, amortization_method: AmortizationMethod)
        -> (r: Result<AmortizationSchedule, FacilityError>)
        requires
            0 <= principal.atoms <= crate::money::POW_BASE_LIMIT,
            0 <= interest_rate.atoms <= RATE_LIMIT,
            term_months <= TERM_LIMIT,
            0 <= start_date,
            start_date + term_months * 31 * (SECS_PER_DAY as int) <= MAX_TIMESTAMP,
        ensures
            r matches Ok(s) ==> {
                &&& s.payments@ == schedule_rows(amortization_method, principal.atoms as int,
                    interest_rate.atoms as int, term_months as nat, start_date as int)
                &&& s.payments@.len() == term_months
                &&& s.total_interest.atoms as int == sum_interest(s.payments@)
                &&& s.total_payment.atoms as int == sum_payment(s.payments@)
                &&& s.facility_id == facility_id
                &&& s.principal == principal
                &&& s.interest_rate == interest_rate
                &&& s.term_months == term_months
                &&& s.start_date == start_date
                &&& s.amortization_method == amortization_method
            },
            r is Ok <==> ({
                let rows = schedule_rows(amortization_method, principal.atoms as int,
                    interest_rate.atoms as int, term_months as nat, start_date as int);
                &&& schedule_within(amortization_method, principal.atoms as int,
                    interest_rate.atoms as int, term_months as int)
                &&& sum_interest_fits(rows)
                &&& sum_payment_fits(rows)
            }),
    {
        let calculator = AmortizationCalculator::new(amortization_method);
        let payments = match calculator.calculate_schedule(principal, interest_rate,
            term_months, start_date) {
            Ok(rows) => rows,
            Err(e) => {
                return Err(e);
            },
        };
        let total_interest = match sum_interest_exec(&payments) {
            Some(v) => Money { atoms: v },
            None => {
                return Err(FacilityError::CalculationError { message: String::new() });
            },
        };
        let total_payment = match sum_payment_exec(&payments) {
            Some(v) => Money { atoms: v },
            None => {
                return Err(FacilityError::CalculationError { message: String::new() });
            },
        };
        Ok(AmortizationSchedule {
            facility_id,
            principal,
            interest_rate,
            term_months,
            start_date,
            amortization_method,
            payments,
            total_interest,
            total_payment,
        })
    }

    /// The row of the given one-based payment number, if the table has it.
    pub fn get_payment(&self, payment_number: u32) -> (r: Option<&ScheduledPayment>)
        ensures
            (r is Some) <==> 1 <= payment_number <= self.payments@.len(),
            r matches Some(row) ==> *row == self.payments@[payment_number - 1],
    {
        if payment_number >= 1 && (payment_number as usize) <= self.payments.len() {
            Some(&self.payments[(payment_number - 1) as usize])
        } else {
            None
        }
    }

    /// The balance left after the given payment; the full principal where
    /// the table has no such row.
    pub fn balance_after_payment(&self, payment_number: u32) -> (r: Money)
        ensures
            1 <= payment_number <= self.payments@.len() ==> r == self.payments@[
                payment_number - 1].ending_balance,
            !(1 <= payment_number <= self.payments@.len()) ==> r == self.principal,
    {
        match self.get_payment(payment_number) {
            Some(row) => row.ending_balance,
            None => self.principal,
        }
    }

    /// Rebuild the table after a prepayment made after the given row:
    /// either a lower installment over the unchanged remaining term, or
    /// the unchanged installment over a recomputed shorter term. A rebuild
    /// that fails leaves the schedule exactly as it was.
    pub fn recalculate_after_prepayment(&mut self, prepayment_amount: Money,
        after_payment_number: u32, strategy: RecalculationStrategy)
        -> (r: Result<(), FacilityError>)
        requires
            1 <= after_payment_number < old(self).payments@.len(),
            after_payment_number < old(self).term_months,
            old(self).payments@.len() == old(self).term_months <= TERM_LIMIT,
            0 <= prepayment_amount.atoms <= MUL_LIMIT,
            0 <= old(self).interest_rate.atoms <= RATE_LIMIT,
        ensures
            r is Ok <==> recalc_accepted(*old(self), prepayment_amount.atoms as int,
                after_payment_number as int, strategy),
            r is Err ==> *final(self) == *old(self),
            r matches Ok(()) ==> {
                let prefix = old(self).payments@.take(after_payment_number as int);
                let remaining = old(self).payments@[after_payment_number - 1
                    ].ending_balance.atoms - prepayment_amount.atoms;
                let restart = old(self).payments@[after_payment_number as int].payment_date;
                &&& final(self).payments@.take(after_payment_number as int) == prefix
                &&& (strategy == RecalculationStrategy::ReduceEmi ==> {
                    let months = old(self).term_months - after_payment_number;
                    &&& final(self).payments@.skip(after_payment_number as int)
                        == schedule_rows(old(self).amortization_method, remaining as int,
                        old(self).interest_rate.atoms as int, months as nat, restart as int)
                    &&& final(self).term_months == old(self).term_months
                })
                &&& (strategy == RecalculationStrategy::ReduceTerm ==> {
                    let months = crate::payments::overpayment::term_for_emi_spec(
                        remaining as int, old(self).interest_rate.atoms as int,
                        old(self).payments@[0].payment_amount.atoms as int);
                    &&& final(self).payments@.skip(after_payment_number as int)
                        == schedule_rows(old(self).amortization_method, remaining as int,
                        old(self).interest_rate.atoms as int, months as nat, restart as int)
                    &&& final(self).term_months as int == after_payment_number + months
                })
                &&& final(self).total_interest.atoms as int == sum_interest(
                    final(self).payments@)
                &&& final(self).total_payment.atoms as int == sum_payment(
                    final(self).payments@)
            },
    {
        let ix = (after_payment_number - 1) as usize;
        let ending = self.payments[ix].ending_balance;
        if ending.atoms < 0 || ending.atoms > crate::money::POW_BASE_LIMIT {
            return Err(FacilityError::CalculationError { message: String::new() });
        }
        let lowered = ending.sub(prepayment_amount);
        if lowered.atoms < 0 {
            return Err(FacilityError::CalculationError { message: String::new() });
        }
        let remaining_balance = lowered;
        let restart = self.payments[after_payment_number as usize].payment_date;
        if restart < 0 || restart > MAX_TIMESTAMP {
            return Err(FacilityError::InvalidDate { message: String::new() });
        }
        let new_months: u32 = match strategy {
            RecalculationStrategy::ReduceEmi => self.term_months - after_payment_number,
            RecalculationStrategy::ReduceTerm => {
                let current_emi = self.payments[0].payment_amount;
                if current_emi.atoms < -MUL_LIMIT || current_emi.atoms > MUL_LIMIT {
                    return Err(FacilityError::CalculationError { message: String::new() });
                }
                crate::payments::overpayment::calculate_term_for_emi(remaining_balance,
                    self.interest_rate, current_emi)
            },
        };
        if new_months > TERM_LIMIT {
            return Err(FacilityError::CalculationError { message: String::new() });
        }
        if restart > MAX_TIMESTAMP - (new_months as i64) * 31 * SECS_PER_DAY {
            return Err(FacilityError::InvalidDate { message: String::new() });
        }
        let calculator = AmortizationCalculator::new(self.amortization_method);
        let new_rows = match calculator.calculate_schedule(remaining_balance,
            self.interest_rate, new_months, restart) {
            Ok(rows) => rows,
            Err(e) => {
                return Err(e);
            },
        };
        // assemble the rebuilt table aside so a failed total leaves the
        // schedule untouched
        let mut combined: Vec<ScheduledPayment> = Vec::new();
        let mut j: usize = 0;
        while j < after_payment_number as usize
            invariant
                *self == *old(self),
                1 <= after_payment_number < old(self).payments@.len(),
                0 <= j <= after_payment_number as int,
                combined@ == self.payments@.take(j as int),
            decreases after_payment_number as int - j,
        {
            let row = self.payments[j];
            combined.push(row);
            proof {
                assert(combined@ =~= self.payments@.take(j + 1));
            }
            j = j + 1;
        }
        let mut k: usize = 0;
        while k < new_rows.len()
            invariant
                *self == *old(self),
                1 <= after_payment_number < old(self).payments@.len(),
                0 <= k <= new_rows@.len(),
                combined@ == self.payments@.take(after_payment_number as int)
                    + new_rows@.take(k as int),
            decreases new_rows@.len() - k,
        {
            let row = new_rows[k];
            combined.push(row);
            proof {
                assert(combined@ =~= self.payments@.take(after_payment_number as int)
                    + new_rows@.take(k + 1));
            }
            k = k + 1;
        }
        proof {
            assert(new_rows@.take(new_rows@.len() as int) =~= new_rows@);
        }
        let total_interest = match sum_interest_exec(&combined) {
            Some(v) => Money { atoms: v },
            None => {
                return Err(FacilityError::CalculationError { message: String::new() });
            },
        };
        let total_payment = match sum_payment_exec(&combined) {
            Some(v) => Money { atoms: v },
            None => {
                return Err(FacilityError::CalculationError { message: String::new() });
            },
        };
        self.payments = combined;
        match strategy {
            RecalculationStrategy::ReduceEmi => {},
            RecalculationStrategy::ReduceTerm => {
                self.term_months = after_payment_number + new_months;
            },
        }
        self.total_interest = total_interest;
        self.total_payment = total_payment;
        proof {
            assert(self.payments@.take(after_payment_number as int) =~= old(
                self).payments@.take(after_payment_number as int));
            assert(self.payments@.skip(after_payment_number as int) =~= new_rows@);
        }
        Ok(())
    }
}

} // verus!
