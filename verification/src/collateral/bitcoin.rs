//! Volatile-asset collateral: a price feed, a mock feed for tests, and
//! flash-crash-protected liquidation checks.

use vstd::prelude::*;
use crate::clock::provider_now;
use crate::errors::FacilityError;
use crate::money::{
    div_round, lemma_mul_bounds, lemma_round_half_div_bound, mul_scaled, round_half_div,
    Money, Rate, MUL_LIMIT, RATE_LIMIT, SCALE,
};
use crate::collateral::ltv::ltv_of;

verus! {

/// A source of collateral prices; implementations may be market feeds or
/// fixtures. Nothing is promised of the values a feed reports: every
/// decision over them is made by the checks below, which hold for any
/// reported price.
pub trait PriceFeed {
    /// The current spot price of one collateral unit.
    fn get_spot_price(&self) -> Money;

    /// The time-weighted average price over the trailing window.
    fn get_twap(&self, window_secs: i64) -> Money;

    /// The thirty-day volatility as a ratio.
    fn get_30d_volatility(&self) -> Rate;

    /// The trailing twenty-four-hour low and high.
    fn get_24h_range(&self) -> (Money, Money);
}

/// The sum of the prices at or after the cutoff among the first `i`
/// history entries.
pub open spec fn relevant_sum(h: Seq<(i64, Money)>, cutoff: int, i: int) -> int
    decreases i,
{
    if i <= 0 {
        0
    } else {
        relevant_sum(h, cutoff, i - 1) + if h[i - 1].0 >= cutoff {
            h[i - 1].1.atoms as int
        } else {
            0
        }
    }
}

/// How many of the first `i` history entries are at or after the cutoff.
pub open spec fn relevant_count(h: Seq<(i64, Money)>, cutoff: int, i: int) -> int
    decreases i,
{
    if i <= 0 {
        0
    } else {
        relevant_count(h, cutoff, i - 1) + if h[i - 1].0 >= cutoff {
            1int
        } else {
            0
        }
    }
}

/// The smallest relevant price among the first `i` entries, or `none`.
pub open spec fn relevant_min(h: Seq<(i64, Money)>, cutoff: int, i: int, none: int) -> int
    decreases i,
{
    if i <= 0 {
        none
    } else {
        let rest = relevant_min(h, cutoff, i - 1, none);
        if h[i - 1].0 >= cutoff {
            if relevant_count(h, cutoff, i - 1) == 0 || h[i - 1].1.atoms < rest {
                h[i - 1].1.atoms as int
            } else {
                rest
            }
        } else {
            rest
        }
    }
}

/// The largest relevant price among the first `i` entries, or `none`.
pub open spec fn relevant_max(h: Seq<(i64, Money)>, cutoff: int, i: int, none: int) -> int
    decreases i,
{
    if i <= 0 {
        none
    } else {
        let rest = relevant_max(h, cutoff, i - 1, none);
        if h[i - 1].0 >= cutoff {
            if relevant_count(h, cutoff, i - 1) == 0 || h[i - 1].1.atoms > rest {
                h[i - 1].1.atoms as int
            } else {
                rest
            }
        } else {
            rest
        }
    }
}

/// Whether every stored price is within the computable money range and
/// carries a non-negative timestamp, and the history is short enough to
/// sum exactly.
pub open spec fn history_wf(h: Seq<(i64, Money)>) -> bool {
    &&& forall|i: int| 0 <= i < h.len() ==> -MUL_LIMIT <= (#[trigger] h[i]).1.atoms
        <= MUL_LIMIT && 0 <= h[i].0
    &&& h.len() <= 1000
}

/// A price feed over a held spot price and a bounded price history; for
/// tests and reproducible runs.
pub struct MockPriceFeed {
    pub spot_price: Money,
    pub volatility: Rate,
    pub price_history: Vec<(i64, Money)>,
}

impl MockPriceFeed {
    /// A feed holding the given spot price, five percent volatility and
    /// no history.
    pub fn new(spot_price: Money) -> (r: MockPriceFeed)
        ensures
            r.spot_price == spot_price,
            r.volatility.atoms == 5_000_000,
            r.price_history@ == Seq::<(i64, Money)>::empty(),
    {
        MockPriceFeed {
            spot_price,
            volatility: Rate { atoms: 5_000_000 },
            price_history: Vec::new(),
        }
    }

    /// Set the spot price and append it to the history, keeping only the
    /// last hundred entries.
    pub fn set_price(&mut self, price: Money, timestamp: i64)
        ensures
            final(self).spot_price == price,
            final(self).volatility == old(self).volatility,
            old(self).price_history@.len() < 100 ==> final(self).price_history@
                == old(self).price_history@.push((timestamp, price)),
            old(self).price_history@.len() >= 100 ==> final(self).price_history@
                == old(self).price_history@.push((timestamp, price)).skip(1),
    {
        self.spot_price = price;
        self.price_history.push((timestamp, price));
        if self.price_history.len() > 100 {
            self.price_history.remove(0);
            proof {
                assert(final(self).price_history@ =~= old(self).price_history@.push(
                    (timestamp, price)).skip(1));
            }
        }
    }

    /// Set the reported volatility.
    pub fn set_volatility(&mut self, volatility: Rate)
        ensures
            final(self).volatility == volatility,
            final(self).spot_price == old(self).spot_price,
            final(self).price_history@ == old(self).price_history@,
    {
        self.volatility = volatility;
    }

    /// The average of the prices recorded within `window_secs` of the
    /// latest entry; the spot price where the history is empty or holds
    /// nothing that recent.
    pub fn twap(&self, window_secs: i64) -> (r: Money)
        requires
            history_wf(self.price_history@),
            0 <= window_secs,
        ensures
            self.price_history@.len() == 0 ==> r == self.spot_price,
            self.price_history@.len() > 0 ==> {
                let cutoff = self.price_history@.last().0 - window_secs;
                let n = self.price_history@.len() as int;
                let cnt = relevant_count(self.price_history@, cutoff, n);
                &&& cnt == 0 ==> r == self.spot_price
                &&& cnt > 0 ==> r.atoms as int == round_half_div(relevant_sum(
                    self.price_history@, cutoff, n), cnt)
            },
    {
        let len = self.price_history.len();
        if len == 0 {
            return self.spot_price;
        }
        let last = self.price_history[len - 1].0;
        let ghost h = self.price_history@;
        let cutoff = last - window_secs;
        let mut sum: i128 = 0;
        let mut count: i128 = 0;
        let mut i: usize = 0;
        while i < len
            invariant
                0 <= i <= len,
                len == h.len(),
                h == self.price_history@,
                history_wf(h),
                sum as int == relevant_sum(h, cutoff as int, i as int),
                count as int == relevant_count(h, cutoff as int, i as int),
                0 <= count <= i,
                i <= 1000,
                -(i as int) * (MUL_LIMIT as int) <= sum <= (i as int) * (MUL_LIMIT as int),
            decreases len - i,
        {
            let entry = self.price_history[i];
            if entry.0 >= cutoff {
                sum = sum + entry.1.atoms;
                count = count + 1;
            }
            i = i + 1;
        }
        if count == 0 {
            return self.spot_price;
        }
        Money { atoms: div_round(sum, count) }
    }

    /// The low and high among the prices recorded in the trailing
    /// twenty-four hours; the spot price twice where nothing is that
    /// recent.
    pub fn range_24h(&self) -> (r: (Money, Money))
        requires
            history_wf(self.price_history@),
        ensures
            self.price_history@.len() == 0 ==> r.0 == self.spot_price
                && r.1 == self.spot_price,
            self.price_history@.len() > 0 ==> {
                let cutoff = self.price_history@.last().0 - 86_400;
                let n = self.price_history@.len() as int;
                let cnt = relevant_count(self.price_history@, cutoff, n);
                &&& cnt == 0 ==> r.0 == self.spot_price && r.1 == self.spot_price
                &&& cnt > 0 ==> r.0.atoms as int == relevant_min(self.price_history@, cutoff,
                    n, self.spot_price.atoms as int) && r.1.atoms as int == relevant_max(
                    self.price_history@, cutoff, n, self.spot_price.atoms as int)
            },
    {
        let len = self.price_history.len();
        if len == 0 {
            return (self.spot_price, self.spot_price);
        }
        let last = self.price_history[len - 1].0;
        let ghost h = self.price_history@;
        let cutoff = last - 86_400;
        let mut lo: i128 = self.spot_price.atoms;
        let mut hi: i128 = self.spot_price.atoms;
        let mut count: i128 = 0;
        let mut i: usize = 0;
        while i < len
            invariant
                0 <= i <= len,
                len == h.len(),
                h == self.price_history@,
                history_wf(h),
                count as int == relevant_count(h, cutoff as int, i as int),
                0 <= count <= i <= 1000,
                lo as int == relevant_min(h, cutoff as int, i as int,
                    self.spot_price.atoms as int),
                hi as int == relevant_max(h, cutoff as int, i as int,
                    self.spot_price.atoms as int),
            decreases len - i,
        {
            let entry = self.price_history[i];
            if entry.0 >= cutoff {
                if count == 0 || entry.1.atoms < lo {
                    lo = entry.1.atoms;
                }
                if count == 0 || entry.1.atoms > hi {
                    hi = entry.1.atoms;
                }
                count = count + 1;
            }
            i = i + 1;
        }
        if count == 0 {
            return (self.spot_price, self.spot_price);
        }
        (Money { atoms: lo }, Money { atoms: hi })
    }
}

impl PriceFeed for MockPriceFeed {
    fn get_spot_price(&self) -> Money {
        self.spot_price
    }

    fn get_twap(&self, window_secs: i64) -> Money {
        if window_secs < 0 || !history_check(&self.price_history) {
            return self.spot_price;
        }
        self.twap(window_secs)
    }

    fn get_30d_volatility(&self) -> Rate {
        self.volatility
    }

    fn get_24h_range(&self) -> (Money, Money) {
        if !history_check(&self.price_history) {
            return (self.spot_price, self.spot_price);
        }
        self.range_24h()
    }
}

/// Whether a spot-and-average pair breaches the liquidation threshold:
/// with protection on, both the spot-based and the average-based ratio
/// must breach; with protection off, the spot alone decides. A value that
/// is not positive counts as a breach.
pub open spec fn breach_decision(cvl: int, threshold: int, spot_value: int, twap_value: int,
    protection: bool) -> bool {
    let spot_breach = spot_value <= 0 || ltv_of(cvl, spot_value) > threshold;
    let twap_breach = twap_value <= 0 || ltv_of(cvl, twap_value) > threshold;
    if protection {
        spot_breach && twap_breach
    } else {
        spot_breach
    }
}

/// A valuation saturated into the computable money range: a unit price
/// beyond the supported range values a positive holding at the range's
/// edge rather than at nothing, so an extreme price never reads as a
/// worthless holding.
pub open spec fn saturated_value(amount: int, price: int) -> int {
    if price > RATE_LIMIT * 1_000 {
        if amount > 0 {
            MUL_LIMIT as int
        } else if amount == 0 {
            0
        } else {
            -MUL_LIMIT
        }
    } else if price < -RATE_LIMIT * 1_000 {
        if amount > 0 {
            -MUL_LIMIT
        } else if amount == 0 {
            0
        } else {
            MUL_LIMIT as int
        }
    } else {
        let v = mul_scaled(amount, price);
        if v < -MUL_LIMIT {
            -MUL_LIMIT
        } else if v > MUL_LIMIT {
            MUL_LIMIT as int
        } else {
            v
        }
    }
}

/// The relative price change from the day's low to the spot, at eight
/// digits; zero where the low is not positive.
pub open spec fn price_change_ratio_spec(spot: int, low: int) -> int {
    if low > 0 {
        round_half_div((spot - low) * (SCALE as int), low)
    } else {
        0
    }
}

/// The relative price change from the day's low to the spot.
pub fn price_change_ratio(spot: Money, low: Money) -> (r: Rate)
    requires
        -MUL_LIMIT <= spot.atoms <= MUL_LIMIT,
        -MUL_LIMIT <= low.atoms <= MUL_LIMIT,
    ensures
        r.atoms as int == price_change_ratio_spec(spot.atoms as int, low.atoms as int),
{
    if low.atoms <= 0 {
        return Rate::zero();
    }
    proof {
        lemma_mul_bounds((spot.atoms - low.atoms) as int, SCALE as int,
            2 * (MUL_LIMIT as int), SCALE as int);
    }
    Rate { atoms: div_round((spot.atoms - low.atoms) * SCALE, low.atoms) }
}

/// The flash-crash-protected liquidation decision over given valuations.
/// This is the whole rule: for any prices a feed reports, liquidation
/// triggers exactly when the decision here says so.
pub fn should_liquidate_given(cvl: Money, liquidation_threshold: Rate, spot_value: Money,
    twap_value: Money, protection: bool) -> (r: bool)
    requires
        -MUL_LIMIT <= cvl.atoms <= MUL_LIMIT,
        -MUL_LIMIT <= spot_value.atoms <= MUL_LIMIT,
        -MUL_LIMIT <= twap_value.atoms <= MUL_LIMIT,
    ensures
        r == breach_decision(cvl.atoms as int, liquidation_threshold.atoms as int,
            spot_value.atoms as int, twap_value.atoms as int, protection),
{
    proof {
        lemma_mul_bounds(cvl.atoms as int, SCALE as int, MUL_LIMIT as int, SCALE as int);
    }
    let spot_breach = if spot_value.atoms <= 0 {
        true
    } else {
        div_round(cvl.atoms * SCALE, spot_value.atoms) > liquidation_threshold.atoms
    };
    if !protection {
        return spot_breach;
    }
    let twap_breach = if twap_value.atoms <= 0 {
        true
    } else {
        div_round(cvl.atoms * SCALE, twap_value.atoms) > liquidation_threshold.atoms
    };
    spot_breach && twap_breach
}

/// Collateral held in a volatile asset, valued through a price feed.
pub struct BitcoinCollateral<F: PriceFeed> {
    pub btc_amount: Money,
    pub price_feed: F,
    pub volatility_buffer: Rate,
    pub last_valuation: i64,
    pub flash_crash_protection: bool,
    pub twap_window_secs: i64,
}

impl<F: PriceFeed> BitcoinCollateral<F> {
    /// Collateral of the given quantity valued through the feed, with a
    /// ten percent volatility buffer, protection on, and a fifteen-minute
    /// average window.
    pub fn new(btc_amount: Money, price_feed: F) -> (r: BitcoinCollateral<F>)
        ensures
            r.btc_amount == btc_amount,
            r.volatility_buffer.atoms == 10_000_000,
            r.flash_crash_protection,
            r.twap_window_secs == 900,
    {
        BitcoinCollateral {
            btc_amount,
            price_feed,
            volatility_buffer: Rate { atoms: 10_000_000 },
            last_valuation: 0,
            flash_crash_protection: true,
            twap_window_secs: 900,
        }
    }

    /// Change the volatility buffer.
    pub fn set_volatility_buffer(&mut self, buffer: Rate)
        ensures
            final(self).volatility_buffer == buffer,
            final(self).btc_amount == old(self).btc_amount,
            final(self).flash_crash_protection == old(self).flash_crash_protection,
            final(self).twap_window_secs == old(self).twap_window_secs,
    {
        self.volatility_buffer = buffer;
    }

    /// Switch flash-crash protection on or off.
    pub fn set_flash_crash_protection(&mut self, enabled: bool)
        ensures
            final(self).flash_crash_protection == enabled,
            final(self).btc_amount == old(self).btc_amount,
            final(self).volatility_buffer == old(self).volatility_buffer,
            final(self).twap_window_secs == old(self).twap_window_secs,
    {
        self.flash_crash_protection = enabled;
    }

    /// Change the averaging window.
    pub fn set_twap_window(&mut self, window_secs: i64)
        ensures
            final(self).twap_window_secs == window_secs,
            final(self).btc_amount == old(self).btc_amount,
            final(self).volatility_buffer == old(self).volatility_buffer,
            final(self).flash_crash_protection == old(self).flash_crash_protection,
    {
        self.twap_window_secs = window_secs;
    }

    /// The held quantity.
    pub fn btc_amount(&self) -> (r: Money)
        ensures
            r == self.btc_amount,
    {
        self.btc_amount
    }

    /// Add to the held quantity.
    pub fn add_collateral(&mut self, btc: Money)
        requires
            -crate::money::AMOUNT_LIMIT <= old(self).btc_amount.atoms
                <= crate::money::AMOUNT_LIMIT,
            -crate::money::AMOUNT_LIMIT <= btc.atoms <= crate::money::AMOUNT_LIMIT,
        ensures
            final(self).btc_amount.atoms == old(self).btc_amount.atoms + btc.atoms,
            final(self).volatility_buffer == old(self).volatility_buffer,
            final(self).flash_crash_protection == old(self).flash_crash_protection,
            final(self).twap_window_secs == old(self).twap_window_secs,
    {
        self.btc_amount = self.btc_amount.add(btc);
    }

    /// Remove part of the held quantity; fails exactly where more is
    /// asked than held.
    pub fn remove_collateral(&mut self, btc: Money) -> (r: Result<(), FacilityError>)
        requires
            -crate::money::AMOUNT_LIMIT <= old(self).btc_amount.atoms
                <= crate::money::AMOUNT_LIMIT,
            -crate::money::AMOUNT_LIMIT <= btc.atoms <= crate::money::AMOUNT_LIMIT,
        ensures
            r is Err <==> btc.atoms > old(self).btc_amount.atoms,
            r is Err ==> final(self).btc_amount == old(self).btc_amount,
            r is Ok ==> final(self).btc_amount.atoms == old(self).btc_amount.atoms
                - btc.atoms,
            final(self).volatility_buffer == old(self).volatility_buffer,
            final(self).flash_crash_protection == old(self).flash_crash_protection,
            final(self).twap_window_secs == old(self).twap_window_secs,
    {
        if btc.atoms > self.btc_amount.atoms {
            return Err(FacilityError::InsufficientCollateral {
                available: self.btc_amount,
                required: btc,
            });
        }
        self.btc_amount = self.btc_amount.sub(btc);
        Ok(())
    }

    /// The quantity valued at a given unit price.
    pub fn value_at_price(&self, unit_price: Money) -> (r: Money)
        requires
            -MUL_LIMIT <= self.btc_amount.atoms <= MUL_LIMIT,
            -RATE_LIMIT * 1_000 <= unit_price.atoms <= RATE_LIMIT * 1_000,
        ensures
            r.atoms as int == mul_scaled(self.btc_amount.atoms as int,
                unit_price.atoms as int),
    {
        proof {
            lemma_mul_bounds(self.btc_amount.atoms as int, unit_price.atoms as int,
                MUL_LIMIT as int, (RATE_LIMIT as int) * 1_000);
        }
        Money { atoms: div_round(self.btc_amount.atoms * unit_price.atoms, SCALE) }
    }

    /// The quantity valued at the feed's spot price; zero where either
    /// side leaves the computable range.
    pub fn calculate_value(&self) -> Money {
        let spot = self.price_feed.get_spot_price();
        if self.btc_amount.atoms < -MUL_LIMIT || self.btc_amount.atoms > MUL_LIMIT
            || spot.atoms < -RATE_LIMIT * 1_000 || spot.atoms > RATE_LIMIT * 1_000 {
            return Money::zero();
        }
        self.value_at_price(spot)
    }

    /// The value haircut for volatility: the buffer plus half the
    /// reported volatility, capped at fifty percent.
    pub fn calculate_risk_adjusted_value(&self) -> (r: Money)
        requires
            -MUL_LIMIT <= self.btc_amount.atoms <= MUL_LIMIT,
            0 <= self.volatility_buffer.atoms <= RATE_LIMIT,
    {
        let spot = self.price_feed.get_spot_price();
        let volatility = self.price_feed.get_30d_volatility();
        if spot.atoms < -RATE_LIMIT * 1_000 || spot.atoms > RATE_LIMIT * 1_000
            || volatility.atoms < 0 || volatility.atoms > RATE_LIMIT {
            return Money::zero();
        }
        let half_vol = div_round(volatility.atoms, 2);
        let haircut_raw = self.volatility_buffer.atoms + half_vol;
        let haircut = if haircut_raw <= 50_000_000 {
            haircut_raw
        } else {
            50_000_000
        };
        let value = self.value_at_price(spot);
        proof {
            lemma_mul_bounds(self.btc_amount.atoms as int, spot.atoms as int,
                MUL_LIMIT as int, (RATE_LIMIT as int) * 1_000);
            lemma_round_half_div_bound(self.btc_amount.atoms * spot.atoms, SCALE as int,
                (MUL_LIMIT as int) * ((RATE_LIMIT as int) * 1_000));
            lemma_mul_bounds(value.atoms as int, (SCALE - haircut) as int,
                200_000_000_000_000_000_000_000_000_000, SCALE as int);
        }
        Money { atoms: div_round(value.atoms * (SCALE - haircut), SCALE) }
    }

    /// The holding valued at the given unit price, saturated into the
    /// computable range: an out-of-range price values a positive holding
    /// at the range's edge on the matching side.
    fn saturating_value(&self, price: Money) -> (r: Money)
        requires
            -MUL_LIMIT <= self.btc_amount.atoms <= MUL_LIMIT,
        ensures
            r.atoms as int == saturated_value(self.btc_amount.atoms as int,
                price.atoms as int),
            -MUL_LIMIT <= r.atoms <= MUL_LIMIT,
    {
        if price.atoms > RATE_LIMIT * 1_000 {
            if self.btc_amount.atoms > 0 {
                Money { atoms: MUL_LIMIT }
            } else if self.btc_amount.atoms == 0 {
                Money::zero()
            } else {
                Money { atoms: -MUL_LIMIT }
            }
        } else if price.atoms < -RATE_LIMIT * 1_000 {
            if self.btc_amount.atoms > 0 {
                Money { atoms: -MUL_LIMIT }
            } else if self.btc_amount.atoms == 0 {
                Money::zero()
            } else {
                Money { atoms: MUL_LIMIT }
            }
        } else {
            clamp_value(self.value_at_price(price))
        }
    }

    /// The protected liquidation decision at the provider's instant: the
    /// feed's spot and average valuations both must breach when
    /// protection is on; the spot alone decides otherwise. Each valuation
    /// is saturated into the computable range, so an extreme price never
    /// reads a positive holding as worthless.
    pub fn should_liquidate(&mut self, cvl: Money, liquidation_threshold: Rate,
        time_provider: &hourglass_rs::SafeTimeProvider) -> (r: bool)
        requires
            -MUL_LIMIT <= cvl.atoms <= MUL_LIMIT,
            -MUL_LIMIT <= old(self).btc_amount.atoms <= MUL_LIMIT,
        ensures
            final(self).btc_amount == old(self).btc_amount,
            final(self).flash_crash_protection == old(self).flash_crash_protection,
    {
        self.last_valuation = provider_now(time_provider);
        let spot = self.price_feed.get_spot_price();
        let spot_value = self.saturating_value(spot);
        if !self.flash_crash_protection {
            return should_liquidate_given(cvl, liquidation_threshold, spot_value,
                spot_value, false);
        }
        let twap = self.price_feed.get_twap(self.twap_window_secs);
        let twap_value = self.saturating_value(twap);
        should_liquidate_given(cvl, liquidation_threshold, spot_value, twap_value, true)
    }

    /// The quantity to sell so the rest supports the debt at the target
    /// ratio: the excess value over `cvl / target`, in units at the spot
    /// price, clamped to the held amount.
    pub fn calculate_liquidation_amount(&self, cvl: Money, target_ltv: Rate)
        -> (r: Result<Money, FacilityError>)
        requires
            0 <= cvl.atoms <= MUL_LIMIT,
            -MUL_LIMIT <= self.btc_amount.atoms <= MUL_LIMIT,
        ensures
            r matches Ok(q) ==> q.atoms <= self.btc_amount.atoms,
    {
        if target_ltv.atoms <= 0 || target_ltv.atoms > RATE_LIMIT {
            return Err(FacilityError::CalculationError { message: String::new() });
        }
        let spot = self.price_feed.get_spot_price();
        if spot.atoms <= 0 || spot.atoms > RATE_LIMIT * 1_000 {
            return Err(FacilityError::CalculationError { message: String::new() });
        }
        if self.btc_amount.atoms < -MUL_LIMIT || self.btc_amount.atoms > MUL_LIMIT {
            return Err(FacilityError::CalculationError { message: String::new() });
        }
        proof {
            lemma_mul_bounds(cvl.atoms as int, SCALE as int, MUL_LIMIT as int, SCALE as int);
            lemma_round_half_div_bound(cvl.atoms * SCALE, target_ltv.atoms as int,
                (MUL_LIMIT as int) * (SCALE as int));
        }
        let required_value = div_round(cvl.atoms * SCALE, target_ltv.atoms);
        let current_value = self.value_at_price(spot);
        if current_value.atoms <= required_value {
            return Ok(self.btc_amount);
        }
        let excess_value = current_value.atoms - required_value;
        proof {
            lemma_mul_bounds(self.btc_amount.atoms as int, spot.atoms as int,
                MUL_LIMIT as int, (RATE_LIMIT as int) * 1_000);
            lemma_round_half_div_bound(self.btc_amount.atoms * spot.atoms, SCALE as int,
                (MUL_LIMIT as int) * ((RATE_LIMIT as int) * 1_000));
            lemma_mul_bounds(excess_value as int, SCALE as int,
                300_000_000_000_000_000_000_000_000_000, SCALE as int);
        }
        let to_sell = div_round(excess_value * SCALE, spot.atoms);
        if to_sell <= self.btc_amount.atoms {
            Ok(Money { atoms: to_sell })
        } else {
            Ok(self.btc_amount)
        }
    }

    /// A snapshot of the holding's health: the quantity, the feed's spot
    /// price and daily range, both valuations, the reported volatility and
    /// the change from the day's low.
    pub fn get_health_metrics(&self) -> (r: CollateralHealth)
        requires
            -MUL_LIMIT <= self.btc_amount.atoms <= MUL_LIMIT,
            0 <= self.volatility_buffer.atoms <= RATE_LIMIT,
        ensures
            r.btc_amount == self.btc_amount,
    {
        let spot = self.price_feed.get_spot_price();
        let (low_24h, high_24h) = self.price_feed.get_24h_range();
        let volatility = self.price_feed.get_30d_volatility();
        let price_change_24h = if -MUL_LIMIT <= spot.atoms && spot.atoms <= MUL_LIMIT
            && -MUL_LIMIT <= low_24h.atoms && low_24h.atoms <= MUL_LIMIT {
            price_change_ratio(spot, low_24h)
        } else {
            Rate::zero()
        };
        CollateralHealth {
            btc_amount: self.btc_amount,
            spot_price: spot,
            value: self.calculate_value(),
            risk_adjusted_value: self.calculate_risk_adjusted_value(),
            volatility_30d: volatility,
            price_change_24h,
            low_24h,
            high_24h,
        }
    }
}

/// A snapshot of a collateral holding's health.
#[derive(Clone, Debug)]
pub struct CollateralHealth {
    pub btc_amount: Money,
    pub spot_price: Money,
    pub value: Money,
    pub risk_adjusted_value: Money,
    pub volatility_30d: Rate,
    pub price_change_24h: Rate,
    pub low_24h: Money,
    pub high_24h: Money,
}

/// The runtime counterpart of `history_wf`.
fn history_check(h: &Vec<(i64, Money)>) -> (r: bool)
    ensures
        r == history_wf(h@),
{
    if h.len() > 1000 {
        return false;
    }
    let mut ok = true;
    let mut i: usize = 0;
    while i < h.len()
        invariant
            0 <= i <= h@.len(),
            ok <==> (forall|j: int| 0 <= j < i ==> -MUL_LIMIT
                <= (#[trigger] h@[j]).1.atoms <= MUL_LIMIT && 0 <= h@[j].0),
        decreases h@.len() - i,
    {
        let e = h[i];
        if e.1.atoms < -MUL_LIMIT || e.1.atoms > MUL_LIMIT || e.0 < 0 {
            ok = false;
        }
        i = i + 1;
    }
    ok && h.len() <= 1000
}

/// Clamp a valuation into the computable money range.
fn clamp_value(v: Money) -> (r: Money)
    ensures
        -MUL_LIMIT <= r.atoms <= MUL_LIMIT,
        -MUL_LIMIT <= v.atoms <= MUL_LIMIT ==> r == v,
        v.atoms < -MUL_LIMIT ==> r.atoms == -MUL_LIMIT,
        v.atoms > MUL_LIMIT ==> r.atoms == MUL_LIMIT,
{
    if v.atoms < -MUL_LIMIT {
        Money { atoms: -MUL_LIMIT }
    } else if v.atoms > MUL_LIMIT {
        Money { atoms: MUL_LIMIT }
    } else {
        v
    }
}

} // verus!
