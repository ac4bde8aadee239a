//! Retry configuration and exponential backoff with jitter.
//!
//! Delays are whole milliseconds and the jitter factor is given in
//! thousandths, so the whole computation is exact integer arithmetic.

use vstd::prelude::*;

verus! {

/// Retry configuration for HTTP requests.
#[derive(Debug, Clone)]
pub struct RetryConfig {
    /// Maximum retries for any error (total).
    pub max_retries: u32,
    /// Maximum retries specifically for 429 (rate limited).
    pub max_429_retries: u32,
    /// Maximum retries specifically for 5xx (server error).
    pub max_5xx_retries: u32,
    /// Base delay for exponential backoff, in milliseconds.
    pub base_delay: u64,
    /// Maximum delay cap, in milliseconds.
    pub max_delay: u64,
    /// Jitter factor in thousandths (250 stands for 0.25).
    pub jitter: u32,
}

impl Default for RetryConfig {
    fn default() -> (r: Self)
        ensures
            r.max_retries == 3,
            r.max_429_retries == 3,
            r.max_5xx_retries == 1,
            r.base_delay == 500,
            r.max_delay == 30_000,
            r.jitter == 250,
    {
        Self {
            max_retries: 3,
            max_429_retries: 3,
            max_5xx_retries: 1,
            base_delay: 500,
            max_delay: 30_000,
            jitter: 250,
        }
    }
}

/// `base * 2^k`.
pub open spec fn doubled(base: int, k: nat) -> int
    decreases k,
{
    if k == 0 {
        base
    } else {
        2 * doubled(base, (k - 1) as nat)
    }
}

/// The backoff before attempt `attempt`: the base delay doubled per
/// attempt, capped at the maximum delay.
pub open spec fn capped_delay(base: int, max: int, attempt: nat) -> int {
    if doubled(base, attempt) < max {
        doubled(base, attempt)
    } else {
        max
    }
}

/// Half-width of the jitter window around a capped delay.
pub open spec fn jitter_range(capped: int, jitter: int) -> int {
    capped * jitter / 1000
}

/// The delay after jitter: without a range, `capped` itself; otherwise
/// `capped` shifted by `r mod (2*range) - range`, an offset in
/// `[-range, range)`, kept within `[0, u64::MAX]`.
pub open spec fn jittered(capped: int, range: int, r: int) -> int {
    let d = if range <= 0 {
        capped
    } else {
        capped + r % (2 * range) - range
    };
    if d < 0 {
        0
    } else if d > u64::MAX {
        u64::MAX as int
    } else {
        d
    }
}

/// The delay for `attempt` with random draw `r`.
pub open spec fn spec_delay(c: RetryConfig, attempt: nat, r: int) -> int {
    let capped = capped_delay(c.base_delay as int, c.max_delay as int, attempt);
    jittered(capped, jitter_range(capped, c.jitter as int), r)
}

/// A uniformly random 64-bit draw.
///
/// Calls `rand::random::<u64>()`; the value depends on the random source,
/// so no clause relates it to anything.
#[verifier::external_body]
fn random_u64() -> (r: u64) {
    rand::random::<u64>()
}

proof fn lemma_doubled_nonneg(base: int, k: nat)
    requires
        base >= 0,
    ensures
        doubled(base, k) >= base,
    decreases k,
{
    if k > 0 {
        lemma_doubled_nonneg(base, (k - 1) as nat);
    }
}

/// Doubling is monotone in the number of doublings.
pub proof fn lemma_doubled_monotone(base: int, a: nat, b: nat)
    requires
        base >= 0,
        a <= b,
    ensures
        doubled(base, a) <= doubled(base, b),
    decreases b,
{
    if b > a {
        lemma_doubled_monotone(base, a, (b - 1) as nat);
        lemma_doubled_nonneg(base, (b - 1) as nat);
    }
}

impl RetryConfig {
    /// The capped backoff for `attempt`, before jitter.
    pub fn capped_delay_for(&self, attempt: u32) -> (r: u64)
        ensures
            r == capped_delay(self.base_delay as int, self.max_delay as int, attempt as nat),
    {
        let max = self.max_delay as u128;
        let mut d: u128 = self.base_delay as u128;
        let mut k: u32 = 0;
        while k < attempt && d < max
            invariant
                k <= attempt,
                d == doubled(self.base_delay as int, k as nat),
                max == self.max_delay,
                d <= 2 * (u64::MAX as int),
            decreases attempt - k,
        {
            d = d * 2;
            k = k + 1;
        }
        if d < max {
            d as u64
        } else {
            proof {
                lemma_doubled_monotone(self.base_delay as int, k as nat, attempt as nat);
            }
            self.max_delay
        }
    }

    /// The delay for `attempt` given the random draw `r`.
    pub fn delay_with_draw(&self, attempt: u32, r: u64) -> (d: u64)
        ensures
            d == spec_delay(*self, attempt as nat, r as int),
    {
        let capped = self.capped_delay_for(attempt);
        assert((capped as u128) * (self.jitter as u128) <= (u64::MAX as int) * (u32::MAX as int))
            by (nonlinear_arith)
            requires
                capped <= u64::MAX,
                self.jitter <= u32::MAX,
        ;
        let range: u128 = (capped as u128) * (self.jitter as u128) / 1000;
        if range == 0 {
            return capped;
        }
        let width: u128 = 2 * range;
        let off: u128 = (r as u128) % width;
        let total: u128 = capped as u128 + off;
        if total < range {
            0
        } else if total - range > u64::MAX as u128 {
            u64::MAX
        } else {
            (total - range) as u64
        }
    }

    /// Calculate the delay in milliseconds for a given attempt (0-indexed):
    /// the capped exponential backoff moved by a random amount of at most
    /// the jitter range either way.
    pub fn delay_for_attempt(&self, attempt: u32) -> (d: u64)
        ensures
            exists|r: u64| d == spec_delay(*self, attempt as nat, r as int),
    {
        let r = random_u64();
        self.delay_with_draw(attempt, r)
    }
}

/// What every delay satisfies: it lies in the jitter window around the
/// capped backoff, which never exceeds the maximum delay; without jitter it
/// is the capped backoff itself.
pub proof fn lemma_delay_window(c: RetryConfig, attempt: nat, r: int)
    requires
        r >= 0,
    ensures
        capped_delay(c.base_delay as int, c.max_delay as int, attempt) <= c.max_delay,
        ({
            let capped = capped_delay(c.base_delay as int, c.max_delay as int, attempt);
            let range = jitter_range(capped, c.jitter as int);
            &&& spec_delay(c, attempt, r) >= capped - range
            &&& range > 0 ==> spec_delay(c, attempt, r) < capped + range
            &&& range == 0 ==> spec_delay(c, attempt, r) == capped
        }),
        c.jitter == 0 ==> spec_delay(c, attempt, r) == capped_delay(
            c.base_delay as int,
            c.max_delay as int,
            attempt,
        ),
{
    let capped = capped_delay(c.base_delay as int, c.max_delay as int, attempt);
    lemma_doubled_nonneg(c.base_delay as int, attempt);
    let range = jitter_range(capped, c.jitter as int);
    assert(capped * c.jitter >= 0) by (nonlinear_arith)
        requires
            capped >= 0,
            c.jitter >= 0,
    ;
    assert(range >= 0);
    if range > 0 {
        assert(0 <= r % (2 * range) < 2 * range);
    }
    if c.jitter == 0 {
        assert(capped * c.jitter == 0) by (nonlinear_arith)
            requires
                c.jitter == 0,
        ;
    }
}

/// Without jitter, backoff never decreases from one attempt to the next,
/// and it strictly grows while the cap is not reached and the base is positive.
pub proof fn lemma_backoff_grows(base: int, max: int, attempt: nat)
    requires
        base >= 0,
    ensures
        capped_delay(base, max, attempt) <= capped_delay(base, max, attempt + 1),
        base > 0 && capped_delay(base, max, attempt) < max ==> capped_delay(base, max, attempt)
            < capped_delay(base, max, attempt + 1),
{
    lemma_doubled_nonneg(base, attempt);
    assert(doubled(base, attempt + 1) == 2 * doubled(base, attempt));
}

} // verus!
