//! The facts a status report is made of: token usage, rate-limit windows and
//! the credit balance.

use vstd::arithmetic::div_mod::{lemma_basic_div, lemma_fundamental_div_mod, lemma_mod_bound};
use vstd::arithmetic::power2::{lemma2_to64, lemma2_to64_rest, lemma_pow2_pos, lemma_pow2_strictly_increases, lemma_pow2_unfold, pow2};
use vstd::prelude::*;

verus! {

/// Token counts of one session, as its freshest usage event gives them.
#[derive(Clone, Copy, Debug, PartialEq, Eq, Structural)]
pub struct TokenUsage {
    pub total_tokens: u64,
    pub input_tokens: u64,
    pub cached_input_tokens: u64,
    pub output_tokens: u64,
    pub reasoning_output_tokens: u64,
}

impl TokenUsage {
    /// Input tokens that were not served from the cache, never below zero.
    pub open spec fn spec_non_cached_input(self) -> nat {
        if self.input_tokens >= self.cached_input_tokens {
            (self.input_tokens - self.cached_input_tokens) as nat
        } else {
            0
        }
    }

    /// The blended total: cached input counts nothing, every other input
    /// token and every output token counts once. A sum beyond `u64::MAX` is
    /// reported as `u64::MAX`.
    pub open spec fn spec_blended_total(self) -> nat {
        let sum = self.spec_non_cached_input() + self.output_tokens;
        if sum > u64::MAX {
            u64::MAX as nat
        } else {
            sum as nat
        }
    }

    /// Usage with every count at zero.
    pub fn zero() -> (usage: TokenUsage)
        ensures
            usage == (TokenUsage {
                total_tokens: 0,
                input_tokens: 0,
                cached_input_tokens: 0,
                output_tokens: 0,
                reasoning_output_tokens: 0,
            }),
    {
        TokenUsage {
            total_tokens: 0,
            input_tokens: 0,
            cached_input_tokens: 0,
            output_tokens: 0,
            reasoning_output_tokens: 0,
        }
    }

    /// Input tokens that were not served from the cache.
    pub fn non_cached_input(&self) -> (n: u64)
        ensures
            n == self.spec_non_cached_input(),
    {
        if self.input_tokens >= self.cached_input_tokens {
            self.input_tokens - self.cached_input_tokens
        } else {
            0
        }
    }

    /// The blended total of input and output tokens.
    pub fn blended_total(&self) -> (n: u64)
        ensures
            n == self.spec_blended_total(),
    {
        let fresh = self.non_cached_input();
        if fresh > u64::MAX - self.output_tokens {
            u64::MAX
        } else {
            fresh + self.output_tokens
        }
    }
}

/// A share of a quota in hundredths of a percent: `1250` is 12.5 %.
#[derive(Clone, Copy, Debug, PartialEq, Eq, Structural)]
pub struct Percent {
    pub hundredths: i64,
}

/// The largest share that a number is converted to, in hundredths of a
/// percent: a million percent. Numbers beyond it, on either side, are taken
/// for the limit itself.
pub const PERCENT_LIMIT: i64 = 100000000;

/// A count of hundredths held within the limit on both sides.
pub open spec fn clamped_hundredths(hundredths: int) -> int {
    if hundredths > PERCENT_LIMIT {
        PERCENT_LIMIT as int
    } else if hundredths < -PERCENT_LIMIT {
        -PERCENT_LIMIT
    } else {
        hundredths
    }
}

/// Whether the sign bit of a binary64 bit pattern is set.
pub open spec fn binary64_negative(bits: u64) -> bool {
    bits >= 0x8000_0000_0000_0000
}

/// The eleven exponent bits of a binary64 bit pattern.
pub open spec fn binary64_exponent(bits: u64) -> int {
    ((bits / 0x10_0000_0000_0000) % 2048) as int
}

/// The fifty-two fraction bits of a binary64 bit pattern.
pub open spec fn binary64_fraction(bits: u64) -> int {
    (bits % 0x10_0000_0000_0000) as int
}

/// Whether a binary64 bit pattern is a number: neither an infinity nor a NaN.
pub open spec fn binary64_finite(bits: u64) -> bool {
    binary64_exponent(bits) != 2047
}

/// A hundred times the magnitude of a finite binary64 number, rounded to
/// the nearest integer, a half upwards.
///
/// A normal number with exponent bits `e` and fraction bits `f` is
/// `(2^52 + f) * 2^(e - 1075)`. A number whose exponent bits are zero is
/// below `2^-1022` and counts as nothing.
pub open spec fn binary64_hundredths(bits: u64) -> nat {
    let e = binary64_exponent(bits);
    let m = 0x10_0000_0000_0000 + binary64_fraction(bits);
    if e == 0 {
        0
    } else if e >= 1075 {
        (m * 100 * pow2((e - 1075) as nat)) as nat
    } else {
        ((m * 200 + pow2((1075 - e) as nat)) / (pow2((1076 - e) as nat) as int)) as nat
    }
}

/// The count that `binary64_hundredths` gives for a number below `2^52` is
/// the nearest to a hundred times the number, a half counting upwards.
/// With the number written as `m / p`, `p` a power of two, the count `q`
/// holds `q - 1/2 <= 100 * m / p < q + 1/2`.
pub proof fn lemma_binary64_hundredths_is_nearest(bits: u64)
    requires
        1 <= binary64_exponent(bits) < 1075,
    ensures
        ({
            let p = pow2((1075 - binary64_exponent(bits)) as nat) as int;
            let m = 0x10_0000_0000_0000 + binary64_fraction(bits);
            let q = binary64_hundredths(bits) as int;
            2 * p * q - p <= 200 * m < 2 * p * q + p
        }),
{
    let e = binary64_exponent(bits);
    let p = pow2((1075 - e) as nat) as int;
    let d = pow2((1076 - e) as nat) as int;
    let m = 0x10_0000_0000_0000 + binary64_fraction(bits);
    let x = 200 * m + p;
    lemma_pow2_unfold((1076 - e) as nat);
    lemma_pow2_pos((1075 - e) as nat);
    assert(d == 2 * p);
    lemma_fundamental_div_mod(x, d);
    lemma_mod_bound(x, d);
    let q = x / d;
    assert(q >= 0) by (nonlinear_arith)
        requires
            x >= 0,
            d > 0,
            x == d * q + x % d,
            0 <= x % d < d,
    ;
    assert(q == binary64_hundredths(bits));
    assert(2 * p * q == d * q) by (nonlinear_arith)
        requires
            d == 2 * p,
    ;
}

impl Percent {
    /// The share that a whole number of percent stands for.
    pub open spec fn of_whole(percent: int) -> Percent {
        Percent { hundredths: clamped_hundredths(percent * 100) as i64 }
    }

    /// The share that a binary64 number of percent stands for: the nearest
    /// hundredth within the limit; none for an infinity or a NaN.
    pub open spec fn of_binary64(bits: u64) -> Option<Percent> {
        if !binary64_finite(bits) {
            None
        } else if binary64_negative(bits) {
            Some(Percent { hundredths: clamped_hundredths(-binary64_hundredths(bits)) as i64 })
        } else {
            Some(Percent { hundredths: clamped_hundredths(binary64_hundredths(bits) as int) as i64 })
        }
    }

    /// Converts a whole number of percent.
    pub fn from_whole(percent: i64) -> (share: Percent)
        ensures
            share == Percent::of_whole(percent as int),
    {
        if percent > PERCENT_LIMIT / 100 {
            Percent { hundredths: PERCENT_LIMIT }
        } else if percent < -(PERCENT_LIMIT / 100) {
            Percent { hundredths: -PERCENT_LIMIT }
        } else {
            Percent { hundredths: percent * 100 }
        }
    }

    /// Converts a whole number of percent that is not negative.
    pub fn from_unsigned(percent: u64) -> (share: Percent)
        ensures
            share == Percent::of_whole(percent as int),
    {
        if percent > 1000000 {
            Percent { hundredths: PERCENT_LIMIT }
        } else {
            Percent { hundredths: (percent * 100) as i64 }
        }
    }

    /// Converts a floating-point number of percent, given by the bits of its
    /// binary64 form.
    pub fn from_f64_bits(bits: u64) -> (share: Option<Percent>)
        ensures
            share == Percent::of_binary64(bits),
    {
        let e: u64 = (bits / 0x10_0000_0000_0000) % 2048;
        let m: u64 = 0x10_0000_0000_0000 + bits % 0x10_0000_0000_0000;
        if e == 2047 {
            return None;
        }
        let magnitude: i64 = if e == 0 {
            0
        } else if e >= 1075 {
            proof {
                lemma_pow2_pos((e - 1075) as nat);
                assert(m * 100 * pow2((e - 1075) as nat) >= PERCENT_LIMIT) by (nonlinear_arith)
                    requires
                        m >= 0x10_0000_0000_0000,
                        pow2((e - 1075) as nat) >= 1,
                ;
            }
            PERCENT_LIMIT
        } else {
            let k: u64 = 1075 - e;
            if k >= 64 {
                proof {
                    lemma2_to64_rest();
                    if k > 64 {
                        lemma_pow2_strictly_increases(64, k as nat);
                    }
                    lemma_pow2_unfold((k + 1) as nat);
                    lemma_basic_div(
                        m * 200 + pow2(k as nat),
                        pow2((k + 1) as nat) as int,
                    );
                }
                0
            } else {
                let mut d: u128 = 2;
                let mut i: u64 = 0;
                proof {
                    lemma2_to64();
                }
                while i < k
                    invariant
                        i <= k < 64,
                        d == pow2((i + 1) as nat),
                        d <= 0x1_0000_0000_0000_0000,
                    decreases k - i,
                {
                    proof {
                        lemma_pow2_unfold((i + 2) as nat);
                        lemma2_to64_rest();
                        if i + 2 < 64 {
                            lemma_pow2_strictly_increases((i + 2) as nat, 64);
                        }
                    }
                    d = d * 2;
                    i += 1;
                }
                proof {
                    lemma_pow2_unfold((k + 1) as nat);
                    lemma_pow2_pos(k as nat);
                }
                let half: u128 = d / 2;
                let q: u128 = ((m as u128) * 200 + half) / d;
                assert(q == binary64_hundredths(bits));
                if q > PERCENT_LIMIT as u128 {
                    PERCENT_LIMIT
                } else {
                    q as i64
                }
            }
        };
        assert(magnitude == clamped_hundredths(binary64_hundredths(bits) as int));
        if bits >= 0x8000_0000_0000_0000 {
            Some(Percent { hundredths: -magnitude })
        } else {
            Some(Percent { hundredths: magnitude })
        }
    }
}

/// One rolling quota window.
#[derive(Clone, Copy, Debug, PartialEq, Eq, Structural)]
pub struct RateLimitWindow {
    /// How much of the window is used up.
    pub used_percent: Percent,
    /// The length of the window in minutes.
    pub window_minutes: Option<i64>,
    /// When the window starts anew, in seconds since the Unix epoch.
    pub resets_at: Option<i64>,
}

/// Purchased credits, independent of the time windows.
#[derive(Clone, Debug, PartialEq, Eq)]
pub struct CreditsSnapshot {
    pub has_credits: bool,
    pub unlimited: bool,
    pub balance: Option<String>,
}

/// The rate limits of an account at one moment. A snapshot fetched live and
/// one read from a session log have this one shape.
#[derive(Clone, Debug, PartialEq, Eq)]
pub struct RateLimitSnapshot {
    /// The short window, a few hours.
    pub primary: Option<RateLimitWindow>,
    /// The long window, a week.
    pub secondary: Option<RateLimitWindow>,
    pub credits: Option<CreditsSnapshot>,
}

} // verus!
