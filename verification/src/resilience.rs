//! Retry-with-backoff and deadline policies.
//!
//! Delays are measured in whole milliseconds and the backoff multiplier
//! and jitter fraction in thousandths, so every computation here is exact
//! integer arithmetic.  The jitter term is deterministic: a fixed-point
//! golden-ratio derivation of the attempt index, which decorrelates
//! successive attempts without a random source and keeps delay sequences
//! reproducible.  The asynchronous driving of an operation (awaiting it,
//! sleeping between attempts, racing it against a deadline) is left to the
//! caller; the decisions it needs are all here, as functions of plain
//! values.
use crate::text::contains_seq;
use crate::text::dec_seq;
use crate::text::str_contains;
use crate::text::u64_string;
use vstd::arithmetic::div_mod::lemma_div_denominator;
use vstd::arithmetic::div_mod::lemma_div_is_ordered;
use vstd::arithmetic::div_mod::lemma_div_multiples_vanish;
use vstd::prelude::*;

verus! {

/// Ceiling on the configured delays, in milliseconds (about 31 years),
/// so that a delay plus its jitter always fits in 64 bits.
pub const DELAY_CAP_MS: u64 = 1_000_000_000_000;

/// Resolution of the deterministic jitter unit.
pub const JITTER_SCALE: u64 = 1_000_000_000;

/// The fractional part of the golden ratio, at [`JITTER_SCALE`].
pub const PHI_FRAC_SCALED: u64 = 618_033_988;

/// A failure of the resilience layer itself.
#[derive(Debug, Clone, PartialEq, Eq)]
pub enum ResilienceError {
    /// The wrapped operation did not finish within the deadline.
    Timeout { duration_ms: u64 },
    /// Every allowed attempt failed; carries the last underlying error.
    RetriesExhausted { attempts: u32, last_error: String },
    /// A non-retryable failure, surfaced immediately.
    Operation(String),
}

/// The human-readable description of a resilience failure.
pub open spec fn resilience_message(e: ResilienceError) -> Seq<char> {
    match e {
        ResilienceError::Timeout { duration_ms } => "Operation timed out after "@ + dec_seq(
            duration_ms as nat,
        ) + "ms"@,
        ResilienceError::RetriesExhausted { attempts, last_error } => "All "@ + dec_seq(
            attempts as nat,
        ) + " retry attempts exhausted. Last error: "@ + last_error@,
        ResilienceError::Operation(msg) => "Operation failed: "@ + msg@,
    }
}

impl ResilienceError {
    /// Renders the failure for humans.
    pub fn message(&self) -> (r: String)
        ensures
            r@ == resilience_message(*self),
    {
        match self {
            ResilienceError::Timeout { duration_ms } => {
                let mut s = String::from_str("Operation timed out after ");
                let d = u64_string(*duration_ms);
                s.append(d.as_str());
                s.append("ms");
                s
            },
            ResilienceError::RetriesExhausted { attempts, last_error } => {
                let mut s = String::from_str("All ");
                let a = u64_string(*attempts as u64);
                s.append(a.as_str());
                s.append(" retry attempts exhausted. Last error: ");
                s.append(last_error.as_str());
                s
            },
            ResilienceError::Operation(msg) => {
                let mut s = String::from_str("Operation failed: ");
                s.append(msg.as_str());
                s
            },
        }
    }
}

/// Backoff and jitter policy, plus the retryability predicate.
///
/// Built by clamping rather than rejection: a malformed value is silently
/// pulled into range.
#[derive(Debug, Clone)]
pub struct RetryConfig {
    /// How many times the operation may run, at least 1.
    pub max_attempts: u32,
    /// Delay before the second attempt, in milliseconds.
    pub initial_delay_ms: u64,
    /// Cap on any computed delay, in milliseconds.
    pub max_delay_ms: u64,
    /// Growth factor between consecutive delays, in thousandths (at
    /// least 1000, i.e. non-shrinking).
    pub backoff_multiplier_permille: u32,
    /// Fraction of the delay used as jitter amplitude, in thousandths
    /// (0 to 1000).
    pub jitter_factor_permille: u32,
    /// Substrings that mark an error as retryable; `None` means the
    /// default transient-failure substrings.
    pub retryable: Option<Vec<String>>,
}

/// Substrings of an error text that the default predicate treats as
/// signs of a transient failure.
pub open spec fn default_retryable(e: Seq<char>) -> bool {
    ||| contains_seq(e, "timeout"@)
    ||| contains_seq(e, "connection"@)
    ||| contains_seq(e, "temporarily"@)
    ||| contains_seq(e, "503"@)
    ||| contains_seq(e, "429"@)
}

/// Whether the policy considers an error text worth another attempt.
pub open spec fn spec_is_retryable(c: RetryConfig, e: Seq<char>) -> bool {
    match c.retryable {
        Some(subs) => exists|i: int| 0 <= i < subs@.len() && contains_seq(e, (#[trigger] subs@[i])@),
        None => default_retryable(e),
    }
}

/// The capped, pre-jitter delay for a 1-based attempt number:
/// the initial delay grown `attempt - 1` times by the multiplier, capped
/// at every step by the maximum delay.
pub open spec fn capped_base_ms(c: RetryConfig, attempt: u32) -> int
    decreases attempt,
{
    if attempt <= 1 {
        if c.initial_delay_ms > c.max_delay_ms {
            c.max_delay_ms as int
        } else {
            c.initial_delay_ms as int
        }
    } else {
        let grown = capped_base_ms(c, (attempt - 1) as u32) * c.backoff_multiplier_permille / 1000;
        if grown > c.max_delay_ms {
            c.max_delay_ms as int
        } else {
            grown
        }
    }
}

/// The deterministic jitter unit for an attempt, in `[0, JITTER_SCALE)`:
/// the fractional part of `attempt` times the golden ratio.
pub open spec fn jitter_unit(attempt: u32) -> int {
    (attempt * PHI_FRAC_SCALED) % (JITTER_SCALE as int)
}

/// The delay before the attempt after `attempt`, in milliseconds: the
/// capped base delay perturbed by the jitter term, and never below 1ms.
pub open spec fn spec_delay_ms(c: RetryConfig, attempt: u32) -> int {
    let capped = capped_base_ms(c, attempt);
    let centered = 2 * jitter_unit(attempt) - JITTER_SCALE;
    let perturbed = if centered >= 0 {
        capped + capped * c.jitter_factor_permille * centered / (1000 * JITTER_SCALE as int)
    } else {
        capped - capped * c.jitter_factor_permille * (-centered) / (1000 * JITTER_SCALE as int)
    };
    if perturbed < 1 {
        1
    } else {
        perturbed
    }
}

impl RetryConfig {
    /// The clamping that construction guarantees.
    pub open spec fn wf(&self) -> bool {
        &&& self.max_attempts >= 1
        &&& self.max_delay_ms <= DELAY_CAP_MS
        &&& self.backoff_multiplier_permille >= 1000
        &&& self.jitter_factor_permille <= 1000
    }

    /// Replaces the attempt budget; at least one attempt always remains.
    pub fn with_max_attempts(self, attempts: u32) -> (r: Self)
        ensures
            r.max_attempts == if attempts >= 1 {
                attempts as int
            } else {
                1
            },
            r.initial_delay_ms == self.initial_delay_ms,
            r.max_delay_ms == self.max_delay_ms,
            r.backoff_multiplier_permille == self.backoff_multiplier_permille,
            r.jitter_factor_permille == self.jitter_factor_permille,
            r.retryable == self.retryable,
            self.wf() ==> r.wf(),
    {
        let a = if attempts >= 1 {
            attempts
        } else {
            1
        };
        RetryConfig { max_attempts: a, ..self }
    }

    /// Replaces the delay before the second attempt.
    pub fn with_initial_delay_ms(self, delay_ms: u64) -> (r: Self)
        ensures
            r.initial_delay_ms == delay_ms,
            r.max_attempts == self.max_attempts,
            r.max_delay_ms == self.max_delay_ms,
            r.backoff_multiplier_permille == self.backoff_multiplier_permille,
            r.jitter_factor_permille == self.jitter_factor_permille,
            r.retryable == self.retryable,
            self.wf() ==> r.wf(),
    {
        RetryConfig { initial_delay_ms: delay_ms, ..self }
    }

    /// Replaces the delay cap, itself capped at [`DELAY_CAP_MS`].
    pub fn with_max_delay_ms(self, delay_ms: u64) -> (r: Self)
        ensures
            r.max_delay_ms == if delay_ms <= DELAY_CAP_MS {
                delay_ms as int
            } else {
                DELAY_CAP_MS as int
            },
            r.max_attempts == self.max_attempts,
            r.initial_delay_ms == self.initial_delay_ms,
            r.backoff_multiplier_permille == self.backoff_multiplier_permille,
            r.jitter_factor_permille == self.jitter_factor_permille,
            r.retryable == self.retryable,
            self.wf() ==> r.wf(),
    {
        let d = if delay_ms <= DELAY_CAP_MS {
            delay_ms
        } else {
            DELAY_CAP_MS
        };
        RetryConfig { max_delay_ms: d, ..self }
    }

    /// Replaces the backoff multiplier (thousandths), clamped to at
    /// least 1000 so delays never shrink.
    pub fn with_backoff_multiplier_permille(self, multiplier: u32) -> (r: Self)
        ensures
            r.backoff_multiplier_permille == if multiplier >= 1000 {
                multiplier as int
            } else {
                1000
            },
            r.max_attempts == self.max_attempts,
            r.initial_delay_ms == self.initial_delay_ms,
            r.max_delay_ms == self.max_delay_ms,
            r.jitter_factor_permille == self.jitter_factor_permille,
            r.retryable == self.retryable,
            self.wf() ==> r.wf(),
    {
        let m = if multiplier >= 1000 {
            multiplier
        } else {
            1000
        };
        RetryConfig { backoff_multiplier_permille: m, ..self }
    }

    /// Replaces the jitter fraction (thousandths), clamped to 0..=1000.
    pub fn with_jitter_permille(self, jitter: u32) -> (r: Self)
        ensures
            r.jitter_factor_permille == if jitter <= 1000 {
                jitter as int
            } else {
                1000
            },
            r.max_attempts == self.max_attempts,
            r.initial_delay_ms == self.initial_delay_ms,
            r.max_delay_ms == self.max_delay_ms,
            r.backoff_multiplier_permille == self.backoff_multiplier_permille,
            r.retryable == self.retryable,
            self.wf() ==> r.wf(),
    {
        let j = if jitter <= 1000 {
            jitter
        } else {
            1000
        };
        RetryConfig { jitter_factor_permille: j, ..self }
    }

    /// Replaces the retryability predicate: an error is then retryable
    /// exactly when its text contains one of the given substrings.
    pub fn with_retryable(self, substrings: Vec<String>) -> (r: Self)
        ensures
            r.retryable == Some(substrings),
            r.max_attempts == self.max_attempts,
            r.initial_delay_ms == self.initial_delay_ms,
            r.max_delay_ms == self.max_delay_ms,
            r.backoff_multiplier_permille == self.backoff_multiplier_permille,
            r.jitter_factor_permille == self.jitter_factor_permille,
            self.wf() ==> r.wf(),
    {
        RetryConfig { retryable: Some(substrings), ..self }
    }

    /// Aggressive preset for critical operations: many quick attempts.
    pub fn aggressive() -> (r: Self)
        ensures
            r.wf(),
            r.max_attempts == 5,
            r.initial_delay_ms == 50,
            r.max_delay_ms == 10_000,
            r.backoff_multiplier_permille == 1500,
            r.jitter_factor_permille == 300,
            r.retryable is None,
    {
        RetryConfig {
            max_attempts: 5,
            initial_delay_ms: 50,
            max_delay_ms: 10_000,
            backoff_multiplier_permille: 1500,
            jitter_factor_permille: 300,
            retryable: None,
        }
    }

    /// Conservative preset for non-critical operations: few slow attempts.
    pub fn conservative() -> (r: Self)
        ensures
            r.wf(),
            r.max_attempts == 2,
            r.initial_delay_ms == 500,
            r.max_delay_ms == 5_000,
            r.backoff_multiplier_permille == 2000,
            r.jitter_factor_permille == 100,
            r.retryable is None,
    {
        RetryConfig {
            max_attempts: 2,
            initial_delay_ms: 500,
            max_delay_ms: 5_000,
            backoff_multiplier_permille: 2000,
            jitter_factor_permille: 100,
            retryable: None,
        }
    }

    /// Computes the delay to wait after the given 1-based attempt failed.
    pub fn calculate_delay(&self, attempt: u32) -> (r: u64)
        requires
            self.wf(),
        ensures
            r == spec_delay_ms(*self, attempt),
    {
        proof {
            lemma_spec_delay_fits(*self, attempt);
        }
        let mut d: u64 = if self.initial_delay_ms > self.max_delay_ms {
            self.max_delay_ms
        } else {
            self.initial_delay_ms
        };
        let mut k: u32 = 1;
        while k < attempt
            invariant
                self.wf(),
                1 <= k,
                attempt > 1 ==> k <= attempt,
                attempt <= 1 ==> k == 1,
                d == capped_base_ms(*self, k),
                d <= self.max_delay_ms,
            decreases attempt - k,
        {
            proof {
                assert((d as int) * (self.backoff_multiplier_permille as int) <= DELAY_CAP_MS as int
                    * u32::MAX as int) by (nonlinear_arith)
                    requires
                        d <= DELAY_CAP_MS,
                        self.backoff_multiplier_permille <= u32::MAX,
                ;
            }
            let grown: u128 = (d as u128) * (self.backoff_multiplier_permille as u128) / 1000;
            d = if grown > self.max_delay_ms as u128 {
                self.max_delay_ms
            } else {
                grown as u64
            };
            k = k + 1;
        }
        proof {
            if attempt <= 1 {
                assert(d == capped_base_ms(*self, attempt));
            }
        }
        let unit: u64 = ((attempt as u64) * PHI_FRAC_SCALED) % JITTER_SCALE;
        let two_unit: u64 = 2 * unit;
        let jf = self.jitter_factor_permille as u64;
        let perturbed: u64;
        if two_unit >= JITTER_SCALE {
            let centered = two_unit - JITTER_SCALE;
            proof {
                lemma_jitter_product_bound(d as int, jf as int, centered as int);
                lemma_jitter_magnitude_le(d as int, jf as int, centered as int);
            }
            let mag: u128 = (d as u128) * (jf as u128) * (centered as u128) / ((1000
                * JITTER_SCALE) as u128);
            perturbed = d + (mag as u64);
        } else {
            let centered = JITTER_SCALE - two_unit;
            proof {
                lemma_jitter_product_bound(d as int, jf as int, centered as int);
                lemma_jitter_magnitude_le(d as int, jf as int, centered as int);
            }
            let mag: u128 = (d as u128) * (jf as u128) * (centered as u128) / ((1000
                * JITTER_SCALE) as u128);
            perturbed = d - (mag as u64);
        }
        if perturbed < 1 {
            1
        } else {
            perturbed
        }
    }

    /// Whether this policy considers the error text worth another attempt:
    /// by the configured substrings, or by the default transient-failure
    /// substrings.
    pub fn is_retryable(&self, error: &str) -> (r: bool)
        ensures
            r == spec_is_retryable(*self, error@),
    {
        match &self.retryable {
            Some(subs) => {
                let n = subs.len();
                let mut i: usize = 0;
                while i < n
                    invariant
                        n == subs@.len(),
                        i <= n,
                        forall|j: int| 0 <= j < i ==> !contains_seq(error@, #[trigger] subs@[j]@),
                        self.retryable == Some(*subs),
                    decreases n - i,
                {
                    if str_contains(error, subs[i].as_str()) {
                        proof {
                            assert(spec_is_retryable(*self, error@)) by {
                                assert(self.retryable == Some(*subs));
                                assert(exists|j: int|
                                    0 <= j < (self.retryable->0)@.len() && contains_seq(
                                        error@,
                                        (#[trigger] (self.retryable->0)@[j])@,
                                    )) by {
                                    assert((self.retryable->0)@ == subs@);
                                    assert(contains_seq(error@, (self.retryable->0)@[i as int]@));
                                }
                            }
                        }
                        return true;
                    }
                    i = i + 1;
                }
                false
            },
            None => {
                str_contains(error, "timeout") || str_contains(error, "connection")
                    || str_contains(error, "temporarily") || str_contains(error, "503")
                    || str_contains(error, "429")
            },
        }
    }
}

impl Default for RetryConfig {
    /// The baseline policy: 3 attempts, 100ms initial delay, 30s cap,
    /// doubling backoff, 20% jitter, default retryability.
    fn default() -> (r: Self)
        ensures
            r.wf(),
            r.max_attempts == 3,
            r.initial_delay_ms == 100,
            r.max_delay_ms == 30_000,
            r.backoff_multiplier_permille == 2000,
            r.jitter_factor_permille == 200,
            r.retryable is None,
    {
        RetryConfig {
            max_attempts: 3,
            initial_delay_ms: 100,
            max_delay_ms: 30_000,
            backoff_multiplier_permille: 2000,
            jitter_factor_permille: 200,
            retryable: None,
        }
    }
}

/// The three-way jitter product stays far inside 128 bits.
proof fn lemma_jitter_product_bound(d: int, jf: int, centered: int)
    requires
        0 <= d <= DELAY_CAP_MS,
        0 <= jf <= 1000,
        0 <= centered <= JITTER_SCALE,
    ensures
        0 <= d * jf <= DELAY_CAP_MS as int * 1000,
        0 <= d * jf * centered <= DELAY_CAP_MS as int * 1000 * JITTER_SCALE as int,
{
    assert(0 <= d * jf <= DELAY_CAP_MS as int * 1000) by (nonlinear_arith)
        requires
            0 <= d <= DELAY_CAP_MS,
            0 <= jf <= 1000,
    ;
    assert(0 <= d * jf * centered <= DELAY_CAP_MS as int * 1000 * JITTER_SCALE as int)
        by (nonlinear_arith)
        requires
            0 <= d * jf <= DELAY_CAP_MS as int * 1000,
            0 <= centered <= JITTER_SCALE,
    ;
}

/// The jitter magnitude never exceeds the delay it perturbs.
proof fn lemma_jitter_magnitude_le(d: int, jf: int, centered: int)
    requires
        0 <= d,
        0 <= jf <= 1000,
        0 <= centered <= JITTER_SCALE,
    ensures
        d * jf * centered / (1000 * JITTER_SCALE as int) <= d,
        0 <= d * jf * centered / (1000 * JITTER_SCALE as int),
{
    let s = 1000 * JITTER_SCALE as int;
    assert(d * jf * centered <= d * s) by (nonlinear_arith)
        requires
            0 <= d,
            0 <= jf <= 1000,
            0 <= centered <= JITTER_SCALE,
            s == 1000 * JITTER_SCALE as int,
    ;
    lemma_div_is_ordered(d * jf * centered, d * s, s);
    lemma_div_multiples_vanish(d, s);
    assert(d * s == s * d) by (nonlinear_arith);
    assert(0 <= d * jf * centered) by (nonlinear_arith)
        requires
            0 <= d,
            0 <= jf,
            0 <= centered,
    ;
    vstd::arithmetic::div_mod::lemma_div_pos_is_pos(d * jf * centered, s);
}

/// The capped base delay stays within the configured cap.
pub proof fn lemma_capped_base_in_range(c: RetryConfig, attempt: u32)
    ensures
        0 <= capped_base_ms(c, attempt) <= c.max_delay_ms,
    decreases attempt,
{
    if attempt > 1 {
        lemma_capped_base_in_range(c, (attempt - 1) as u32);
        let prev = capped_base_ms(c, (attempt - 1) as u32);
        assert(0 <= prev * c.backoff_multiplier_permille) by (nonlinear_arith)
            requires
                0 <= prev,
        ;
        vstd::arithmetic::div_mod::lemma_div_pos_is_pos(prev * c.backoff_multiplier_permille, 1000);
    }
}

/// The jitter magnitude is at most `m * jf / 1000` when the delay it
/// perturbs is at most `m`.
#[verifier::spinoff_prover]
proof fn lemma_jitter_magnitude_upper(capped: int, m: int, jf: int, centered: int)
    requires
        0 <= capped <= m,
        0 <= jf <= 1000,
        0 <= centered <= JITTER_SCALE,
    ensures
        capped * jf * centered / (1000 * JITTER_SCALE as int) <= m * jf / 1000,
{
    let s = 1000 * JITTER_SCALE as int;
    assert(capped * jf * centered <= m * jf * JITTER_SCALE) by (nonlinear_arith)
        requires
            0 <= capped <= m,
            0 <= jf,
            0 <= centered <= JITTER_SCALE,
    ;
    lemma_div_is_ordered(capped * jf * centered, m * jf * JITTER_SCALE as int, s);
    lemma_div_denominator(m * jf * JITTER_SCALE as int, JITTER_SCALE as int, 1000);
    assert(m * jf * JITTER_SCALE as int == JITTER_SCALE as int * (m * jf)) by (nonlinear_arith);
    lemma_div_multiples_vanish(m * jf, JITTER_SCALE as int);
    assert(JITTER_SCALE as int * 1000 == s);
}

/// A product of two non-negatives, divided by 1000, is non-negative.
proof fn lemma_mul_div_nonneg(m: int, jf: int)
    requires
        0 <= m,
        0 <= jf,
    ensures
        0 <= m * jf / 1000,
{
    assert(0 <= m * jf) by (nonlinear_arith)
        requires
            0 <= m,
            0 <= jf,
    ;
    vstd::arithmetic::div_mod::lemma_div_pos_is_pos(m * jf, 1000);
}

/// For a well-formed policy the delay always fits far inside 64 bits.
proof fn lemma_spec_delay_fits(c: RetryConfig, attempt: u32)
    requires
        c.wf(),
    ensures
        1 <= spec_delay_ms(c, attempt) <= 2 * DELAY_CAP_MS,
{
    lemma_capped_base_in_range(c, attempt);
    let capped = capped_base_ms(c, attempt);
    let jf = c.jitter_factor_permille as int;
    let u = jitter_unit(attempt);
    assert(0 <= u < JITTER_SCALE) by {
        vstd::arithmetic::div_mod::lemma_mod_bound(attempt * PHI_FRAC_SCALED, JITTER_SCALE as int);
    }
    let centered = 2 * u - JITTER_SCALE;
    if centered >= 0 {
        lemma_jitter_magnitude_le(capped, jf, centered);
    } else {
        lemma_jitter_magnitude_le(capped, jf, -centered);
    }
}

/// Every delay is at least 1ms and at most the configured cap plus the
/// largest possible jitter: `max_delay * (1 + jitter_factor)`, with the
/// jitter fraction in thousandths.
pub proof fn lemma_delay_bounds(c: RetryConfig, attempt: u32)
    requires
        c.wf(),
        c.max_delay_ms >= 1,
    ensures
        1 <= spec_delay_ms(c, attempt),
        spec_delay_ms(c, attempt) <= c.max_delay_ms + c.max_delay_ms * c.jitter_factor_permille
            / 1000,
{
    lemma_capped_base_in_range(c, attempt);
    let capped = capped_base_ms(c, attempt);
    let m = c.max_delay_ms as int;
    let jf = c.jitter_factor_permille as int;
    let u = jitter_unit(attempt);
    assert(0 <= u < JITTER_SCALE) by {
        vstd::arithmetic::div_mod::lemma_mod_bound(attempt * PHI_FRAC_SCALED, JITTER_SCALE as int);
    }
    let centered = 2 * u - JITTER_SCALE;
    lemma_mul_div_nonneg(m, jf);
    if centered >= 0 {
        lemma_jitter_magnitude_le(capped, jf, centered);
        lemma_jitter_magnitude_upper(capped, m, jf, centered);
    } else {
        lemma_jitter_magnitude_le(capped, jf, -centered);
    }
}

/// Pre-cap monotonicity: with a non-shrinking multiplier, a later attempt
/// never gets a shorter base delay (ignoring the jitter term).
pub proof fn lemma_backoff_monotonic(c: RetryConfig, n1: u32, n2: u32)
    requires
        c.wf(),
        n1 <= n2,
    ensures
        capped_base_ms(c, n1) <= capped_base_ms(c, n2),
    decreases n2 - n1,
{
    if n1 < n2 {
        lemma_backoff_monotonic(c, n1, (n2 - 1) as u32);
        let prev = capped_base_ms(c, (n2 - 1) as u32);
        lemma_capped_base_in_range(c, (n2 - 1) as u32);
        if n2 > 1 {
            assert(prev * 1000 <= prev * c.backoff_multiplier_permille) by (nonlinear_arith)
                requires
                    0 <= prev,
                    1000 <= c.backoff_multiplier_permille,
            ;
            lemma_div_is_ordered(prev * 1000, prev * c.backoff_multiplier_permille, 1000);
            lemma_div_multiples_vanish(prev, 1000);
            assert(prev * 1000 == 1000 * prev) by (nonlinear_arith);
        }
    }
}

/// What the retry loop does after a failed attempt.
#[derive(Debug, Clone, PartialEq, Eq)]
pub enum RetryDecision {
    /// Terminal: give up with this error.
    Stop(ResilienceError),
    /// Wait this many milliseconds, then run the next attempt.
    Backoff(u64),
}

/// The decision after attempt `attempt` (1-based) failed with `error`:
/// the final allowed attempt exhausts the budget; a non-retryable error
/// stops immediately; otherwise back off by the computed delay and try
/// again.  A driver loops: run the operation, return its value on
/// success, and otherwise follow this decision.
pub fn retry_step(config: &RetryConfig, attempt: u32, error: &str) -> (r: RetryDecision)
    requires
        config.wf(),
        1 <= attempt <= config.max_attempts,
    ensures
        attempt == config.max_attempts ==> (r matches RetryDecision::Stop(
            ResilienceError::RetriesExhausted { attempts, last_error },
        ) && attempts == config.max_attempts && last_error@ == error@),
        attempt < config.max_attempts && !spec_is_retryable(*config, error@) ==> (r matches
            RetryDecision::Stop(ResilienceError::Operation(msg)) && msg@ == error@),
        attempt < config.max_attempts && spec_is_retryable(*config, error@) ==> r
            == RetryDecision::Backoff(spec_delay_ms(*config, attempt) as u64),
{
    if attempt == config.max_attempts {
        return RetryDecision::Stop(
            ResilienceError::RetriesExhausted {
                attempts: config.max_attempts,
                last_error: error.to_owned(),
            },
        );
    }
    if !config.is_retryable(error) {
        return RetryDecision::Stop(ResilienceError::Operation(error.to_owned()));
    }
    RetryDecision::Backoff(config.calculate_delay(attempt))
}

/// The decision after a failed attempt, for a caller that evaluates the
/// retryability of the error itself (an arbitrary caller-supplied
/// predicate is such an evaluation; the decision takes its verdict as a
/// plain value).
pub fn retry_step_with(
    config: &RetryConfig,
    attempt: u32,
    error: &str,
    retryable: bool,
) -> (r: RetryDecision)
    requires
        config.wf(),
        1 <= attempt <= config.max_attempts,
    ensures
        attempt == config.max_attempts ==> (r matches RetryDecision::Stop(
            ResilienceError::RetriesExhausted { attempts, last_error },
        ) && attempts == config.max_attempts && last_error@ == error@),
        attempt < config.max_attempts && !retryable ==> (r matches RetryDecision::Stop(
            ResilienceError::Operation(msg),
        ) && msg@ == error@),
        attempt < config.max_attempts && retryable ==> r == RetryDecision::Backoff(
            spec_delay_ms(*config, attempt) as u64,
        ),
{
    if attempt == config.max_attempts {
        return RetryDecision::Stop(
            ResilienceError::RetriesExhausted {
                attempts: config.max_attempts,
                last_error: error.to_owned(),
            },
        );
    }
    if !retryable {
        return RetryDecision::Stop(ResilienceError::Operation(error.to_owned()));
    }
    RetryDecision::Backoff(config.calculate_delay(attempt))
}

/// The decision half of the deadline wrapper: the race's outcome is
/// either the operation's own result, returned unchanged, or a timeout
/// naming the deadline.
pub fn timeout_outcome<T>(duration_ms: u64, completed: Option<T>) -> (r: Result<
    T,
    ResilienceError,
>)
    ensures
        completed matches Some(v) ==> r == Ok::<T, ResilienceError>(v),
        completed is None ==> r == Err::<T, ResilienceError>(
            ResilienceError::Timeout { duration_ms },
        ),
{
    match completed {
        Some(v) => Ok(v),
        None => Err(ResilienceError::Timeout { duration_ms }),
    }
}

} // verus!
