//! The retry policy: which failures are tried again, how often, and how
//! long to wait before each retry.

use crate::error::DatabaseError;
use crate::types::RetryConfig;
use vstd::prelude::*;

verus! {

/// Where a retried operation stands: how many retries have been ordered,
/// and how far the backoff has grown.
#[derive(Debug, Clone, Copy, PartialEq, Eq, Structural)]
pub struct RetryState {
    /// Retries ordered so far.
    pub retries: u32,
    /// The backoff as it has grown so far, in milliseconds, before the
    /// maximum is applied to it.
    pub backoff_ms: u64,
}

/// What to do after an attempt.
pub enum RetryStep<T> {
    /// The operation is over, with this result.
    Done(Result<T, DatabaseError>),
    /// Wait for so many milliseconds, then attempt again.
    RetryAfter(u64),
}

impl RetryConfig {
    /// The backoff that follows `backoff_ms`: multiplied by the multiplier
    /// (held in thousandths) and rounded down; the largest `u64` where the
    /// product is beyond it. The maximum backoff plays no part in it.
    pub open spec fn grown(self, backoff_ms: u64) -> u64 {
        let scaled = backoff_ms * self.backoff_multiplier_milli / 1000;
        if scaled > u64::MAX {
            u64::MAX
        } else {
            scaled as u64
        }
    }

    /// A backoff cut off at the maximum backoff.
    pub open spec fn capped(self, backoff_ms: u64) -> u64 {
        if backoff_ms > self.max_backoff_ms {
            self.max_backoff_ms
        } else {
            backoff_ms
        }
    }

    /// The backoff before the k-th retry, k counted from one, before the
    /// maximum is applied: the initial backoff, grown k - 1 times.
    pub open spec fn backoff_before_retry(self, k: nat) -> u64
        decreases k,
    {
        if k <= 1 {
            self.initial_backoff_ms
        } else {
            self.grown(self.backoff_before_retry((k - 1) as nat))
        }
    }

    /// The delay before the k-th retry, k counted from one: the initial
    /// backoff grown k - 1 times, and never more than the maximum backoff.
    pub open spec fn delay_before_retry(self, k: nat) -> u64 {
        self.capped(self.backoff_before_retry(k))
    }

    /// The state before any attempt.
    pub open spec fn initial_state(self) -> RetryState {
        RetryState { retries: 0, backoff_ms: self.initial_backoff_ms }
    }

    /// The state after so many failed attempts that were retried.
    pub open spec fn state_after(self, failures: nat) -> RetryState {
        RetryState {
            retries: failures as u32,
            backoff_ms: self.backoff_before_retry(failures + 1),
        }
    }

    /// Whether a failure with `error` in `state` is retried: the error is
    /// retryable and the budget of retries is not used up.
    pub open spec fn retries(self, state: RetryState, error: DatabaseError) -> bool {
        state.retries < self.max_retries && error.retryable()
    }

    /// The state after a failure that is retried.
    pub open spec fn advanced(self, state: RetryState) -> RetryState {
        RetryState {
            retries: (state.retries + 1) as u32,
            backoff_ms: self.grown(state.backoff_ms),
        }
    }

    /// Whether `after` and `step` are what follows an attempt that ended
    /// with `outcome` in `state`: a success ends the operation with its
    /// value; a failure that is retried orders a wait of the current
    /// backoff, cut off at the maximum, and advances the state; any other
    /// failure ends the operation with the error of this very attempt.
    pub open spec fn stepped_as<T>(
        self,
        state: RetryState,
        outcome: Result<T, DatabaseError>,
        after: RetryState,
        step: RetryStep<T>,
    ) -> bool {
        match outcome {
            Ok(value) => after == state && step == RetryStep::Done(Ok::<T, DatabaseError>(value)),
            Err(error) => if self.retries(state, error) {
                after == self.advanced(state) && step == RetryStep::<T>::RetryAfter(
                    self.capped(state.backoff_ms),
                )
            } else {
                after == state && step == RetryStep::Done(Err::<T, DatabaseError>(error))
            },
        }
    }

    /// The state before the first attempt.
    pub fn start(&self) -> (state: RetryState)
        ensures
            state == self.initial_state(),
            state == self.state_after(0),
    {
        RetryState { retries: 0, backoff_ms: self.initial_backoff_ms }
    }

    /// Computes the backoff that follows `backoff_ms`.
    pub fn following_backoff(&self, backoff_ms: u64) -> (next: u64)
        ensures
            next == self.grown(backoff_ms),
    {
        let product: u128 = {
            assert(backoff_ms * self.backoff_multiplier_milli <= u64::MAX * u64::MAX)
                by (nonlinear_arith)
                requires
                    0 <= backoff_ms <= u64::MAX,
                    0 <= self.backoff_multiplier_milli <= u64::MAX,
            ;
            (backoff_ms as u128) * (self.backoff_multiplier_milli as u128)
        };
        let scaled: u128 = product / 1000;
        if scaled > u64::MAX as u128 {
            u64::MAX
        } else {
            scaled as u64
        }
    }

    /// Cuts a backoff off at the maximum backoff: the delay to wait.
    pub fn delay_of(&self, backoff_ms: u64) -> (delay_ms: u64)
        ensures
            delay_ms == self.capped(backoff_ms),
    {
        if backoff_ms > self.max_backoff_ms {
            self.max_backoff_ms
        } else {
            backoff_ms
        }
    }

    /// Decides what follows an attempt that ended with `outcome`.
    pub fn after_attempt<T>(&self, state: &mut RetryState, outcome: Result<T, DatabaseError>) -> (step:
        RetryStep<T>)
        ensures
            self.stepped_as(*old(state), outcome, *final(state), step),
    {
        match outcome {
            Ok(value) => RetryStep::Done(Ok(value)),
            Err(error) => {
                if state.retries < self.max_retries && error.is_retryable() {
                    let delay_ms = self.delay_of(state.backoff_ms);
                    state.retries = state.retries + 1;
                    state.backoff_ms = self.following_backoff(state.backoff_ms);
                    RetryStep::RetryAfter(delay_ms)
                } else {
                    RetryStep::Done(Err(error))
                }
            },
        }
    }
}

/// An operation that fails retryably on every attempt is attempted exactly
/// `max_retries + 1` times: each of the first `max_retries` failures orders
/// a retry, after the delay that belongs to it, and the failure after that
/// ends the operation with the error of that last attempt.
pub proof fn lemma_retry_budget<T>(config: RetryConfig, failures: nat, error: DatabaseError)
    requires
        error.retryable(),
        failures <= config.max_retries,
    ensures
        failures < config.max_retries ==> config.stepped_as(
            config.state_after(failures),
            Err::<T, DatabaseError>(error),
            config.state_after(failures + 1),
            RetryStep::RetryAfter(config.delay_before_retry(failures + 1)),
        ),
        failures == config.max_retries ==> config.stepped_as(
            config.state_after(failures),
            Err::<T, DatabaseError>(error),
            config.state_after(failures),
            RetryStep::Done(Err(error)),
        ),
{
}

/// A failure that is not retryable ends the operation at once, whatever
/// the budget, with the error of that attempt.
pub proof fn lemma_fatal_error_ends<T>(config: RetryConfig, state: RetryState, error: DatabaseError)
    requires
        !error.retryable(),
    ensures
        config.stepped_as(state, Err::<T, DatabaseError>(error), state, RetryStep::Done(Err(error))),
{
}

/// No delay is longer than the maximum backoff, the first no more than
/// any other.
pub proof fn lemma_delay_is_capped(config: RetryConfig, k: nat)
    ensures
        config.delay_before_retry(k) <= config.max_backoff_ms,
{
}

/// A power of a natural number.
pub open spec fn power(base: nat, exponent: nat) -> nat
    decreases exponent,
{
    if exponent == 0 {
        1
    } else {
        base * power(base, (exponent - 1) as nat)
    }
}

/// What rounding can have taken from the delay before the k-th retry, in
/// units of `1 / 1000^(k-1)` milliseconds: each of the `k - 1` roundings
/// takes less than a millisecond, and every multiplication that follows
/// scales what was taken. In milliseconds it is the sum of the powers of
/// the multiplier from 0 to `k - 2`.
pub open spec fn rounding_slack(multiplier_milli: nat, k: nat) -> nat
    decreases k,
{
    if k <= 1 {
        0
    } else {
        rounding_slack(multiplier_milli, (k - 1) as nat) * multiplier_milli + power(
            1000,
            (k - 1) as nat,
        )
    }
}

proof fn lemma_power_ordered(small: nat, large: nat, exponent: nat)
    requires
        small <= large,
    ensures
        power(small, exponent) <= power(large, exponent),
    decreases exponent,
{
    if exponent > 0 {
        lemma_power_ordered(small, large, (exponent - 1) as nat);
        let a = power(small, (exponent - 1) as nat);
        let b = power(large, (exponent - 1) as nat);
        assert(small * a <= large * b) by (nonlinear_arith)
            requires
                small <= large,
                a <= b,
        ;
    }
}

proof fn lemma_backoff_at_most_exponential(config: RetryConfig, k: nat)
    requires
        k >= 1,
    ensures
        config.backoff_before_retry(k) * power(1000, (k - 1) as nat) <= config.initial_backoff_ms
            * power(config.backoff_multiplier_milli as nat, (k - 1) as nat),
    decreases k,
{
    if k > 1 {
        lemma_backoff_at_most_exponential(config, (k - 1) as nat);
        let m = config.backoff_multiplier_milli as int;
        let before = config.backoff_before_retry((k - 1) as nat) as int;
        let backoff = config.backoff_before_retry(k) as int;
        let scale = power(1000, (k - 2) as nat) as int;
        let growth = power(config.backoff_multiplier_milli as nat, (k - 2) as nat) as int;
        let initial = config.initial_backoff_ms as int;
        assert(backoff <= before * m / 1000);
        assert(backoff * 1000 <= before * m);
        assert(backoff * (1000 * scale) <= initial * (m * growth)) by (nonlinear_arith)
            requires
                backoff * 1000 <= before * m,
                before * scale <= initial * growth,
                scale >= 0,
                m >= 0,
        ;
    }
}

/// The delay before the k-th retry never exceeds the initial backoff
/// multiplied k - 1 times by the multiplier. Both sides are scaled by
/// `1000^(k-1)`, since the multiplier is held in thousandths.
pub proof fn lemma_delay_at_most_exponential(config: RetryConfig, k: nat)
    requires
        k >= 1,
    ensures
        config.delay_before_retry(k) * power(1000, (k - 1) as nat) <= config.initial_backoff_ms
            * power(config.backoff_multiplier_milli as nat, (k - 1) as nat),
{
    lemma_backoff_at_most_exponential(config, k);
    let scale = power(1000, (k - 1) as nat) as int;
    let backoff = config.backoff_before_retry(k) as int;
    let delay = config.delay_before_retry(k) as int;
    assert(delay * scale <= backoff * scale) by (nonlinear_arith)
        requires
            0 <= delay <= backoff,
            scale >= 0,
    ;
}

/// What the backoff before the k-th retry falls short of by rounding: it
/// is the exponential, or the largest `u64` where that is less, but for the
/// rounding slack.
proof fn lemma_backoff_within_rounding(config: RetryConfig, k: nat)
    requires
        k >= 1,
    ensures
        ({
            let scale = power(1000, (k - 1) as nat);
            let exponential = config.initial_backoff_ms * power(
                config.backoff_multiplier_milli as nat,
                (k - 1) as nat,
            );
            let ceiling = u64::MAX * scale;
            let target = if exponential <= ceiling {
                exponential
            } else {
                ceiling
            };
            config.backoff_before_retry(k) * scale + rounding_slack(
                config.backoff_multiplier_milli as nat,
                k,
            ) >= target
        }),
    decreases k,
{
    if k > 1 {
        lemma_backoff_within_rounding(config, (k - 1) as nat);
        let m = config.backoff_multiplier_milli as int;
        let before = config.backoff_before_retry((k - 1) as nat) as int;
        let backoff = config.backoff_before_retry(k) as int;
        let scale = power(1000, (k - 2) as nat) as int;
        let growth = power(config.backoff_multiplier_milli as nat, (k - 2) as nat) as int;
        let slack = rounding_slack(config.backoff_multiplier_milli as nat, (k - 1) as nat) as int;
        let initial = config.initial_backoff_ms as int;
        let top = u64::MAX as int;
        let quotient = before * m / 1000;
        let earlier_target = if initial * growth <= top * scale {
            initial * growth
        } else {
            top * scale
        };
        assert(before * scale + slack >= earlier_target);
        assert(power(1000, (k - 1) as nat) == 1000 * scale);
        assert(power(config.backoff_multiplier_milli as nat, (k - 1) as nat) == m * growth);
        assert(rounding_slack(config.backoff_multiplier_milli as nat, k) == slack * m + 1000
            * scale);
        if quotient > top {
            assert(backoff == top);
            assert(top * (1000 * scale) + (slack * m + 1000 * scale) >= top * (1000 * scale))
                by (nonlinear_arith)
                requires
                    slack >= 0,
                    m >= 0,
                    scale >= 0,
            ;
        } else {
            assert(backoff == quotient);
            assert(quotient * 1000 > before * m - 1000);
            assert(quotient * (1000 * scale) + (slack * m + 1000 * scale) >= m * (before * scale
                + slack)) by (nonlinear_arith)
                requires
                    quotient * 1000 > before * m - 1000,
                    scale >= 0,
            ;
            assert(m * (before * scale + slack) >= m * earlier_target) by (nonlinear_arith)
                requires
                    before * scale + slack >= earlier_target,
                    m >= 0,
            ;
            if m >= 1000 {
                assert(m * (top * scale) >= top * (1000 * scale)) by (nonlinear_arith)
                    requires
                        m >= 1000,
                        top >= 0,
                        scale >= 0,
                ;
                assert(m * (initial * growth) == initial * (m * growth)) by (nonlinear_arith);
            } else {
                lemma_power_ordered(config.backoff_multiplier_milli as nat, 1000, (k - 2) as nat);
                assert(initial * growth <= top * scale) by (nonlinear_arith)
                    requires
                        0 <= initial <= top,
                        0 <= growth <= scale,
                ;
                assert(m * (initial * growth) == initial * (m * growth)) by (nonlinear_arith);
            }
        }
    }
}

/// The delay before the k-th retry is `min(initial_backoff *
/// multiplier^(k-1), max_backoff)` within rounding tolerance, for every
/// configuration: it is never above that, and it falls short of it by no
/// more than the rounding slack. Both sides are scaled by `1000^(k-1)`.
pub proof fn lemma_delay_within_rounding(config: RetryConfig, k: nat)
    requires
        k >= 1,
    ensures
        ({
            let scale = power(1000, (k - 1) as nat);
            let exponential = config.initial_backoff_ms * power(
                config.backoff_multiplier_milli as nat,
                (k - 1) as nat,
            );
            let cap = config.max_backoff_ms * scale;
            let target = if exponential <= cap {
                exponential
            } else {
                cap
            };
            &&& config.delay_before_retry(k) * scale <= target
            &&& config.delay_before_retry(k) * scale + rounding_slack(
                config.backoff_multiplier_milli as nat,
                k,
            ) >= target
        }),
{
    lemma_backoff_within_rounding(config, k);
    lemma_delay_at_most_exponential(config, k);
    let scale = power(1000, (k - 1) as nat) as int;
    let backoff = config.backoff_before_retry(k) as int;
    let delay = config.delay_before_retry(k) as int;
    let max = config.max_backoff_ms as int;
    let top = u64::MAX as int;
    assert(delay * scale <= max * scale) by (nonlinear_arith)
        requires
            0 <= delay <= max,
            scale >= 0,
    ;
    assert(max * scale <= top * scale) by (nonlinear_arith)
        requires
            0 <= max <= top,
            scale >= 0,
    ;
    if backoff > max {
        assert(delay == max);
    } else {
        assert(delay == backoff);
    }
}

} // verus!
