//! The generic update step shared by all clamped continuous parameters.

use vstd::prelude::*;

verus! {

/// A named continuous scalar in fixed-point micro-units, kept inside its
/// inclusive `[min, max]` bounds.
#[derive(Copy, Clone, PartialEq, Eq, Structural, Debug)]
pub struct ParameterChanger {
    pub value: i64,
    pub min: i64,
    pub max: i64,
}

/// What one update step reports back, so the caller can turn it into the
/// parameter's own notifications.
#[derive(Copy, Clone, PartialEq, Eq, Structural, Debug)]
pub struct ParamOutcome {
    /// The value at the end of the tick differs from the value at its start.
    pub changed: bool,
    /// Clamping raised the raw computed value up to `min`.
    pub min_reached: bool,
    /// Clamping lowered the raw computed value down to `max`.
    pub max_reached: bool,
}

impl ParameterChanger {
    pub open spec fn wf(self) -> bool {
        self.min <= self.value <= self.max
    }

    /// The raw value one step computes before clamping: an override payload
    /// wins over progression; otherwise the step is added and/or subtracted.
    pub open spec fn spec_raw(self, increase: bool, decrease: bool, override_value: Option<i64>, step: i64) -> int {
        match override_value {
            Some(v) => v as int,
            None => self.value + (if increase { step as int } else { 0 }) - (if decrease { step as int } else { 0 }),
        }
    }

    /// The raw value forced back into `[min, max]`.
    pub open spec fn spec_clamped(self, raw: int) -> int {
        if raw < self.min {
            self.min as int
        } else if raw > self.max {
            self.max as int
        } else {
            raw
        }
    }

    /// One tick's update: progression by `step` while `increase`/`decrease`
    /// are held, overridden outright by an injected payload, then clamped.
    /// The outcome says whether the value changed over the tick and whether
    /// a bound cut the raw value, so that a change notification and a
    /// boundary notification can each fire at most once per tick.
    pub fn update(&mut self, increase: bool, decrease: bool, override_value: Option<i64>, step: i64) -> (r: ParamOutcome)
        requires
            old(self).wf(),
            step >= 0,
        ensures
            final(self).wf(),
            final(self).min == old(self).min,
            final(self).max == old(self).max,
            final(self).value == old(self).spec_clamped(
                old(self).spec_raw(increase, decrease, override_value, step),
            ),
            r.changed == (final(self).value != old(self).value),
            r.min_reached == (old(self).spec_raw(increase, decrease, override_value, step)
                < old(self).min),
            r.max_reached == (old(self).spec_raw(increase, decrease, override_value, step)
                > old(self).max),
    {
        let raw: i128 = match override_value {
            Some(v) => v as i128,
            None => {
                let mut raw: i128 = self.value as i128;
                if increase {
                    raw = raw + step as i128;
                }
                if decrease {
                    raw = raw - step as i128;
                }
                raw
            },
        };
        let before = self.value;
        let min_reached = raw < self.min as i128;
        let max_reached = raw > self.max as i128;
        self.value = if min_reached {
            self.min
        } else if max_reached {
            self.max
        } else {
            raw as i64
        };
        ParamOutcome { changed: self.value != before, min_reached, max_reached }
    }
}

/// Whatever the inputs of a step are, the resulting value lies in
/// `[min, max]`, and a boundary is reported exactly when clamping altered
/// the raw computed value.
pub proof fn lemma_param_update_in_bounds(
    c: ParameterChanger,
    increase: bool,
    decrease: bool,
    override_value: Option<i64>,
    step: i64,
)
    requires
        c.wf(),
    ensures
        c.min <= c.spec_clamped(c.spec_raw(increase, decrease, override_value, step)) <= c.max,
        (c.spec_clamped(c.spec_raw(increase, decrease, override_value, step)) != c.spec_raw(
            increase,
            decrease,
            override_value,
            step,
        )) == (c.spec_raw(increase, decrease, override_value, step) < c.min || c.spec_raw(
            increase,
            decrease,
            override_value,
            step,
        ) > c.max),
{
}

/// A tick longer than this many milliseconds progresses a parameter as if
/// it were exactly this long.
pub const DT_CAP_MS: u64 = 1_000_000_000;

/// The progression step `rate * dt_ms / divisor`, truncated toward zero,
/// with the tick length capped and the result saturated into `i64` range.
pub open spec fn spec_progression_step(rate: i64, dt_ms: u64, divisor: u64) -> int {
    let dt = if dt_ms > DT_CAP_MS {
        DT_CAP_MS as int
    } else {
        dt_ms as int
    };
    let exact = rate * dt / divisor as int;
    if exact > i64::MAX {
        i64::MAX as int
    } else {
        exact
    }
}

/// The progression step a held increase/decrease key contributes this tick.
pub fn progression_step(rate: i64, dt_ms: u64, divisor: u64) -> (r: i64)
    requires
        rate >= 0,
        divisor > 0,
    ensures
        r == spec_progression_step(rate, dt_ms, divisor),
        r >= 0,
{
    let dt: u64 = if dt_ms > DT_CAP_MS {
        DT_CAP_MS
    } else {
        dt_ms
    };
    proof {
        assert(rate as int * dt as int <= 9_223_372_036_854_775_807 * 1_000_000_000) by (nonlinear_arith)
            requires
                0 <= rate as int <= 9_223_372_036_854_775_807,
                0 <= dt as int <= 1_000_000_000,
        ;
        assert(rate as int * dt as int >= 0) by (nonlinear_arith)
            requires
                0 <= rate as int,
                0 <= dt as int,
        ;
    }
    let wide: i128 = rate as i128 * dt as i128 / divisor as i128;
    if wide > i64::MAX as i128 {
        i64::MAX
    } else {
        wide as i64
    }
}

} // verus!
