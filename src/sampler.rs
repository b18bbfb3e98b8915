//! Threshold evaluation for the periodic metric samplers.
//!
//! Readings and thresholds are percentages held in hundredths of a percent
//! (`9700` is 97%).
use vstd::prelude::*;

verus! {

/// Classification of an event.
#[derive(Debug, Clone, Copy, PartialEq, Eq, Structural)]
pub enum Severity {
    Info,
    Warning,
    Critical,
}

/// Warning and critical levels of one resource, with the number of
/// consecutive warning-band samples that must be seen before a warning fires.
#[derive(Debug, Clone, Copy, PartialEq, Eq, Structural)]
pub struct ThresholdRule {
    pub warning: u32,
    pub critical: u32,
    pub sustained_count: u32,
}

/// The counter after one more warning-band sample (it stops at `u32::MAX`).
pub open spec fn bumped(count: u32) -> u32 {
    if count == u32::MAX {
        count
    } else {
        (count + 1) as u32
    }
}

/// One tick of threshold logic: the counter after the sample, and the event
/// severity produced on that tick, if any.
pub open spec fn step(count: u32, rule: ThresholdRule, value: u32) -> (u32, Option<Severity>) {
    if value > rule.critical {
        (0, Some(Severity::Critical))
    } else if value > rule.warning {
        let c = bumped(count);
        (c, if c >= rule.sustained_count { Some(Severity::Warning) } else { None })
    } else {
        (0, None)
    }
}

/// The counter after a run of samples.
pub open spec fn run_count(count: u32, rule: ThresholdRule, values: Seq<u32>) -> u32
    decreases values.len(),
{
    if values.len() == 0 {
        count
    } else {
        run_count(step(count, rule, values[0]).0, rule, values.drop_first())
    }
}

/// What each sample of a run produces, in order.
pub open spec fn run_events(count: u32, rule: ThresholdRule, values: Seq<u32>) -> Seq<
    Option<Severity>,
>
    decreases values.len(),
{
    if values.len() == 0 {
        Seq::empty()
    } else {
        let (c, e) = step(count, rule, values[0]);
        seq![e] + run_events(c, rule, values.drop_first())
    }
}

/// A value strictly above the warning level and at most the critical level.
pub open spec fn in_warning_band(rule: ThresholdRule, value: u32) -> bool {
    rule.warning < value && value <= rule.critical
}

/// The counter after `n` warning-band samples starting from `count`.
pub open spec fn count_after(count: u32, n: nat) -> u32 {
    if count + n > u32::MAX {
        u32::MAX
    } else {
        (count + n) as u32
    }
}

/// Per-resource sampler state: the number of consecutive warning-band samples.
pub struct Sampler {
    pub rule: ThresholdRule,
    pub consecutive: u32,
}

impl Sampler {
    /// A sampler with its counter at zero.
    pub fn new(rule: ThresholdRule) -> (r: Sampler)
        ensures
            r.rule == rule,
            r.consecutive == 0,
    {
        Sampler { rule, consecutive: 0 }
    }

    /// Applies the threshold logic to one reading and returns the severity of
    /// the event to emit on this tick, if any.
    pub fn observe(&mut self, value: u32) -> (r: Option<Severity>)
        ensures
            final(self).rule == old(self).rule,
            (final(self).consecutive, r) == step(old(self).consecutive, old(self).rule, value),
    {
        if value > self.rule.critical {
            self.consecutive = 0;
            Some(Severity::Critical)
        } else if value > self.rule.warning {
            self.consecutive = self.consecutive.saturating_add(1);
            if self.consecutive >= self.rule.sustained_count {
                Some(Severity::Warning)
            } else {
                None
            }
        } else {
            self.consecutive = 0;
            None
        }
    }
}

/// A reading above the critical level produces a critical event on that tick
/// and leaves the consecutive-warning counter at zero.
pub proof fn lemma_critical_fires(count: u32, rule: ThresholdRule, value: u32)
    requires
        value > rule.critical,
    ensures
        step(count, rule, value) == (0u32, Some(Severity::Critical)),
{
}

/// Along a run of warning-band samples, the sample at index `i` produces a
/// warning exactly when the counter has reached the sustained count by then;
/// so from a zero counter the first warning comes at sample `sustained_count`
/// and one comes on every later sample that stays in the band.
pub proof fn lemma_sustained_warnings(count: u32, rule: ThresholdRule, values: Seq<u32>)
    requires
        forall|i: int| 0 <= i < values.len() ==> in_warning_band(rule, #[trigger] values[i]),
    ensures
        run_events(count, rule, values).len() == values.len(),
        run_count(count, rule, values) == count_after(count, values.len()),
        forall|i: int|
            0 <= i < values.len() ==> #[trigger] run_events(count, rule, values)[i] == (if count_after(
                count,
                (i + 1) as nat,
            ) >= rule.sustained_count {
                Some(Severity::Warning)
            } else {
                None
            }),
    decreases values.len(),
{
    if values.len() > 0 {
        let rest = values.drop_first();
        assert(in_warning_band(rule, values[0]));
        let c = bumped(count);
        assert(c == count_after(count, 1));
        assert forall|i: int| 0 <= i < rest.len() implies in_warning_band(
            rule,
            #[trigger] rest[i],
        ) by {
            assert(rest[i] == values[i + 1]);
        }
        lemma_sustained_warnings(c, rule, rest);
        assert forall|i: int| 0 <= i < values.len() implies #[trigger] run_events(
            count,
            rule,
            values,
        )[i] == (if count_after(count, (i + 1) as nat) >= rule.sustained_count {
            Some(Severity::Warning)
        } else {
            None
        }) by {
            if i > 0 {
                assert(run_events(count, rule, values)[i] == run_events(c, rule, rest)[i - 1]);
                assert(count_after(c, i as nat) == count_after(count, (i + 1) as nat));
            }
        }
    }
}

/// A single sample at or below the warning level resets the counter to zero,
/// so the warnings that follow need a fresh run of `sustained_count` samples:
/// after the reset, the `k`-th band sample (from 1) warns exactly when
/// `k >= sustained_count`.
pub proof fn lemma_reset_restarts_run(
    count: u32,
    rule: ThresholdRule,
    low: u32,
    values: Seq<u32>,
)
    requires
        rule.warning <= rule.critical,
        low <= rule.warning,
        forall|i: int| 0 <= i < values.len() ==> in_warning_band(rule, #[trigger] values[i]),
    ensures
        step(count, rule, low) == (0u32, None::<Severity>),
        forall|i: int|
            0 <= i < values.len() ==> #[trigger] run_events(count, rule, seq![low] + values)[i
                + 1] == (if i + 1 >= rule.sustained_count {
                Some(Severity::Warning)
            } else {
                None
            }),
{
    let all = seq![low] + values;
    assert(all.drop_first() =~= values);
    assert(all[0] == low);
    lemma_sustained_warnings(0, rule, values);
    assert forall|i: int| 0 <= i < values.len() implies #[trigger] run_events(
        count,
        rule,
        all,
    )[i + 1] == (if i + 1 >= rule.sustained_count {
        Some(Severity::Warning)
    } else {
        None
    }) by {
        assert(run_events(count, rule, all)[i + 1] == run_events(0, rule, values)[i]);
        if i + 1 <= u32::MAX {
            assert(count_after(0, (i + 1) as nat) == i + 1);
        }
    }
}

} // verus!
