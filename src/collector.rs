//! One tick of each resource sampler: update the shared snapshot, then apply
//! the threshold rule.
use vstd::prelude::*;
use crate::metrics::{BYTES_PER_MB, MemoryReading, SystemMetrics, percent_of};
use crate::sampler::{Sampler, Severity, step};

verus! {

/// Pause taken by the CPU sampler before each measurement, in milliseconds.
pub const CPU_SETTLE_MILLIS: u64 = 250;

/// Time the CPU sampler sleeps after a measurement, in milliseconds: the
/// interval less the settle pause (never below zero), or one second when the
/// interval is zero.
pub fn cpu_rest_millis(interval_secs: u64) -> (r: u128)
    ensures
        r == if interval_secs > 0 {
            if interval_secs * 1000 >= CPU_SETTLE_MILLIS {
                (interval_secs * 1000 - CPU_SETTLE_MILLIS) as u128
            } else {
                0u128
            }
        } else {
            1000u128
        },
{
    if interval_secs > 0 {
        let ms: u128 = interval_secs as u128 * 1000;
        if ms >= CPU_SETTLE_MILLIS as u128 {
            ms - CPU_SETTLE_MILLIS as u128
        } else {
            0
        }
    } else {
        1000
    }
}

/// A CPU tick. The snapshot takes the reading (or keeps the last one when the
/// read failed); a failed read produces no event and leaves the counter alone.
pub fn cpu_tick(sampler: &mut Sampler, metrics: &mut SystemMetrics, reading: Option<u32>) -> (r:
    Option<Severity>)
    ensures
        final(sampler).rule == old(sampler).rule,
        *final(metrics) == match reading {
            Some(v) => SystemMetrics { cpu_usage: v, ..*old(metrics) },
            None => *old(metrics),
        },
        match reading {
            Some(v) => (final(sampler).consecutive, r) == step(
                old(sampler).consecutive,
                old(sampler).rule,
                v,
            ),
            None => final(sampler).consecutive == old(sampler).consecutive && r.is_none(),
        },
{
    metrics.record_cpu(reading);
    match reading {
        Some(v) => sampler.observe(v),
        None => None,
    }
}

/// A memory tick: as for the CPU, on the used share of total memory.
pub fn memory_tick(
    sampler: &mut Sampler,
    metrics: &mut SystemMetrics,
    reading: Option<MemoryReading>,
) -> (r: Option<Severity>)
    ensures
        final(sampler).rule == old(sampler).rule,
        match reading {
            Some(m) => {
                &&& *final(metrics) == SystemMetrics {
                    memory_used_mb: m.used_bytes / BYTES_PER_MB,
                    memory_total_mb: m.total_bytes / BYTES_PER_MB,
                    memory_percent: percent_of(m.used_bytes, m.total_bytes),
                    ..*old(metrics)
                }
                &&& (final(sampler).consecutive, r) == step(
                    old(sampler).consecutive,
                    old(sampler).rule,
                    percent_of(m.used_bytes, m.total_bytes),
                )
            },
            None => *final(metrics) == *old(metrics) && final(sampler).consecutive == old(
                sampler,
            ).consecutive && r.is_none(),
        },
{
    metrics.record_memory(reading);
    match reading {
        Some(_) => sampler.observe(metrics.memory_percent),
        None => None,
    }
}

} // verus!
