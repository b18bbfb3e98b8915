//! The shared snapshot of the latest raw measurements.
use vstd::prelude::*;

verus! {

/// Bytes in one mebibyte.
pub const BYTES_PER_MB: u64 = 1048576;

/// Latest reading of each sampler; last write wins. Percentages are in
/// hundredths of a percent.
#[derive(Debug, Clone, Copy, PartialEq, Eq, Structural)]
pub struct SystemMetrics {
    pub cpu_usage: u32,
    pub memory_used_mb: u64,
    pub memory_total_mb: u64,
    pub memory_percent: u32,
}

/// One successful memory read, in bytes.
#[derive(Debug, Clone, Copy, PartialEq, Eq, Structural)]
pub struct MemoryReading {
    pub used_bytes: u64,
    pub total_bytes: u64,
}

/// Used share of total, in hundredths of a percent; zero when the total is
/// zero, and `u32::MAX` where the share does not fit.
pub open spec fn percent_of(used: u64, total: u64) -> u32 {
    if total == 0 {
        0
    } else if used as int * 10000 / total as int > u32::MAX {
        u32::MAX
    } else {
        (used as int * 10000 / total as int) as u32
    }
}

/// Whole mebibytes in a byte count.
pub fn bytes_to_mb(bytes: u64) -> (r: u64)
    ensures
        r == bytes / BYTES_PER_MB,
{
    bytes / BYTES_PER_MB
}

/// The memory share of a reading, as `percent_of` states it.
pub fn memory_percent(used: u64, total: u64) -> (r: u32)
    ensures
        r == percent_of(used, total),
{
    if total == 0 {
        0
    } else {
        let q: u128 = (used as u128 * 10000) / total as u128;
        if q > u32::MAX as u128 {
            u32::MAX
        } else {
            q as u32
        }
    }
}

impl SystemMetrics {
    /// The snapshot before any sampler has reported: all zero.
    pub fn new() -> (r: SystemMetrics)
        ensures
            r == (SystemMetrics {
                cpu_usage: 0,
                memory_used_mb: 0,
                memory_total_mb: 0,
                memory_percent: 0,
            }),
    {
        SystemMetrics { cpu_usage: 0, memory_used_mb: 0, memory_total_mb: 0, memory_percent: 0 }
    }

    /// Records a CPU read; a failed read (`None`) keeps the previous value.
    pub fn record_cpu(&mut self, reading: Option<u32>)
        ensures
            *final(self) == match reading {
                Some(v) => SystemMetrics { cpu_usage: v, ..*old(self) },
                None => *old(self),
            },
    {
        if let Some(v) = reading {
            self.cpu_usage = v;
        }
    }

    /// Records a memory read; a failed read (`None`) keeps the previous values.
    pub fn record_memory(&mut self, reading: Option<MemoryReading>)
        ensures
            *final(self) == match reading {
                Some(m) => SystemMetrics {
                    memory_used_mb: m.used_bytes / BYTES_PER_MB,
                    memory_total_mb: m.total_bytes / BYTES_PER_MB,
                    memory_percent: percent_of(m.used_bytes, m.total_bytes),
                    ..*old(self)
                },
                None => *old(self),
            },
    {
        if let Some(m) = reading {
            self.memory_used_mb = bytes_to_mb(m.used_bytes);
            self.memory_total_mb = bytes_to_mb(m.total_bytes);
            self.memory_percent = memory_percent(m.used_bytes, m.total_bytes);
        }
    }
}

} // verus!
