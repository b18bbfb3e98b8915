use sia::collector::{cpu_rest_millis, cpu_tick, memory_tick};
use sia::config::{
    default_cpu_critical, default_cpu_sustained_count, default_cpu_warning,
    default_memory_critical, default_memory_warning, default_thresholds, Config,
};
use sia::metrics::{bytes_to_mb, memory_percent, MemoryReading, SystemMetrics};
use sia::event::{evidence_facts, Resource};
use sia::sampler::{Sampler, Severity, ThresholdRule};

fn cpu_rule() -> ThresholdRule {
    ThresholdRule { warning: 8000, critical: 9500, sustained_count: 2 }
}

#[test]
fn cpu_scenario_critical_then_sustained_warning() {
    let mut sampler = Sampler::new(cpu_rule());
    let mut metrics = SystemMetrics::new();
    assert_eq!(cpu_tick(&mut sampler, &mut metrics, Some(9700)), Some(Severity::Critical));
    assert_eq!(metrics.cpu_usage, 9700);
    assert_eq!(sampler.consecutive, 0);
    assert_eq!(cpu_tick(&mut sampler, &mut metrics, Some(8500)), None);
    assert_eq!(sampler.consecutive, 1);
    assert_eq!(cpu_tick(&mut sampler, &mut metrics, Some(8500)), Some(Severity::Warning));
    assert_eq!(sampler.consecutive, 2);
    assert_eq!(metrics.cpu_usage, 8500);
}

#[test]
fn critical_resets_counter() {
    let mut sampler = Sampler::new(cpu_rule());
    sampler.observe(8100);
    assert_eq!(sampler.consecutive, 1);
    assert_eq!(sampler.observe(9501), Some(Severity::Critical));
    assert_eq!(sampler.consecutive, 0);
}

#[test]
fn warnings_keep_firing_in_band() {
    let mut sampler = Sampler::new(ThresholdRule { warning: 8000, critical: 9500, sustained_count: 3 });
    let got: Vec<Option<Severity>> = [8100, 9000, 9500, 8001, 8500].iter().map(|v| sampler.observe(*v)).collect();
    assert_eq!(got, vec![None, None, Some(Severity::Warning), Some(Severity::Warning), Some(Severity::Warning)]);
    assert_eq!(sampler.consecutive, 5);
}

#[test]
fn below_warning_sample_restarts_run() {
    let mut sampler = Sampler::new(cpu_rule());
    sampler.observe(8500);
    assert_eq!(sampler.observe(8500), Some(Severity::Warning));
    assert_eq!(sampler.observe(8000), None);
    assert_eq!(sampler.consecutive, 0);
    assert_eq!(sampler.observe(8500), None);
    assert_eq!(sampler.observe(8500), Some(Severity::Warning));
}

#[test]
fn value_equal_to_critical_is_warning_band() {
    let mut sampler = Sampler::new(ThresholdRule { warning: 8000, critical: 9500, sustained_count: 1 });
    assert_eq!(sampler.observe(9500), Some(Severity::Warning));
    assert_eq!(sampler.observe(8000), None);
}

#[test]
fn counter_saturates() {
    let mut sampler = Sampler { rule: cpu_rule(), consecutive: u32::MAX };
    assert_eq!(sampler.observe(9000), Some(Severity::Warning));
    assert_eq!(sampler.consecutive, u32::MAX);
}

#[test]
fn failed_read_keeps_previous_value() {
    let mut sampler = Sampler::new(cpu_rule());
    let mut metrics = SystemMetrics::new();
    assert_eq!(cpu_tick(&mut sampler, &mut metrics, None), None);
    assert_eq!(metrics.cpu_usage, 0);
    cpu_tick(&mut sampler, &mut metrics, Some(8500));
    assert_eq!(cpu_tick(&mut sampler, &mut metrics, None), None);
    assert_eq!(metrics.cpu_usage, 8500);
    assert_eq!(sampler.consecutive, 1);
}

#[test]
fn memory_tick_updates_snapshot_and_fires() {
    let thresholds = default_thresholds();
    let mut sampler = Sampler::new(thresholds.memory_rule());
    let mut metrics = SystemMetrics::new();
    metrics.record_cpu(Some(1234));
    let gib: u64 = 1024 * 1024 * 1024;
    let reading = MemoryReading { used_bytes: 9 * gib, total_bytes: 10 * gib };
    assert_eq!(memory_tick(&mut sampler, &mut metrics, Some(reading)), Some(Severity::Warning));
    assert_eq!(metrics.memory_used_mb, 9216);
    assert_eq!(metrics.memory_total_mb, 10240);
    assert_eq!(metrics.memory_percent, 9000);
    assert_eq!(metrics.cpu_usage, 1234);
    let full = MemoryReading { used_bytes: 99 * gib, total_bytes: 100 * gib };
    assert_eq!(memory_tick(&mut sampler, &mut metrics, Some(full)), Some(Severity::Critical));
    assert_eq!(memory_tick(&mut sampler, &mut metrics, None), None);
    assert_eq!(metrics.memory_percent, 9900);
    let low = MemoryReading { used_bytes: gib, total_bytes: 10 * gib };
    assert_eq!(memory_tick(&mut sampler, &mut metrics, Some(low)), None);
}

#[test]
fn memory_percent_values() {
    assert_eq!(memory_percent(1, 3), 3333);
    assert_eq!(memory_percent(5, 0), 0);
    assert_eq!(memory_percent(u64::MAX, 1), u32::MAX);
    assert_eq!(memory_percent(u64::MAX, u64::MAX), 10000);
    assert_eq!(bytes_to_mb(3 * 1048576 + 5), 3);
}

#[test]
fn rest_between_cpu_samples() {
    assert_eq!(cpu_rest_millis(5), 4750);
    assert_eq!(cpu_rest_millis(0), 1000);
    assert_eq!(cpu_rest_millis(u64::MAX), u64::MAX as u128 * 1000 - 250);
}

#[test]
fn default_threshold_values() {
    let t = default_thresholds();
    assert_eq!(t.cpu_warning, 8000);
    assert_eq!(t.cpu_critical, 9500);
    assert_eq!(t.memory_warning, 8500);
    assert_eq!(t.memory_critical, 9500);
    assert_eq!(t.cpu_sustained_count, 2);
    assert_eq!(default_cpu_warning(), 8000);
    assert_eq!(default_cpu_critical(), 9500);
    assert_eq!(default_memory_warning(), 8500);
    assert_eq!(default_memory_critical(), 9500);
    assert_eq!(default_cpu_sustained_count(), 2);
    assert_eq!(t.cpu_rule(), ThresholdRule { warning: 8000, critical: 9500, sustained_count: 2 });
    assert_eq!(t.memory_rule(), ThresholdRule { warning: 8500, critical: 9500, sustained_count: 1 });
}

#[test]
fn config_path_override() {
    assert_eq!(Config::default_path(None), "./config/default.toml");
    assert_eq!(Config::default_path(Some("/etc/sia.toml".to_string())), "/etc/sia.toml");
}

#[test]
fn evidence_records_crossed_level() {
    let rule = cpu_rule();
    let c = evidence_facts(Resource::Cpu, Severity::Critical, &rule);
    assert_eq!((c.threshold, c.sustained), (9500, Some(false)));
    let w = evidence_facts(Resource::Cpu, Severity::Warning, &rule);
    assert_eq!((w.threshold, w.sustained), (8000, Some(true)));
    let m = evidence_facts(Resource::Memory, Severity::Warning, &rule);
    assert_eq!((m.threshold, m.sustained), (8000, None));
}
