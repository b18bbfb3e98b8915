//! Process configuration. Percentages are held in hundredths of a percent.
use vstd::prelude::*;
use crate::sampler::ThresholdRule;

verus! {

/// Where the configuration is read from when no override is given.
pub const DEFAULT_CONFIG_PATH: &'static str = "./config/default.toml";

#[derive(Debug, Clone)]
pub struct Config {
    pub agent: AgentConfig,
    pub ipc: IpcConfig,
    pub llm: LlmConfig,
    pub storage: StorageConfig,
}

#[derive(Debug, Clone)]
pub struct AgentConfig {
    pub memory_budget: usize,
    pub disk_quota: usize,
    pub cpu_interval: u64,
    pub proc_interval: u64,
    pub event_ring_capacity: usize,
    pub thresholds: ThresholdsConfig,
}

/// Warning and critical levels per resource, and the number of consecutive
/// warning-band CPU samples needed before a CPU warning fires.
#[derive(Debug, Clone, Copy, PartialEq, Eq, Structural)]
pub struct ThresholdsConfig {
    pub cpu_warning: u32,
    pub cpu_critical: u32,
    pub memory_warning: u32,
    pub memory_critical: u32,
    pub cpu_sustained_count: u32,
}

#[derive(Debug, Clone)]
pub struct IpcConfig {
    pub socket_path: String,
}

#[derive(Debug, Clone)]
pub struct LlmConfig {
    pub ollama_url: String,
    pub model: String,
}

#[derive(Debug, Clone)]
pub struct StorageConfig {
    pub db_path: String,
}

pub fn default_cpu_warning() -> (r: u32)
    ensures
        r == 8000,
{
    8000
}

pub fn default_cpu_critical() -> (r: u32)
    ensures
        r == 9500,
{
    9500
}

pub fn default_memory_warning() -> (r: u32)
    ensures
        r == 8500,
{
    8500
}

pub fn default_memory_critical() -> (r: u32)
    ensures
        r == 9500,
{
    9500
}

pub fn default_cpu_sustained_count() -> (r: u32)
    ensures
        r == 2,
{
    2
}

/// The thresholds used when the configuration names none.
pub fn default_thresholds() -> (r: ThresholdsConfig)
    ensures
        r == (ThresholdsConfig {
            cpu_warning: 8000,
            cpu_critical: 9500,
            memory_warning: 8500,
            memory_critical: 9500,
            cpu_sustained_count: 2,
        }),
{
    ThresholdsConfig {
        cpu_warning: default_cpu_warning(),
        cpu_critical: default_cpu_critical(),
        memory_warning: default_memory_warning(),
        memory_critical: default_memory_critical(),
        cpu_sustained_count: default_cpu_sustained_count(),
    }
}

impl ThresholdsConfig {
    /// The CPU sampler's rule.
    pub fn cpu_rule(&self) -> (r: ThresholdRule)
        ensures
            r == (ThresholdRule {
                warning: self.cpu_warning,
                critical: self.cpu_critical,
                sustained_count: self.cpu_sustained_count,
            }),
    {
        ThresholdRule {
            warning: self.cpu_warning,
            critical: self.cpu_critical,
            sustained_count: self.cpu_sustained_count,
        }
    }

    /// The memory sampler's rule: a warning fires on every warning-band sample.
    pub fn memory_rule(&self) -> (r: ThresholdRule)
        ensures
            r == (ThresholdRule {
                warning: self.memory_warning,
                critical: self.memory_critical,
                sustained_count: 1,
            }),
    {
        ThresholdRule {
            warning: self.memory_warning,
            critical: self.memory_critical,
            sustained_count: 1,
        }
    }
}

impl Config {
    /// The configuration path: the override when one is set, else the
    /// default location.
    pub fn default_path(override_path: Option<String>) -> (r: String)
        ensures
            r@ == match override_path {
                Some(p) => p@,
                None => DEFAULT_CONFIG_PATH@,
            },
    {
        match override_path {
            Some(p) => p,
            None => DEFAULT_CONFIG_PATH.to_string(),
        }
    }
}

} // verus!
