//! Per-run configuration and its load-time validation.
//!
//! All weights and thresholds are fixed-point per-mille values: `n` stands
//! for `n / 1000`. A configuration is immutable once validated; an invalid
//! one is a fatal startup error and never a runtime condition, so every
//! function of the engine that reads a configuration may assume a valid one.

use vstd::prelude::*;

verus! {

/// Scan cadence and the final verdict threshold.
#[derive(Clone, Debug)]
pub struct ScanConfig {
    pub interval_seconds: u64,
    /// Overall score at or above which a report is flagged, per-mille.
    pub risk_threshold: u32,
    pub interview_type: String,
}

/// Relative weight of each module's signal in the final fusion, per-mille.
/// The five weights must sum to 1.0 within a tolerance of 0.01.
#[derive(Clone, Debug)]
pub struct WeightsConfig {
    pub process_risk: u32,
    pub overlay_risk: u32,
    pub audio_risk: u32,
    pub hardware_risk: u32,
    pub vm_risk: u32,
}

/// Module-local flagging cutoffs, per-mille.
#[derive(Clone, Debug)]
pub struct ThresholdsConfig {
    pub process_threshold: u32,
    pub hardware_threshold: u32,
    pub audio_threshold: u32,
    pub overlay_threshold: u32,
}

/// Allow-listed process-name substrings and directory-path prefixes.
#[derive(Clone, Debug)]
pub struct WhitelistConfig {
    pub processes: Vec<String>,
    pub directories: Vec<String>,
}

/// Enable flags for each module and for baseline collection.
#[derive(Clone, Debug)]
pub struct MonitoringConfig {
    pub enable_process_monitoring: bool,
    pub enable_hardware_monitoring: bool,
    pub enable_audio_monitoring: bool,
    pub enable_overlay_monitoring: bool,
    pub enable_vm_detection: bool,
    pub collect_baseline: bool,
    pub baseline_duration_seconds: u64,
    pub continue_on_module_failure: bool,
}

/// Immutable per-run configuration.
#[derive(Clone, Debug)]
pub struct Config {
    pub scan: ScanConfig,
    pub weights: WeightsConfig,
    pub thresholds: ThresholdsConfig,
    pub whitelist: WhitelistConfig,
    pub monitoring: MonitoringConfig,
}

/// Why a configuration was rejected at load.
#[derive(Clone, Copy, Debug, PartialEq, Eq, Structural)]
pub enum ConfigError {
    /// The five weights do not sum to 1.0 within the 0.01 tolerance.
    InvalidWeightSum,
    /// The overall risk threshold lies outside the unit interval.
    InvalidRiskThreshold,
}

impl ConfigError {
    /// A human-readable description of the rejection.
    pub fn message(&self) -> (r: String)
        ensures
            *self == ConfigError::InvalidWeightSum ==> r@ == "Weights must sum to 1.0"@,
            *self == ConfigError::InvalidRiskThreshold ==> r@
                == "risk_threshold must be between 0.0 and 1.0"@,
    {
        match self {
            ConfigError::InvalidWeightSum => "Weights must sum to 1.0".to_owned(),
            ConfigError::InvalidRiskThreshold => "risk_threshold must be between 0.0 and 1.0".to_owned(),
        }
    }
}

/// Sum of the five module weights.
pub open spec fn weights_total(w: &WeightsConfig) -> int {
    w.process_risk + w.overlay_risk + w.audio_risk + w.hardware_risk + w.vm_risk
}

impl Config {
    /// A configuration is valid when its weights sum to 1.0 within the 0.01
    /// tolerance and its overall risk threshold lies in the unit interval.
    pub open spec fn is_valid(&self) -> bool {
        &&& 990 <= weights_total(&self.weights) <= 1010
        &&& self.scan.risk_threshold <= 1000
    }

    /// Check the load-time invariants, reporting the first violation.
    pub fn validate(&self) -> (r: Result<(), ConfigError>)
        ensures
            r is Ok <==> self.is_valid(),
            r == Err::<(), ConfigError>(ConfigError::InvalidWeightSum) <==> !(990
                <= weights_total(&self.weights) <= 1010),
            r == Err::<(), ConfigError>(ConfigError::InvalidRiskThreshold) <==> (990
                <= weights_total(&self.weights) <= 1010 && self.scan.risk_threshold > 1000),
    {
        let sum: u64 = self.weights.process_risk as u64 + self.weights.overlay_risk as u64
            + self.weights.audio_risk as u64 + self.weights.hardware_risk as u64
            + self.weights.vm_risk as u64;
        if sum < 990 || sum > 1010 {
            return Err(ConfigError::InvalidWeightSum);
        }
        if self.scan.risk_threshold > 1000 {
            return Err(ConfigError::InvalidRiskThreshold);
        }
        Ok(())
    }

    /// The built-in configuration used when no config file is present.
    pub fn default() -> (r: Config)
        ensures
            r.scan.interval_seconds == 30,
            r.scan.risk_threshold == 500,
            r.scan.interview_type@ == "coding"@,
            r.weights.process_risk == 300,
            r.weights.overlay_risk == 200,
            r.weights.audio_risk == 100,
            r.weights.hardware_risk == 150,
            r.weights.vm_risk == 250,
            r.thresholds.process_threshold == 600,
            r.thresholds.hardware_threshold == 500,
            r.thresholds.audio_threshold == 300,
            r.thresholds.overlay_threshold == 400,
            r.whitelist.processes@.map_values(|s: String| s@) == seq![
                "code.exe"@,
                "vscode.exe"@,
                "chrome.exe"@,
                "firefox.exe"@,
                "msedge.exe"@,
            ],
            r.whitelist.directories@.map_values(|s: String| s@) == seq![
                "C:\\Program Files\\Git"@,
                "C:\\Windows\\System32"@,
                "/usr/bin"@,
                "/Applications"@,
            ],
            r.monitoring.enable_process_monitoring,
            r.monitoring.enable_hardware_monitoring,
            r.monitoring.enable_audio_monitoring,
            r.monitoring.enable_overlay_monitoring,
            r.monitoring.enable_vm_detection,
            r.monitoring.collect_baseline,
            r.monitoring.baseline_duration_seconds == 10,
            r.monitoring.continue_on_module_failure,
            r.is_valid(),
    {
        let mut processes: Vec<String> = Vec::new();
        processes.push("code.exe".to_owned());
        processes.push("vscode.exe".to_owned());
        processes.push("chrome.exe".to_owned());
        processes.push("firefox.exe".to_owned());
        processes.push("msedge.exe".to_owned());
        let mut directories: Vec<String> = Vec::new();
        directories.push("C:\\Program Files\\Git".to_owned());
        directories.push("C:\\Windows\\System32".to_owned());
        directories.push("/usr/bin".to_owned());
        directories.push("/Applications".to_owned());
        let r = Config {
            scan: ScanConfig {
                interval_seconds: 30,
                risk_threshold: 500,
                interview_type: "coding".to_owned(),
            },
            weights: WeightsConfig {
                process_risk: 300,
                overlay_risk: 200,
                audio_risk: 100,
                hardware_risk: 150,
                vm_risk: 250,
            },
            thresholds: ThresholdsConfig {
                process_threshold: 600,
                hardware_threshold: 500,
                audio_threshold: 300,
                overlay_threshold: 400,
            },
            whitelist: WhitelistConfig { processes, directories },
            monitoring: MonitoringConfig {
                enable_process_monitoring: true,
                enable_hardware_monitoring: true,
                enable_audio_monitoring: true,
                enable_overlay_monitoring: true,
                enable_vm_detection: true,
                collect_baseline: true,
                baseline_duration_seconds: 10,
                continue_on_module_failure: true,
            },
        };
        proof {
            assert(r.whitelist.processes@.map_values(|s: String| s@) =~= seq![
                "code.exe"@,
                "vscode.exe"@,
                "chrome.exe"@,
                "firefox.exe"@,
                "msedge.exe"@,
            ]);
            assert(r.whitelist.directories@.map_values(|s: String| s@) =~= seq![
                "C:\\Program Files\\Git"@,
                "C:\\Windows\\System32"@,
                "/usr/bin"@,
                "/Applications"@,
            ]);
        }
        r
    }
}

/// Law: every configuration that passed validation has weights summing to
/// 1.0 within the 0.01 tolerance.
pub proof fn lemma_valid_config_weight_sum(c: &Config)
    requires
        c.is_valid(),
    ensures
        990 <= weights_total(&c.weights) <= 1010,
{
}

} // verus!
