//! The fault-isolating module orchestrator and the final cross-module risk
//! fusion.
//!
//! Each scan cycle the embedding program gathers raw evidence for every
//! enabled module, catching any abnormal termination and handing in
//! `ModuleOutcome::Failed` for a module whose probe misbehaved. The detector
//! runs the module logic on what arrived, records one failure entry per
//! failed module, fuses the surviving signals into one clamped overall score,
//! and always yields a complete report: a single module's fault never aborts
//! the cycle or disturbs its siblings' results.

use vstd::prelude::*;
use crate::clamp_permille;
use crate::audio::AudioCaptureDetector;
use crate::config::{Config, WeightsConfig};
use crate::hardware::{
    DisplayConfiguration,
    HardwareDetector,
    HardwareSuspicion,
    HardwareSuspicionModel,
    spec_hw_suspicion,
};
use crate::overlay::{OverlayDetector, OverlayWindow, WindowRecord, spec_hidden_overlays};
use crate::process::{
    Process,
    ProcessFacts,
    ProcessMonitor,
    SuspicionModel,
    SuspiciousProcess,
    classify_process,
    spec_classify,
};
use crate::text::{contains_ci, str_contains_ci};
use crate::vm::{VmCheckResult, VmDetector, VmEvidence, VmResultModel, spec_vm_result};

verus! {

/// What one module's evidence gathering came to: the gathered data, or a
/// fault that the cycle boundary caught.
pub enum ModuleOutcome<T> {
    Success(T),
    Failed,
}

/// The hardware probe's observation for one cycle.
#[derive(Clone, Debug)]
pub struct HardwareObservation {
    /// The current display configuration, absent when it could not be read.
    pub current: Option<DisplayConfiguration>,
    /// Whether a remote-desktop session is active.
    pub remote_desktop_active: bool,
}

/// The evidence gathered for one scan cycle, one outcome per module. What a
/// disabled module's field holds is irrelevant: the orchestrator ignores it.
pub struct ScanInputs {
    pub vm: ModuleOutcome<VmEvidence>,
    pub processes: ModuleOutcome<Vec<ProcessFacts>>,
    pub overlays: ModuleOutcome<Vec<WindowRecord>>,
    pub audio: ModuleOutcome<bool>,
    pub hardware: ModuleOutcome<HardwareObservation>,
}

/// The hardware summary carried on a report.
#[derive(Clone, Debug)]
pub struct HardwareSuspicionReport {
    pub risk_score: u32,
    pub display_count: usize,
    pub has_virtual_display: bool,
    pub has_hdmi_splitter: bool,
    pub remote_desktop_active: bool,
    pub flags: Vec<String>,
    pub baseline_display_count: Option<usize>,
    pub display_changed: bool,
}

/// Mathematical model of a hardware report summary.
#[verifier::ext_equal]
pub ghost struct HardwareReportModel {
    pub risk_score: int,
    pub display_count: usize,
    pub has_virtual_display: bool,
    pub has_hdmi_splitter: bool,
    pub remote_desktop_active: bool,
    pub flags: Seq<Seq<char>>,
    pub baseline_display_count: Option<usize>,
    pub display_changed: bool,
}

impl View for HardwareSuspicionReport {
    type V = HardwareReportModel;

    open spec fn view(&self) -> HardwareReportModel {
        HardwareReportModel {
            risk_score: self.risk_score as int,
            display_count: self.display_count,
            has_virtual_display: self.has_virtual_display,
            has_hdmi_splitter: self.has_hdmi_splitter,
            remote_desktop_active: self.remote_desktop_active,
            flags: self.flags@.map_values(|s: String| s@),
            baseline_display_count: self.baseline_display_count,
            display_changed: self.display_changed,
        }
    }
}

/// The aggregate of one scan cycle; built and discarded every cycle.
#[derive(Debug)]
pub struct DetectionReport {
    /// Monotonic cycle number, starting at 1.
    pub scan_number: usize,
    pub suspicious_processes: Vec<SuspiciousProcess>,
    pub hidden_overlays: Vec<OverlayWindow>,
    pub audio_monitoring_detected: bool,
    pub hardware_suspicion: Option<HardwareSuspicionReport>,
    pub vm_detection: Option<VmCheckResult>,
    /// Per-mille overall risk, clamped to the unit interval.
    pub overall_risk_score: u32,
    pub exceeds_threshold: bool,
    pub module_failures: Vec<String>,
}

/// Mathematical model of a detection report.
#[verifier::ext_equal]
pub ghost struct ReportModel {
    pub scan_number: int,
    pub suspicious_processes: Seq<SuspicionModel>,
    pub hidden_overlays: Seq<OverlayWindow>,
    pub audio_monitoring_detected: bool,
    pub hardware_suspicion: Option<HardwareReportModel>,
    pub vm_detection: Option<VmResultModel>,
    pub overall_risk_score: int,
    pub exceeds_threshold: bool,
    pub module_failures: Seq<Seq<char>>,
}

impl View for DetectionReport {
    type V = ReportModel;

    open spec fn view(&self) -> ReportModel {
        ReportModel {
            scan_number: self.scan_number as int,
            suspicious_processes: self.suspicious_processes@.map_values(
                |p: SuspiciousProcess| p@,
            ),
            hidden_overlays: self.hidden_overlays@,
            audio_monitoring_detected: self.audio_monitoring_detected,
            hardware_suspicion: match self.hardware_suspicion {
                Some(h) => Some(h@),
                None => None,
            },
            vm_detection: match self.vm_detection {
                Some(v) => Some(v@),
                None => None,
            },
            overall_risk_score: self.overall_risk_score as int,
            exceeds_threshold: self.exceeds_threshold,
            module_failures: self.module_failures@.map_values(|s: String| s@),
        }
    }
}

/// The suspicion records the classifier emits for a fact list, in list order.
pub open spec fn spec_suspicious_list(
    facts: Seq<ProcessFacts>,
    wl: &crate::config::WhitelistConfig,
    process_threshold: u32,
    baseline_collected: bool,
    baseline_pids: Seq<u32>,
) -> Seq<SuspicionModel>
    decreases facts.len(),
{
    if facts.len() == 0 {
        Seq::<SuspicionModel>::empty()
    } else {
        let rest = spec_suspicious_list(
            facts.drop_last(),
            wl,
            process_threshold,
            baseline_collected,
            baseline_pids,
        );
        match spec_classify(
            facts.last(),
            wl,
            process_threshold,
            baseline_collected,
            baseline_pids.contains(facts.last().process.pid),
        ) {
            Some(m) => rest.push(m),
            None => rest,
        }
    }
}

/// The highest per-mille risk among the emitted suspicions, zero when there
/// are none.
pub open spec fn spec_max_process_risk(ps: Seq<SuspicionModel>) -> int
    decreases ps.len(),
{
    if ps.len() == 0 {
        0int
    } else {
        let rest = spec_max_process_risk(ps.drop_last());
        if rest >= ps.last().risk_score {
            rest
        } else {
            ps.last().risk_score
        }
    }
}

/// The raw (unclamped) fused risk. Process, hardware and VM signals are
/// graded confidences scaled by their weight; overlay and audio signals are
/// binary detections contributing their full weight when present.
pub open spec fn spec_overall_raw(
    ps: Seq<SuspicionModel>,
    overlays: Seq<OverlayWindow>,
    audio: bool,
    hardware: Option<HardwareSuspicionModel>,
    vm: Option<VmResultModel>,
    w: WeightsConfig,
) -> int {
    (if ps.len() > 0 {
        spec_max_process_risk(ps) * w.process_risk / 1000
    } else {
        0int
    }) + (if overlays.len() > 0 {
        w.overlay_risk as int
    } else {
        0int
    }) + (if audio {
        w.audio_risk as int
    } else {
        0int
    }) + (match hardware {
        Some(h) => h.risk_score * w.hardware_risk / 1000,
        None => 0int,
    }) + (match vm {
        Some(v) => if v.is_vm {
            v.confidence_score * w.vm_risk / 1000
        } else {
            0int
        },
        None => 0int,
    })
}

/// The fused overall risk, clamped to the per-mille unit interval.
pub open spec fn spec_overall_risk(
    ps: Seq<SuspicionModel>,
    overlays: Seq<OverlayWindow>,
    audio: bool,
    hardware: Option<HardwareSuspicionModel>,
    vm: Option<VmResultModel>,
    w: WeightsConfig,
) -> int {
    clamp_permille(spec_overall_raw(ps, overlays, audio, hardware, vm, w))
}

/// The failure entries of one cycle, in module evaluation order: an entry
/// for every enabled module whose evidence gathering faulted.
pub open spec fn spec_module_failures(
    m: crate::config::MonitoringConfig,
    inputs: &ScanInputs,
) -> Seq<Seq<char>> {
    let f0 = if m.enable_vm_detection && inputs.vm is Failed {
        seq!["VM detection module failed"@]
    } else {
        Seq::<Seq<char>>::empty()
    };
    let f1 = if m.enable_process_monitoring && inputs.processes is Failed {
        f0.push("Process monitoring module failed"@)
    } else {
        f0
    };
    let f2 = if m.enable_overlay_monitoring && inputs.overlays is Failed {
        f1.push("Overlay detection module failed"@)
    } else {
        f1
    };
    let f3 = if m.enable_audio_monitoring && inputs.audio is Failed {
        f2.push("Audio detection module failed"@)
    } else {
        f2
    };
    if m.enable_hardware_monitoring && inputs.hardware is Failed {
        f3.push("Hardware detection module failed"@)
    } else {
        f3
    }
}

/// Does any flag contain the pattern, up to ASCII case?
pub open spec fn spec_any_flag(flags: Seq<Seq<char>>, pat: Seq<char>) -> bool {
    exists|i: int| 0 <= i < flags.len() && contains_ci(pat, #[trigger] flags[i])
}

/// The hardware summary derived from the hardware module's output and the
/// captured baseline.
pub open spec fn spec_hw_report(
    h: HardwareSuspicionModel,
    baseline: Option<DisplayConfiguration>,
) -> HardwareReportModel {
    let display_count = match h.display_count {
        Some(c) => c,
        None => 1usize,
    };
    let baseline_display_count = match baseline {
        Some(b) => Some(b.display_count),
        None => None,
    };
    let display_changed = match baseline_display_count {
        Some(bc) => bc != display_count,
        None => false,
    };
    HardwareReportModel {
        risk_score: h.risk_score,
        display_count,
        has_virtual_display: spec_any_flag(h.flags, "virtual display"@),
        has_hdmi_splitter: spec_any_flag(h.flags, "hdmi splitter"@),
        remote_desktop_active: spec_any_flag(h.flags, "remote desktop"@),
        flags: h.flags,
        baseline_display_count,
        display_changed,
    }
}

/// The model of one whole scan cycle, from the configuration, the session
/// state and the cycle's gathered evidence.
pub open spec fn spec_scan_report(
    cfg: Config,
    baseline_pids: Seq<u32>,
    hw_baseline: Option<DisplayConfiguration>,
    baseline_collected: bool,
    scan_number: int,
    inputs: &ScanInputs,
) -> ReportModel {
    let vm = if cfg.monitoring.enable_vm_detection {
        match inputs.vm {
            ModuleOutcome::Success(e) => Some(spec_vm_result(e)),
            ModuleOutcome::Failed => None,
        }
    } else {
        None
    };
    let ps = if cfg.monitoring.enable_process_monitoring {
        match inputs.processes {
            ModuleOutcome::Success(facts) => spec_suspicious_list(
                facts@,
                &cfg.whitelist,
                cfg.thresholds.process_threshold,
                baseline_collected,
                baseline_pids,
            ),
            ModuleOutcome::Failed => Seq::<SuspicionModel>::empty(),
        }
    } else {
        Seq::<SuspicionModel>::empty()
    };
    let overlays = if cfg.monitoring.enable_overlay_monitoring {
        match inputs.overlays {
            ModuleOutcome::Success(ws) => spec_hidden_overlays(ws@),
            ModuleOutcome::Failed => Seq::<OverlayWindow>::empty(),
        }
    } else {
        Seq::<OverlayWindow>::empty()
    };
    let audio = if cfg.monitoring.enable_audio_monitoring {
        match inputs.audio {
            ModuleOutcome::Success(detected) => detected,
            ModuleOutcome::Failed => false,
        }
    } else {
        false
    };
    let hardware = if cfg.monitoring.enable_hardware_monitoring {
        match inputs.hardware {
            ModuleOutcome::Success(obs) => Some(
                spec_hw_suspicion(obs.current, hw_baseline, obs.remote_desktop_active),
            ),
            ModuleOutcome::Failed => None,
        }
    } else {
        None
    };
    let overall = spec_overall_risk(ps, overlays, audio, hardware, vm, cfg.weights);
    ReportModel {
        scan_number,
        suspicious_processes: ps,
        hidden_overlays: overlays,
        audio_monitoring_detected: audio,
        hardware_suspicion: match hardware {
            Some(h) => Some(spec_hw_report(h, hw_baseline)),
            None => None,
        },
        vm_detection: vm,
        overall_risk_score: overall,
        exceeds_threshold: overall >= cfg.scan.risk_threshold,
        module_failures: spec_module_failures(cfg.monitoring, inputs),
    }
}

/// Does any flag contain the pattern, up to ASCII case?
fn any_flag_contains(flags: &Vec<String>, pat: &str) -> (r: bool)
    ensures
        r == spec_any_flag(flags@.map_values(|s: String| s@), pat@),
{
    let mut i: usize = 0;
    while i < flags.len()
        invariant
            i <= flags@.len(),
            forall|t: int| 0 <= t < i ==> !contains_ci(pat@, #[trigger] flags@[t]@),
        decreases flags@.len() - i,
    {
        if str_contains_ci(flags[i].as_str(), pat) {
            assert(contains_ci(pat@, flags@.map_values(|s: String| s@)[i as int]));
            return true;
        }
        i += 1;
    }
    proof {
        let mapped = flags@.map_values(|s: String| s@);
        assert forall|t: int| 0 <= t < mapped.len() implies !contains_ci(
            pat@,
            #[trigger] mapped[t],
        ) by {
            assert(mapped[t] == flags@[t]@);
            assert(!contains_ci(pat@, flags@[t]@));
        }
    }
    false
}

/// Law: every suspicion the classifier emits carries a risk score inside the
/// per-mille unit interval.
pub proof fn lemma_suspicious_list_bounded(
    facts: Seq<ProcessFacts>,
    wl: &crate::config::WhitelistConfig,
    process_threshold: u32,
    baseline_collected: bool,
    baseline_pids: Seq<u32>,
)
    ensures
        forall|i: int|
            0 <= i < spec_suspicious_list(
                facts,
                wl,
                process_threshold,
                baseline_collected,
                baseline_pids,
            ).len() ==> 0 <= (#[trigger] spec_suspicious_list(
                facts,
                wl,
                process_threshold,
                baseline_collected,
                baseline_pids,
            )[i]).risk_score <= 1000,
    decreases facts.len(),
{
    if facts.len() > 0 {
        lemma_suspicious_list_bounded(
            facts.drop_last(),
            wl,
            process_threshold,
            baseline_collected,
            baseline_pids,
        );
        let l = spec_suspicious_list(facts, wl, process_threshold, baseline_collected, baseline_pids);
        let rest = spec_suspicious_list(
            facts.drop_last(),
            wl,
            process_threshold,
            baseline_collected,
            baseline_pids,
        );
        match spec_classify(
            facts.last(),
            wl,
            process_threshold,
            baseline_collected,
            baseline_pids.contains(facts.last().process.pid),
        ) {
            Some(m) => {
                assert(l == rest.push(m));
                assert(0 <= m.risk_score <= 1000);
                assert(forall|i: int| 0 <= i < rest.len() ==> l[i] == #[trigger] rest[i]);
            },
            None => {
                assert(l == rest);
            },
        }
    }
}

/// The orchestrator: owns the monotonic scan counter, the session baselines
/// and the configuration, and turns each cycle's gathered evidence into a
/// detection report.
pub struct FairviewDetector {
    pub process_monitor: ProcessMonitor,
    pub audio_detector: AudioCaptureDetector,
    pub overlay_detector: OverlayDetector,
    pub hardware_detector: HardwareDetector,
    pub vm_detector: VmDetector,
    pub config: Config,
    pub scan_count: usize,
    pub baseline_collected: bool,
}

impl FairviewDetector {
    /// Fresh detector over a validated configuration: counter at zero, no
    /// baseline captured.
    pub fn new(config: Config) -> (r: FairviewDetector)
        requires
            config.is_valid(),
        ensures
            r.config == config,
            r.scan_count == 0,
            !r.baseline_collected,
            r.process_monitor.baseline_pids@ == Seq::<u32>::empty(),
            r.hardware_detector.baseline_displays is None,
    {
        FairviewDetector {
            process_monitor: ProcessMonitor::new(),
            audio_detector: AudioCaptureDetector::new(),
            overlay_detector: OverlayDetector::new(),
            hardware_detector: HardwareDetector::new(),
            vm_detector: VmDetector::new(),
            config,
            scan_count: 0,
            baseline_collected: false,
        }
    }

    /// Capture the session baselines from the handed-in snapshots. Disabled
    /// baseline collection is a valid state and leaves the detector as it is;
    /// a display snapshot that could not be read leaves only the display
    /// baseline uncaptured.
    pub fn collect_baseline(
        &mut self,
        processes: &Vec<Process>,
        displays: Option<DisplayConfiguration>,
    )
        ensures
            !old(self).config.monitoring.collect_baseline ==> *final(self) == *old(self),
            old(self).config.monitoring.collect_baseline ==> {
                &&& final(self).process_monitor.baseline_pids@ == processes@.map_values(
                    |p: Process| p.pid,
                )
                &&& final(self).hardware_detector.baseline_displays == (match displays {
                    Some(d) => Some(d),
                    None => old(self).hardware_detector.baseline_displays,
                })
                &&& final(self).baseline_collected
                &&& final(self).config == old(self).config
                &&& final(self).scan_count == old(self).scan_count
            },
    {
        if !self.config.monitoring.collect_baseline {
            return ;
        }
        self.process_monitor.collect_baseline(processes);
        match displays {
            Some(d) => self.hardware_detector.set_baseline(d),
            None => {},
        }
        self.baseline_collected = true;
    }

    /// Run the classifier over the cycle's process facts, in order.
    pub fn scan_for_suspicious_processes(&self, facts: &Vec<ProcessFacts>) -> (r: Vec<
        SuspiciousProcess,
    >)
        ensures
            r@.map_values(|p: SuspiciousProcess| p@) == spec_suspicious_list(
                facts@,
                &self.config.whitelist,
                self.config.thresholds.process_threshold,
                self.baseline_collected,
                self.process_monitor.baseline_pids@,
            ),
    {
        let mut out: Vec<SuspiciousProcess> = Vec::new();
        let mut i: usize = 0;
        proof {
            assert(out@.map_values(|p: SuspiciousProcess| p@) =~= spec_suspicious_list(
                facts@.subrange(0, 0),
                &self.config.whitelist,
                self.config.thresholds.process_threshold,
                self.baseline_collected,
                self.process_monitor.baseline_pids@,
            ));
        }
        while i < facts.len()
            invariant
                i <= facts@.len(),
                out@.map_values(|p: SuspiciousProcess| p@) == spec_suspicious_list(
                    facts@.subrange(0, i as int),
                    &self.config.whitelist,
                    self.config.thresholds.process_threshold,
                    self.baseline_collected,
                    self.process_monitor.baseline_pids@,
                ),
            decreases facts@.len() - i,
        {
            let ghost prev = out@.map_values(|p: SuspiciousProcess| p@);
            let in_baseline = self.process_monitor.was_in_baseline(facts[i].process.pid);
            let verdict = classify_process(
                &facts[i],
                &self.config.whitelist,
                self.config.thresholds.process_threshold,
                self.baseline_collected,
                in_baseline,
            );
            match verdict {
                Some(s) => {
                    out.push(s);
                },
                None => {},
            }
            proof {
                let sub1 = facts@.subrange(0, i + 1);
                assert(sub1.drop_last() =~= facts@.subrange(0, i as int));
                assert(sub1.last() == facts@[i as int]);
                assert(out@.map_values(|p: SuspiciousProcess| p@) =~= spec_suspicious_list(
                    sub1,
                    &self.config.whitelist,
                    self.config.thresholds.process_threshold,
                    self.baseline_collected,
                    self.process_monitor.baseline_pids@,
                ));
            }
            i += 1;
        }
        proof {
            assert(facts@.subrange(0, facts@.len() as int) =~= facts@);
        }
        out
    }

    /// Fuse the module signals into one clamped overall risk using the
    /// configured weights.
    pub fn calculate_overall_risk(
        &self,
        suspicious_processes: &Vec<SuspiciousProcess>,
        hidden_overlays: &Vec<OverlayWindow>,
        audio_monitoring: bool,
        hardware_suspicion: Option<&HardwareSuspicion>,
        vm_result: Option<&VmCheckResult>,
    ) -> (r: u32)
        requires
            self.config.is_valid(),
            forall|i: int|
                0 <= i < suspicious_processes@.len() ==> (
                #[trigger] suspicious_processes@[i]).risk_score <= 1000,
            hardware_suspicion matches Some(h) ==> h.risk_score <= 1000,
            vm_result matches Some(v) ==> v.confidence_score <= 1000,
        ensures
            r == spec_overall_risk(
                suspicious_processes@.map_values(|p: SuspiciousProcess| p@),
                hidden_overlays@,
                audio_monitoring,
                match hardware_suspicion {
                    Some(h) => Some(h@),
                    None => None,
                },
                match vm_result {
                    Some(v) => Some(v@),
                    None => None,
                },
                self.config.weights,
            ),
            r <= 1000,
    {
        let ghost ps = suspicious_processes@.map_values(|p: SuspiciousProcess| p@);
        proof {
            assert(self.config.weights.process_risk <= 1010);
            assert(self.config.weights.overlay_risk <= 1010);
            assert(self.config.weights.audio_risk <= 1010);
            assert(self.config.weights.hardware_risk <= 1010);
            assert(self.config.weights.vm_risk <= 1010);
        }
        let mut risk: u32 = 0;

        if suspicious_processes.len() > 0 {
            let mut max_risk: u32 = 0;
            let mut i: usize = 0;
            while i < suspicious_processes.len()
                invariant
                    i <= suspicious_processes@.len(),
                    ps == suspicious_processes@.map_values(|p: SuspiciousProcess| p@),
                    forall|t: int|
                        0 <= t < suspicious_processes@.len() ==> (
                        #[trigger] suspicious_processes@[t]).risk_score <= 1000,
                    max_risk == spec_max_process_risk(ps.subrange(0, i as int)),
                    max_risk <= 1000,
                decreases suspicious_processes@.len() - i,
            {
                let cur = suspicious_processes[i].risk_score;
                if cur > max_risk {
                    max_risk = cur;
                }
                proof {
                    let sub1 = ps.subrange(0, i + 1);
                    assert(sub1.drop_last() =~= ps.subrange(0, i as int));
                    assert(sub1.last() == ps[i as int]);
                    assert(ps[i as int].risk_score == suspicious_processes@[i as int].risk_score);
                }
                i += 1;
            }
            proof {
                assert(ps.subrange(0, ps.len() as int) =~= ps);
                lemma_scaled_product_bounded(
                    max_risk as int,
                    self.config.weights.process_risk as int,
                );
            }
            risk = risk + max_risk * self.config.weights.process_risk / 1000;
        }

        if hidden_overlays.len() > 0 {
            risk = risk + self.config.weights.overlay_risk;
        }
        if audio_monitoring {
            risk = risk + self.config.weights.audio_risk;
        }
        match hardware_suspicion {
            Some(hardware) => {
                proof {
                    lemma_scaled_product_bounded(
                        hardware.risk_score as int,
                        self.config.weights.hardware_risk as int,
                    );
                }
                risk = risk + hardware.risk_score * self.config.weights.hardware_risk / 1000;
            },
            None => {},
        }
        match vm_result {
            Some(vm) => {
                if vm.is_vm {
                    proof {
                        lemma_scaled_product_bounded(
                            vm.confidence_score as int,
                            self.config.weights.vm_risk as int,
                        );
                    }
                    risk = risk + vm.confidence_score * self.config.weights.vm_risk / 1000;
                }
            },
            None => {},
        }

        if risk > 1000 {
            1000
        } else {
            risk
        }
    }

    /// Read the summary facts out of the hardware module's output: the
    /// display count (one when it could not be read) and whether the flags
    /// mention a virtual display, an HDMI splitter, or remote desktop.
    pub fn summarize_hardware(hardware_suspicion: &HardwareSuspicion) -> (r: (
        usize,
        bool,
        bool,
        bool,
    ))
        ensures
            r.0 == (match hardware_suspicion.display_count {
                Some(c) => c,
                None => 1usize,
            }),
            r.1 == spec_any_flag(hardware_suspicion@.flags, "virtual display"@),
            r.2 == spec_any_flag(hardware_suspicion@.flags, "hdmi splitter"@),
            r.3 == spec_any_flag(hardware_suspicion@.flags, "remote desktop"@),
    {
        let display_count: usize = match hardware_suspicion.display_count {
            Some(c) => c,
            None => 1,
        };
        let has_virtual_display = any_flag_contains(&hardware_suspicion.flags, "virtual display");
        let has_hdmi_splitter = any_flag_contains(&hardware_suspicion.flags, "hdmi splitter");
        let remote_desktop_active = any_flag_contains(&hardware_suspicion.flags, "remote desktop");
        (display_count, has_virtual_display, has_hdmi_splitter, remote_desktop_active)
    }

    /// Run one scan cycle over the gathered evidence: each enabled module's
    /// logic over what its probe delivered, one failure entry per faulted
    /// module, the weighted fusion, and the threshold verdict. Every cycle
    /// yields a complete report.
    #[verifier::loop_isolation(false)]
    #[verifier::rlimit(100)]
    pub fn scan(&mut self, inputs: ScanInputs) -> (r: DetectionReport)
        requires
            old(self).scan_count < usize::MAX,
            old(self).config.is_valid(),
        ensures
            final(self).scan_count == old(self).scan_count + 1,
            final(self).config == old(self).config,
            final(self).process_monitor == old(self).process_monitor,
            final(self).hardware_detector == old(self).hardware_detector,
            final(self).baseline_collected == old(self).baseline_collected,
            r@ == spec_scan_report(
                old(self).config,
                old(self).process_monitor.baseline_pids@,
                old(self).hardware_detector.baseline_displays,
                old(self).baseline_collected,
                old(self).scan_count + 1,
                &inputs,
            ),
            r.overall_risk_score <= 1000,
    {
        let ghost inputs0 = inputs;
        let ghost m = spec_scan_report(
            old(self).config,
            old(self).process_monitor.baseline_pids@,
            old(self).hardware_detector.baseline_displays,
            old(self).baseline_collected,
            old(self).scan_count + 1,
            &inputs,
        );
        self.scan_count = self.scan_count + 1;

        let ScanInputs {
            vm: in_vm,
            processes: in_processes,
            overlays: in_overlays,
            audio: in_audio,
            hardware: in_hardware,
        } = inputs;

        let mut module_failures: Vec<String> = Vec::new();

        let vm_result: Option<VmCheckResult> = if self.config.monitoring.enable_vm_detection {
            match in_vm {
                ModuleOutcome::Success(evidence) => Some(self.vm_detector.detect(&evidence)),
                ModuleOutcome::Failed => {
                    module_failures.push("VM detection module failed".to_owned());
                    None
                },
            }
        } else {
            None
        };
        proof {
            assert((match vm_result {
                Some(v) => Some(v@),
                None => None::<crate::vm::VmResultModel>,
            }) == m.vm_detection);
        }

        let suspicious_processes: Vec<SuspiciousProcess> = if self
            .config
            .monitoring
            .enable_process_monitoring {
            match in_processes {
                ModuleOutcome::Success(facts) => self.scan_for_suspicious_processes(&facts),
                ModuleOutcome::Failed => {
                    module_failures.push("Process monitoring module failed".to_owned());
                    Vec::new()
                },
            }
        } else {
            Vec::new()
        };
        proof {
            assert(suspicious_processes@.map_values(|p: SuspiciousProcess| p@)
                =~= m.suspicious_processes);
        }

        let hidden_overlays: Vec<OverlayWindow> = if self
            .config
            .monitoring
            .enable_overlay_monitoring {
            match in_overlays {
                ModuleOutcome::Success(windows) => self.overlay_detector.find_hidden_overlays(
                    &windows,
                ),
                ModuleOutcome::Failed => {
                    module_failures.push("Overlay detection module failed".to_owned());
                    Vec::new()
                },
            }
        } else {
            Vec::new()
        };
        proof {
            assert(hidden_overlays@ =~= m.hidden_overlays);
        }

        let audio_monitoring: bool = if self.config.monitoring.enable_audio_monitoring {
            match in_audio {
                ModuleOutcome::Success(detected) => detected,
                ModuleOutcome::Failed => {
                    module_failures.push("Audio detection module failed".to_owned());
                    false
                },
            }
        } else {
            false
        };

        let hardware_suspicion: Option<HardwareSuspicion> = if self
            .config
            .monitoring
            .enable_hardware_monitoring {
            match in_hardware {
                ModuleOutcome::Success(obs) => Some(
                    self.hardware_detector.detect_hardware_cheating(
                        obs.current,
                        obs.remote_desktop_active,
                    ),
                ),
                ModuleOutcome::Failed => {
                    module_failures.push("Hardware detection module failed".to_owned());
                    None
                },
            }
        } else {
            None
        };

        proof {
            assert(module_failures@.map_values(|s: String| s@) =~= spec_module_failures(
                self.config.monitoring,
                &inputs0,
            ));
            lemma_suspicious_list_bounded(
                match inputs0.processes {
                    ModuleOutcome::Success(facts) => facts@,
                    ModuleOutcome::Failed => Seq::<ProcessFacts>::empty(),
                },
                &self.config.whitelist,
                self.config.thresholds.process_threshold,
                self.baseline_collected,
                self.process_monitor.baseline_pids@,
            );
            let ps = suspicious_processes@.map_values(|p: SuspiciousProcess| p@);
            assert forall|i: int| 0 <= i < suspicious_processes@.len() implies (
            #[trigger] suspicious_processes@[i]).risk_score <= 1000 by {
                assert(ps[i] == suspicious_processes@[i]@);
                assert(0 <= ps[i].risk_score <= 1000);
            }
        }

        let overall_risk = self.calculate_overall_risk(
            &suspicious_processes,
            &hidden_overlays,
            audio_monitoring,
            hardware_suspicion.as_ref(),
            vm_result.as_ref(),
        );
        proof {
            assert(overall_risk as int == m.overall_risk_score);
        }

        let exceeds_threshold = overall_risk >= self.config.scan.risk_threshold;

        let hardware_report: Option<HardwareSuspicionReport> = match hardware_suspicion {
            Some(hs) => {
                let (display_count, has_virtual_display, has_hdmi_splitter, remote_desktop_active) =
                    Self::summarize_hardware(&hs);
                let baseline_count: Option<usize> = match self.hardware_detector.get_baseline() {
                    Some(b) => Some(b.display_count),
                    None => None,
                };
                let display_changed = match baseline_count {
                    Some(bc) => bc != display_count,
                    None => false,
                };
                Some(
                    HardwareSuspicionReport {
                        risk_score: hs.risk_score,
                        display_count,
                        has_virtual_display,
                        has_hdmi_splitter,
                        remote_desktop_active,
                        flags: hs.flags,
                        baseline_display_count: baseline_count,
                        display_changed,
                    },
                )
            },
            None => None,
        };
        proof {
            match &hardware_report {
                Some(h) => {
                    assert(m.hardware_suspicion is Some);
                    assert(h@ =~= m.hardware_suspicion->0);
                },
                None => {
                    assert(m.hardware_suspicion is None);
                },
            }
        }

        let report = DetectionReport {
            scan_number: self.scan_count,
            suspicious_processes,
            hidden_overlays,
            audio_monitoring_detected: audio_monitoring,
            hardware_suspicion: hardware_report,
            vm_detection: vm_result,
            overall_risk_score: overall_risk,
            exceeds_threshold,
            module_failures,
        };
        proof {
            assert(report@ =~= m);
        }
        report
    }
}

/// Law: the fused overall risk always lies in the per-mille unit interval,
/// whatever the module signals, provided each graded confidence does.
pub proof fn lemma_overall_risk_clamped(
    ps: Seq<SuspicionModel>,
    overlays: Seq<OverlayWindow>,
    audio: bool,
    hardware: Option<HardwareSuspicionModel>,
    vm: Option<VmResultModel>,
    w: WeightsConfig,
)
    requires
        forall|i: int| 0 <= i < ps.len() ==> (#[trigger] ps[i]).risk_score >= 0,
        hardware matches Some(h) ==> h.risk_score >= 0,
        vm matches Some(v) ==> v.confidence_score >= 0,
    ensures
        0 <= spec_overall_risk(ps, overlays, audio, hardware, vm, w) <= 1000,
{
    lemma_max_process_risk_nonneg(ps);
    assert(spec_overall_raw(ps, overlays, audio, hardware, vm, w) >= 0) by {
        lemma_scaled_term_nonneg(spec_max_process_risk(ps), w.process_risk as int);
        if hardware is Some {
            lemma_scaled_term_nonneg(hardware->0.risk_score, w.hardware_risk as int);
        }
        if vm is Some {
            lemma_scaled_term_nonneg(vm->0.confidence_score, w.vm_risk as int);
        }
    }
}

/// A per-mille confidence scaled by a valid weight stays within machine
/// bounds and the weight's own bound.
proof fn lemma_scaled_product_bounded(score: int, weight: int)
    requires
        0 <= score <= 1000,
        0 <= weight <= 1010,
    ensures
        0 <= score * weight <= 1010000,
        0 <= score * weight / 1000 <= 1010,
{
    assert(0 <= score * weight <= 1010000) by (nonlinear_arith)
        requires
            0 <= score <= 1000,
            0 <= weight <= 1010,
    ;
}

/// A graded confidence scaled by a non-negative weight stays non-negative.
proof fn lemma_scaled_term_nonneg(score: int, weight: int)
    requires
        score >= 0,
        weight >= 0,
    ensures
        score * weight / 1000 >= 0,
{
    assert(score * weight >= 0) by (nonlinear_arith)
        requires
            score >= 0,
            weight >= 0,
    ;
}

proof fn lemma_max_process_risk_nonneg(ps: Seq<SuspicionModel>)
    requires
        forall|i: int| 0 <= i < ps.len() ==> (#[trigger] ps[i]).risk_score >= 0,
    ensures
        spec_max_process_risk(ps) >= 0,
    decreases ps.len(),
{
    if ps.len() > 0 {
        lemma_max_process_risk_nonneg(ps.drop_last());
    }
}

/// Law (fault isolation): when the hardware module faults while every other
/// module's evidence arrived, the report still carries each sibling module's
/// full result, no hardware summary, and exactly one failure entry, the
/// hardware module's.
pub proof fn lemma_fault_isolation(
    cfg: Config,
    baseline_pids: Seq<u32>,
    hw_baseline: Option<DisplayConfiguration>,
    baseline_collected: bool,
    scan_number: int,
    inputs: &ScanInputs,
)
    requires
        cfg.monitoring.enable_hardware_monitoring,
        inputs.hardware is Failed,
        inputs.vm is Success,
        inputs.processes is Success,
        inputs.overlays is Success,
        inputs.audio is Success,
    ensures
        ({
            let r = spec_scan_report(
                cfg,
                baseline_pids,
                hw_baseline,
                baseline_collected,
                scan_number,
                inputs,
            );
            &&& r.hardware_suspicion is None
            &&& r.module_failures =~= seq!["Hardware detection module failed"@]
            &&& (cfg.monitoring.enable_vm_detection ==> r.vm_detection == Some(
                spec_vm_result(inputs.vm->Success_0),
            ))
            &&& (cfg.monitoring.enable_process_monitoring ==> r.suspicious_processes
                == spec_suspicious_list(
                inputs.processes->Success_0@,
                &cfg.whitelist,
                cfg.thresholds.process_threshold,
                baseline_collected,
                baseline_pids,
            ))
            &&& (cfg.monitoring.enable_overlay_monitoring ==> r.hidden_overlays
                == spec_hidden_overlays(inputs.overlays->Success_0@))
            &&& (cfg.monitoring.enable_audio_monitoring ==> r.audio_monitoring_detected
                == inputs.audio->Success_0)
        }),
{
    let r = spec_scan_report(cfg, baseline_pids, hw_baseline, baseline_collected, scan_number, inputs);
    assert(r.module_failures =~= seq!["Hardware detection module failed"@]);
}

} // verus!
