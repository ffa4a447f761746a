use fairview::config::Config;
use fairview::detector::{
    FairviewDetector, HardwareObservation, ModuleOutcome, ScanInputs,
};
use fairview::hardware::{DisplayConfiguration, HardwareSuspicion};
use fairview::overlay::WindowRecord;
use fairview::process::{Process, ProcessFacts, SuspiciousProcess};
use fairview::vm::{VmCheckResult, VmEvidence};

fn p6_config() -> Config {
    let mut config = Config::default();
    config.weights.process_risk = 300;
    config.weights.overlay_risk = 200;
    config.weights.audio_risk = 100;
    config.weights.hardware_risk = 150;
    config.weights.vm_risk = 250;
    config.scan.risk_threshold = 500;
    config
}

fn suspicion(risk_score: u32) -> SuspiciousProcess {
    SuspiciousProcess {
        pid: 1,
        name: "x".to_string(),
        path: "/x".to_string(),
        risk_score,
        reasons: vec!["r".to_string()],
        started_during_interview: false,
        is_whitelisted: false,
    }
}

fn empty_displays() -> DisplayConfiguration {
    DisplayConfiguration {
        display_count: 1,
        displays: Vec::new(),
        has_virtual_display: false,
        has_hdmi_splitter_signature: false,
    }
}

fn no_vm_evidence() -> VmEvidence {
    VmEvidence {
        hypervisor_present: false,
        hypervisor_vendor: None,
        system_name: None,
        host_name: None,
        network_interfaces: Vec::new(),
    }
}

#[test]
fn weighted_fusion_scenario() {
    // One flagged process at 0.8, no overlays, no audio, hardware at 0.4,
    // VM detected at 0.9, weights {0.3, 0.2, 0.1, 0.15, 0.25}:
    // 0.8*0.3 + 0.4*0.15 + 0.9*0.25 = 0.24 + 0.06 + 0.225 = 0.525.
    let config = p6_config();
    assert!(config.validate().is_ok());
    let detector = FairviewDetector::new(config);
    let hardware = HardwareSuspicion {
        risk_score: 400,
        flags: Vec::new(),
        display_count: Some(1),
    };
    let vm = VmCheckResult {
        is_vm: true,
        reasons: Vec::new(),
        confidence_score: 900,
    };
    let overall = detector.calculate_overall_risk(
        &vec![suspicion(800)],
        &Vec::new(),
        false,
        Some(&hardware),
        Some(&vm),
    );
    assert_eq!(overall, 525);
    assert!(overall >= detector.config.scan.risk_threshold);
}

#[test]
fn fusion_takes_the_maximum_process_risk() {
    let detector = FairviewDetector::new(p6_config());
    let overall = detector.calculate_overall_risk(
        &vec![suspicion(400), suspicion(900), suspicion(700)],
        &Vec::new(),
        false,
        None,
        None,
    );
    // 0.9 * 0.3 = 0.27.
    assert_eq!(overall, 270);
}

#[test]
fn fusion_ignores_vm_result_without_vm_verdict() {
    let detector = FairviewDetector::new(p6_config());
    let vm = VmCheckResult {
        is_vm: false,
        reasons: Vec::new(),
        confidence_score: 600,
    };
    let overall = detector.calculate_overall_risk(&Vec::new(), &Vec::new(), false, None, Some(&vm));
    assert_eq!(overall, 0);
}

#[test]
fn fusion_overlay_and_audio_contribute_flat_weights() {
    let detector = FairviewDetector::new(p6_config());
    let overlay = fairview::overlay::OverlayWindow {
        handle: 1,
        position: (0, 0),
        size: (100, 100),
        owner_pid: 3,
        is_transparent: true,
        is_topmost: true,
    };
    // Two overlays still contribute the overlay weight once.
    let overall = detector.calculate_overall_risk(
        &Vec::new(),
        &vec![overlay, overlay],
        true,
        None,
        None,
    );
    // 0.2 + 0.1 = 0.3.
    assert_eq!(overall, 300);
}

fn all_success_inputs() -> ScanInputs {
    ScanInputs {
        vm: ModuleOutcome::Success(no_vm_evidence()),
        processes: ModuleOutcome::Success(Vec::new()),
        overlays: ModuleOutcome::Success(Vec::new()),
        audio: ModuleOutcome::Success(false),
        hardware: ModuleOutcome::Success(HardwareObservation {
            current: Some(empty_displays()),
            remote_desktop_active: false,
        }),
    }
}

#[test]
fn all_modules_disabled_yields_an_empty_report() {
    let mut config = p6_config();
    config.monitoring.enable_process_monitoring = false;
    config.monitoring.enable_hardware_monitoring = false;
    config.monitoring.enable_audio_monitoring = false;
    config.monitoring.enable_overlay_monitoring = false;
    config.monitoring.enable_vm_detection = false;
    let mut detector = FairviewDetector::new(config);
    // Even all-faulted inputs leave no trace when every module is disabled.
    let report = detector.scan(ScanInputs {
        vm: ModuleOutcome::Failed,
        processes: ModuleOutcome::Failed,
        overlays: ModuleOutcome::Failed,
        audio: ModuleOutcome::Failed,
        hardware: ModuleOutcome::Failed,
    });
    assert!(report.suspicious_processes.is_empty());
    assert!(report.hidden_overlays.is_empty());
    assert!(!report.audio_monitoring_detected);
    assert!(report.hardware_suspicion.is_none());
    assert!(report.vm_detection.is_none());
    assert_eq!(report.overall_risk_score, 0);
    assert!(!report.exceeds_threshold);
    assert!(report.module_failures.is_empty());
}

#[test]
fn hardware_fault_is_isolated() {
    // The hardware module faults; every sibling module still reports, and
    // exactly one failure entry names the hardware module.
    let mut detector = FairviewDetector::new(p6_config());
    let windows = vec![WindowRecord {
        handle: 5,
        left: 0,
        top: 0,
        right: 200,
        bottom: 200,
        owner_pid: 7,
        is_layered: true,
        is_transparent: true,
        is_topmost: false,
        is_visible: true,
    }];
    let report = detector.scan(ScanInputs {
        vm: ModuleOutcome::Success(no_vm_evidence()),
        processes: ModuleOutcome::Success(Vec::new()),
        overlays: ModuleOutcome::Success(windows),
        audio: ModuleOutcome::Success(true),
        hardware: ModuleOutcome::Failed,
    });
    assert_eq!(
        report.module_failures,
        vec!["Hardware detection module failed".to_string()]
    );
    assert!(report.hardware_suspicion.is_none());
    assert!(report.vm_detection.is_some());
    assert_eq!(report.hidden_overlays.len(), 1);
    assert!(report.audio_monitoring_detected);
    // Overlay 0.2 + audio 0.1; the faulted hardware contributes nothing.
    assert_eq!(report.overall_risk_score, 300);
}

#[test]
fn every_module_faulting_still_yields_a_report() {
    let mut detector = FairviewDetector::new(p6_config());
    let report = detector.scan(ScanInputs {
        vm: ModuleOutcome::Failed,
        processes: ModuleOutcome::Failed,
        overlays: ModuleOutcome::Failed,
        audio: ModuleOutcome::Failed,
        hardware: ModuleOutcome::Failed,
    });
    assert_eq!(report.overall_risk_score, 0);
    assert!(!report.exceeds_threshold);
    assert_eq!(
        report.module_failures,
        vec![
            "VM detection module failed".to_string(),
            "Process monitoring module failed".to_string(),
            "Overlay detection module failed".to_string(),
            "Audio detection module failed".to_string(),
            "Hardware detection module failed".to_string(),
        ]
    );
}

#[test]
fn scan_number_is_monotonic_from_one() {
    let mut detector = FairviewDetector::new(p6_config());
    let first = detector.scan(all_success_inputs());
    let second = detector.scan(all_success_inputs());
    assert_eq!(first.scan_number, 1);
    assert_eq!(second.scan_number, 2);
}

#[test]
fn full_scan_classifies_and_fuses() {
    let mut config = p6_config();
    config.monitoring.collect_baseline = true;
    let mut detector = FairviewDetector::new(config);
    detector.collect_baseline(
        &vec![Process {
            pid: 100,
            name: "old.exe".to_string(),
            path: "/old".to_string(),
        }],
        Some(empty_displays()),
    );
    let facts = vec![ProcessFacts {
        process: Process {
            pid: 200,
            name: "interview-notes.exe".to_string(),
            path: "/opt/notes".to_string(),
        },
        has_screen_capture: true,
        has_audio_capture: false,
        has_accessibility_access: false,
    }];
    let mut inputs = all_success_inputs();
    inputs.processes = ModuleOutcome::Success(facts);
    let report = detector.scan(inputs);
    assert_eq!(report.suspicious_processes.len(), 1);
    let s = &report.suspicious_processes[0];
    // Screen 0.3 + suspicious name 0.4 + started during session 0.3 = 1.0.
    assert_eq!(s.risk_score, 1000);
    assert!(s.started_during_interview);
    // Hardware ran cleanly at risk 0; overall = 1.0 * 0.3 = 0.3.
    assert_eq!(report.overall_risk_score, 300);
    assert!(!report.exceeds_threshold);
    let hw = report.hardware_suspicion.expect("hardware module was enabled");
    assert_eq!(hw.risk_score, 0);
    assert_eq!(hw.display_count, 1);
    assert_eq!(hw.baseline_display_count, Some(1));
    assert!(!hw.display_changed);
}

#[test]
fn baseline_collection_can_be_disabled() {
    let mut config = p6_config();
    config.monitoring.collect_baseline = false;
    let mut detector = FairviewDetector::new(config);
    detector.collect_baseline(
        &vec![Process {
            pid: 1,
            name: "a".to_string(),
            path: "/a".to_string(),
        }],
        Some(empty_displays()),
    );
    assert!(!detector.baseline_collected);
    assert!(!detector.process_monitor.was_in_baseline(1));
    assert!(detector.hardware_detector.get_baseline().is_none());
}

#[test]
fn summarize_hardware_reads_the_flags() {
    let hs = HardwareSuspicion {
        risk_score: 700,
        flags: vec![
            "Virtual display detected".to_string(),
            "Remote desktop connection detected".to_string(),
        ],
        display_count: Some(3),
    };
    let (count, virtual_d, splitter, rdp) = FairviewDetector::summarize_hardware(&hs);
    assert_eq!(count, 3);
    assert!(virtual_d);
    assert!(!splitter);
    assert!(rdp);
    let unreadable = HardwareSuspicion {
        risk_score: 0,
        flags: Vec::new(),
        display_count: None,
    };
    let (count2, _, _, _) = FairviewDetector::summarize_hardware(&unreadable);
    assert_eq!(count2, 1);
}
