use fairview::audio::{AudioCaptureDetector, AudioProcessSample};
use fairview::evidence::EvidenceAccumulator;
use fairview::hardware::{
    ConnectionType, DisplayConfiguration, DisplayInfo, HardwareDetector,
};
use fairview::overlay::{OverlayDetector, WindowRecord};
use fairview::vm::{NetworkInterface, VmDetector, VmEvidence};

fn display(id: &str, connection: ConnectionType) -> DisplayInfo {
    DisplayInfo {
        id: id.to_string(),
        name: id.to_string(),
        width: 1920,
        height: 1080,
        is_primary: false,
        connection_type: connection,
    }
}

fn configuration(displays: Vec<DisplayInfo>, virtual_d: bool, splitter: bool) -> DisplayConfiguration {
    DisplayConfiguration {
        display_count: displays.len(),
        displays,
        has_virtual_display: virtual_d,
        has_hdmi_splitter_signature: splitter,
    }
}

#[test]
fn evidence_accumulator_orders_reasons_and_clamps() {
    let mut acc = EvidenceAccumulator::new();
    acc.record(true, 700, "first".to_string());
    acc.record(false, 900, "skipped".to_string());
    acc.record(true, 600, "second".to_string());
    assert_eq!(acc.reasons, vec!["first".to_string(), "second".to_string()]);
    assert_eq!(acc.total, 1300);
    // The confidence is clamped even though the raw total exceeds 1.0.
    assert_eq!(acc.confidence(), 1000);
    assert!(acc.exceeds(700));
    assert!(!acc.exceeds(1300));
}

#[test]
fn audio_detection_needs_load_and_a_known_app() {
    let d = AudioCaptureDetector::new();
    let busy_obs = AudioProcessSample {
        name: "OBS64.exe".to_string(),
        cpu_permille: 60,
    };
    let idle_obs = AudioProcessSample {
        name: "obs64.exe".to_string(),
        cpu_permille: 40,
    };
    let busy_other = AudioProcessSample {
        name: "compiler".to_string(),
        cpu_permille: 900,
    };
    assert!(d.detect_realtime_audio_processing(&vec![busy_other.clone(), busy_obs]));
    assert!(!d.detect_realtime_audio_processing(&vec![idle_obs, busy_other]));
    assert!(!d.detect_realtime_audio_processing(&Vec::new()));
    assert!(d.is_audio_processing_app("Audacity"));
    assert!(!d.is_audio_processing_app("notepad"));
}

#[test]
fn overlay_filter_keeps_layered_transparent_windows() {
    let d = OverlayDetector::new();
    let keeper = WindowRecord {
        handle: 7,
        left: 100,
        top: 50,
        right: 400,
        bottom: 300,
        owner_pid: 99,
        is_layered: true,
        is_transparent: true,
        is_topmost: false,
        is_visible: true,
    };
    let too_small = WindowRecord {
        right: 140,
        bottom: 90,
        ..keeper
    };
    let not_layered = WindowRecord {
        is_layered: false,
        ..keeper
    };
    let invisible_not_topmost = WindowRecord {
        is_visible: false,
        ..keeper
    };
    let invisible_topmost = WindowRecord {
        is_visible: false,
        is_topmost: true,
        ..keeper
    };
    let found = d.find_hidden_overlays(&vec![
        keeper,
        too_small,
        not_layered,
        invisible_not_topmost,
        invisible_topmost,
    ]);
    assert_eq!(found.len(), 2);
    assert_eq!(found[0].handle, 7);
    assert_eq!(found[0].position, (100, 50));
    assert_eq!(found[0].size, (300, 250));
    assert!(found[1].is_topmost);
}

#[test]
fn hardware_scoring_exact_value() {
    let mut detector = HardwareDetector::new();
    detector.set_baseline(configuration(
        vec![display("A", ConnectionType::HDMI)],
        false,
        false,
    ));
    let current = configuration(
        vec![
            display("A", ConnectionType::HDMI),
            display("B", ConnectionType::HDMI),
        ],
        false,
        false,
    );
    let s = detector.detect_hardware_cheating(Some(current), false);
    // Two displays (0.05) + count changed (0.4) + one new display (0.3).
    assert_eq!(s.risk_score, 750);
    assert_eq!(s.display_count, Some(2));
    assert_eq!(
        s.flags,
        vec![
            "Multiple displays detected".to_string(),
            "Display configuration changed during interview".to_string(),
            "New display connected during interview".to_string(),
        ]
    );
}

#[test]
fn hardware_score_is_clamped() {
    let detector = HardwareDetector::new();
    let current = configuration(
        vec![display("A", ConnectionType::USB)],
        true,
        true,
    );
    // Splitter 0.7 + virtual 0.5 + USB 0.2 + remote desktop 0.8 = 2.2.
    let s = detector.detect_hardware_cheating(Some(current), true);
    assert_eq!(s.risk_score, 1000);
}

#[test]
fn hardware_unreadable_configuration_is_not_an_error() {
    let detector = HardwareDetector::new();
    let s = detector.detect_hardware_cheating(None, true);
    assert_eq!(s.risk_score, 0);
    assert_eq!(s.display_count, None);
    assert_eq!(
        s.flags,
        vec!["Unable to detect display configuration".to_string()]
    );
}

#[test]
fn hardware_wireless_display_weight() {
    let detector = HardwareDetector::new();
    let current = configuration(vec![display("W", ConnectionType::Wireless)], false, false);
    let s = detector.detect_hardware_cheating(Some(current), false);
    assert_eq!(s.risk_score, 250);
    assert_eq!(s.flags, vec!["Wireless display detected".to_string()]);
}

#[test]
fn connection_type_parsers() {
    let d = HardwareDetector::new();
    assert_eq!(d.detect_connection_type("HDMI Monitor"), ConnectionType::HDMI);
    assert_eq!(d.detect_connection_type("Dummy Plug"), ConnectionType::Virtual);
    assert_eq!(
        d.detect_connection_type("Miracast receiver"),
        ConnectionType::Wireless
    );
    assert_eq!(d.detect_connection_type("plain monitor"), ConnectionType::Unknown);
    assert_eq!(d.parse_macos_connection("Built-in USB-C"), ConnectionType::USB);
    assert_eq!(d.parse_linux_connection("HDMI-1"), ConnectionType::HDMI);
    assert_eq!(d.parse_linux_connection("DP-2"), ConnectionType::DisplayPort);
    assert_eq!(d.parse_linux_connection("eDP-1"), ConnectionType::Unknown);
    let (is_virtual, is_splitter) = d.classify_display_device("Generic PnP Monitor");
    assert!(!is_virtual);
    assert!(is_splitter);
    let (is_virtual2, _) = d.classify_display_device("USB Display Adapter");
    assert!(is_virtual2);
}

fn no_vm_evidence() -> VmEvidence {
    VmEvidence {
        hypervisor_present: false,
        hypervisor_vendor: None,
        system_name: None,
        host_name: None,
        network_interfaces: Vec::new(),
    }
}

#[test]
fn vm_detection_exact_confidence_and_verdict() {
    let d = VmDetector::new();
    let evidence = VmEvidence {
        hypervisor_present: true,
        hypervisor_vendor: Some("KVMKVMKVM".to_string()),
        ..no_vm_evidence()
    };
    let r = d.detect(&evidence);
    // Hypervisor bit 0.1 + unambiguous vendor 0.8 = 0.9 > 0.7.
    assert_eq!(r.confidence_score, 900);
    assert!(r.is_vm);
    assert_eq!(
        r.reasons,
        vec![
            "CPUID hypervisor bit set".to_string(),
            "Hypervisor vendor detected".to_string(),
        ]
    );
}

#[test]
fn ambiguous_vendor_gets_reduced_weight() {
    let d = VmDetector::new();
    let evidence = VmEvidence {
        hypervisor_present: true,
        hypervisor_vendor: Some("Microsoft Hv".to_string()),
        ..no_vm_evidence()
    };
    let r = d.detect(&evidence);
    // Hypervisor bit 0.1 + ambiguous vendor 0.2 = 0.3: not a VM verdict.
    assert_eq!(r.confidence_score, 300);
    assert!(!r.is_vm);
}

#[test]
fn vm_confidence_is_clamped() {
    let d = VmDetector::new();
    let evidence = VmEvidence {
        hypervisor_present: true,
        hypervisor_vendor: Some("VBoxVBoxVBox".to_string()),
        system_name: Some("VirtualBox".to_string()),
        host_name: Some("qemu-builder".to_string()),
        network_interfaces: vec![NetworkInterface {
            name: "eth0".to_string(),
            mac_address: "08:00:27:12:34:56".to_string(),
        }],
    };
    let r = d.detect(&evidence);
    // 0.1 + 0.8 + 0.6 + 0.3 + 0.5 = 2.3, clamped to 1.0.
    assert_eq!(r.confidence_score, 1000);
    assert!(r.is_vm);
    assert_eq!(r.reasons.len(), 5);
    assert_eq!(
        r.reasons[4],
        "VM network adapter (VirtualBox) detected".to_string()
    );
}

#[test]
fn suspicious_system_strings() {
    let d = VmDetector::new();
    assert!(d.is_suspicious_system_string("innotek GmbH VirtualBox"));
    assert!(d.is_suspicious_system_string("VMware, Inc."));
    assert!(d.is_suspicious_system_string("Standard PC (Q35) QEMU"));
    assert!(!d.is_suspicious_system_string("ThinkPad X1 Carbon"));
}

#[test]
fn mac_prefixes_are_matched_case_insensitively() {
    let d = VmDetector::new();
    let interfaces = vec![
        NetworkInterface {
            name: "eth0".to_string(),
            mac_address: "52:54:00:ab:cd:ef".to_string(),
        },
        NetworkInterface {
            name: "eth1".to_string(),
            mac_address: "00:1c:42:00:11:22".to_string(),
        },
        NetworkInterface {
            name: "wlan0".to_string(),
            mac_address: "f4:5c:89:aa:bb:cc".to_string(),
        },
    ];
    let reasons = d.check_mac_addresses(&interfaces);
    assert_eq!(
        reasons,
        vec![
            "VM network adapter (QEMU/KVM) detected".to_string(),
            "VM network adapter (Parallels) detected".to_string(),
        ]
    );
}

#[test]
fn hardware_baseline_accessors() {
    let mut detector = HardwareDetector::new();
    assert!(detector.get_baseline().is_none());
    // Before any capture, drift queries degrade to "unknown", not an error.
    assert!(detector.display_drift(2).is_none());
    detector.set_baseline(configuration(
        vec![display("A", ConnectionType::HDMI)],
        false,
        false,
    ));
    let baseline = detector.get_baseline().expect("baseline was captured");
    assert_eq!(baseline.display_count, 1);
    assert_eq!(detector.display_drift(1), Some((1, false)));
    assert_eq!(detector.display_drift(3), Some((1, true)));
}
