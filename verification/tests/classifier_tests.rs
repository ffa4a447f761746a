use fairview::config::{Config, WhitelistConfig};
use fairview::process::{
    classify_process, is_common_legit_app, is_suspicious_name, is_whitelisted,
    is_windows_core_path, Process, ProcessFacts, ProcessMonitor,
};

fn facts(name: &str, path: &str, screen: bool, audio: bool, access: bool) -> ProcessFacts {
    ProcessFacts {
        process: Process {
            pid: 4242,
            name: name.to_string(),
            path: path.to_string(),
        },
        has_screen_capture: screen,
        has_audio_capture: audio,
        has_accessibility_access: access,
    }
}

fn empty_whitelist() -> WhitelistConfig {
    WhitelistConfig {
        processes: Vec::new(),
        directories: Vec::new(),
    }
}

#[test]
fn common_legit_app_is_exempt_despite_all_capabilities() {
    // Scenario: chrome.exe with every capability set is never emitted,
    // because the common-application allow-list overrides the raw score.
    let f = facts("chrome.exe", "C:\\Apps\\chrome.exe", true, true, true);
    let r = classify_process(&f, &empty_whitelist(), 600, false, false);
    assert!(r.is_none());
}

#[test]
fn whitelisted_process_is_exempt() {
    let wl = WhitelistConfig {
        processes: vec!["mytool".to_string()],
        directories: Vec::new(),
    };
    let f = facts("MyTool.exe", "/opt/mytool", true, true, true);
    assert!(classify_process(&f, &wl, 600, false, false).is_none());
}

#[test]
fn suspicious_name_beats_allowlist() {
    // The allow-list override only applies to names that are not suspicious.
    let wl = WhitelistConfig {
        processes: vec!["interview".to_string()],
        directories: Vec::new(),
    };
    let f = facts("interview-notes.exe", "/opt/notes", true, false, false);
    let r = classify_process(&f, &wl, 600, false, false);
    // Flagged: suspicious name with one capability; score 0.4 + 0.3 = 0.7.
    let s = r.expect("suspicious name with a capability must be emitted");
    assert_eq!(s.risk_score, 700);
    assert!(s.is_whitelisted);
    assert_eq!(
        s.reasons,
        vec![
            "Has screen capture permission".to_string(),
            "Suspicious process name".to_string(),
        ]
    );
}

#[test]
fn suspicious_name_without_capability_is_not_flagged() {
    let f = facts("chatgpt-widget.exe", "/opt/widget", false, false, false);
    assert!(classify_process(&f, &empty_whitelist(), 400, false, false).is_none());
}

#[test]
fn minimum_score_gate_suppresses_flagged_process() {
    // Flag condition holds (suspicious + one capability) but the score 0.7
    // is below a configured minimum of 0.8.
    let f = facts("interview-notes.exe", "/opt/notes", true, false, false);
    assert!(classify_process(&f, &empty_whitelist(), 800, false, false).is_none());
}

#[test]
fn three_capabilities_flag_an_unknown_process() {
    let f = facts("shadowcast.exe", "/opt/shadow", true, true, true);
    let s = classify_process(&f, &empty_whitelist(), 600, false, false)
        .expect("three capabilities must flag an unknown process");
    assert_eq!(s.risk_score, 800);
    assert_eq!(s.pid, 4242);
    assert_eq!(s.name, "shadowcast.exe");
    assert!(!s.started_during_interview);
    assert!(!s.is_whitelisted);
}

#[test]
fn windows_core_process_is_not_flagged_by_capabilities_alone() {
    let f = facts(
        "shadowcast.exe",
        "C:\\Windows\\System32\\shadowcast.exe",
        true,
        true,
        true,
    );
    assert!(classify_process(&f, &empty_whitelist(), 600, false, false).is_none());
}

#[test]
fn process_started_during_session_with_two_capabilities_is_flagged() {
    let f = facts("newtool.exe", "/opt/newtool", true, true, false);
    // Baseline collected, pid not in baseline.
    let s = classify_process(&f, &empty_whitelist(), 600, true, false)
        .expect("session-started process with two capabilities must be emitted");
    // 0.3 screen + 0.3 audio + 0.3 started = 0.9.
    assert_eq!(s.risk_score, 900);
    assert!(s.started_during_interview);
    assert_eq!(
        s.reasons,
        vec![
            "Has screen capture permission".to_string(),
            "Has audio capture permission".to_string(),
            "Started during interview".to_string(),
        ]
    );
}

#[test]
fn process_in_baseline_is_not_started_during_session() {
    let f = facts("newtool.exe", "/opt/newtool", true, true, false);
    // Baseline collected and the pid was present.
    assert!(classify_process(&f, &empty_whitelist(), 600, true, true).is_none());
}

#[test]
fn risk_score_is_clamped_to_unit_interval() {
    // Suspicious name plus all capabilities plus session start:
    // 0.3 + 0.3 + 0.2 + 0.4 + 0.3 = 1.5, clamped to 1.0.
    let f = facts("interview-bot.exe", "/opt/bot", true, true, true);
    let s = classify_process(&f, &empty_whitelist(), 600, true, false)
        .expect("maximal signals must be emitted");
    assert_eq!(s.risk_score, 1000);
    assert_eq!(s.reasons.len(), 5);
}

#[test]
fn name_heuristics() {
    assert!(is_suspicious_name("Cluely Overlay"));
    assert!(is_suspicious_name("MY-INTERVIEW-AI.exe"));
    assert!(is_suspicious_name("gpt4all"));
    assert!(!is_suspicious_name("notepad.exe"));
    assert!(is_common_legit_app("OBS64.exe"));
    assert!(is_common_legit_app("Visual Studio Code"));
    assert!(!is_common_legit_app("shadowcast.exe"));
}

#[test]
fn windows_core_path_detection() {
    assert!(is_windows_core_path("C:\\Windows\\System32\\svchost.exe"));
    assert!(is_windows_core_path("c:\\windows\\syswow64\\foo.exe"));
    assert!(!is_windows_core_path("C:\\Program Files\\foo.exe"));
}

#[test]
fn whitelist_matches_name_substring_case_insensitively() {
    let wl = WhitelistConfig {
        processes: vec!["Code.exe".to_string()],
        directories: Vec::new(),
    };
    let p = Process {
        pid: 1,
        name: "VSCODE.EXE".to_string(),
        path: "/usr/lib/code".to_string(),
    };
    assert!(is_whitelisted(&wl, &p));
}

#[test]
fn whitelist_matches_directory_prefix() {
    let wl = WhitelistConfig {
        processes: Vec::new(),
        directories: vec!["/usr/bin".to_string()],
    };
    let inside = Process {
        pid: 1,
        name: "tool".to_string(),
        path: "/usr/bin/tool".to_string(),
    };
    let outside = Process {
        pid: 2,
        name: "tool".to_string(),
        path: "/opt/usr/bin/tool".to_string(),
    };
    assert!(is_whitelisted(&wl, &inside));
    assert!(!is_whitelisted(&wl, &outside));
}

#[test]
fn baseline_membership_before_and_after_capture() {
    let mut monitor = ProcessMonitor::new();
    // Before capture every membership query is false.
    assert!(!monitor.was_in_baseline(1));
    assert!(!monitor.was_in_baseline(99999));
    let processes = vec![
        Process {
            pid: 10,
            name: "a".to_string(),
            path: "/a".to_string(),
        },
        Process {
            pid: 20,
            name: "b".to_string(),
            path: "/b".to_string(),
        },
    ];
    monitor.collect_baseline(&processes);
    assert!(monitor.was_in_baseline(10));
    assert!(monitor.was_in_baseline(20));
    assert!(!monitor.was_in_baseline(30));
}

#[test]
fn no_baseline_means_no_started_during_session() {
    // With baseline_collected false the started-during mark never appears,
    // even for a process that would otherwise qualify.
    let f = facts("newtool.exe", "/opt/newtool", true, true, true);
    let config = Config::default();
    let s = classify_process(
        &f,
        &config.whitelist,
        config.thresholds.process_threshold,
        false,
        false,
    )
    .expect("three capabilities flag the process regardless");
    assert!(!s.started_during_interview);
}
