//! Process observation, baseline membership, and the per-process suspicion
//! classifier.
//!
//! The classifier consumes one process observation plus capability facts
//! gathered by the embedding program, applies the allow-list override, the
//! flagging rule and the minimum-score gate, and emits a suspicion record or
//! nothing. The rule order matters: the allow-list short-circuit beats raw
//! score, and the minimum-score gate filters after the flag decision.

use vstd::prelude::*;
use crate::clamp_permille;
use crate::config::WhitelistConfig;
use crate::evidence::EvidenceAccumulator;
use crate::text::{contains_ci, starts_with_ci, str_contains_ci, str_starts_with_ci};

verus! {

/// One live process observation, produced fresh each cycle.
#[derive(Clone, Debug)]
pub struct Process {
    pub pid: u32,
    pub name: String,
    pub path: String,
}

/// A process observation together with the capability facts the probes
/// gathered about it.
#[derive(Clone, Debug)]
pub struct ProcessFacts {
    pub process: Process,
    pub has_screen_capture: bool,
    pub has_audio_capture: bool,
    pub has_accessibility_access: bool,
}

/// One flagged process: the classifier's output, not persisted across cycles.
#[derive(Clone, Debug)]
pub struct SuspiciousProcess {
    pub pid: u32,
    pub name: String,
    pub path: String,
    /// Per-mille risk score, clamped to the unit interval.
    pub risk_score: u32,
    pub reasons: Vec<String>,
    pub started_during_interview: bool,
    pub is_whitelisted: bool,
}

/// Mathematical model of a suspicion record.
pub ghost struct SuspicionModel {
    pub pid: u32,
    pub name: Seq<char>,
    pub path: Seq<char>,
    pub risk_score: int,
    pub reasons: Seq<Seq<char>>,
    pub started_during_interview: bool,
    pub is_whitelisted: bool,
}

impl View for SuspiciousProcess {
    type V = SuspicionModel;

    open spec fn view(&self) -> SuspicionModel {
        SuspicionModel {
            pid: self.pid,
            name: self.name@,
            path: self.path@,
            risk_score: self.risk_score as int,
            reasons: self.reasons@.map_values(|s: String| s@),
            started_during_interview: self.started_during_interview,
            is_whitelisted: self.is_whitelisted,
        }
    }
}

/// The built-in suspicious-name heuristic: naming patterns of session
/// assistance tools, matched case-insensitively anywhere in the name.
pub open spec fn spec_suspicious_name(name: Seq<char>) -> bool {
    ||| contains_ci("cluely"@, name)
    ||| contains_ci("interview"@, name)
    ||| contains_ci("gpt"@, name)
    ||| contains_ci("chatgpt"@, name)
    ||| contains_ci("llm"@, name)
    ||| contains_ci("copilot"@, name)
    ||| contains_ci("aiassistant"@, name)
    ||| contains_ci("ai-assistant"@, name)
    ||| contains_ci("interview-bot"@, name)
    ||| contains_ci("interview-ai"@, name)
}

/// The built-in allow-list of common legitimate applications, matched
/// case-insensitively anywhere in the name.
pub open spec fn spec_common_legit(name: Seq<char>) -> bool {
    ||| contains_ci("explorer.exe"@, name)
    ||| contains_ci("chrome.exe"@, name)
    ||| contains_ci("firefox.exe"@, name)
    ||| contains_ci("msedge.exe"@, name)
    ||| contains_ci("msedgewebview2.exe"@, name)
    ||| contains_ci("brave.exe"@, name)
    ||| contains_ci("opera.exe"@, name)
    ||| contains_ci("discord.exe"@, name)
    ||| contains_ci("slack.exe"@, name)
    ||| contains_ci("teams.exe"@, name)
    ||| contains_ci("zoom.exe"@, name)
    ||| contains_ci("code.exe"@, name)
    ||| contains_ci("vscode.exe"@, name)
    ||| contains_ci("visual studio"@, name)
    ||| contains_ci("sharex.exe"@, name)
    ||| contains_ci("obs"@, name)
    ||| contains_ci("obs64.exe"@, name)
    ||| contains_ci("streamlabs"@, name)
    ||| contains_ci("steam.exe"@, name)
    ||| contains_ci("steamwebhelper.exe"@, name)
    ||| contains_ci("svchost.exe"@, name)
    ||| contains_ci("searchhost.exe"@, name)
    ||| contains_ci("applicationframehost.exe"@, name)
    ||| contains_ci("shellexperiencehost.exe"@, name)
    ||| contains_ci("systemsettings.exe"@, name)
    ||| contains_ci("camera hub.exe"@, name)
    ||| contains_ci("elgato"@, name)
}

/// Explicit allow-list match: a configured name substring or directory
/// prefix, both matched case-insensitively.
pub open spec fn spec_whitelisted(wl: &WhitelistConfig, name: Seq<char>, path: Seq<char>) -> bool {
    ||| exists|i: int|
        0 <= i < wl.processes@.len() && contains_ci(#[trigger] wl.processes@[i]@, name)
    ||| exists|i: int|
        0 <= i < wl.directories@.len() && starts_with_ci(#[trigger] wl.directories@[i]@, path)
}

/// The process lives under a core Windows system directory.
pub open spec fn spec_windows_core(path: Seq<char>) -> bool {
    ||| starts_with_ci("c:\\windows\\system32"@, path)
    ||| starts_with_ci("c:\\windows\\syswow64"@, path)
}

/// Number of capability signals (screen, audio, accessibility) that are set.
pub open spec fn spec_capability_count(f: ProcessFacts) -> int {
    (if f.has_screen_capture {
        1int
    } else {
        0int
    }) + (if f.has_audio_capture {
        1int
    } else {
        0int
    }) + (if f.has_accessibility_access {
        1int
    } else {
        0int
    })
}

/// Raw (unclamped) per-mille risk: the sum of the fixed weights of the
/// signals that are set.
pub open spec fn spec_risk_raw(
    f: ProcessFacts,
    suspicious: bool,
    started: bool,
    whitelisted: bool,
) -> int {
    (if f.has_screen_capture {
        300int
    } else {
        0int
    }) + (if f.has_audio_capture {
        300int
    } else {
        0int
    }) + (if f.has_accessibility_access {
        200int
    } else {
        0int
    }) + (if suspicious {
        400int
    } else {
        0int
    }) + (if started && !whitelisted {
        300int
    } else {
        0int
    })
}

/// The reasons recorded for the set signals, in evaluation order.
pub open spec fn spec_risk_reasons(
    f: ProcessFacts,
    suspicious: bool,
    started: bool,
    whitelisted: bool,
) -> Seq<Seq<char>> {
    let r0 = if f.has_screen_capture {
        seq!["Has screen capture permission"@]
    } else {
        Seq::<Seq<char>>::empty()
    };
    let r1 = if f.has_audio_capture {
        r0.push("Has audio capture permission"@)
    } else {
        r0
    };
    let r2 = if f.has_accessibility_access {
        r1.push("Has accessibility API access"@)
    } else {
        r1
    };
    let r3 = if suspicious {
        r2.push("Suspicious process name"@)
    } else {
        r2
    };
    if started && !whitelisted {
        r3.push("Started during interview"@)
    } else {
        r3
    }
}

/// The flagging condition, evaluated after the allow-list short-circuit.
pub open spec fn spec_should_flag(
    f: ProcessFacts,
    suspicious: bool,
    common: bool,
    windows_core: bool,
    started: bool,
) -> bool {
    ||| (suspicious && spec_capability_count(f) >= 1 && !common)
    ||| (!suspicious && spec_capability_count(f) >= 3 && !common && !windows_core)
    ||| (started && spec_capability_count(f) >= 2)
}

/// The full classification rule: allow-list override first, then the
/// flagging condition, then the minimum-score gate.
pub open spec fn spec_classify(
    f: ProcessFacts,
    wl: &WhitelistConfig,
    process_threshold: u32,
    baseline_collected: bool,
    in_baseline: bool,
) -> Option<SuspicionModel> {
    let name = f.process.name@;
    let path = f.process.path@;
    let whitelisted = spec_whitelisted(wl, name, path);
    let suspicious = spec_suspicious_name(name);
    let common = spec_common_legit(name);
    let started = baseline_collected && !in_baseline;
    if (whitelisted || common) && !suspicious {
        None
    } else {
        let risk = spec_risk_raw(f, suspicious, started, whitelisted);
        let reasons = spec_risk_reasons(f, suspicious, started, whitelisted);
        let flag = spec_should_flag(f, suspicious, common, spec_windows_core(path), started);
        if flag && reasons.len() > 0 && risk >= process_threshold {
            Some(
                SuspicionModel {
                    pid: f.process.pid,
                    name: name,
                    path: path,
                    risk_score: clamp_permille(risk),
                    reasons: reasons,
                    started_during_interview: started,
                    is_whitelisted: whitelisted,
                },
            )
        } else {
            None
        }
    }
}

/// Does the name match the built-in suspicious-name heuristic?
pub fn is_suspicious_name(name: &str) -> (r: bool)
    ensures
        r == spec_suspicious_name(name@),
{
    str_contains_ci(name, "cluely") || str_contains_ci(name, "interview") || str_contains_ci(
        name,
        "gpt",
    ) || str_contains_ci(name, "chatgpt") || str_contains_ci(name, "llm") || str_contains_ci(
        name,
        "copilot",
    ) || str_contains_ci(name, "aiassistant") || str_contains_ci(name, "ai-assistant")
        || str_contains_ci(name, "interview-bot") || str_contains_ci(name, "interview-ai")
}

/// Does the name match the built-in allow-list of common applications?
pub fn is_common_legit_app(name: &str) -> (r: bool)
    ensures
        r == spec_common_legit(name@),
{
    str_contains_ci(name, "explorer.exe") || str_contains_ci(name, "chrome.exe")
        || str_contains_ci(name, "firefox.exe") || str_contains_ci(name, "msedge.exe")
        || str_contains_ci(name, "msedgewebview2.exe") || str_contains_ci(name, "brave.exe")
        || str_contains_ci(name, "opera.exe") || str_contains_ci(name, "discord.exe")
        || str_contains_ci(name, "slack.exe") || str_contains_ci(name, "teams.exe")
        || str_contains_ci(name, "zoom.exe") || str_contains_ci(name, "code.exe")
        || str_contains_ci(name, "vscode.exe") || str_contains_ci(name, "visual studio")
        || str_contains_ci(name, "sharex.exe") || str_contains_ci(name, "obs") || str_contains_ci(
        name,
        "obs64.exe",
    ) || str_contains_ci(name, "streamlabs") || str_contains_ci(name, "steam.exe")
        || str_contains_ci(name, "steamwebhelper.exe") || str_contains_ci(name, "svchost.exe")
        || str_contains_ci(name, "searchhost.exe") || str_contains_ci(
        name,
        "applicationframehost.exe",
    ) || str_contains_ci(name, "shellexperiencehost.exe") || str_contains_ci(
        name,
        "systemsettings.exe",
    ) || str_contains_ci(name, "camera hub.exe") || str_contains_ci(name, "elgato")
}

/// Does the observation match the configured allow-list, by name substring
/// or by directory prefix?
pub fn is_whitelisted(whitelist: &WhitelistConfig, process: &Process) -> (r: bool)
    ensures
        r == spec_whitelisted(whitelist, process.name@, process.path@),
{
    let mut i: usize = 0;
    while i < whitelist.processes.len()
        invariant
            i <= whitelist.processes@.len(),
            forall|t: int|
                0 <= t < i ==> !contains_ci(#[trigger] whitelist.processes@[t]@, process.name@),
        decreases whitelist.processes@.len() - i,
    {
        if str_contains_ci(process.name.as_str(), whitelist.processes[i].as_str()) {
            assert(contains_ci(whitelist.processes@[i as int]@, process.name@));
            return true;
        }
        i += 1;
    }
    let mut j: usize = 0;
    while j < whitelist.directories.len()
        invariant
            j <= whitelist.directories@.len(),
            forall|t: int|
                0 <= t < whitelist.processes@.len() ==> !contains_ci(
                    #[trigger] whitelist.processes@[t]@,
                    process.name@,
                ),
            forall|t: int|
                0 <= t < j ==> !starts_with_ci(#[trigger] whitelist.directories@[t]@, process.path@),
        decreases whitelist.directories@.len() - j,
    {
        if str_starts_with_ci(process.path.as_str(), whitelist.directories[j].as_str()) {
            assert(starts_with_ci(whitelist.directories@[j as int]@, process.path@));
            return true;
        }
        j += 1;
    }
    false
}

/// Does the path lie under a core Windows system directory?
pub fn is_windows_core_path(path: &str) -> (r: bool)
    ensures
        r == spec_windows_core(path@),
{
    str_starts_with_ci(path, "c:\\windows\\system32") || str_starts_with_ci(
        path,
        "c:\\windows\\syswow64",
    )
}

/// Classify one observed process: apply the allow-list override, the flagging
/// condition, and the minimum-score gate, in that order.
pub fn classify_process(
    facts: &ProcessFacts,
    whitelist: &WhitelistConfig,
    process_threshold: u32,
    baseline_collected: bool,
    in_baseline: bool,
) -> (r: Option<SuspiciousProcess>)
    ensures
        (r is Some) == (spec_classify(
            *facts,
            whitelist,
            process_threshold,
            baseline_collected,
            in_baseline,
        ) is Some),
        r is Some ==> r->0@ == spec_classify(
            *facts,
            whitelist,
            process_threshold,
            baseline_collected,
            in_baseline,
        )->0,
{
    let whitelisted = is_whitelisted(whitelist, &facts.process);
    let suspicious = is_suspicious_name(facts.process.name.as_str());
    let common = is_common_legit_app(facts.process.name.as_str());
    let started = baseline_collected && !in_baseline;

    if (whitelisted || common) && !suspicious {
        return None;
    }
    let mut acc = EvidenceAccumulator::new();
    acc.record(facts.has_screen_capture, 300, "Has screen capture permission".to_owned());
    acc.record(facts.has_audio_capture, 300, "Has audio capture permission".to_owned());
    acc.record(facts.has_accessibility_access, 200, "Has accessibility API access".to_owned());
    acc.record(suspicious, 400, "Suspicious process name".to_owned());
    acc.record(started && !whitelisted, 300, "Started during interview".to_owned());
    proof {
        assert(acc.total == spec_risk_raw(*facts, suspicious, started, whitelisted));
        assert(acc.reasons@.map_values(|s: String| s@) =~= spec_risk_reasons(
            *facts,
            suspicious,
            started,
            whitelisted,
        ));
    }

    let capability_count: u32 = (if facts.has_screen_capture {
        1u32
    } else {
        0u32
    }) + (if facts.has_audio_capture {
        1u32
    } else {
        0u32
    }) + (if facts.has_accessibility_access {
        1u32
    } else {
        0u32
    });

    let windows_core = is_windows_core_path(facts.process.path.as_str());

    let should_flag = (suspicious && capability_count >= 1 && !common) || (!suspicious
        && capability_count >= 3 && !common && !windows_core) || (started && capability_count >= 2);

    if should_flag && acc.reasons.len() > 0 && acc.total >= process_threshold as u64 {
        let risk_score = acc.confidence();
        Some(
            SuspiciousProcess {
                pid: facts.process.pid,
                name: facts.process.name.clone(),
                path: facts.process.path.clone(),
                risk_score,
                reasons: acc.reasons,
                started_during_interview: started,
                is_whitelisted: whitelisted,
            },
        )
    } else {
        None
    }
}

/// The snapshot of process ids captured at session start; answers membership
/// queries afterwards and is never mutated by detection cycles.
pub struct ProcessMonitor {
    pub baseline_pids: Vec<u32>,
}

impl ProcessMonitor {
    /// Membership of `pid` in the captured baseline.
    pub open spec fn spec_in_baseline(&self, pid: u32) -> bool {
        self.baseline_pids@.contains(pid)
    }

    /// Fresh store: nothing captured yet, so every membership query is false.
    pub fn new() -> (r: ProcessMonitor)
        ensures
            r.baseline_pids@ == Seq::<u32>::empty(),
    {
        ProcessMonitor { baseline_pids: Vec::new() }
    }

    /// Capture the current process-id snapshot. A later call replaces the
    /// snapshot wholesale.
    pub fn collect_baseline(&mut self, processes: &Vec<Process>)
        ensures
            final(self).baseline_pids@ == processes@.map_values(|p: Process| p.pid),
    {
        let mut pids: Vec<u32> = Vec::new();
        let mut i: usize = 0;
        while i < processes.len()
            invariant
                i <= processes@.len(),
                pids@ == processes@.subrange(0, i as int).map_values(|p: Process| p.pid),
            decreases processes@.len() - i,
        {
            pids.push(processes[i].pid);
            proof {
                assert(processes@.subrange(0, i + 1).map_values(|p: Process| p.pid)
                    =~= processes@.subrange(0, i as int).map_values(|p: Process| p.pid).push(
                    processes@[i as int].pid,
                ));
            }
            i += 1;
        }
        proof {
            assert(processes@.subrange(0, processes@.len() as int) =~= processes@);
        }
        self.baseline_pids = pids;
    }

    /// Was `pid` present when the baseline was captured? Always false before
    /// any capture.
    pub fn was_in_baseline(&self, pid: u32) -> (r: bool)
        ensures
            r == self.spec_in_baseline(pid),
    {
        let mut i: usize = 0;
        while i < self.baseline_pids.len()
            invariant
                i <= self.baseline_pids@.len(),
                forall|t: int| 0 <= t < i ==> self.baseline_pids@[t] != pid,
            decreases self.baseline_pids@.len() - i,
        {
            if self.baseline_pids[i] == pid {
                return true;
            }
            i += 1;
        }
        false
    }
}

/// The capture-capable application heuristic used where no per-process
/// permission registry can be read: known conferencing and recording tools,
/// and the naming patterns of session assistance tools.
pub open spec fn spec_capture_tool_name(name: Seq<char>) -> bool {
    ||| contains_ci("obs"@, name)
    ||| contains_ci("zoom"@, name)
    ||| contains_ci("teams"@, name)
    ||| contains_ci("discord"@, name)
    ||| contains_ci("slack"@, name)
    ||| contains_ci("chrome"@, name)
    ||| contains_ci("firefox"@, name)
    ||| contains_ci("cluely"@, name)
    ||| contains_ci("interview"@, name)
    ||| contains_ci("assistant"@, name)
    ||| contains_ci("helper"@, name)
}

/// Does the process name suggest a tool capable of screen or audio capture?
pub fn name_suggests_capture_tool(name: &str) -> (r: bool)
    ensures
        r == spec_capture_tool_name(name@),
{
    str_contains_ci(name, "obs") || str_contains_ci(name, "zoom") || str_contains_ci(name, "teams")
        || str_contains_ci(name, "discord") || str_contains_ci(name, "slack") || str_contains_ci(
        name,
        "chrome",
    ) || str_contains_ci(name, "firefox") || str_contains_ci(name, "cluely") || str_contains_ci(
        name,
        "interview",
    ) || str_contains_ci(name, "assistant") || str_contains_ci(name, "helper")
}

/// A loaded-module name that indicates screen-capture ability.
pub open spec fn spec_screen_capture_module(m: Seq<char>) -> bool {
    ||| contains_ci("dxgi.dll"@, m)
    ||| contains_ci("dwmapi.dll"@, m)
    ||| contains_ci("d3d11.dll"@, m)
    ||| contains_ci("gdi32.dll"@, m)
}

/// A loaded-module name that indicates audio-capture ability.
pub open spec fn spec_audio_capture_module(m: Seq<char>) -> bool {
    ||| contains_ci("audioses.dll"@, m)
    ||| contains_ci("wasapi"@, m)
    ||| contains_ci("winmm.dll"@, m)
    ||| contains_ci("dsound.dll"@, m)
}

/// A loaded-module name that indicates accessibility-API use.
pub open spec fn spec_accessibility_module(m: Seq<char>) -> bool {
    contains_ci("uiautomation"@, m) || contains_ci("oleacc.dll"@, m)
}

/// Does any loaded module indicate screen-capture ability?
pub fn modules_indicate_screen_capture(modules: &Vec<String>) -> (r: bool)
    ensures
        r == exists|i: int|
            0 <= i < modules@.len() && spec_screen_capture_module(#[trigger] modules@[i]@),
{
    let mut i: usize = 0;
    while i < modules.len()
        invariant
            i <= modules@.len(),
            forall|t: int| 0 <= t < i ==> !spec_screen_capture_module(#[trigger] modules@[t]@),
        decreases modules@.len() - i,
    {
        let m = modules[i].as_str();
        if str_contains_ci(m, "dxgi.dll") || str_contains_ci(m, "dwmapi.dll") || str_contains_ci(
            m,
            "d3d11.dll",
        ) || str_contains_ci(m, "gdi32.dll") {
            assert(spec_screen_capture_module(modules@[i as int]@));
            return true;
        }
        i += 1;
    }
    false
}

/// Does any loaded module indicate audio-capture ability?
pub fn modules_indicate_audio_capture(modules: &Vec<String>) -> (r: bool)
    ensures
        r == exists|i: int|
            0 <= i < modules@.len() && spec_audio_capture_module(#[trigger] modules@[i]@),
{
    let mut i: usize = 0;
    while i < modules.len()
        invariant
            i <= modules@.len(),
            forall|t: int| 0 <= t < i ==> !spec_audio_capture_module(#[trigger] modules@[t]@),
        decreases modules@.len() - i,
    {
        let m = modules[i].as_str();
        if str_contains_ci(m, "audioses.dll") || str_contains_ci(m, "wasapi") || str_contains_ci(
            m,
            "winmm.dll",
        ) || str_contains_ci(m, "dsound.dll") {
            assert(spec_audio_capture_module(modules@[i as int]@));
            return true;
        }
        i += 1;
    }
    false
}

/// Does any loaded module indicate accessibility-API use?
pub fn modules_indicate_accessibility(modules: &Vec<String>) -> (r: bool)
    ensures
        r == exists|i: int|
            0 <= i < modules@.len() && spec_accessibility_module(#[trigger] modules@[i]@),
{
    let mut i: usize = 0;
    while i < modules.len()
        invariant
            i <= modules@.len(),
            forall|t: int| 0 <= t < i ==> !spec_accessibility_module(#[trigger] modules@[t]@),
        decreases modules@.len() - i,
    {
        let m = modules[i].as_str();
        if str_contains_ci(m, "uiautomation") || str_contains_ci(m, "oleacc.dll") {
            assert(spec_accessibility_module(modules@[i as int]@));
            return true;
        }
        i += 1;
    }
    false
}

/// Law: before any baseline is captured, every membership query is false.
pub proof fn lemma_baseline_absence(monitor: &ProcessMonitor)
    requires
        monitor.baseline_pids@ == Seq::<u32>::empty(),
    ensures
        forall|pid: u32| !monitor.spec_in_baseline(pid),
{
}

/// Law: a process that is allow-listed (explicitly or as a common legitimate
/// application) and does not have a suspicious name is never flagged,
/// whatever its capability signals, baseline status or score.
pub proof fn lemma_allowlist_override(
    f: ProcessFacts,
    wl: &WhitelistConfig,
    process_threshold: u32,
    baseline_collected: bool,
    in_baseline: bool,
)
    requires
        spec_whitelisted(wl, f.process.name@, f.process.path@) || spec_common_legit(
            f.process.name@,
        ),
        !spec_suspicious_name(f.process.name@),
    ensures
        spec_classify(f, wl, process_threshold, baseline_collected, in_baseline) is None,
{
}

/// Law: before any baseline is captured, no process counts as started during
/// the session, so no emitted record carries that mark.
pub proof fn lemma_no_baseline_no_drift(
    f: ProcessFacts,
    wl: &WhitelistConfig,
    process_threshold: u32,
    in_baseline: bool,
)
    ensures
        match spec_classify(f, wl, process_threshold, false, in_baseline) {
            Some(m) => !m.started_during_interview,
            None => true,
        },
{
}

} // verus!
