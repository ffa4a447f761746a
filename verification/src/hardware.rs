//! Display/hardware inspection: scoring a display configuration against the
//! session baseline and the remote-desktop signal.
//!
//! The probe hands in the current display configuration (or nothing, when it
//! could not be read) and whether a remote-desktop session is active; the
//! detector accumulates fixed per-mille weights for each suspicious trait and
//! reports the clamped score with one flag per trait. Unlike the other
//! modules it draws no verdict of its own: the cutoff decision belongs to the
//! final fusion.

use vstd::prelude::*;
use crate::clamp_permille;
use crate::text::{
    contains_ci,
    contains_cs,
    starts_with_ci,
    str_contains_ci,
    str_contains_cs,
    str_starts_with_ci,
};

verus! {

/// How a display is attached.
#[derive(Clone, Copy, Debug, PartialEq, Eq, Structural)]
pub enum ConnectionType {
    HDMI,
    DisplayPort,
    USB,
    Virtual,
    Wireless,
    Unknown,
}

/// One attached display.
#[derive(Clone, Debug)]
pub struct DisplayInfo {
    pub id: String,
    pub name: String,
    pub width: u32,
    pub height: u32,
    pub is_primary: bool,
    pub connection_type: ConnectionType,
}

/// A snapshot of the attached displays.
#[derive(Clone, Debug)]
pub struct DisplayConfiguration {
    pub display_count: usize,
    pub displays: Vec<DisplayInfo>,
    pub has_virtual_display: bool,
    pub has_hdmi_splitter_signature: bool,
}

/// The hardware module's output: a clamped per-mille risk score, one flag per
/// suspicious trait in evaluation order, and the observed display count
/// (absent when the configuration could not be read).
#[derive(Clone, Debug)]
pub struct HardwareSuspicion {
    pub risk_score: u32,
    pub flags: Vec<String>,
    pub display_count: Option<usize>,
}

/// Mathematical model of the hardware module's output.
pub ghost struct HardwareSuspicionModel {
    pub risk_score: int,
    pub flags: Seq<Seq<char>>,
    pub display_count: Option<usize>,
}

impl View for HardwareSuspicion {
    type V = HardwareSuspicionModel;

    open spec fn view(&self) -> HardwareSuspicionModel {
        HardwareSuspicionModel {
            risk_score: self.risk_score as int,
            flags: self.flags@.map_values(|s: String| s@),
            display_count: self.display_count,
        }
    }
}

/// The ids of a display list, in order.
pub open spec fn display_ids(ds: Seq<DisplayInfo>) -> Seq<Seq<char>> {
    ds.map_values(|d: DisplayInfo| d.id@)
}

/// A display whose id was not present in the baseline snapshot.
pub open spec fn spec_is_new_display(d: DisplayInfo, base_ids: Seq<Seq<char>>) -> bool {
    !exists|i: int| 0 <= i < base_ids.len() && base_ids[i] == d.id@
}

/// Per-mille score contributed by displays that appeared after the baseline.
pub open spec fn spec_new_display_score(ds: Seq<DisplayInfo>, base_ids: Seq<Seq<char>>) -> int
    decreases ds.len(),
{
    if ds.len() == 0 {
        0int
    } else {
        spec_new_display_score(ds.drop_last(), base_ids) + (if spec_is_new_display(
            ds.last(),
            base_ids,
        ) {
            300int
        } else {
            0int
        })
    }
}

/// One flag per display that appeared after the baseline, in display order.
pub open spec fn spec_new_display_flags(ds: Seq<DisplayInfo>, base_ids: Seq<Seq<char>>) -> Seq<
    Seq<char>,
>
    decreases ds.len(),
{
    if ds.len() == 0 {
        Seq::<Seq<char>>::empty()
    } else {
        let rest = spec_new_display_flags(ds.drop_last(), base_ids);
        if spec_is_new_display(ds.last(), base_ids) {
            rest.push("New display connected during interview"@)
        } else {
            rest
        }
    }
}

/// Per-mille score contributed by suspicious connection types.
pub open spec fn spec_connection_score(ds: Seq<DisplayInfo>) -> int
    decreases ds.len(),
{
    if ds.len() == 0 {
        0int
    } else {
        spec_connection_score(ds.drop_last()) + (if ds.last().connection_type
            == ConnectionType::USB {
            200int
        } else if ds.last().connection_type == ConnectionType::Wireless {
            250int
        } else {
            0int
        })
    }
}

/// One flag per USB or wireless display, in display order.
pub open spec fn spec_connection_flags(ds: Seq<DisplayInfo>) -> Seq<Seq<char>>
    decreases ds.len(),
{
    if ds.len() == 0 {
        Seq::<Seq<char>>::empty()
    } else {
        let rest = spec_connection_flags(ds.drop_last());
        if ds.last().connection_type == ConnectionType::USB {
            rest.push("USB display detected"@)
        } else if ds.last().connection_type == ConnectionType::Wireless {
            rest.push("Wireless display detected"@)
        } else {
            rest
        }
    }
}

/// The raw (unclamped) per-mille hardware risk of a readable configuration.
pub open spec fn spec_hw_raw(
    cur: DisplayConfiguration,
    baseline: Option<DisplayConfiguration>,
    remote_desktop: bool,
) -> int {
    (if cur.has_hdmi_splitter_signature {
        700int
    } else {
        0int
    }) + (if cur.has_virtual_display {
        500int
    } else {
        0int
    }) + (if cur.display_count > 1 {
        if cur.display_count == 2 {
            50int
        } else {
            150int
        }
    } else {
        0int
    }) + (match baseline {
        Some(b) => (if b.display_count != cur.display_count {
            400int
        } else {
            0int
        }) + spec_new_display_score(cur.displays@, display_ids(b.displays@)),
        None => 0int,
    }) + spec_connection_score(cur.displays@) + (if remote_desktop {
        800int
    } else {
        0int
    })
}

/// The flags of a readable configuration, in evaluation order.
pub open spec fn spec_hw_flags(
    cur: DisplayConfiguration,
    baseline: Option<DisplayConfiguration>,
    remote_desktop: bool,
) -> Seq<Seq<char>> {
    let f0 = if cur.has_hdmi_splitter_signature {
        seq!["HDMI splitter signature detected"@]
    } else {
        Seq::<Seq<char>>::empty()
    };
    let f1 = if cur.has_virtual_display {
        f0.push("Virtual display detected"@)
    } else {
        f0
    };
    let f2 = if cur.display_count > 1 {
        f1.push("Multiple displays detected"@)
    } else {
        f1
    };
    let f3 = match baseline {
        Some(b) => {
            let changed = if b.display_count != cur.display_count {
                f2.push("Display configuration changed during interview"@)
            } else {
                f2
            };
            changed + spec_new_display_flags(cur.displays@, display_ids(b.displays@))
        },
        None => f2,
    };
    let f4 = f3 + spec_connection_flags(cur.displays@);
    if remote_desktop {
        f4.push("Remote desktop connection detected"@)
    } else {
        f4
    }
}

/// The full model of a hardware detection run: an unreadable configuration
/// yields a zero score with a single explanatory flag, a readable one the
/// clamped accumulated score with its trait flags.
pub open spec fn spec_hw_suspicion(
    current: Option<DisplayConfiguration>,
    baseline: Option<DisplayConfiguration>,
    remote_desktop: bool,
) -> HardwareSuspicionModel {
    match current {
        None => HardwareSuspicionModel {
            risk_score: 0,
            flags: seq!["Unable to detect display configuration"@],
            display_count: None,
        },
        Some(cur) => HardwareSuspicionModel {
            risk_score: crate::clamp_permille(spec_hw_raw(cur, baseline, remote_desktop)),
            flags: spec_hw_flags(cur, baseline, remote_desktop),
            display_count: Some(cur.display_count),
        },
    }
}

/// Add a per-mille contribution to an already-clamped score, clamping again.
fn add_capped(score: u32, inc: u32) -> (r: u32)
    requires
        score <= 1000,
        inc <= 1000,
    ensures
        r == clamp_permille(score + inc),
        r <= 1000,
{
    let s = score + inc;
    if s > 1000 {
        1000
    } else {
        s
    }
}

fn is_new_display(d: &DisplayInfo, baseline: &Vec<DisplayInfo>) -> (r: bool)
    ensures
        r == spec_is_new_display(*d, display_ids(baseline@)),
{
    let mut i: usize = 0;
    while i < baseline.len()
        invariant
            i <= baseline@.len(),
            forall|t: int| 0 <= t < i ==> baseline@[t].id@ != d.id@,
        decreases baseline@.len() - i,
    {
        if baseline[i].id == d.id {
            assert(display_ids(baseline@)[i as int] == d.id@);
            return false;
        }
        i += 1;
    }
    assert forall|t: int| 0 <= t < display_ids(baseline@).len() implies display_ids(baseline@)[t]
        != d.id@ by {
        assert(display_ids(baseline@)[t] == baseline@[t].id@);
    }
    true
}

/// Keeps the session-start display baseline and scores later configurations
/// against it.
pub struct HardwareDetector {
    pub baseline_displays: Option<DisplayConfiguration>,
}

impl HardwareDetector {
    /// Fresh detector: no baseline captured.
    pub fn new() -> (r: HardwareDetector)
        ensures
            r.baseline_displays is None,
    {
        HardwareDetector { baseline_displays: None }
    }

    /// Capture the display baseline. A later call replaces the snapshot
    /// wholesale.
    pub fn set_baseline(&mut self, current: DisplayConfiguration)
        ensures
            final(self).baseline_displays == Some(current),
    {
        self.baseline_displays = Some(current);
    }

    /// The captured baseline, if any.
    pub fn get_baseline(&self) -> (r: Option<&DisplayConfiguration>)
        ensures
            match r {
                Some(b) => self.baseline_displays == Some(*b),
                None => self.baseline_displays is None,
            },
    {
        self.baseline_displays.as_ref()
    }

    /// Compare a current display count against the baseline: the baseline
    /// count and whether it changed, or nothing when no baseline was
    /// captured.
    pub fn display_drift(&self, current_count: usize) -> (r: Option<(usize, bool)>)
        ensures
            match self.baseline_displays {
                Some(b) => r == Some((b.display_count, b.display_count != current_count)),
                None => r is None,
            },
    {
        match &self.baseline_displays {
            Some(b) => Some((b.display_count, b.display_count != current_count)),
            None => None,
        }
    }

    /// Score the current display configuration against the baseline and the
    /// remote-desktop signal. An unreadable configuration yields a zero score
    /// with a single explanatory flag, never an error.
    #[verifier::loop_isolation(false)]
    #[verifier::rlimit(60)]
    pub fn detect_hardware_cheating(
        &self,
        current: Option<DisplayConfiguration>,
        remote_desktop_active: bool,
    ) -> (r: HardwareSuspicion)
        ensures
            r@ == spec_hw_suspicion(current, self.baseline_displays, remote_desktop_active),
            r.risk_score <= 1000,
    {
        let cur = match current {
            None => {
                let mut flags: Vec<String> = Vec::new();
                flags.push("Unable to detect display configuration".to_owned());
                proof {
                    assert(flags@.map_values(|s: String| s@) =~= seq![
                        "Unable to detect display configuration"@,
                    ]);
                }
                return HardwareSuspicion { risk_score: 0, flags, display_count: None };
            },
            Some(c) => c,
        };

        let mut flags: Vec<String> = Vec::new();
        let mut risk: u32 = 0;
        let ghost mut raw: int = 0int;

        if cur.has_hdmi_splitter_signature {
            flags.push("HDMI splitter signature detected".to_owned());
            risk = add_capped(risk, 700);
            proof {
                crate::evidence::lemma_clamp_step(raw, 700);
                raw = raw + 700;
            }
        }
        if cur.has_virtual_display {
            flags.push("Virtual display detected".to_owned());
            risk = add_capped(risk, 500);
            proof {
                crate::evidence::lemma_clamp_step(raw, 500);
                raw = raw + 500;
            }
        }
        if cur.display_count > 1 {
            flags.push("Multiple displays detected".to_owned());
            let inc: u32 = if cur.display_count == 2 {
                50
            } else {
                150
            };
            risk = add_capped(risk, inc);
            proof {
                crate::evidence::lemma_clamp_step(raw, inc as int);
                raw = raw + inc;
            }
        }
        proof {
            let f2 = spec_hw_flags_prefix2(cur);
            assert(flags@.map_values(|s: String| s@) =~= f2);
        }

        if let Some(baseline) = &self.baseline_displays {
            if baseline.display_count != cur.display_count {
                flags.push("Display configuration changed during interview".to_owned());
                risk = add_capped(risk, 400);
                proof {
                    crate::evidence::lemma_clamp_step(raw, 400);
                    raw = raw + 400;
                }
            }
            let ghost base_ids = display_ids(baseline.displays@);
            let ghost flags_before = flags@.map_values(|s: String| s@);
            let ghost raw_before = raw;
            proof {
                assert(flags_before + spec_new_display_flags(
                    cur.displays@.subrange(0, 0),
                    base_ids,
                ) =~= flags_before);
            }
            let mut i: usize = 0;
            while i < cur.displays.len()
                invariant
                    i <= cur.displays@.len(),
                    base_ids == display_ids(baseline.displays@),
                    risk <= 1000,
                    risk == clamp_permille(raw),
                    raw == raw_before + spec_new_display_score(
                        cur.displays@.subrange(0, i as int),
                        base_ids,
                    ),
                    flags@.map_values(|s: String| s@) == flags_before + spec_new_display_flags(
                        cur.displays@.subrange(0, i as int),
                        base_ids,
                    ),
                    0 <= raw_before,
                    0 <= raw,
                decreases cur.displays@.len() - i,
            {
                let ghost prev_flags = flags@.map_values(|s: String| s@);
                if is_new_display(&cur.displays[i], &baseline.displays) {
                    flags.push("New display connected during interview".to_owned());
                    risk = add_capped(risk, 300);
                    proof {
                        crate::evidence::lemma_clamp_step(raw, 300);
                        raw = raw + 300;
                        assert(flags@.map_values(|s: String| s@) =~= prev_flags.push(
                            "New display connected during interview"@,
                        ));
                    }
                }
                proof {
                    lemma_new_display_prefix_step(cur.displays@, base_ids, i as int);
                    assert(flags@.map_values(|s: String| s@) =~= flags_before
                        + spec_new_display_flags(cur.displays@.subrange(0, i + 1), base_ids));
                }
                i += 1;
            }
            proof {
                assert(cur.displays@.subrange(0, cur.displays@.len() as int) =~= cur.displays@);
            }
        }

        let ghost flags_mid = flags@.map_values(|s: String| s@);
        let ghost raw_mid = raw;
        proof {
            assert(flags_mid + spec_connection_flags(cur.displays@.subrange(0, 0)) =~= flags_mid);
        }
        let mut j: usize = 0;
        while j < cur.displays.len()
            invariant
                j <= cur.displays@.len(),
                risk <= 1000,
                risk == clamp_permille(raw),
                raw == raw_mid + spec_connection_score(cur.displays@.subrange(0, j as int)),
                flags@.map_values(|s: String| s@) == flags_mid + spec_connection_flags(
                    cur.displays@.subrange(0, j as int),
                ),
                0 <= raw_mid,
                0 <= raw,
            decreases cur.displays@.len() - j,
        {
            let ghost prev_flags = flags@.map_values(|s: String| s@);
            let is_usb = match cur.displays[j].connection_type {
                ConnectionType::USB => true,
                _ => false,
            };
            let is_wireless = match cur.displays[j].connection_type {
                ConnectionType::Wireless => true,
                _ => false,
            };
            if is_usb {
                flags.push("USB display detected".to_owned());
                risk = add_capped(risk, 200);
                proof {
                    crate::evidence::lemma_clamp_step(raw, 200);
                    raw = raw + 200;
                    assert(flags@.map_values(|s: String| s@) =~= prev_flags.push(
                        "USB display detected"@,
                    ));
                }
            }
            if is_wireless {
                flags.push("Wireless display detected".to_owned());
                risk = add_capped(risk, 250);
                proof {
                    crate::evidence::lemma_clamp_step(raw, 250);
                    raw = raw + 250;
                    assert(flags@.map_values(|s: String| s@) =~= prev_flags.push(
                        "Wireless display detected"@,
                    ));
                }
            }
            proof {
                lemma_connection_prefix_step(cur.displays@, j as int);
                assert(flags@.map_values(|s: String| s@) =~= flags_mid + spec_connection_flags(
                    cur.displays@.subrange(0, j + 1),
                ));
            }
            j += 1;
        }
        proof {
            assert(cur.displays@.subrange(0, cur.displays@.len() as int) =~= cur.displays@);
        }

        let ghost flags_tail = flags@.map_values(|s: String| s@);
        if remote_desktop_active {
            flags.push("Remote desktop connection detected".to_owned());
            risk = add_capped(risk, 800);
            proof {
                crate::evidence::lemma_clamp_step(raw, 800);
                raw = raw + 800;
                assert(flags@.map_values(|s: String| s@) =~= flags_tail.push(
                    "Remote desktop connection detected"@,
                ));
            }
        }

        proof {
            assert(raw == spec_hw_raw(cur, self.baseline_displays, remote_desktop_active));
            assert(flags@.map_values(|s: String| s@) =~= spec_hw_flags(
                cur,
                self.baseline_displays,
                remote_desktop_active,
            ));
        }
        HardwareSuspicion { risk_score: risk, flags, display_count: Some(cur.display_count) }
    }

    /// Infer how a display is attached from its device description string.
    pub fn detect_connection_type(&self, device_string: &str) -> (r: ConnectionType)
        ensures
            r == spec_connection_type(device_string@),
    {
        if str_contains_ci(device_string, "hdmi") {
            ConnectionType::HDMI
        } else if str_contains_ci(device_string, "displayport") || str_contains_ci(
            device_string,
            "dp",
        ) {
            ConnectionType::DisplayPort
        } else if str_contains_ci(device_string, "usb") {
            ConnectionType::USB
        } else if str_contains_ci(device_string, "virtual") || str_contains_ci(
            device_string,
            "dummy",
        ) {
            ConnectionType::Virtual
        } else if str_contains_ci(device_string, "miracast") || str_contains_ci(
            device_string,
            "wireless",
        ) {
            ConnectionType::Wireless
        } else {
            ConnectionType::Unknown
        }
    }

    /// Infer the attachment kind from a display-type description.
    pub fn parse_macos_connection(&self, display_type: &str) -> (r: ConnectionType)
        ensures
            r == spec_macos_connection(display_type@),
    {
        if str_contains_ci(display_type, "hdmi") {
            ConnectionType::HDMI
        } else if str_contains_ci(display_type, "displayport") {
            ConnectionType::DisplayPort
        } else if str_contains_ci(display_type, "usb-c") {
            ConnectionType::USB
        } else if str_contains_ci(display_type, "wireless") {
            ConnectionType::Wireless
        } else if str_contains_ci(display_type, "virtual") {
            ConnectionType::Virtual
        } else {
            ConnectionType::Unknown
        }
    }

    /// Infer the attachment kind from an output connector name.
    pub fn parse_linux_connection(&self, output_name: &str) -> (r: ConnectionType)
        ensures
            r == spec_linux_connection(output_name@),
    {
        if str_starts_with_ci(output_name, "hdmi") {
            ConnectionType::HDMI
        } else if str_starts_with_ci(output_name, "dp") || str_starts_with_ci(
            output_name,
            "displayport",
        ) {
            ConnectionType::DisplayPort
        } else if str_contains_ci(output_name, "virtual") {
            ConnectionType::Virtual
        } else {
            ConnectionType::Unknown
        }
    }

    /// Judge a device description string: does it indicate a virtual display,
    /// and does it carry a generic-device signature typical of HDMI splitters?
    pub fn classify_display_device(&self, device_string: &str) -> (r: (bool, bool))
        ensures
            r.0 == spec_device_virtual(device_string@),
            r.1 == spec_device_splitter(device_string@),
    {
        let is_virtual = str_contains_ci(device_string, "virtual") || str_contains_ci(
            device_string,
            "dummy",
        ) || (str_contains_ci(device_string, "usb") && str_contains_ci(device_string, "display"));
        let is_splitter = str_contains_cs(device_string, "Generic PnP") || str_contains_cs(
            device_string,
            "Generic Non-PnP",
        );
        (is_virtual, is_splitter)
    }
}

/// The flags pushed before the baseline comparison, as a function of the
/// current configuration alone.
pub open spec fn spec_hw_flags_prefix2(cur: DisplayConfiguration) -> Seq<Seq<char>> {
    let f0 = if cur.has_hdmi_splitter_signature {
        seq!["HDMI splitter signature detected"@]
    } else {
        Seq::<Seq<char>>::empty()
    };
    let f1 = if cur.has_virtual_display {
        f0.push("Virtual display detected"@)
    } else {
        f0
    };
    if cur.display_count > 1 {
        f1.push("Multiple displays detected"@)
    } else {
        f1
    }
}

/// The attachment kind read from a device description string.
pub open spec fn spec_connection_type(s: Seq<char>) -> ConnectionType {
    if contains_ci("hdmi"@, s) {
        ConnectionType::HDMI
    } else if contains_ci("displayport"@, s) || contains_ci("dp"@, s) {
        ConnectionType::DisplayPort
    } else if contains_ci("usb"@, s) {
        ConnectionType::USB
    } else if contains_ci("virtual"@, s) || contains_ci("dummy"@, s) {
        ConnectionType::Virtual
    } else if contains_ci("miracast"@, s) || contains_ci("wireless"@, s) {
        ConnectionType::Wireless
    } else {
        ConnectionType::Unknown
    }
}

/// The attachment kind read from a display-type description.
pub open spec fn spec_macos_connection(s: Seq<char>) -> ConnectionType {
    if contains_ci("hdmi"@, s) {
        ConnectionType::HDMI
    } else if contains_ci("displayport"@, s) {
        ConnectionType::DisplayPort
    } else if contains_ci("usb-c"@, s) {
        ConnectionType::USB
    } else if contains_ci("wireless"@, s) {
        ConnectionType::Wireless
    } else if contains_ci("virtual"@, s) {
        ConnectionType::Virtual
    } else {
        ConnectionType::Unknown
    }
}

/// The attachment kind read from an output connector name.
pub open spec fn spec_linux_connection(s: Seq<char>) -> ConnectionType {
    if starts_with_ci("hdmi"@, s) {
        ConnectionType::HDMI
    } else if starts_with_ci("dp"@, s) || starts_with_ci("displayport"@, s) {
        ConnectionType::DisplayPort
    } else if contains_ci("virtual"@, s) {
        ConnectionType::Virtual
    } else {
        ConnectionType::Unknown
    }
}

/// A device description that indicates a virtual display.
pub open spec fn spec_device_virtual(s: Seq<char>) -> bool {
    ||| contains_ci("virtual"@, s)
    ||| contains_ci("dummy"@, s)
    ||| (contains_ci("usb"@, s) && contains_ci("display"@, s))
}

/// A device description that carries a generic-device signature typical of
/// HDMI splitters.
pub open spec fn spec_device_splitter(s: Seq<char>) -> bool {
    contains_cs("Generic PnP"@, s) || contains_cs("Generic Non-PnP"@, s)
}

proof fn lemma_new_display_prefix_step(ds: Seq<DisplayInfo>, base_ids: Seq<Seq<char>>, i: int)
    requires
        0 <= i < ds.len(),
    ensures
        spec_new_display_score(ds.subrange(0, i + 1), base_ids) == spec_new_display_score(
            ds.subrange(0, i),
            base_ids,
        ) + (if spec_is_new_display(ds[i], base_ids) {
            300int
        } else {
            0int
        }),
        spec_new_display_flags(ds.subrange(0, i + 1), base_ids) == {
            let rest = spec_new_display_flags(ds.subrange(0, i), base_ids);
            if spec_is_new_display(ds[i], base_ids) {
                rest.push("New display connected during interview"@)
            } else {
                rest
            }
        },
{
    let cur = ds.subrange(0, i + 1);
    assert(cur.drop_last() =~= ds.subrange(0, i));
    assert(cur.last() == ds[i]);
}

proof fn lemma_connection_prefix_step(ds: Seq<DisplayInfo>, i: int)
    requires
        0 <= i < ds.len(),
    ensures
        spec_connection_score(ds.subrange(0, i + 1)) == spec_connection_score(ds.subrange(0, i)) + (
        if ds[i].connection_type == ConnectionType::USB {
            200int
        } else if ds[i].connection_type == ConnectionType::Wireless {
            250int
        } else {
            0int
        }),
        spec_connection_flags(ds.subrange(0, i + 1)) == {
            let rest = spec_connection_flags(ds.subrange(0, i));
            if ds[i].connection_type == ConnectionType::USB {
                rest.push("USB display detected"@)
            } else if ds[i].connection_type == ConnectionType::Wireless {
                rest.push("Wireless display detected"@)
            } else {
                rest
            }
        },
{
    let cur = ds.subrange(0, i + 1);
    assert(cur.drop_last() =~= ds.subrange(0, i));
    assert(cur.last() == ds[i]);
}

} // verus!
