//! Virtualization inspection: scoring machine fingerprints for signs that the
//! session runs inside a virtual machine.
//!
//! The probes hand in the CPUID hypervisor bit and vendor, the reported
//! system and host names, and the network adapters with their MAC addresses.
//! A Microsoft hypervisor vendor is inconclusive on its own (it may indicate
//! host-side virtualization tooling rather than guest execution), so it
//! contributes a reduced weight; the ambiguity is encoded numerically, not as
//! an error.

use vstd::prelude::*;
use crate::clamp_permille;
use crate::evidence::EvidenceAccumulator;
use crate::text::{contains_ci, contains_cs, starts_with_ci, str_contains_ci, str_contains_cs, str_starts_with_ci};

verus! {

/// One network adapter as the probe observed it.
#[derive(Clone, Debug)]
pub struct NetworkInterface {
    pub name: String,
    pub mac_address: String,
}

/// The machine fingerprints the virtualization probes gathered.
#[derive(Clone, Debug)]
pub struct VmEvidence {
    /// The CPUID hypervisor bit.
    pub hypervisor_present: bool,
    /// The hypervisor vendor identification, when one could be read.
    pub hypervisor_vendor: Option<String>,
    /// The reported system model or OS name.
    pub system_name: Option<String>,
    /// The reported host name.
    pub host_name: Option<String>,
    /// The network adapters with their MAC addresses.
    pub network_interfaces: Vec<NetworkInterface>,
}

/// The virtualization module's output: its own fixed-cutoff verdict, the
/// matched fingerprints, and the clamped per-mille confidence.
#[derive(Clone, Debug)]
pub struct VmCheckResult {
    pub is_vm: bool,
    pub reasons: Vec<String>,
    pub confidence_score: u32,
}

/// Mathematical model of a virtualization check result.
pub ghost struct VmResultModel {
    pub is_vm: bool,
    pub reasons: Seq<Seq<char>>,
    pub confidence_score: int,
}

impl View for VmCheckResult {
    type V = VmResultModel;

    open spec fn view(&self) -> VmResultModel {
        VmResultModel {
            is_vm: self.is_vm,
            reasons: self.reasons@.map_values(|s: String| s@),
            confidence_score: self.confidence_score as int,
        }
    }
}

/// Raw confidence, per-mille, above which the module's own verdict is "this
/// is a virtual machine".
pub const VM_CUTOFF: u32 = 700;

/// A hypervisor vendor string that is inconclusive on its own.
pub open spec fn spec_vendor_ambiguous(v: Seq<char>) -> bool {
    contains_cs("HyperV"@, v) || contains_cs("Microsoft"@, v)
}

/// A system model or OS name that matches a known virtualization product.
pub open spec fn spec_suspicious_system(s: Seq<char>) -> bool {
    ||| contains_ci("virtualbox"@, s)
    ||| contains_ci("vmware"@, s)
    ||| contains_ci("qemu"@, s)
    ||| contains_ci("kvm"@, s)
    ||| contains_ci("oracle"@, s)
    ||| contains_ci("innotek"@, s)
    ||| contains_ci("xen"@, s)
    ||| contains_ci("bochs"@, s)
    ||| contains_ci("parallels"@, s)
    ||| contains_ci("bhyve"@, s)
    ||| contains_ci("virtual machine"@, s)
    ||| contains_ci("hvm dom"@, s)
}

/// A host name that suggests virtualization.
pub open spec fn spec_suspicious_host(s: Seq<char>) -> bool {
    contains_ci("virtual"@, s) || contains_ci("qemu"@, s)
}

/// The reasons recorded for one adapter whose MAC address begins with a known
/// virtual-machine vendor prefix, in prefix order.
pub open spec fn spec_mac_reasons_one(iface: NetworkInterface) -> Seq<Seq<char>> {
    let m = iface.mac_address@;
    let r0 = if starts_with_ci("00:05:69"@, m) {
        seq!["VM network adapter (VMware) detected"@]
    } else {
        Seq::<Seq<char>>::empty()
    };
    let r1 = if starts_with_ci("00:0C:29"@, m) {
        r0.push("VM network adapter (VMware) detected"@)
    } else {
        r0
    };
    let r2 = if starts_with_ci("00:1C:14"@, m) {
        r1.push("VM network adapter (VMware) detected"@)
    } else {
        r1
    };
    let r3 = if starts_with_ci("00:50:56"@, m) {
        r2.push("VM network adapter (VMware) detected"@)
    } else {
        r2
    };
    let r4 = if starts_with_ci("08:00:27"@, m) {
        r3.push("VM network adapter (VirtualBox) detected"@)
    } else {
        r3
    };
    let r5 = if starts_with_ci("52:54:00"@, m) {
        r4.push("VM network adapter (QEMU/KVM) detected"@)
    } else {
        r4
    };
    let r6 = if starts_with_ci("00:16:3E"@, m) {
        r5.push("VM network adapter (Xen) detected"@)
    } else {
        r5
    };
    if starts_with_ci("00:1C:42"@, m) {
        r6.push("VM network adapter (Parallels) detected"@)
    } else {
        r6
    }
}

/// The MAC-prefix reasons over all adapters, in adapter order.
pub open spec fn spec_mac_reasons(ifaces: Seq<NetworkInterface>) -> Seq<Seq<char>>
    decreases ifaces.len(),
{
    if ifaces.len() == 0 {
        Seq::<Seq<char>>::empty()
    } else {
        spec_mac_reasons(ifaces.drop_last()) + spec_mac_reasons_one(ifaces.last())
    }
}

/// The raw (unclamped) per-mille confidence of the evidence.
pub open spec fn spec_vm_raw(e: VmEvidence) -> int {
    (if e.hypervisor_present {
        100int + (match e.hypervisor_vendor {
            Some(v) => if spec_vendor_ambiguous(v@) {
                200int
            } else {
                800int
            },
            None => 0int,
        })
    } else {
        0int
    }) + (match e.system_name {
        Some(s) => if spec_suspicious_system(s@) {
            600int
        } else {
            0int
        },
        None => 0int,
    }) + (match e.host_name {
        Some(h) => if spec_suspicious_host(h@) {
            300int
        } else {
            0int
        },
        None => 0int,
    }) + (if spec_mac_reasons(e.network_interfaces@).len() > 0 {
        500int
    } else {
        0int
    })
}

/// The reasons of the evidence, in evaluation order.
pub open spec fn spec_vm_reasons(e: VmEvidence) -> Seq<Seq<char>> {
    let r0 = if e.hypervisor_present {
        seq!["CPUID hypervisor bit set"@]
    } else {
        Seq::<Seq<char>>::empty()
    };
    let r1 = if e.hypervisor_present && e.hypervisor_vendor is Some {
        if spec_vendor_ambiguous(e.hypervisor_vendor->0@) {
            r0.push("Hypervisor vendor is ambiguous (could be host-side tooling)"@)
        } else {
            r0.push("Hypervisor vendor detected"@)
        }
    } else {
        r0
    };
    let r2 = if e.system_name is Some && spec_suspicious_system(e.system_name->0@) {
        r1.push("Suspicious system model"@)
    } else {
        r1
    };
    let r3 = if e.host_name is Some && spec_suspicious_host(e.host_name->0@) {
        r2.push("Suspicious hostname"@)
    } else {
        r2
    };
    r3 + spec_mac_reasons(e.network_interfaces@)
}

/// The full model of a detection run over the evidence.
pub open spec fn spec_vm_result(e: VmEvidence) -> VmResultModel {
    VmResultModel {
        is_vm: spec_vm_raw(e) > VM_CUTOFF,
        reasons: spec_vm_reasons(e),
        confidence_score: clamp_permille(spec_vm_raw(e)),
    }
}

#[verifier::rlimit(100)]
fn mac_reasons_for(iface: &NetworkInterface, out: &mut Vec<String>)
    ensures
        final(out)@.map_values(|s: String| s@) == old(out)@.map_values(|s: String| s@)
            + spec_mac_reasons_one(*iface),
{
    let ghost base = out@.map_values(|s: String| s@);
    let ghost m = iface.mac_address@;
    let mac = iface.mac_address.as_str();
    if str_starts_with_ci(mac, "00:05:69") {
        out.push("VM network adapter (VMware) detected".to_owned());
    }
    proof {
        let r0 = if starts_with_ci("00:05:69"@, m) {
            seq!["VM network adapter (VMware) detected"@]
        } else {
            Seq::<Seq<char>>::empty()
        };
        assert(out@.map_values(|s: String| s@) =~= base + r0);
    }
    if str_starts_with_ci(mac, "00:0C:29") {
        out.push("VM network adapter (VMware) detected".to_owned());
    }
    if str_starts_with_ci(mac, "00:1C:14") {
        out.push("VM network adapter (VMware) detected".to_owned());
    }
    if str_starts_with_ci(mac, "00:50:56") {
        out.push("VM network adapter (VMware) detected".to_owned());
    }
    if str_starts_with_ci(mac, "08:00:27") {
        out.push("VM network adapter (VirtualBox) detected".to_owned());
    }
    if str_starts_with_ci(mac, "52:54:00") {
        out.push("VM network adapter (QEMU/KVM) detected".to_owned());
    }
    if str_starts_with_ci(mac, "00:16:3E") {
        out.push("VM network adapter (Xen) detected".to_owned());
    }
    if str_starts_with_ci(mac, "00:1C:42") {
        out.push("VM network adapter (Parallels) detected".to_owned());
    }
    proof {
        assert(out@.map_values(|s: String| s@) =~= base + spec_mac_reasons_one(*iface));
    }
}

/// Scores machine fingerprints for signs of virtualization.
pub struct VmDetector;

impl VmDetector {
    pub fn new() -> (r: VmDetector)
        ensures
            true,
    {
        VmDetector
    }

    /// Does the string match a known virtualization product name?
    pub fn is_suspicious_system_string(&self, s: &str) -> (r: bool)
        ensures
            r == spec_suspicious_system(s@),
    {
        str_contains_ci(s, "virtualbox") || str_contains_ci(s, "vmware") || str_contains_ci(
            s,
            "qemu",
        ) || str_contains_ci(s, "kvm") || str_contains_ci(s, "oracle") || str_contains_ci(
            s,
            "innotek",
        ) || str_contains_ci(s, "xen") || str_contains_ci(s, "bochs") || str_contains_ci(
            s,
            "parallels",
        ) || str_contains_ci(s, "bhyve") || str_contains_ci(s, "virtual machine")
            || str_contains_ci(s, "hvm dom")
    }

    /// The reasons for every adapter whose MAC address begins with a known
    /// virtual-machine vendor prefix, in adapter order.
    #[verifier::loop_isolation(false)]
    pub fn check_mac_addresses(&self, interfaces: &Vec<NetworkInterface>) -> (r: Vec<String>)
        ensures
            r@.map_values(|s: String| s@) == spec_mac_reasons(interfaces@),
    {
        let mut out: Vec<String> = Vec::new();
        proof {
            assert(out@.map_values(|s: String| s@) =~= spec_mac_reasons(
                interfaces@.subrange(0, 0),
            ));
        }
        let mut i: usize = 0;
        while i < interfaces.len()
            invariant
                i <= interfaces@.len(),
                out@.map_values(|s: String| s@) == spec_mac_reasons(
                    interfaces@.subrange(0, i as int),
                ),
            decreases interfaces@.len() - i,
        {
            mac_reasons_for(&interfaces[i], &mut out);
            proof {
                let cur = interfaces@.subrange(0, i + 1);
                assert(cur.drop_last() =~= interfaces@.subrange(0, i as int));
                assert(cur.last() == interfaces@[i as int]);
            }
            i += 1;
        }
        proof {
            assert(interfaces@.subrange(0, interfaces@.len() as int) =~= interfaces@);
        }
        out
    }

    /// Score the machine evidence and decide whether it indicates a virtual
    /// machine: the raw confidence must strictly exceed the fixed cutoff of
    /// 0.7.
    #[verifier::rlimit(100)]
    pub fn detect(&self, evidence: &VmEvidence) -> (r: VmCheckResult)
        ensures
            r@ == spec_vm_result(*evidence),
    {
        let mut acc = EvidenceAccumulator::new();
        acc.record(evidence.hypervisor_present, 100, "CPUID hypervisor bit set".to_owned());
        if evidence.hypervisor_present {
            match &evidence.hypervisor_vendor {
                Some(vendor) => {
                    let ambiguous = str_contains_cs(vendor.as_str(), "HyperV") || str_contains_cs(
                        vendor.as_str(),
                        "Microsoft",
                    );
                    if ambiguous {
                        acc.record(
                            true,
                            200,
                            "Hypervisor vendor is ambiguous (could be host-side tooling)".to_owned(),
                        );
                    } else {
                        acc.record(true, 800, "Hypervisor vendor detected".to_owned());
                    }
                },
                None => {},
            }
        }
        match &evidence.system_name {
            Some(name) => {
                acc.record(
                    self.is_suspicious_system_string(name.as_str()),
                    600,
                    "Suspicious system model".to_owned(),
                );
            },
            None => {},
        }
        match &evidence.host_name {
            Some(host) => {
                acc.record(
                    str_contains_ci(host.as_str(), "virtual") || str_contains_ci(
                        host.as_str(),
                        "qemu",
                    ),
                    300,
                    "Suspicious hostname".to_owned(),
                );
            },
            None => {},
        }
        let mut mac_reasons = self.check_mac_addresses(&evidence.network_interfaces);
        if mac_reasons.len() > 0 {
            acc.total = acc.total + 500;
        }
        proof {
            assert(acc.total == spec_vm_raw(*evidence));
            assert(acc.reasons@.map_values(|s: String| s@) + mac_reasons@.map_values(
                |s: String| s@,
            ) =~= spec_vm_reasons(*evidence));
        }
        let is_vm = acc.exceeds(VM_CUTOFF);
        let confidence_score = acc.confidence();
        let mut reasons = acc.reasons;
        reasons.append(&mut mac_reasons);
        proof {
            assert(reasons@.map_values(|s: String| s@) =~= spec_vm_reasons(*evidence));
        }
        VmCheckResult { is_vm, reasons, confidence_score }
    }
}

} // verus!
