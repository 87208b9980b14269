//! The bus enumerator: a depth-first, depth-bounded walk over the
//! bus/device/function topology, discovered one read at a time.

use vstd::prelude::*;
use crate::class_code::ClassCode;
use crate::config::{
    ConfigAccess, PCIConfigurationReader, spec_cfg, spec_class_of, spec_header_of,
    spec_secondary_of, spec_single_function, spec_vendor_of,
};
use crate::vendor::INVALID_VENDOR_ID;

verus! {

/// Bound on bridge recursion. Bus numbers are 8-bit and the hardware's
/// numbering discipline gives each bridge a fresh secondary bus, so a
/// well-formed chain of bridges is never deeper than this; a malformed
/// topology that reports a cycle merely exhausts the bound instead of
/// recursing forever.
pub const MAX_BRIDGE_DEPTH: u32 = 255;

/// A configuration-space location: bus 0-255, device 0-31,
/// function 0-7.
#[derive(PartialEq, Eq, Structural, Clone, Copy, Debug)]
pub struct DeviceAddress {
    pub bus: u8,
    pub device: u8,
    pub function: u8,
}

/// Search criteria for the traversal: class and subclass must match
/// exactly, prog-if only when given.
#[derive(Clone, Copy, Debug)]
pub struct ClassSignature {
    pub class_code: u8,
    pub subclass: u8,
    pub prog_if: Option<u8>,
}

/// One diagnostic record, emitted for every present function in
/// discovery order.
#[derive(PartialEq, Eq, Structural, Clone, Copy, Debug)]
pub struct FunctionReport {
    pub bus: u8,
    pub device: u8,
    pub function: u8,
    pub vendor_id: u16,
    pub class_code: ClassCode,
    pub header_type: u8,
}

/// What one stretch of the traversal produces: the diagnostic records
/// in discovery order, and the first matching address if any.
pub struct ScanTrace {
    pub reports: Seq<FunctionReport>,
    pub found: Option<DeviceAddress>,
}

pub open spec fn spec_matches_signature(sig: ClassSignature, c: ClassCode) -> bool {
    sig.class_code == c.class_code && sig.subclass == c.subclass && (match sig.prog_if {
        Option::Some(p) => p == c.prog_if,
        Option::None => true,
    })
}

impl ClassSignature {
    pub fn matches_class(&self, c: &ClassCode) -> (r: bool)
        ensures
            r == spec_matches_signature(*self, *c),
    {
        self.class_code == c.class_code && self.subclass == c.subclass && (match self.prog_if {
            Option::Some(p) => p == c.prog_if,
            Option::None => true,
        })
    }
}

/// A function is present iff its vendor id is not the absence
/// sentinel.
pub open spec fn spec_function_present<T: ConfigAccess>(
    p: T,
    bus: u8,
    device: u8,
    function: u8,
) -> bool {
    spec_vendor_of(spec_cfg(p, bus, device, function, 0x0)) != INVALID_VENDOR_ID
}

/// The diagnostic record of a present function.
pub open spec fn spec_report_of<T: ConfigAccess>(
    p: T,
    bus: u8,
    device: u8,
    function: u8,
) -> FunctionReport {
    FunctionReport {
        bus: bus,
        device: device,
        function: function,
        vendor_id: spec_vendor_of(spec_cfg(p, bus, device, function, 0x0)),
        class_code: spec_class_of(spec_cfg(p, bus, device, function, 0x8)),
        header_type: spec_header_of(spec_cfg(p, bus, device, function, 0xc)),
    }
}

pub open spec fn spec_empty_trace() -> ScanTrace {
    ScanTrace { reports: Seq::empty(), found: Option::None }
}

/// Traces compose in discovery order; the first match wins.
pub open spec fn spec_trace_then(first: ScanTrace, second: ScanTrace) -> ScanTrace {
    ScanTrace {
        reports: first.reports + second.reports,
        found: if first.found is Some {
            first.found
        } else {
            second.found
        },
    }
}

/// Processing one function short of bridge recursion: an absent
/// function produces nothing; a present one produces its record, and a
/// match against the search criteria if they are given and met.
pub open spec fn spec_log_function<T: ConfigAccess>(
    p: T,
    target: Option<ClassSignature>,
    bus: u8,
    device: u8,
    function: u8,
) -> ScanTrace {
    if !spec_function_present(p, bus, device, function) {
        spec_empty_trace()
    } else {
        ScanTrace {
            reports: seq![spec_report_of(p, bus, device, function)],
            found: match target {
                Option::Some(sig) => if spec_matches_signature(
                    sig,
                    spec_class_of(spec_cfg(p, bus, device, function, 0x8)),
                ) {
                    Option::Some(DeviceAddress { bus: bus, device: device, function: function })
                } else {
                    Option::None
                },
                Option::None => Option::None,
            },
        }
    }
}

/// One function, bridge recursion included: after the record, a
/// PCI-to-PCI bridge's secondary bus is scanned in full before the
/// traversal moves on.
pub open spec fn spec_scan_function<T: ConfigAccess>(
    p: T,
    target: Option<ClassSignature>,
    bus: u8,
    device: u8,
    function: u8,
    fuel: nat,
) -> ScanTrace
    decreases fuel, 0int, 0int,
{
    let logged = spec_log_function(p, target, bus, device, function);
    let class = spec_class_of(spec_cfg(p, bus, device, function, 0x8));
    if class.spec_is_pci_to_pci_bridge() && fuel > 0 {
        let secondary = spec_secondary_of(spec_cfg(p, bus, device, function, 0x18));
        spec_trace_then(logged, spec_scan_bus(p, target, secondary, (fuel - 1) as nat))
    } else {
        logged
    }
}

/// Functions `from`..8 of a multi-function device: each is checked for
/// presence on its own; a gap is skipped, never a stopping condition.
pub open spec fn spec_scan_functions_from<T: ConfigAccess>(
    p: T,
    target: Option<ClassSignature>,
    bus: u8,
    device: u8,
    from: u8,
    fuel: nat,
) -> ScanTrace
    decreases fuel, 1int, 8 - from,
{
    if from >= 8 {
        spec_empty_trace()
    } else {
        let here = if spec_function_present(p, bus, device, from) {
            spec_scan_function(p, target, bus, device, from, fuel)
        } else {
            spec_empty_trace()
        };
        spec_trace_then(here, spec_scan_functions_from(p, target, bus, device, (from + 1) as u8, fuel))
    }
}

/// One device slot: an absent function 0 means an empty slot; a
/// present one is processed, and functions 1-7 are probed only when
/// function 0's multi-function flag is set.
pub open spec fn spec_scan_device<T: ConfigAccess>(
    p: T,
    target: Option<ClassSignature>,
    bus: u8,
    device: u8,
    fuel: nat,
) -> ScanTrace
    decreases fuel, 2int, 0int,
{
    if !spec_function_present(p, bus, device, 0) {
        spec_empty_trace()
    } else {
        let first = spec_scan_function(p, target, bus, device, 0, fuel);
        if !spec_single_function(spec_header_of(spec_cfg(p, bus, device, 0, 0xc))) {
            spec_trace_then(first, spec_scan_functions_from(p, target, bus, device, 1, fuel))
        } else {
            first
        }
    }
}

pub open spec fn spec_scan_devices_from<T: ConfigAccess>(
    p: T,
    target: Option<ClassSignature>,
    bus: u8,
    from: u8,
    fuel: nat,
) -> ScanTrace
    decreases fuel, 3int, 32 - from,
{
    if from >= 32 {
        spec_empty_trace()
    } else {
        spec_trace_then(
            spec_scan_device(p, target, bus, from, fuel),
            spec_scan_devices_from(p, target, bus, (from + 1) as u8, fuel),
        )
    }
}

/// One bus: all 32 device slots probed unconditionally.
pub open spec fn spec_scan_bus<T: ConfigAccess>(
    p: T,
    target: Option<ClassSignature>,
    bus: u8,
    fuel: nat,
) -> ScanTrace
    decreases fuel, 4int, 0int,
{
    spec_scan_devices_from(p, target, bus, 0, fuel)
}

/// Host-bridge functions `from`..8 of device 0 on bus 0: function N
/// roots bus N, and probing stops at the first absent function, since
/// hardware numbers them contiguously from 0.
pub open spec fn spec_scan_host_functions_from<T: ConfigAccess>(
    p: T,
    target: Option<ClassSignature>,
    from: u8,
) -> ScanTrace
    decreases 8 - from,
{
    if from >= 8 {
        spec_empty_trace()
    } else if !spec_function_present(p, 0, 0, from) {
        spec_empty_trace()
    } else {
        spec_trace_then(
            spec_scan_bus(p, target, from, MAX_BRIDGE_DEPTH as nat),
            spec_scan_host_functions_from(p, target, (from + 1) as u8),
        )
    }
}

/// The whole traversal: a single-function host bridge roots bus 0
/// alone; a multi-function one roots one bus per contiguous present
/// function.
pub open spec fn spec_scan_all<T: ConfigAccess>(p: T, target: Option<ClassSignature>) -> ScanTrace {
    if spec_single_function(spec_header_of(spec_cfg(p, 0, 0, 0, 0xc))) {
        spec_scan_bus(p, target, 0, MAX_BRIDGE_DEPTH as nat)
    } else {
        spec_scan_host_functions_from(p, target, 0)
    }
}

/// Emit the diagnostic record for one function, if present, and test
/// it against the search criteria. Absent functions produce nothing.
pub fn log_pci_function<T: ConfigAccess>(
    port: &mut T,
    target: Option<ClassSignature>,
    bus: u8,
    device: u8,
    function: u8,
    log: &mut Vec<FunctionReport>,
) -> (found: Option<DeviceAddress>)
    requires
        device < 32,
        function < 8,
    ensures
        *final(port) == *old(port),
        final(log)@ == old(log)@ + spec_log_function(*old(port), target, bus, device, function).reports,
        found == spec_log_function(*old(port), target, bus, device, function).found,
{
    let config = PCIConfigurationReader::new(bus, device, function);
    let vendor_id = config.read_vendor_id(port);
    if vendor_id.is_invalid() {
        proof {
            assert(log@ =~= old(log)@ + spec_log_function(
                *old(port),
                target,
                bus,
                device,
                function,
            ).reports);
        }
        return Option::None;
    }
    let class_code = config.read_class_code(port);
    let header_type = config.read_header_type(port);
    let report = FunctionReport {
        bus: bus,
        device: device,
        function: function,
        vendor_id: vendor_id.get(),
        class_code: class_code,
        header_type: header_type,
    };
    log.push(report);
    proof {
        assert(report == spec_report_of(*old(port), bus, device, function));
        assert(log@ =~= old(log)@ + spec_log_function(
            *old(port),
            target,
            bus,
            device,
            function,
        ).reports);
    }
    match target {
        Option::Some(sig) => if sig.matches_class(&class_code) {
            Option::Some(DeviceAddress { bus: bus, device: device, function: function })
        } else {
            Option::None
        },
        Option::None => Option::None,
    }
}

/// Process one function: record it, then recurse into its secondary
/// bus if it is a PCI-to-PCI bridge and fuel remains.
pub fn scan_function<T: ConfigAccess>(
    port: &mut T,
    target: Option<ClassSignature>,
    bus: u8,
    device: u8,
    function: u8,
    fuel: u32,
    log: &mut Vec<FunctionReport>,
) -> (found: Option<DeviceAddress>)
    requires
        device < 32,
        function < 8,
    ensures
        *final(port) == *old(port),
        final(log)@ == old(log)@ + spec_scan_function(
            *old(port),
            target,
            bus,
            device,
            function,
            fuel as nat,
        ).reports,
        found == spec_scan_function(*old(port), target, bus, device, function, fuel as nat).found,
    decreases fuel, 0int, 0int,
{
    let found_here = log_pci_function(port, target, bus, device, function, log);
    let config = PCIConfigurationReader::new(bus, device, function);
    let class = config.read_class_code(port);
    if class.is_pci_to_pci_bridge() && fuel > 0 {
        let secondary_bus = config.read_secondary_bus_num(port);
        let found_below = scan_bus(port, target, secondary_bus, fuel - 1, log);
        proof {
            assert(log@ =~= old(log)@ + spec_scan_function(
                *old(port),
                target,
                bus,
                device,
                function,
                fuel as nat,
            ).reports);
        }
        if found_here.is_some() {
            found_here
        } else {
            found_below
        }
    } else {
        found_here
    }
}

/// Probe functions `from`..8 of a multi-function device, skipping
/// absent ones.
fn scan_functions_from<T: ConfigAccess>(
    port: &mut T,
    target: Option<ClassSignature>,
    bus: u8,
    device: u8,
    from: u8,
    fuel: u32,
    log: &mut Vec<FunctionReport>,
) -> (found: Option<DeviceAddress>)
    requires
        device < 32,
        from <= 8,
    ensures
        *final(port) == *old(port),
        final(log)@ == old(log)@ + spec_scan_functions_from(
            *old(port),
            target,
            bus,
            device,
            from,
            fuel as nat,
        ).reports,
        found == spec_scan_functions_from(
            *old(port),
            target,
            bus,
            device,
            from,
            fuel as nat,
        ).found,
    decreases fuel, 1int, 8 - from,
{
    if from == 8 {
        proof {
            assert(log@ =~= old(log)@ + spec_scan_functions_from(
                *old(port),
                target,
                bus,
                device,
                from,
                fuel as nat,
            ).reports);
        }
        return Option::None;
    }
    let config = PCIConfigurationReader::new(bus, device, from);
    let here = if config.read_vendor_id(port).is_invalid() {
        Option::None
    } else {
        scan_function(port, target, bus, device, from, fuel, log)
    };
    let rest = scan_functions_from(port, target, bus, device, from + 1, fuel, log);
    proof {
        assert(log@ =~= old(log)@ + spec_scan_functions_from(
            *old(port),
            target,
            bus,
            device,
            from,
            fuel as nat,
        ).reports);
    }
    if here.is_some() {
        here
    } else {
        rest
    }
}

/// Probe one device slot. Function 0 decides presence of the whole
/// slot, and its multi-function flag decides whether functions 1-7 are
/// probed at all.
pub fn scan_device<T: ConfigAccess>(
    port: &mut T,
    target: Option<ClassSignature>,
    bus: u8,
    device: u8,
    fuel: u32,
    log: &mut Vec<FunctionReport>,
) -> (found: Option<DeviceAddress>)
    requires
        device < 32,
    ensures
        *final(port) == *old(port),
        final(log)@ == old(log)@ + spec_scan_device(*old(port), target, bus, device, fuel as nat).reports,
        found == spec_scan_device(*old(port), target, bus, device, fuel as nat).found,
    decreases fuel, 2int, 0int,
{
    let config = PCIConfigurationReader::new(bus, device, 0);
    if config.read_vendor_id(port).is_invalid() {
        proof {
            assert(log@ =~= old(log)@ + spec_scan_device(
                *old(port),
                target,
                bus,
                device,
                fuel as nat,
            ).reports);
        }
        return Option::None;
    }
    let found_first = scan_function(port, target, bus, device, 0, fuel, log);
    if !config.is_single_function(port) {
        let found_rest = scan_functions_from(port, target, bus, device, 1, fuel, log);
        proof {
            assert(log@ =~= old(log)@ + spec_scan_device(
                *old(port),
                target,
                bus,
                device,
                fuel as nat,
            ).reports);
        }
        if found_first.is_some() {
            found_first
        } else {
            found_rest
        }
    } else {
        found_first
    }
}

fn scan_devices_from<T: ConfigAccess>(
    port: &mut T,
    target: Option<ClassSignature>,
    bus: u8,
    from: u8,
    fuel: u32,
    log: &mut Vec<FunctionReport>,
) -> (found: Option<DeviceAddress>)
    requires
        from <= 32,
    ensures
        *final(port) == *old(port),
        final(log)@ == old(log)@ + spec_scan_devices_from(
            *old(port),
            target,
            bus,
            from,
            fuel as nat,
        ).reports,
        found == spec_scan_devices_from(*old(port), target, bus, from, fuel as nat).found,
    decreases fuel, 3int, 32 - from,
{
    if from == 32 {
        proof {
            assert(log@ =~= old(log)@ + spec_scan_devices_from(
                *old(port),
                target,
                bus,
                from,
                fuel as nat,
            ).reports);
        }
        return Option::None;
    }
    let here = scan_device(port, target, bus, from, fuel, log);
    let rest = scan_devices_from(port, target, bus, from + 1, fuel, log);
    proof {
        assert(log@ =~= old(log)@ + spec_scan_devices_from(
            *old(port),
            target,
            bus,
            from,
            fuel as nat,
        ).reports);
    }
    if here.is_some() {
        here
    } else {
        rest
    }
}

/// Scan every device slot of one bus.
pub fn scan_bus<T: ConfigAccess>(
    port: &mut T,
    target: Option<ClassSignature>,
    bus: u8,
    fuel: u32,
    log: &mut Vec<FunctionReport>,
) -> (found: Option<DeviceAddress>)
    ensures
        *final(port) == *old(port),
        final(log)@ == old(log)@ + spec_scan_bus(*old(port), target, bus, fuel as nat).reports,
        found == spec_scan_bus(*old(port), target, bus, fuel as nat).found,
    decreases fuel, 4int, 0int,
{
    scan_devices_from(port, target, bus, 0, fuel, log)
}

/// Walk host-bridge functions `from`..8; the first absent function
/// stops the probing, per the hardware's contiguous-numbering
/// convention.
fn scan_host_functions_from<T: ConfigAccess>(
    port: &mut T,
    target: Option<ClassSignature>,
    from: u8,
    log: &mut Vec<FunctionReport>,
) -> (found: Option<DeviceAddress>)
    requires
        from <= 8,
    ensures
        *final(port) == *old(port),
        final(log)@ == old(log)@ + spec_scan_host_functions_from(*old(port), target, from).reports,
        found == spec_scan_host_functions_from(*old(port), target, from).found,
    decreases 8 - from,
{
    if from == 8 {
        proof {
            assert(log@ =~= old(log)@ + spec_scan_host_functions_from(
                *old(port),
                target,
                from,
            ).reports);
        }
        return Option::None;
    }
    let config = PCIConfigurationReader::new(0, 0, from);
    if config.read_vendor_id(port).is_invalid() {
        proof {
            assert(log@ =~= old(log)@ + spec_scan_host_functions_from(
                *old(port),
                target,
                from,
            ).reports);
        }
        return Option::None;
    }
    let here = scan_bus(port, target, from, MAX_BRIDGE_DEPTH, log);
    let rest = scan_host_functions_from(port, target, from + 1, log);
    proof {
        assert(log@ =~= old(log)@ + spec_scan_host_functions_from(*old(port), target, from).reports);
    }
    if here.is_some() {
        here
    } else {
        rest
    }
}

fn scan_all_with<T: ConfigAccess>(
    port: &mut T,
    target: Option<ClassSignature>,
    log: &mut Vec<FunctionReport>,
) -> (found: Option<DeviceAddress>)
    ensures
        *final(port) == *old(port),
        final(log)@ == old(log)@ + spec_scan_all(*old(port), target).reports,
        found == spec_scan_all(*old(port), target).found,
{
    let host_bridge_config = PCIConfigurationReader::new(0, 0, 0);
    if host_bridge_config.is_single_function(port) {
        scan_bus(port, target, 0, MAX_BRIDGE_DEPTH, log)
    } else {
        scan_host_functions_from(port, target, 0, log)
    }
}

/// Walk the whole topology, appending one diagnostic record per
/// present function, in discovery order.
pub fn scan_all<T: ConfigAccess>(port: &mut T, log: &mut Vec<FunctionReport>)
    ensures
        *final(port) == *old(port),
        final(log)@ == old(log)@ + spec_scan_all(*old(port), Option::<ClassSignature>::None).reports,
{
    scan_all_with(port, Option::None, log);
}

/// The same walk, additionally returning the address of the first
/// function matching `target` in discovery order, or none after full
/// traversal.
pub fn scan_all_for<T: ConfigAccess>(
    port: &mut T,
    target: ClassSignature,
    log: &mut Vec<FunctionReport>,
) -> (found: Option<DeviceAddress>)
    ensures
        *final(port) == *old(port),
        final(log)@ == old(log)@ + spec_scan_all(*old(port), Option::Some(target)).reports,
        found == spec_scan_all(*old(port), Option::Some(target)).found,
{
    scan_all_with(port, Option::Some(target), log)
}


/// Whether one diagnostic record matches the search criteria.
pub open spec fn spec_report_matches(target: Option<ClassSignature>, r: FunctionReport) -> bool {
    match target {
        Option::Some(sig) => spec_matches_signature(sig, r.class_code),
        Option::None => false,
    }
}

/// The address of the first record in the sequence that matches the
/// search criteria, if any.
pub open spec fn spec_first_match(
    target: Option<ClassSignature>,
    reports: Seq<FunctionReport>,
) -> Option<DeviceAddress>
    decreases reports.len(),
{
    if reports.len() == 0 {
        Option::None
    } else if spec_report_matches(target, reports[0]) {
        Option::Some(
            DeviceAddress {
                bus: reports[0].bus,
                device: reports[0].device,
                function: reports[0].function,
            },
        )
    } else {
        spec_first_match(target, reports.drop_first())
    }
}

proof fn lemma_first_match_concat(
    target: Option<ClassSignature>,
    s1: Seq<FunctionReport>,
    s2: Seq<FunctionReport>,
)
    ensures
        spec_first_match(target, s1 + s2) == (if spec_first_match(target, s1) is Some {
            spec_first_match(target, s1)
        } else {
            spec_first_match(target, s2)
        }),
    decreases s1.len(),
{
    if s1.len() == 0 {
        assert(s1 + s2 =~= s2);
    } else {
        assert((s1 + s2)[0] == s1[0]);
        assert((s1 + s2).drop_first() =~= s1.drop_first() + s2);
        lemma_first_match_concat(target, s1.drop_first(), s2);
    }
}

/// What every trace of the traversal satisfies: each diagnostic record
/// belongs to a present function (absent slots produce no output); the
/// found address is exactly the first record in discovery order that
/// matches the search criteria; and a found address names a present
/// function within device and function bounds whose class matches the
/// given signature. Without a signature nothing is ever found.
pub open spec fn spec_trace_ok<T: ConfigAccess>(
    p: T,
    target: Option<ClassSignature>,
    t: ScanTrace,
) -> bool {
    (forall|i: int|
        0 <= i < t.reports.len() ==> spec_function_present(
            p,
            (#[trigger] t.reports[i]).bus,
            t.reports[i].device,
            t.reports[i].function,
        )) && (match t.found {
        Option::Some(a) => a.device < 32 && a.function < 8 && spec_function_present(
            p,
            a.bus,
            a.device,
            a.function,
        ) && (match target {
            Option::Some(sig) => spec_matches_signature(
                sig,
                spec_class_of(spec_cfg(p, a.bus, a.device, a.function, 0x8)),
            ),
            Option::None => false,
        }),
        Option::None => true,
    }) && t.found == spec_first_match(target, t.reports)
}

proof fn lemma_trace_then_ok<T: ConfigAccess>(
    p: T,
    target: Option<ClassSignature>,
    t1: ScanTrace,
    t2: ScanTrace,
)
    requires
        spec_trace_ok(p, target, t1),
        spec_trace_ok(p, target, t2),
    ensures
        spec_trace_ok(p, target, spec_trace_then(t1, t2)),
{
    let t = spec_trace_then(t1, t2);
    assert forall|i: int|
        0 <= i < t.reports.len() implies spec_function_present(
        p,
        (#[trigger] t.reports[i]).bus,
        t.reports[i].device,
        t.reports[i].function,
    ) by {
        if i < t1.reports.len() {
            assert(t.reports[i] == t1.reports[i]);
        } else {
            assert(t.reports[i] == t2.reports[i - t1.reports.len()]);
        }
    }
    lemma_first_match_concat(target, t1.reports, t2.reports);
}

proof fn lemma_log_function_ok<T: ConfigAccess>(
    p: T,
    target: Option<ClassSignature>,
    bus: u8,
    device: u8,
    function: u8,
)
    requires
        device < 32,
        function < 8,
    ensures
        spec_trace_ok(p, target, spec_log_function(p, target, bus, device, function)),
{
    let t = spec_log_function(p, target, bus, device, function);
    if spec_function_present(p, bus, device, function) {
        let r = spec_report_of(p, bus, device, function);
        assert(t.reports[0] == r);
        assert(t.reports.drop_first() =~= Seq::<FunctionReport>::empty());
        assert(spec_first_match(target, t.reports.drop_first()) is None);
    } else {
        assert(t.reports =~= Seq::<FunctionReport>::empty());
    }
}

proof fn lemma_scan_function_ok<T: ConfigAccess>(
    p: T,
    target: Option<ClassSignature>,
    bus: u8,
    device: u8,
    function: u8,
    fuel: nat,
)
    requires
        device < 32,
        function < 8,
    ensures
        spec_trace_ok(p, target, spec_scan_function(p, target, bus, device, function, fuel)),
    decreases fuel, 0int, 0int,
{
    lemma_log_function_ok(p, target, bus, device, function);
    let logged = spec_log_function(p, target, bus, device, function);
    let class = spec_class_of(spec_cfg(p, bus, device, function, 0x8));
    if class.spec_is_pci_to_pci_bridge() && fuel > 0 {
        let secondary = spec_secondary_of(spec_cfg(p, bus, device, function, 0x18));
        lemma_scan_bus_ok(p, target, secondary, (fuel - 1) as nat);
        lemma_trace_then_ok(
            p,
            target,
            logged,
            spec_scan_bus(p, target, secondary, (fuel - 1) as nat),
        );
    }
}

proof fn lemma_scan_functions_from_ok<T: ConfigAccess>(
    p: T,
    target: Option<ClassSignature>,
    bus: u8,
    device: u8,
    from: u8,
    fuel: nat,
)
    requires
        device < 32,
    ensures
        spec_trace_ok(p, target, spec_scan_functions_from(p, target, bus, device, from, fuel)),
    decreases fuel, 1int, 8 - from,
{
    if from < 8 {
        if spec_function_present(p, bus, device, from) {
            lemma_scan_function_ok(p, target, bus, device, from, fuel);
        }
        let here = if spec_function_present(p, bus, device, from) {
            spec_scan_function(p, target, bus, device, from, fuel)
        } else {
            spec_empty_trace()
        };
        lemma_scan_functions_from_ok(p, target, bus, device, (from + 1) as u8, fuel);
        lemma_trace_then_ok(
            p,
            target,
            here,
            spec_scan_functions_from(p, target, bus, device, (from + 1) as u8, fuel),
        );
    }
}

proof fn lemma_scan_device_ok<T: ConfigAccess>(
    p: T,
    target: Option<ClassSignature>,
    bus: u8,
    device: u8,
    fuel: nat,
)
    requires
        device < 32,
    ensures
        spec_trace_ok(p, target, spec_scan_device(p, target, bus, device, fuel)),
    decreases fuel, 2int, 0int,
{
    if spec_function_present(p, bus, device, 0) {
        lemma_scan_function_ok(p, target, bus, device, 0, fuel);
        if !spec_single_function(spec_header_of(spec_cfg(p, bus, device, 0, 0xc))) {
            lemma_scan_functions_from_ok(p, target, bus, device, 1, fuel);
            lemma_trace_then_ok(
                p,
                target,
                spec_scan_function(p, target, bus, device, 0, fuel),
                spec_scan_functions_from(p, target, bus, device, 1, fuel),
            );
        }
    }
}

proof fn lemma_scan_devices_from_ok<T: ConfigAccess>(
    p: T,
    target: Option<ClassSignature>,
    bus: u8,
    from: u8,
    fuel: nat,
)
    ensures
        spec_trace_ok(p, target, spec_scan_devices_from(p, target, bus, from, fuel)),
    decreases fuel, 3int, 32 - from,
{
    if from < 32 {
        lemma_scan_device_ok(p, target, bus, from, fuel);
        lemma_scan_devices_from_ok(p, target, bus, (from + 1) as u8, fuel);
        lemma_trace_then_ok(
            p,
            target,
            spec_scan_device(p, target, bus, from, fuel),
            spec_scan_devices_from(p, target, bus, (from + 1) as u8, fuel),
        );
    }
}

proof fn lemma_scan_bus_ok<T: ConfigAccess>(
    p: T,
    target: Option<ClassSignature>,
    bus: u8,
    fuel: nat,
)
    ensures
        spec_trace_ok(p, target, spec_scan_bus(p, target, bus, fuel)),
    decreases fuel, 4int, 0int,
{
    lemma_scan_devices_from_ok(p, target, bus, 0, fuel);
}

proof fn lemma_scan_host_functions_from_ok<T: ConfigAccess>(
    p: T,
    target: Option<ClassSignature>,
    from: u8,
)
    ensures
        spec_trace_ok(p, target, spec_scan_host_functions_from(p, target, from)),
    decreases 8 - from,
{
    if from < 8 && spec_function_present(p, 0, 0, from) {
        lemma_scan_bus_ok(p, target, from, MAX_BRIDGE_DEPTH as nat);
        lemma_scan_host_functions_from_ok(p, target, (from + 1) as u8);
        lemma_trace_then_ok(
            p,
            target,
            spec_scan_bus(p, target, from, MAX_BRIDGE_DEPTH as nat),
            spec_scan_host_functions_from(p, target, (from + 1) as u8),
        );
    }
}

/// The traversal is sound: absent slots produce no diagnostic record;
/// the search returns exactly the address of the first diagnostic
/// record in discovery order that matches the signature, an address
/// that names a present function, within device and function bounds,
/// whose class matches; and a traversal without a signature never
/// returns one.
pub proof fn lemma_scan_all_sound<T: ConfigAccess>(p: T, target: Option<ClassSignature>)
    ensures
        spec_trace_ok(p, target, spec_scan_all(p, target)),
{
    if spec_single_function(spec_header_of(spec_cfg(p, 0, 0, 0, 0xc))) {
        lemma_scan_bus_ok(p, target, 0, MAX_BRIDGE_DEPTH as nat);
    } else {
        lemma_scan_host_functions_from_ok(p, target, 0);
    }
}

} // verus!
