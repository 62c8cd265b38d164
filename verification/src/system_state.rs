//! System-wide state: the operating profile the controller drives the
//! machine toward, the per-profile control set, hardware detection from the
//! kernel's identification files, and the optional configuration.
use vstd::prelude::*;
use vstd::string::StringExecFns;
use crate::battery::{BatteryStatesError, ChargingStatus, PlatformProfile};
use crate::cpu::{CpuStatesError, ScalingGoverner, EPP};
use crate::parse::{
    chars_of, contains_chars, contains_chars_ci, contains_seq, contains_seq_ci, dec_val,
    has_prefix, is_u64_numeral, parse_u64, slice_starts_with, spec_lines, split_lines,
};

verus! {

// ---------- operating profile ----------

/// The operating profile the controller currently targets. Created at
/// startup from the charging status; changed only by the state machine.
#[derive(Clone, Copy, Debug, PartialEq, Eq, Structural)]
pub enum State {
    Powersave,
    Balanced,
    Performance,
}

/// The profile chosen at startup: performance on AC power, powersave when
/// discharging or when the charging status cannot be read.
pub open spec fn spec_initial_state(c: ChargingStatus) -> State {
    match c {
        ChargingStatus::Charging => State::Performance,
        ChargingStatus::DisCharging => State::Powersave,
        ChargingStatus::Unknown => State::Powersave,
    }
}

pub fn initial_state(c: ChargingStatus) -> (r: State)
    ensures
        r == spec_initial_state(c),
{
    match c {
        ChargingStatus::Charging => State::Performance,
        ChargingStatus::DisCharging => State::Powersave,
        ChargingStatus::Unknown => State::Powersave,
    }
}

// ---------- mode profiles and control writes ----------

/// What the hardware should look like in one operating state: the full
/// control set, a pure function of the state.
#[derive(Clone, Copy, Debug, PartialEq, Eq, Structural)]
pub struct ModeProfile {
    pub governor: ScalingGoverner,
    pub epp: EPP,
    pub platform_profile: PlatformProfile,
    pub boost_enabled: bool,
}

/// The control set of each operating state.
pub open spec fn spec_profile_for(s: State) -> ModeProfile {
    match s {
        State::Powersave => ModeProfile {
            governor: ScalingGoverner::Powersave,
            epp: EPP::Power,
            platform_profile: PlatformProfile::LowPower,
            boost_enabled: false,
        },
        State::Balanced => ModeProfile {
            governor: ScalingGoverner::Powersave,
            epp: EPP::BalancePerformance,
            platform_profile: PlatformProfile::Balanced,
            boost_enabled: true,
        },
        State::Performance => ModeProfile {
            governor: ScalingGoverner::Performance,
            epp: EPP::Performance,
            platform_profile: PlatformProfile::Performance,
            boost_enabled: true,
        },
    }
}

pub fn profile_for(s: State) -> (r: ModeProfile)
    ensures
        r == spec_profile_for(s),
{
    match s {
        State::Powersave => ModeProfile {
            governor: ScalingGoverner::Powersave,
            epp: EPP::Power,
            platform_profile: PlatformProfile::LowPower,
            boost_enabled: false,
        },
        State::Balanced => ModeProfile {
            governor: ScalingGoverner::Powersave,
            epp: EPP::BalancePerformance,
            platform_profile: PlatformProfile::Balanced,
            boost_enabled: true,
        },
        State::Performance => ModeProfile {
            governor: ScalingGoverner::Performance,
            epp: EPP::Performance,
            platform_profile: PlatformProfile::Performance,
            boost_enabled: true,
        },
    }
}

/// One control write the applier is to issue.
#[derive(Clone, Copy, Debug, PartialEq, Eq, Structural)]
pub enum ControlWrite {
    Governor(ScalingGoverner),
    Epp(EPP),
    Platform(PlatformProfile),
    Boost(bool),
}

/// The writes that realize a target state, in the fixed order governor,
/// preference, platform profile, boost. Applying the performance profile
/// while the battery discharges is skipped entirely: no writes at all, so
/// that a destructive performance set cannot land moments before an
/// imminent unplug transition.
pub open spec fn spec_plan_writes(target: State, charging: ChargingStatus) -> Seq<ControlWrite> {
    if target == State::Performance && charging == ChargingStatus::DisCharging {
        Seq::empty()
    } else {
        let p = spec_profile_for(target);
        seq![
            ControlWrite::Governor(p.governor),
            ControlWrite::Epp(p.epp),
            ControlWrite::Platform(p.platform_profile),
            ControlWrite::Boost(p.boost_enabled),
        ]
    }
}

/// The applier's guard: a performance target while the battery discharges
/// issues no control writes at all.
pub proof fn lemma_discharging_performance_guard()
    ensures
        spec_plan_writes(State::Performance, ChargingStatus::DisCharging).len() == 0,
{
}

pub fn plan_writes(target: State, charging: ChargingStatus) -> (r: Vec<ControlWrite>)
    ensures
        r@ == spec_plan_writes(target, charging),
{
    if target == State::Performance && charging == ChargingStatus::DisCharging {
        let r: Vec<ControlWrite> = Vec::new();
        proof {
            assert(r@ =~= spec_plan_writes(target, charging));
        }
        return r;
    }
    let p = profile_for(target);
    let mut r: Vec<ControlWrite> = Vec::new();
    r.push(ControlWrite::Governor(p.governor));
    r.push(ControlWrite::Epp(p.epp));
    r.push(ControlWrite::Platform(p.platform_profile));
    r.push(ControlWrite::Boost(p.boost_enabled));
    proof {
        assert(r@ =~= spec_plan_writes(target, charging));
    }
    r
}

// ---------- errors ----------

/// Failure at the system-state level.
#[derive(Debug, Clone, PartialEq, Eq)]
pub enum SystemStateError {
    ACPITypeErr(String),
    CpuStatesErr(CpuStatesError),
    BatteryStatesErr(BatteryStatesError),
    GeneralIoErr(String),
}

impl From<CpuStatesError> for SystemStateError {
    fn from(e: CpuStatesError) -> Self {
        SystemStateError::CpuStatesErr(e)
    }
}

impl vstd::std_specs::convert::FromSpecImpl<CpuStatesError> for SystemStateError {
    open spec fn obeys_from_spec() -> bool {
        true
    }

    open spec fn from_spec(e: CpuStatesError) -> Self {
        SystemStateError::CpuStatesErr(e)
    }
}

impl From<BatteryStatesError> for SystemStateError {
    fn from(e: BatteryStatesError) -> Self {
        SystemStateError::BatteryStatesErr(e)
    }
}

impl vstd::std_specs::convert::FromSpecImpl<BatteryStatesError> for SystemStateError {
    open spec fn obeys_from_spec() -> bool {
        true
    }

    open spec fn from_spec(e: BatteryStatesError) -> Self {
        SystemStateError::BatteryStatesErr(e)
    }
}

// ---------- configuration ----------

/// Optional charge thresholds supplied by the configuration file, applied
/// once after initialization.
#[derive(Clone, Copy, Debug, PartialEq, Eq, Structural)]
pub struct Config {
    pub charge_start_threshold: Option<u8>,
    pub charge_stop_threshold: Option<u8>,
}

/// One threshold write the configuration asks for.
#[derive(Clone, Copy, Debug, PartialEq, Eq, Structural)]
pub enum ThresholdWrite {
    Start(u8),
    Stop(u8),
}

/// The threshold writes a configuration asks for, start before stop.
pub open spec fn spec_config_writes(c: Config) -> Seq<ThresholdWrite> {
    let start = match c.charge_start_threshold {
        Some(v) => seq![ThresholdWrite::Start(v)],
        None => Seq::empty(),
    };
    let stop = match c.charge_stop_threshold {
        Some(v) => seq![ThresholdWrite::Stop(v)],
        None => Seq::empty(),
    };
    start + stop
}

impl Config {
    /// Plans the application of the configuration. Charge thresholds are
    /// only supported on the ThinkPad ACPI family; on any other platform
    /// the configuration is rejected. The start<stop relation is not
    /// checked here: the kernel rejects an invalid pair on the write.
    pub fn apply(&self, acpi: ACPIType) -> (r: Result<Vec<ThresholdWrite>, SystemStateError>)
        ensures
            r matches Ok(w) ==> acpi == ACPIType::ThinkPad && w@ == spec_config_writes(*self),
            r is Err <==> acpi != ACPIType::ThinkPad,
            r is Err ==> r matches Err(SystemStateError::ACPITypeErr(_)),
    {
        if acpi != ACPIType::ThinkPad {
            return Err(SystemStateError::ACPITypeErr(
                String::from_str("only thinkpad acpi supported for now"),
            ));
        }
        let mut w: Vec<ThresholdWrite> = Vec::new();
        match self.charge_start_threshold {
            Some(v) => {
                w.push(ThresholdWrite::Start(v));
            },
            None => {},
        }
        match self.charge_stop_threshold {
            Some(v) => {
                w.push(ThresholdWrite::Stop(v));
            },
            None => {},
        }
        proof {
            assert(w@ =~= spec_config_writes(*self));
        }
        Ok(w)
    }
}

// ---------- hardware detection ----------

/// CPU vendor, as far as detection resolves it.
#[derive(Clone, Copy, Debug, PartialEq, Eq, Structural)]
pub enum CpuType {
    AMD,
    Intel,
    Unknown,
}

/// ACPI platform family, as far as detection resolves it. An unknown family
/// gates the optional features (charge thresholds) off without failing
/// startup.
#[derive(Clone, Copy, Debug, PartialEq, Eq, Structural)]
pub enum ACPIType {
    ThinkPad,
    Unknown,
}

/// The vendor a line of the CPU info pseudo-file announces: a line starting
/// with "vendor_id" that names one of the known identification strings.
pub open spec fn line_vendor(line: Seq<char>) -> CpuType {
    if has_prefix(line, "vendor_id"@) && contains_seq(line, "GenuineIntel"@) {
        CpuType::Intel
    } else if has_prefix(line, "vendor_id"@) && contains_seq(line, "AuthenticAMD"@) {
        CpuType::AMD
    } else {
        CpuType::Unknown
    }
}

/// The first vendor any line announces, scanning top to bottom.
pub open spec fn cpuinfo_vendor(ls: Seq<Seq<char>>) -> CpuType
    decreases ls.len(),
{
    if ls.len() == 0 {
        CpuType::Unknown
    } else if line_vendor(ls[0]) != CpuType::Unknown {
        line_vendor(ls[0])
    } else {
        cpuinfo_vendor(ls.drop_first())
    }
}

/// Scans the CPU info pseudo-file for a vendor-identifier line.
pub fn vendor_from_cpuinfo(content: &str) -> (r: CpuType)
    ensures
        r == cpuinfo_vendor(spec_lines(content@)),
{
    let cv = chars_of(content);
    let ls = split_lines(cv.as_slice());
    let ghost lsv = ls.deep_view();
    let mut i: usize = 0;
    proof {
        assert(lsv.skip(0) =~= lsv);
    }
    while i < ls.len()
        invariant
            0 <= i <= ls@.len(),
            lsv == ls.deep_view(),
            lsv == spec_lines(content@),
            lsv.len() == ls@.len(),
            cpuinfo_vendor(lsv) == cpuinfo_vendor(lsv.skip(i as int)),
        decreases ls@.len() - i,
    {
        proof {
            assert(lsv[i as int] =~= ls@[i as int]@);
            assert(lsv.skip(i as int)[0] == lsv[i as int]);
            assert(lsv.skip(i as int).drop_first() =~= lsv.skip(i as int + 1));
        }
        let line = &ls[i];
        if slice_starts_with(line.as_slice(), "vendor_id") {
            if contains_chars(line.as_slice(), "GenuineIntel") {
                assert(line_vendor(lsv[i as int]) == CpuType::Intel);
                return CpuType::Intel;
            }
            if contains_chars(line.as_slice(), "AuthenticAMD") {
                assert(line_vendor(lsv[i as int]) == CpuType::AMD);
                return CpuType::AMD;
            }
        }
        i = i + 1;
    }
    proof {
        assert(lsv.skip(i as int) =~= Seq::<Seq<char>>::empty());
    }
    CpuType::Unknown
}

/// The vendor announced by the identification string of the CPU
/// identification instruction.
pub open spec fn id_string_vendor(s: Seq<char>) -> CpuType {
    if s == "GenuineIntel"@ {
        CpuType::Intel
    } else if s == "AuthenticAMD"@ {
        CpuType::AMD
    } else {
        CpuType::Unknown
    }
}

/// Decodes the twelve-character vendor string the CPU identification
/// instruction returns.
pub fn vendor_from_id_string(s: &str) -> (r: CpuType)
    ensures
        r == id_string_vendor(s@),
{
    if crate::parse::str_eq(s, "GenuineIntel") {
        CpuType::Intel
    } else if crate::parse::str_eq(s, "AuthenticAMD") {
        CpuType::AMD
    } else {
        CpuType::Unknown
    }
}

/// The vendor a CPU description text announces, matched case-insensitively:
/// Intel before AMD, as the detection cascade orders them.
pub open spec fn description_vendor(s: Seq<char>) -> CpuType {
    if contains_seq_ci(s, "genuineintel"@) || contains_seq_ci(s, "intel"@) {
        CpuType::Intel
    } else if contains_seq_ci(s, "authenticamd"@) || contains_seq_ci(s, "amd"@) {
        CpuType::AMD
    } else {
        CpuType::Unknown
    }
}

/// Scans the output of a CPU description utility for a vendor name.
pub fn vendor_from_description(content: &str) -> (r: CpuType)
    ensures
        r == description_vendor(content@),
{
    let cv = chars_of(content);
    if contains_chars_ci(cv.as_slice(), "genuineintel") || contains_chars_ci(
        cv.as_slice(),
        "intel",
    ) {
        CpuType::Intel
    } else if contains_chars_ci(cv.as_slice(), "authenticamd") || contains_chars_ci(
        cv.as_slice(),
        "amd",
    ) {
        CpuType::AMD
    } else {
        CpuType::Unknown
    }
}

/// The vendor-detection cascade: the CPU info pseudo-file, then the CPU
/// identification instruction, then a CPU description utility; the first
/// stage that resolves wins. A stage whose source could not be read
/// contributes nothing.
pub open spec fn spec_resolve_vendor(
    cpuinfo: Option<Seq<char>>,
    id_string: Option<Seq<char>>,
    description: Option<Seq<char>>,
) -> CpuType {
    let a = match cpuinfo {
        Some(c) => cpuinfo_vendor(spec_lines(c)),
        None => CpuType::Unknown,
    };
    let b = match id_string {
        Some(s) => id_string_vendor(s),
        None => CpuType::Unknown,
    };
    let c = match description {
        Some(d) => description_vendor(d),
        None => CpuType::Unknown,
    };
    if a != CpuType::Unknown {
        a
    } else if b != CpuType::Unknown {
        b
    } else {
        c
    }
}

pub fn resolve_vendor(
    cpuinfo: Option<&str>,
    id_string: Option<&str>,
    description: Option<&str>,
) -> (r: CpuType)
    ensures
        r == spec_resolve_vendor(
            match cpuinfo {
                Some(c) => Some(c@),
                None => None,
            },
            match id_string {
                Some(s) => Some(s@),
                None => None,
            },
            match description {
                Some(d) => Some(d@),
                None => None,
            },
        ),
{
    let a = match cpuinfo {
        Some(c) => vendor_from_cpuinfo(c),
        None => CpuType::Unknown,
    };
    if a != CpuType::Unknown {
        return a;
    }
    let b = match id_string {
        Some(s) => vendor_from_id_string(s),
        None => CpuType::Unknown,
    };
    if b != CpuType::Unknown {
        return b;
    }
    match description {
        Some(d) => vendor_from_description(d),
        None => CpuType::Unknown,
    }
}

/// The ACPI family detection cascade: the DMI product-version string, then
/// the DMI product-name string, matched case-insensitively, then the legacy
/// marker path. Unmatched resolves to unknown rather than failing.
pub open spec fn spec_acpi_family(
    product_version: Option<Seq<char>>,
    product_name: Option<Seq<char>>,
    legacy_marker: bool,
) -> ACPIType {
    if (match product_version {
        Some(v) => contains_seq_ci(v, "thinkpad"@),
        None => false,
    }) {
        ACPIType::ThinkPad
    } else if (match product_name {
        Some(n) => contains_seq_ci(n, "thinkpad"@),
        None => false,
    }) {
        ACPIType::ThinkPad
    } else if legacy_marker {
        ACPIType::ThinkPad
    } else {
        ACPIType::Unknown
    }
}

pub fn acpi_family(
    product_version: Option<&str>,
    product_name: Option<&str>,
    legacy_marker: bool,
) -> (r: ACPIType)
    ensures
        r == spec_acpi_family(
            match product_version {
                Some(v) => Some(v@),
                None => None,
            },
            match product_name {
                Some(n) => Some(n@),
                None => None,
            },
            legacy_marker,
        ),
{
    match product_version {
        Some(v) => {
            let cv = chars_of(v);
            if contains_chars_ci(cv.as_slice(), "thinkpad") {
                return ACPIType::ThinkPad;
            }
        },
        None => {},
    }
    match product_name {
        Some(n) => {
            let cv = chars_of(n);
            if contains_chars_ci(cv.as_slice(), "thinkpad") {
                return ACPIType::ThinkPad;
            }
        },
        None => {},
    }
    if legacy_marker {
        ACPIType::ThinkPad
    } else {
        ACPIType::Unknown
    }
}

/// The operating-system check: a compile-time target for this platform
/// counts, and so does either a matching kernel name report together with
/// the two kernel pseudo-filesystems, or those filesystems together with
/// the release identification files.
pub open spec fn spec_linux_detected(
    compile_time: bool,
    runtime_uname: bool,
    has_proc: bool,
    has_sys: bool,
    has_etc: bool,
    has_os_release: bool,
) -> bool {
    compile_time || (runtime_uname && has_proc && has_sys) || (has_proc && has_sys && has_etc
        && has_os_release)
}

/// Combines the probes of the operating-system check.
pub fn linux_detected(
    compile_time: bool,
    runtime_uname: bool,
    has_proc: bool,
    has_sys: bool,
    has_etc: bool,
    has_os_release: bool,
) -> (r: bool)
    ensures
        r == spec_linux_detected(
            compile_time,
            runtime_uname,
            has_proc,
            has_sys,
            has_etc,
            has_os_release,
        ),
{
    compile_time || (runtime_uname && has_proc && has_sys) || (has_proc && has_sys && has_etc
        && has_os_release)
}

// ---------- core counting ----------

/// A per-core directory entry: the name is "cpu" followed by a numeral that
/// fits a `u32`, which excludes entries such as "cpufreq".
pub open spec fn is_core_entry(s: Seq<char>) -> bool {
    has_prefix(s, "cpu"@) && s.len() > 3 && is_u64_numeral(s.skip(3)) && dec_val(s.skip(3))
        <= u32::MAX
}

/// How many of the entries are per-core entries.
pub open spec fn core_count(names: Seq<Seq<char>>) -> int
    decreases names.len(),
{
    if names.len() == 0 {
        0
    } else {
        core_count(names.drop_last()) + (if is_core_entry(names.last()) {
            1int
        } else {
            0int
        })
    }
}

/// Counts the per-core entries among the directory entries of the CPU
/// device directory.
pub fn count_cpu_cores(names: &Vec<String>) -> (r: usize)
    ensures
        r as int == core_count(names.deep_view()),
{
    let ghost dv = names.deep_view();
    let mut count: usize = 0;
    let mut i: usize = 0;
    while i < names.len()
        invariant
            0 <= i <= names@.len(),
            dv == names.deep_view(),
            dv.len() == names@.len(),
            count as int == core_count(dv.subrange(0, i as int)),
            count <= i,
        decreases names@.len() - i,
    {
        proof {
            assert(dv[i as int] =~= names@[i as int]@);
            assert(dv.subrange(0, i as int + 1).drop_last() =~= dv.subrange(0, i as int));
        }
        let name = &names[i];
        let cv = chars_of(name.as_str());
        if cv.len() > 3 && slice_starts_with(cv.as_slice(), "cpu") {
            let s = cv.as_slice();
            let digits = &s[3..s.len()];
            proof {
                assert(digits@ =~= dv[i as int].skip(3));
            }
            match parse_u64(digits) {
                Some(v) => {
                    if v <= 0xffff_ffff {
                        count = count + 1;
                    }
                },
                None => {},
            }
        }
        i = i + 1;
    }
    proof {
        assert(dv.subrange(0, dv.len() as int) =~= dv);
    }
    count
}

} // verus!
