//! Battery and platform-power values: charging status, battery capacity,
//! charge thresholds, and the firmware platform-profile knob. The control
//! files themselves are read by the surrounding process; the functions here
//! decode and encode their text values.
use vstd::prelude::*;
use crate::fds::PersFdError;
use crate::parse::{dec_val, has_prefix, is_u64_numeral, parse_u64, str_eq, str_starts_with};

verus! {

// ---------- platform profile ----------

/// Firmware platform-profile selector.
#[derive(Clone, Copy, Debug, PartialEq, Eq, Structural)]
pub enum PlatformProfile {
    LowPower,
    Balanced,
    Performance,
    Unknown,
}

/// The profile denoted by a control-file value.
pub open spec fn profile_of(s: Seq<char>) -> PlatformProfile {
    if s == "low-power"@ {
        PlatformProfile::LowPower
    } else if s == "balanced"@ {
        PlatformProfile::Balanced
    } else if s == "performance"@ {
        PlatformProfile::Performance
    } else {
        PlatformProfile::Unknown
    }
}

/// The fixed string written to the firmware knob for each profile; an
/// unknown profile is written back as "balanced".
pub open spec fn profile_token(p: PlatformProfile) -> Seq<char> {
    match p {
        PlatformProfile::LowPower => "low-power"@,
        PlatformProfile::Balanced => "balanced"@,
        PlatformProfile::Performance => "performance"@,
        PlatformProfile::Unknown => "balanced"@,
    }
}

impl PlatformProfile {
    pub fn from_string(s: &str) -> (r: Self)
        ensures
            r == profile_of(s@),
    {
        if str_eq(s, "low-power") {
            PlatformProfile::LowPower
        } else if str_eq(s, "balanced") {
            PlatformProfile::Balanced
        } else if str_eq(s, "performance") {
            PlatformProfile::Performance
        } else {
            PlatformProfile::Unknown
        }
    }

    /// The value to write to the platform-profile control file.
    pub fn write_token(&self) -> (r: &'static str)
        ensures
            r@ == profile_token(*self),
    {
        match self {
            PlatformProfile::LowPower => "low-power",
            PlatformProfile::Balanced => "balanced",
            PlatformProfile::Performance => "performance",
            PlatformProfile::Unknown => "balanced",
        }
    }
}

// ---------- charging status ----------

/// Whether the machine currently draws from the AC adapter.
#[derive(Clone, Copy, Debug, PartialEq, Eq, Structural)]
pub enum ChargingStatus {
    Charging,
    DisCharging,
    Unknown,
}

/// The status denoted by the AC adapter's "online" attribute.
pub open spec fn charging_of(s: Seq<char>) -> ChargingStatus {
    if s == "1"@ {
        ChargingStatus::Charging
    } else if s == "0"@ {
        ChargingStatus::DisCharging
    } else {
        ChargingStatus::Unknown
    }
}

/// The status denoted by a textual battery status field, for platforms
/// without an "online" attribute. Any other value, "Not charging" among
/// them, reads as unknown.
pub open spec fn charging_of_text(s: Seq<char>) -> ChargingStatus {
    if s == "Charging"@ {
        ChargingStatus::Charging
    } else if s == "Discharging"@ {
        ChargingStatus::DisCharging
    } else {
        ChargingStatus::Unknown
    }
}

impl ChargingStatus {
    pub fn from_string(s: &str) -> (r: Self)
        ensures
            r == charging_of(s@),
    {
        if str_eq(s, "1") {
            ChargingStatus::Charging
        } else if str_eq(s, "0") {
            ChargingStatus::DisCharging
        } else {
            ChargingStatus::Unknown
        }
    }

    /// Decodes a textual battery status field.
    pub fn from_status_text(s: &str) -> (r: Self)
        ensures
            r == charging_of_text(s@),
    {
        if str_eq(s, "Charging") {
            ChargingStatus::Charging
        } else if str_eq(s, "Discharging") {
            ChargingStatus::DisCharging
        } else {
            ChargingStatus::Unknown
        }
    }
}

// ---------- errors ----------

/// Failure while reading or writing a battery control value.
#[derive(Debug, Clone, PartialEq, Eq)]
pub enum BatteryStatesError {
    PersFdErr(PersFdError),
    ParseIntErr,
}

impl From<PersFdError> for BatteryStatesError {
    fn from(e: PersFdError) -> Self {
        BatteryStatesError::PersFdErr(e)
    }
}

impl vstd::std_specs::convert::FromSpecImpl<PersFdError> for BatteryStatesError {
    open spec fn obeys_from_spec() -> bool {
        true
    }

    open spec fn from_spec(e: PersFdError) -> Self {
        BatteryStatesError::PersFdErr(e)
    }
}

// ---------- integer percent values ----------

/// Decodes an integer percent value (battery capacity, charge threshold)
/// from its control-file text. The kernel reports capacity already clamped
/// to 0..=100, so no clamping happens here.
pub fn percent_from_text(s: &[char]) -> (r: Result<u64, BatteryStatesError>)
    ensures
        r matches Ok(v) ==> is_u64_numeral(s@) && v as int == dec_val(s@),
        r is Err <==> !is_u64_numeral(s@),
        r is Err ==> r == Err::<u64, BatteryStatesError>(BatteryStatesError::ParseIntErr),
{
    match parse_u64(s) {
        Some(v) => Ok(v),
        None => Err(BatteryStatesError::ParseIntErr),
    }
}

// ---------- AC adapter discovery ----------

/// A power-supply directory entry offered for AC-adapter discovery:
/// the device name and whether it exposes an "online" attribute.
pub struct SupplyEntry {
    pub name: String,
    pub has_online: bool,
}

/// An entry that can serve as the AC adapter: its name starts with "AC"
/// (which covers "ACAD") and it exposes an "online" attribute.
pub open spec fn is_ac_entry(e: SupplyEntry) -> bool {
    has_prefix(e.name@, "AC"@) && e.has_online
}

/// Selects the first usable AC-adapter entry, if any. Absence is not an
/// error: without an adapter device, charging-status reads degrade to
/// unknown instead.
pub fn select_ac_adapter(entries: &Vec<SupplyEntry>) -> (r: Option<usize>)
    ensures
        r matches Some(i) ==> 0 <= i < entries@.len() && is_ac_entry(entries@[i as int])
            && (forall|j: int| 0 <= j < i ==> !is_ac_entry(#[trigger] entries@[j])),
        r is None ==> forall|j: int| 0 <= j < entries@.len() ==> !is_ac_entry(
            #[trigger] entries@[j],
        ),
{
    let mut i: usize = 0;
    while i < entries.len()
        invariant
            0 <= i <= entries@.len(),
            forall|j: int| 0 <= j < i ==> !is_ac_entry(#[trigger] entries@[j]),
        decreases entries@.len() - i,
    {
        let e = &entries[i];
        if e.has_online && str_starts_with(e.name.as_str(), "AC") {
            return Some(i);
        }
        i = i + 1;
    }
    None
}

} // verus!
