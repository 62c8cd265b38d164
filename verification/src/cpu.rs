//! CPU frequency-scaling values: scaling governor and energy-performance
//! preference with their cross-core consistency invariant, the scheduler-tick
//! load computation, and the decoders for boost, temperature, frequency and
//! the energy counter. The control files themselves are read by the
//! surrounding process; everything here works on the values they carry.
use vstd::prelude::*;
use vstd::string::StringExecFns;
use crate::battery::ChargingStatus;
use crate::fds::PersFdError;
use crate::parse::{
    chars_of, dec_val, is_u64_numeral, parse_u64, spec_fields, spec_lines, split_fields,
    split_lines, str_eq,
};

verus! {

// ---------- scaling governor ----------

/// Kernel frequency-scaling policy.
#[derive(Clone, Copy, Debug, PartialEq, Eq, Structural)]
pub enum ScalingGoverner {
    Powersave,
    Performance,
    Unknown,
}

/// The governor denoted by a control-file value.
pub open spec fn gov_of(s: Seq<char>) -> ScalingGoverner {
    if s == "performance"@ {
        ScalingGoverner::Performance
    } else if s == "powersave"@ {
        ScalingGoverner::Powersave
    } else {
        ScalingGoverner::Unknown
    }
}

/// The fixed string written for a known governor.
pub open spec fn gov_token(g: ScalingGoverner) -> Seq<char> {
    match g {
        ScalingGoverner::Powersave => "powersave"@,
        ScalingGoverner::Performance => "performance"@,
        ScalingGoverner::Unknown => Seq::empty(),
    }
}

impl ScalingGoverner {
    pub fn from_string(s: &str) -> (r: Self)
        ensures
            r == gov_of(s@),
    {
        if str_eq(s, "performance") {
            ScalingGoverner::Performance
        } else if str_eq(s, "powersave") {
            ScalingGoverner::Powersave
        } else {
            ScalingGoverner::Unknown
        }
    }

    /// The value to write to a scaling-governor control file. An unknown
    /// governor cannot be written.
    pub fn write_token(&self) -> (r: Result<&'static str, CpuStatesError>)
        ensures
            r matches Ok(t) ==> *self != ScalingGoverner::Unknown && t@ == gov_token(*self),
            r is Err <==> *self == ScalingGoverner::Unknown,
            r is Err ==> r == Err::<&'static str, CpuStatesError>(
                CpuStatesError::InvalidScalingGovVal,
            ),
    {
        match self {
            ScalingGoverner::Powersave => Ok("powersave"),
            ScalingGoverner::Performance => Ok("performance"),
            ScalingGoverner::Unknown => Err(CpuStatesError::InvalidScalingGovVal),
        }
    }
}

// ---------- energy-performance preference ----------

/// Energy Performance Preference hint.
#[derive(Clone, Copy, Debug, PartialEq, Eq, Structural)]
pub enum EPP {
    EDefault,
    Performance,
    BalancePerformance,
    BalancePower,
    Power,
    Unknown,
}

/// The preference denoted by a control-file value.
pub open spec fn epp_of(s: Seq<char>) -> EPP {
    if s == "default"@ {
        EPP::EDefault
    } else if s == "performance"@ {
        EPP::Performance
    } else if s == "balance_performance"@ {
        EPP::BalancePerformance
    } else if s == "balance_power"@ {
        EPP::BalancePower
    } else if s == "power"@ {
        EPP::Power
    } else {
        EPP::Unknown
    }
}

/// The fixed string written for a known preference.
pub open spec fn epp_token(e: EPP) -> Seq<char> {
    match e {
        EPP::EDefault => "default"@,
        EPP::Performance => "performance"@,
        EPP::BalancePerformance => "balance_performance"@,
        EPP::BalancePower => "balance_power"@,
        EPP::Power => "power"@,
        EPP::Unknown => Seq::empty(),
    }
}

impl EPP {
    pub fn from_string(s: &str) -> (r: Self)
        ensures
            r == epp_of(s@),
    {
        if str_eq(s, "default") {
            EPP::EDefault
        } else if str_eq(s, "performance") {
            EPP::Performance
        } else if str_eq(s, "balance_performance") {
            EPP::BalancePerformance
        } else if str_eq(s, "balance_power") {
            EPP::BalancePower
        } else if str_eq(s, "power") {
            EPP::Power
        } else {
            EPP::Unknown
        }
    }

    /// The value to write to an energy-performance-preference control file.
    /// An unknown preference cannot be written.
    pub fn write_token(&self) -> (r: Result<&'static str, CpuStatesError>)
        ensures
            r matches Ok(t) ==> *self != EPP::Unknown && t@ == epp_token(*self),
            r is Err <==> *self == EPP::Unknown,
            r is Err ==> r == Err::<&'static str, CpuStatesError>(CpuStatesError::InvalidEPPVal),
    {
        match self {
            EPP::EDefault => Ok("default"),
            EPP::Performance => Ok("performance"),
            EPP::BalancePerformance => Ok("balance_performance"),
            EPP::BalancePower => Ok("balance_power"),
            EPP::Power => Ok("power"),
            EPP::Unknown => Err(CpuStatesError::InvalidEPPVal),
        }
    }
}

// ---------- errors ----------

/// Failure while reading, decoding or encoding a CPU control value.
#[derive(Debug, Clone, PartialEq, Eq)]
pub enum CpuStatesError {
    PersFdErr(PersFdError),
    InvalidScalingGovVal,
    InvalidEPPVal,
    ParseIntErr,
    GeneralIoErr(String),
    /// Cores that must agree on a value reported different values. Never
    /// resolved silently; always surfaced to the caller.
    Inconsistent,
}

impl From<PersFdError> for CpuStatesError {
    fn from(e: PersFdError) -> Self {
        CpuStatesError::PersFdErr(e)
    }
}

impl vstd::std_specs::convert::FromSpecImpl<PersFdError> for CpuStatesError {
    open spec fn obeys_from_spec() -> bool {
        true
    }

    open spec fn from_spec(e: PersFdError) -> Self {
        CpuStatesError::PersFdErr(e)
    }
}

// ---------- supported platform options ----------

/// Whether the advertised option sets allow this controller to drive the
/// platform: the governor set must offer exactly performance and powersave,
/// and the preference set must be the single performance entry on AC power
/// or with an unreadable charging status, and the full five-entry set on
/// battery.
pub open spec fn spec_platform_options_ok(
    governors: Seq<char>,
    epps: Seq<char>,
    charging: ChargingStatus,
) -> bool {
    governors == "performance powersave"@ && (if charging == ChargingStatus::DisCharging {
        epps == "default performance balance_performance balance_power power"@
    } else {
        epps == "performance"@
    })
}

/// Checks the advertised governor and preference option sets against what
/// this controller requires, under the current charging status.
pub fn platform_options_supported(governors: &str, epps: &str, charging: ChargingStatus) -> (r:
    bool)
    ensures
        r == spec_platform_options_ok(governors@, epps@, charging),
{
    if !str_eq(governors, "performance powersave") {
        return false;
    }
    if charging == ChargingStatus::DisCharging {
        str_eq(epps, "default performance balance_performance balance_power power")
    } else {
        str_eq(epps, "performance")
    }
}

// ---------- cross-core consistency ----------

/// All cores decode to the same governor, and that governor is known.
pub open spec fn governors_consistent(dv: Seq<Seq<char>>) -> bool {
    dv.len() >= 1 && gov_of(dv[0]) != ScalingGoverner::Unknown && (forall|i: int|
        0 <= i < dv.len() ==> gov_of(#[trigger] dv[i]) == gov_of(dv[0]))
}

/// Decodes the per-core governor values. Succeeds exactly when every core
/// reports the same known governor; any divergence or unknown value is an
/// `Inconsistent` error, never resolved by majority or first-wins.
pub fn read_governor(vals: &Vec<String>) -> (r: Result<ScalingGoverner, CpuStatesError>)
    requires
        vals@.len() >= 1,
    ensures
        r matches Ok(g) ==> governors_consistent(vals.deep_view()) && g == gov_of(
            vals.deep_view()[0],
        ),
        r is Err <==> !governors_consistent(vals.deep_view()),
        r is Err ==> r == Err::<ScalingGoverner, CpuStatesError>(CpuStatesError::Inconsistent),
{
    let ghost dv = vals.deep_view();
    let g0 = ScalingGoverner::from_string(vals[0].as_str());
    proof {
        assert(dv[0] =~= vals@[0]@);
    }
    if g0 == ScalingGoverner::Unknown {
        return Err(CpuStatesError::Inconsistent);
    }
    let mut i: usize = 1;
    while i < vals.len()
        invariant
            1 <= i <= vals@.len(),
            dv == vals.deep_view(),
            dv.len() == vals@.len(),
            g0 == gov_of(dv[0]),
            g0 != ScalingGoverner::Unknown,
            forall|j: int| 0 <= j < i ==> gov_of(#[trigger] dv[j]) == g0,
        decreases vals@.len() - i,
    {
        let gi = ScalingGoverner::from_string(vals[i].as_str());
        proof {
            assert(dv[i as int] =~= vals@[i as int]@);
        }
        if gi != g0 {
            return Err(CpuStatesError::Inconsistent);
        }
        i = i + 1;
    }
    Ok(g0)
}

/// All cores decode to the same preference, and that preference is known.
pub open spec fn epps_consistent(dv: Seq<Seq<char>>) -> bool {
    dv.len() >= 1 && epp_of(dv[0]) != EPP::Unknown && (forall|i: int|
        0 <= i < dv.len() ==> epp_of(#[trigger] dv[i]) == epp_of(dv[0]))
}

/// Decodes the per-core energy-performance-preference values, under the same
/// consistency rule as the governor.
pub fn read_epp(vals: &Vec<String>) -> (r: Result<EPP, CpuStatesError>)
    requires
        vals@.len() >= 1,
    ensures
        r matches Ok(e) ==> epps_consistent(vals.deep_view()) && e == epp_of(vals.deep_view()[0]),
        r is Err <==> !epps_consistent(vals.deep_view()),
        r is Err ==> r == Err::<EPP, CpuStatesError>(CpuStatesError::Inconsistent),
{
    let ghost dv = vals.deep_view();
    let e0 = EPP::from_string(vals[0].as_str());
    proof {
        assert(dv[0] =~= vals@[0]@);
    }
    if e0 == EPP::Unknown {
        return Err(CpuStatesError::Inconsistent);
    }
    let mut i: usize = 1;
    while i < vals.len()
        invariant
            1 <= i <= vals@.len(),
            dv == vals.deep_view(),
            dv.len() == vals@.len(),
            e0 == epp_of(dv[0]),
            e0 != EPP::Unknown,
            forall|j: int| 0 <= j < i ==> epp_of(#[trigger] dv[j]) == e0,
        decreases vals@.len() - i,
    {
        let ei = EPP::from_string(vals[i].as_str());
        proof {
            assert(dv[i as int] =~= vals@[i as int]@);
        }
        if ei != e0 {
            return Err(CpuStatesError::Inconsistent);
        }
        i = i + 1;
    }
    Ok(e0)
}

/// All entries equal the first one.
pub open spec fn all_equal(s: Seq<u64>) -> bool {
    forall|i: int| 0 <= i < s.len() ==> #[trigger] s[i] == s[0]
}

/// The shared value of a per-core numeric property (minimum or maximum
/// frequency). Divergence is an `Inconsistent` error.
pub fn consistent_value(vals: &Vec<u64>) -> (r: Result<u64, CpuStatesError>)
    requires
        vals@.len() >= 1,
    ensures
        r matches Ok(v) ==> all_equal(vals@) && v == vals@[0],
        r is Err <==> !all_equal(vals@),
        r is Err ==> r == Err::<u64, CpuStatesError>(CpuStatesError::Inconsistent),
{
    let v0 = vals[0];
    let mut i: usize = 1;
    while i < vals.len()
        invariant
            1 <= i <= vals@.len(),
            v0 == vals@[0],
            forall|j: int| 0 <= j < i ==> #[trigger] vals@[j] == v0,
        decreases vals@.len() - i,
    {
        if vals[i] != v0 {
            return Err(CpuStatesError::Inconsistent);
        }
        i = i + 1;
    }
    Ok(v0)
}

// ---------- sums and averages ----------

/// Sum of a sequence of integers.
pub open spec fn sum_of(s: Seq<int>) -> int
    decreases s.len(),
{
    if s.len() == 0 {
        0
    } else {
        sum_of(s.drop_last()) + s.last()
    }
}

/// Sum of a sequence of machine words.
pub open spec fn sum64(s: Seq<u64>) -> int
    decreases s.len(),
{
    if s.len() == 0 {
        0
    } else {
        sum64(s.drop_last()) + s.last()
    }
}

proof fn lemma_sum_of_nonneg(s: Seq<int>)
    requires
        forall|i: int| 0 <= i < s.len() ==> #[trigger] s[i] >= 0,
    ensures
        sum_of(s) >= 0,
    decreases s.len(),
{
    if s.len() > 0 {
        lemma_sum_of_nonneg(s.drop_last());
    }
}

proof fn lemma_sum_of_elem(s: Seq<int>, i: int)
    requires
        forall|k: int| 0 <= k < s.len() ==> #[trigger] s[k] >= 0,
        0 <= i < s.len(),
    ensures
        sum_of(s) >= s[i],
    decreases s.len(),
{
    if i == s.len() - 1 {
        lemma_sum_of_nonneg(s.drop_last());
    } else {
        lemma_sum_of_elem(s.drop_last(), i);
    }
}

proof fn lemma_sum_of_pair(s: Seq<int>, i: int, j: int)
    requires
        forall|k: int| 0 <= k < s.len() ==> #[trigger] s[k] >= 0,
        0 <= i < j < s.len(),
    ensures
        sum_of(s) >= s[i] + s[j],
    decreases s.len(),
{
    if j == s.len() - 1 {
        lemma_sum_of_elem(s.drop_last(), i);
    } else {
        lemma_sum_of_pair(s.drop_last(), i, j);
    }
}

/// The average of the per-core current frequencies, in the unit of the
/// control files (kHz), rounded down.
pub fn average_value(vals: &Vec<u64>) -> (r: u64)
    requires
        vals@.len() >= 1,
    ensures
        r as int == sum64(vals@) / vals@.len() as int,
{
    let mut acc: u128 = 0;
    let mut i: usize = 0;
    while i < vals.len()
        invariant
            0 <= i <= vals@.len(),
            acc as int == sum64(vals@.subrange(0, i as int)),
            acc <= i as u128 * (u64::MAX as u128),
        decreases vals@.len() - i,
    {
        proof {
            let p = vals@.subrange(0, i as int + 1);
            assert(p.drop_last() =~= vals@.subrange(0, i as int));
        }
        acc = acc + vals[i] as u128;
        i = i + 1;
    }
    proof {
        assert(vals@.subrange(0, vals@.len() as int) =~= vals@);
    }
    let n = vals.len();
    let q: u128 = acc / (n as u128);
    proof {
        assert(q <= u64::MAX as u128) by (nonlinear_arith)
            requires
                acc <= n as u128 * (u64::MAX as u128),
                n >= 1,
                q == acc / (n as u128),
        ;
    }
    q as u64
}

// ---------- scheduler-tick samples ----------

/// One reading of the aggregate scheduler-tick counters: the sum of all
/// fields and the idle share (idle plus iowait ticks).
#[derive(Clone, Copy, Debug, PartialEq, Eq, Structural)]
pub struct StatSample {
    pub total: u64,
    pub idle: u64,
}

/// Every field is a `u64` numeral.
pub open spec fn numeral_fields(fs: Seq<Seq<char>>) -> bool {
    forall|i: int| 0 <= i < fs.len() ==> is_u64_numeral(#[trigger] fs[i])
}

/// The numeric values of the fields.
pub open spec fn field_vals(fs: Seq<Seq<char>>) -> Seq<int> {
    Seq::new(fs.len(), |i: int| dec_val(fs[i]))
}

/// The whitespace-separated fields of the first line of the stat file.
pub open spec fn stat_fields(c: Seq<char>) -> Seq<Seq<char>> {
    if spec_lines(c).len() == 0 {
        Seq::empty()
    } else {
        spec_fields(spec_lines(c)[0])
    }
}

/// The first line carries a label and at least four numeric fields, all
/// representable, with a representable sum.
pub open spec fn stat_ok(c: Seq<char>) -> bool {
    let fs = stat_fields(c);
    fs.len() >= 5 && numeral_fields(fs.skip(1)) && sum_of(field_vals(fs.skip(1))) <= u64::MAX
}

/// The sum of the numeric fields.
pub open spec fn stat_total(c: Seq<char>) -> int {
    sum_of(field_vals(stat_fields(c).skip(1)))
}

/// The idle share: the fourth numeric field, plus the fifth (iowait) when
/// present.
pub open spec fn stat_idle(c: Seq<char>) -> int {
    let vs = field_vals(stat_fields(c).skip(1));
    vs[3] + (if vs.len() > 4 {
        vs[4]
    } else {
        0
    })
}

/// Parses one reading of the aggregate scheduler-tick line: the first line
/// of the stat file, a label followed by at least four numeric fields.
/// `total` is the sum of all numeric fields; `idle` counts idle plus iowait.
pub fn parse_stat_line(content: &str) -> (r: Result<StatSample, CpuStatesError>)
    ensures
        r matches Ok(s) ==> stat_ok(content@) && s.total as int == stat_total(content@)
            && s.idle as int == stat_idle(content@),
        r is Err <==> !stat_ok(content@),
        r is Err ==> r matches Err(CpuStatesError::GeneralIoErr(_)),
{
    let cv = chars_of(content);
    let ls = split_lines(cv.as_slice());
    if ls.len() == 0 {
        proof {
            assert(ls.deep_view().len() == 0);
        }
        return Err(CpuStatesError::GeneralIoErr(String::from_str("empty stat file")));
    }
    proof {
        assert(ls.deep_view()[0] =~= ls@[0]@);
    }
    let line = &ls[0];
    let fs = split_fields(line.as_slice());
    let ghost f = fs.deep_view();
    proof {
        assert(f == stat_fields(content@));
    }
    if fs.len() < 5 {
        return Err(CpuStatesError::GeneralIoErr(String::from_str("short stat line")));
    }
    let ghost vs = field_vals(f.skip(1));
    let mut vals: Vec<u64> = Vec::new();
    let mut k: usize = 1;
    while k < fs.len()
        invariant
            1 <= k <= fs@.len(),
            f == fs.deep_view(),
            f == stat_fields(content@),
            f.len() == fs@.len(),
            f.len() >= 5,
            vs == field_vals(f.skip(1)),
            vals@.len() == k - 1,
            forall|i: int| 0 <= i < k - 1 ==> is_u64_numeral(#[trigger] f.skip(1)[i]),
            forall|i: int| 0 <= i < k - 1 ==> #[trigger] vals@[i] as int == vs[i],
        decreases fs@.len() - k,
    {
        proof {
            assert(fs.deep_view()[k as int] =~= fs@[k as int]@);
            assert(f.skip(1)[k as int - 1] == f[k as int]);
        }
        match parse_u64(fs[k].as_slice()) {
            Some(v) => {
                vals.push(v);
            },
            None => {
                assert(!is_u64_numeral(f.skip(1)[k - 1]));
                assert(!numeral_fields(f.skip(1)));
                assert(!stat_ok(content@));
                return Err(CpuStatesError::GeneralIoErr(String::from_str("non-numeric stat field")));
            },
        }
        k = k + 1;
    }
    // all fields after the label are numerals
    assert(numeral_fields(f.skip(1)));
    // sum them, watching for a sum beyond u64
    let mut acc: u128 = 0;
    let mut i: usize = 0;
    while i < vals.len()
        invariant
            0 <= i <= vals@.len(),
            vals@.len() == vs.len(),
            f == stat_fields(content@),
            f.len() >= 5,
            numeral_fields(f.skip(1)),
            vs == field_vals(f.skip(1)),
            forall|j: int| 0 <= j < vals@.len() ==> #[trigger] vals@[j] as int == vs[j],
            acc as int == sum_of(vs.subrange(0, i as int)),
            acc <= i as u128 * (u64::MAX as u128),
        decreases vals@.len() - i,
    {
        proof {
            let p = vs.subrange(0, i as int + 1);
            assert(p.drop_last() =~= vs.subrange(0, i as int));
        }
        acc = acc + vals[i] as u128;
        i = i + 1;
    }
    proof {
        assert(vs.subrange(0, vs.len() as int) =~= vs);
    }
    if acc > u64::MAX as u128 {
        return Err(CpuStatesError::GeneralIoErr(String::from_str("stat counters out of range")));
    }
    let total = acc as u64;
    proof {
        assert forall|k2: int| 0 <= k2 < vs.len() implies #[trigger] vs[k2] >= 0 by {
            assert(is_u64_numeral(f.skip(1)[k2]));
            crate::parse::lemma_dec_val_nonneg(f.skip(1)[k2]);
        }
        if vs.len() > 4 {
            lemma_sum_of_pair(vs, 3, 4);
        } else {
            lemma_sum_of_elem(vs, 3);
        }
    }
    let idle = if vals.len() > 4 {
        vals[3] + vals[4]
    } else {
        vals[3]
    };
    Ok(StatSample { total, idle })
}

// ---------- load computation ----------

/// Elapsed scheduler ticks between two samples, floored at one so the load
/// quotient is always defined, even on a no-progress or regressing counter.
pub open spec fn spec_total_delta(prev: StatSample, now: StatSample) -> int {
    if now.total > prev.total {
        now.total - prev.total
    } else {
        1
    }
}

/// Busy ticks between two samples: the total delta less the idle delta,
/// clamped at zero.
pub open spec fn spec_busy_delta(prev: StatSample, now: StatSample) -> int {
    let td = spec_total_delta(prev, now);
    let idle_delta = now.idle - prev.idle;
    if td - idle_delta > 0 {
        td - idle_delta
    } else {
        0
    }
}

/// Load percentage: busy delta over total delta, times one hundred,
/// rounded down.
pub open spec fn spec_load_percent(prev: StatSample, now: StatSample) -> int {
    spec_busy_delta(prev, now) * 100 / spec_total_delta(prev, now)
}

/// The load percentage as a machine word; a value beyond `u64::MAX`, which
/// only a regressing idle counter can produce, saturates.
pub open spec fn spec_load_percent_sat(prev: StatSample, now: StatSample) -> int {
    if spec_load_percent(prev, now) > u64::MAX {
        u64::MAX as int
    } else {
        spec_load_percent(prev, now)
    }
}

/// The total delta's floor of one rules out a division by zero for every
/// pair of samples, a no-progress pair included.
pub proof fn lemma_total_delta_positive(prev: StatSample, now: StatSample)
    ensures
        spec_total_delta(prev, now) >= 1,
{
}

/// Computes the CPU load percentage from two scheduler-tick samples.
pub fn load_percent(prev: StatSample, now: StatSample) -> (r: u64)
    ensures
        r as int == spec_load_percent_sat(prev, now),
{
    let td: u64 = if now.total > prev.total {
        now.total - prev.total
    } else {
        1
    };
    let lhs: u128 = td as u128 + prev.idle as u128;
    let rhs: u128 = now.idle as u128;
    let busy: u128 = if lhs > rhs {
        lhs - rhs
    } else {
        0
    };
    assert(busy as int == spec_busy_delta(prev, now));
    let pct: u128 = busy * 100 / (td as u128);
    if pct > u64::MAX as u128 {
        u64::MAX
    } else {
        pct as u64
    }
}

// ---------- temperature, boost, energy ----------

/// Degrees Celsius from the thermal zone's millidegree reading.
pub fn temp_c_from_raw(raw: u64) -> (r: u64)
    ensures
        r == raw / 1000,
{
    raw / 1000
}

/// The boost toggle denoted by a control-file value: "1" on, "0" off.
pub open spec fn spec_boost_of(s: Seq<char>) -> Option<bool> {
    if s == "1"@ {
        Some(true)
    } else if s == "0"@ {
        Some(false)
    } else {
        None
    }
}

pub fn boost_from_str(s: &str) -> (r: Option<bool>)
    ensures
        r == spec_boost_of(s@),
{
    if str_eq(s, "1") {
        Some(true)
    } else if str_eq(s, "0") {
        Some(false)
    } else {
        None
    }
}

/// The value to write to the boost control file.
pub fn boost_token(on: bool) -> (r: &'static str)
    ensures
        on ==> r@ == "1"@,
        !on ==> r@ == "0"@,
{
    if on {
        "1"
    } else {
        "0"
    }
}

/// Microwatts drawn between two readings of the monotonic microjoule energy
/// counter, over a window of `window_ms` milliseconds. A reading lower than
/// its predecessor means the counter reset or wrapped and reports as zero
/// rather than a negative or wrapped value.
pub open spec fn spec_power_uw(start: u64, end: u64, window_ms: u64) -> int {
    if end < start {
        0
    } else {
        (end - start) * 1000 / (window_ms as int)
    }
}

/// The drawn power as a machine word, saturated at `u64::MAX`.
pub open spec fn spec_power_uw_sat(start: u64, end: u64, window_ms: u64) -> int {
    if spec_power_uw(start, end, window_ms) > u64::MAX {
        u64::MAX as int
    } else {
        spec_power_uw(start, end, window_ms)
    }
}

pub fn power_draw_uw(start: u64, end: u64, window_ms: u64) -> (r: u64)
    requires
        window_ms >= 1,
    ensures
        r as int == spec_power_uw_sat(start, end, window_ms),
{
    if end < start {
        return 0;
    }
    let d: u128 = (end - start) as u128 * 1000;
    let p: u128 = d / (window_ms as u128);
    if p > u64::MAX as u128 {
        u64::MAX
    } else {
        p as u64
    }
}

} // verus!
