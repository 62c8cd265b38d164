//! Event handling: the event stream's decisions, the periodic classifier,
//! the power state machine, and the composition that turns one event into
//! the next state and the control writes to issue. The blocking wait on the
//! device-notification socket is performed by the surrounding process, which
//! hands the drained notifications and the elapsed time to the functions
//! here.
use vstd::prelude::*;
use vstd::string::StrSliceExecFns;
use crate::battery::ChargingStatus;
use crate::parse::{has_prefix, str_eq, str_starts_with};
use crate::system_state::{plan_writes, spec_plan_writes, ControlWrite, State};

verus! {

/// One observation of the machine, taken freshly at every periodic tick and
/// never persisted.
#[derive(Clone, Copy, Debug, PartialEq, Eq, Structural)]
pub struct Sample {
    pub battery_capacity_pct: u64,
    pub charging_status: ChargingStatus,
    pub cpu_temp_c: u64,
    pub cpu_load_pct: u64,
    pub cpu_boost_enabled: bool,
}

/// Battery capacity at or below this percentage classifies as low battery.
pub const LOW_BATTERY_PCT: u64 = 25;

/// CPU temperature at or above this many degrees Celsius counts as pressure.
pub const HIGH_CPU_TEMP_C: u64 = 85;

/// CPU load at or above this percentage counts as pressure.
pub const HIGH_CPU_LOAD_PCT: u64 = 85;

/// One event of the control loop, produced once per wait and consumed once.
#[derive(Debug, Clone, PartialEq, Eq)]
pub enum Event {
    PowerInPlug,
    PowerUnPlug,
    PeriodicCheck,
    LowBattery,
    HighCpuTemp,
    HighCpuLoad,
    LoadNormalized,
    Unknown,
    Error(String),
}

// ---------- periodic classification ----------

/// Classification of a periodic sample, first satisfied rule wins:
/// low battery, then unplugged while in a powered state, then plugged in
/// while saving power, then thermal or load pressure, then normalization,
/// else unknown. Battery safety dominates thermal and performance tuning,
/// which dominates AC-presence bookkeeping.
pub open spec fn spec_classify(s: Sample, current: State) -> Event {
    let plugged = s.charging_status == ChargingStatus::Charging;
    if s.battery_capacity_pct <= LOW_BATTERY_PCT {
        Event::LowBattery
    } else if !plugged && (current == State::Performance || current == State::Balanced) {
        Event::PowerUnPlug
    } else if plugged && current == State::Powersave {
        Event::PowerInPlug
    } else if s.cpu_temp_c >= HIGH_CPU_TEMP_C || s.cpu_load_pct >= HIGH_CPU_LOAD_PCT {
        Event::HighCpuLoad
    } else if plugged && current == State::Balanced {
        Event::LoadNormalized
    } else {
        Event::Unknown
    }
}

/// Classifies a freshly taken sample against the current state.
pub fn classify(s: &Sample, current: State) -> (r: Event)
    ensures
        r == spec_classify(*s, current),
{
    let plugged = s.charging_status == ChargingStatus::Charging;
    if s.battery_capacity_pct <= LOW_BATTERY_PCT {
        Event::LowBattery
    } else if !plugged && (current == State::Performance || current == State::Balanced) {
        Event::PowerUnPlug
    } else if plugged && current == State::Powersave {
        Event::PowerInPlug
    } else if s.cpu_temp_c >= HIGH_CPU_TEMP_C || s.cpu_load_pct >= HIGH_CPU_LOAD_PCT {
        Event::HighCpuLoad
    } else if plugged && current == State::Balanced {
        Event::LoadNormalized
    } else {
        Event::Unknown
    }
}

/// A sample that is both low on battery and under load or thermal pressure
/// classifies as low battery: battery safety takes priority.
pub proof fn lemma_low_battery_beats_load(s: Sample, current: State)
    requires
        s.battery_capacity_pct <= LOW_BATTERY_PCT,
        s.cpu_temp_c >= HIGH_CPU_TEMP_C || s.cpu_load_pct >= HIGH_CPU_LOAD_PCT,
    ensures
        spec_classify(s, current) == Event::LowBattery,
{
}

// ---------- state machine ----------

/// The transition table of the power state machine. Plug, unplug and low
/// battery act from every state; pressure steps performance down to
/// balanced; normalization steps balanced back up; everything else, an
/// unknown event and an error among it, leaves the state unchanged.
pub open spec fn spec_transition(current: State, e: Event) -> State {
    match e {
        Event::PowerInPlug => State::Performance,
        Event::PowerUnPlug => State::Powersave,
        Event::LowBattery => State::Powersave,
        Event::HighCpuTemp => if current == State::Performance {
            State::Balanced
        } else {
            current
        },
        Event::HighCpuLoad => if current == State::Performance {
            State::Balanced
        } else {
            current
        },
        Event::LoadNormalized => if current == State::Balanced {
            State::Performance
        } else {
            current
        },
        _ => current,
    }
}

/// The pure transition function from current state and event to next state.
pub fn transition(current: State, e: &Event) -> (r: State)
    ensures
        r == spec_transition(current, *e),
{
    match e {
        Event::PowerInPlug => State::Performance,
        Event::PowerUnPlug => State::Powersave,
        Event::LowBattery => State::Powersave,
        Event::HighCpuTemp => if current == State::Performance {
            State::Balanced
        } else {
            current
        },
        Event::HighCpuLoad => if current == State::Performance {
            State::Balanced
        } else {
            current
        },
        Event::LoadNormalized => if current == State::Balanced {
            State::Performance
        } else {
            current
        },
        _ => current,
    }
}

/// Plugging in is idempotent: from every state it yields performance, and
/// plugging in again from performance yields performance still.
pub proof fn lemma_power_plug_idempotent(current: State)
    ensures
        spec_transition(current, Event::PowerInPlug) == State::Performance,
        spec_transition(
            spec_transition(current, Event::PowerInPlug),
            Event::PowerInPlug,
        ) == State::Performance,
{
}

// ---------- the event source's decisions ----------

/// The bounded wait's timeout: what remains of the periodic interval,
/// never negative.
pub open spec fn spec_poll_timeout(elapsed_ms: u64, interval_ms: u64) -> int {
    if elapsed_ms >= interval_ms {
        0
    } else {
        interval_ms - elapsed_ms
    }
}

pub fn poll_timeout_ms(elapsed_ms: u64, interval_ms: u64) -> (r: u64)
    ensures
        r as int == spec_poll_timeout(elapsed_ms, interval_ms),
{
    if elapsed_ms >= interval_ms {
        0
    } else {
        interval_ms - elapsed_ms
    }
}

/// One drained device notification: the power-supply name, and the value of
/// the "online" attribute when the notification carries one.
pub struct PowerNotification {
    pub name: String,
    pub online: Option<String>,
}

/// Whether a power-supply name names the AC adapter.
pub open spec fn is_adapter_name(n: Seq<char>) -> bool {
    n == "ACAD"@ || n == "AC"@ || n == "ADP1"@ || n == "AC0"@
}

/// The event one notification yields: an adapter notification with an
/// "online" attribute maps "1" to plug-in, "0" to unplug and anything else
/// to unknown; any other notification yields nothing and scanning goes on.
pub open spec fn spec_notification_event(n: PowerNotification) -> Option<Event> {
    if is_adapter_name(n.name@) {
        match n.online {
            Some(o) => if o@ == "1"@ {
                Some(Event::PowerInPlug)
            } else if o@ == "0"@ {
                Some(Event::PowerUnPlug)
            } else {
                Some(Event::Unknown)
            },
            None => None,
        }
    } else {
        None
    }
}

pub fn notification_event(n: &PowerNotification) -> (r: Option<Event>)
    ensures
        r == spec_notification_event(*n),
{
    let name = n.name.as_str();
    if str_eq(name, "ACAD") || str_eq(name, "AC") || str_eq(name, "ADP1") || str_eq(name, "AC0") {
        match &n.online {
            Some(o) => {
                if str_eq(o.as_str(), "1") {
                    Some(Event::PowerInPlug)
                } else if str_eq(o.as_str(), "0") {
                    Some(Event::PowerUnPlug)
                } else {
                    Some(Event::Unknown)
                }
            },
            None => None,
        }
    } else {
        None
    }
}

/// The value of the first segment of a device-change datagram that starts
/// with `key`, with the key removed; nothing when no segment carries it.
pub open spec fn spec_uevent_value(segs: Seq<Seq<char>>, key: Seq<char>) -> Option<Seq<char>>
    decreases segs.len(),
{
    if segs.len() == 0 {
        None
    } else if has_prefix(segs[0], key) {
        Some(segs[0].skip(key.len() as int))
    } else {
        spec_uevent_value(segs.drop_first(), key)
    }
}

/// Looks up one key of a device-change datagram, given as its
/// NUL-separated segments.
pub fn uevent_value(segs: &Vec<String>, key: &str) -> (r: Option<String>)
    ensures
        r matches Some(v) ==> spec_uevent_value(segs.deep_view(), key@) == Some(v@),
        r is None <==> spec_uevent_value(segs.deep_view(), key@) is None,
{
    let ghost dv = segs.deep_view();
    let mut i: usize = 0;
    proof {
        assert(dv.skip(0) =~= dv);
    }
    while i < segs.len()
        invariant
            0 <= i <= segs@.len(),
            dv == segs.deep_view(),
            dv.len() == segs@.len(),
            spec_uevent_value(dv, key@) == spec_uevent_value(dv.skip(i as int), key@),
        decreases segs@.len() - i,
    {
        proof {
            assert(dv[i as int] =~= segs@[i as int]@);
            assert(dv.skip(i as int)[0] == dv[i as int]);
            assert(dv.skip(i as int).drop_first() =~= dv.skip(i as int + 1));
        }
        let s = segs[i].as_str();
        if str_starts_with(s, key) {
            let klen = key.unicode_len();
            let slen = s.unicode_len();
            let v = s.substring_char(klen, slen);
            proof {
                assert(v@ =~= dv[i as int].skip(key@.len() as int));
            }
            return Some(v.to_owned());
        }
        i = i + 1;
    }
    proof {
        assert(dv.skip(i as int) =~= Seq::<Seq<char>>::empty());
    }
    None
}

/// Decodes one device-change datagram, given as its NUL-separated segments:
/// the datagram must announce a change action, name the power-supply
/// subsystem, and carry a power-supply name; the "online" attribute comes
/// along when present.
pub fn uevent_notification(segs: &Vec<String>) -> (r: Option<PowerNotification>)
    ensures
        r is Some <==> (segs.deep_view().len() > 0 && has_prefix(segs.deep_view()[0], "change@"@)
            && spec_uevent_value(segs.deep_view(), "SUBSYSTEM="@) == Some("power_supply"@)
            && spec_uevent_value(segs.deep_view(), "POWER_SUPPLY_NAME="@) is Some),
        r matches Some(n) ==> Some(n.name@) == spec_uevent_value(
            segs.deep_view(),
            "POWER_SUPPLY_NAME="@,
        ) && (match n.online {
            Some(o) => spec_uevent_value(segs.deep_view(), "POWER_SUPPLY_ONLINE="@) == Some(o@),
            None => spec_uevent_value(segs.deep_view(), "POWER_SUPPLY_ONLINE="@) is None,
        }),
{
    if segs.len() == 0 {
        return None;
    }
    proof {
        assert(segs.deep_view()[0] =~= segs@[0]@);
    }
    if !str_starts_with(segs[0].as_str(), "change@") {
        return None;
    }
    match uevent_value(segs, "SUBSYSTEM=") {
        Some(ss) => {
            if !str_eq(ss.as_str(), "power_supply") {
                return None;
            }
        },
        None => {
            return None;
        },
    }
    let name = match uevent_value(segs, "POWER_SUPPLY_NAME=") {
        Some(n) => n,
        None => {
            return None;
        },
    };
    let online = uevent_value(segs, "POWER_SUPPLY_ONLINE=");
    Some(PowerNotification { name, online })
}

/// Folding a drained batch: the first notification that yields an event
/// wins and the rest of the batch is discarded; a batch without a match
/// yields unknown.
pub open spec fn spec_first_power_event(ns: Seq<PowerNotification>) -> Event
    decreases ns.len(),
{
    if ns.len() == 0 {
        Event::Unknown
    } else {
        match spec_notification_event(ns[0]) {
            Some(e) => e,
            None => spec_first_power_event(ns.drop_first()),
        }
    }
}

pub fn first_power_event(ns: &Vec<PowerNotification>) -> (r: Event)
    ensures
        r == spec_first_power_event(ns@),
{
    let mut i: usize = 0;
    proof {
        assert(ns@.skip(0) =~= ns@);
    }
    while i < ns.len()
        invariant
            0 <= i <= ns@.len(),
            spec_first_power_event(ns@) == spec_first_power_event(ns@.skip(i as int)),
        decreases ns@.len() - i,
    {
        proof {
            assert(ns@.skip(i as int).drop_first() =~= ns@.skip(i as int + 1));
        }
        match notification_event(&ns[i]) {
            Some(e) => {
                return e;
            },
            None => {},
        }
        i = i + 1;
    }
    proof {
        assert(ns@.skip(i as int) =~= Seq::<PowerNotification>::empty());
    }
    Event::Unknown
}

/// The event one completed wait yields. A wait error carries its reason.
/// Otherwise the periodic deadline takes priority over any notification
/// drained during the same wait, so a busy or silent notification stream
/// can never starve the periodic classification; only then is the drained
/// batch folded.
pub open spec fn spec_poll_outcome(
    wait_error: Option<String>,
    elapsed_ms: u64,
    interval_ms: u64,
    ns: Seq<PowerNotification>,
) -> Event {
    match wait_error {
        Some(reason) => Event::Error(reason),
        None => if elapsed_ms >= interval_ms {
            Event::PeriodicCheck
        } else {
            spec_first_power_event(ns)
        },
    }
}

pub fn poll_outcome(
    wait_error: Option<String>,
    elapsed_ms: u64,
    interval_ms: u64,
    ns: &Vec<PowerNotification>,
) -> (r: Event)
    ensures
        r == spec_poll_outcome(wait_error, elapsed_ms, interval_ms, ns@),
{
    match wait_error {
        Some(m) => Event::Error(m),
        None => {
            if elapsed_ms >= interval_ms {
                Event::PeriodicCheck
            } else {
                first_power_event(ns)
            }
        },
    }
}

// ---------- event handling ----------

/// Handles one periodic tick: classifies the fresh sample, steps the state
/// machine, and plans the control writes for the state reached, under the
/// sample's charging status.
pub fn handle_periodic(current: State, s: &Sample) -> (r: (State, Vec<ControlWrite>))
    ensures
        r.0 == spec_transition(current, spec_classify(*s, current)),
        r.1@ == spec_plan_writes(r.0, s.charging_status),
{
    let e = classify(s, current);
    let next = transition(current, &e);
    let writes = plan_writes(next, s.charging_status);
    (next, writes)
}

/// Handles one hardware or error event: steps the state machine and plans
/// the control writes for the state reached, under the given freshly read
/// charging status. Periodic ticks take the sampling path instead.
pub fn handle_notification(current: State, e: &Event, charging: ChargingStatus) -> (r: (
    State,
    Vec<ControlWrite>,
))
    requires
        !(e is PeriodicCheck),
    ensures
        r.0 == spec_transition(current, *e),
        r.1@ == spec_plan_writes(r.0, charging),
{
    let next = transition(current, e);
    let writes = plan_writes(next, charging);
    (next, writes)
}

} // verus!
