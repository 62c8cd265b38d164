use powereg::battery::{ChargingStatus, PlatformProfile};
use powereg::cpu::{ScalingGoverner, EPP};
use powereg::events::{
    classify, first_power_event, handle_notification, handle_periodic, notification_event,
    poll_outcome, poll_timeout_ms, transition, uevent_notification, uevent_value, Event,
    PowerNotification, Sample,
};
use powereg::system_state::{
    initial_state, plan_writes, profile_for, ControlWrite, State,
};

fn sample(capacity: u64, charging: ChargingStatus, temp: u64, load: u64) -> Sample {
    Sample {
        battery_capacity_pct: capacity,
        charging_status: charging,
        cpu_temp_c: temp,
        cpu_load_pct: load,
        cpu_boost_enabled: true,
    }
}

// ---------- classification ----------

#[test]
fn low_battery_takes_priority_over_high_load() {
    let s = sample(15, ChargingStatus::Charging, 40, 90);
    assert_eq!(classify(&s, State::Performance), Event::LowBattery);
    let s = sample(25, ChargingStatus::Charging, 90, 90);
    assert_eq!(classify(&s, State::Balanced), Event::LowBattery);
}

#[test]
fn classification_follows_the_priority_order() {
    // discharging while powered beats pressure
    let s = sample(80, ChargingStatus::DisCharging, 90, 90);
    assert_eq!(classify(&s, State::Performance), Event::PowerUnPlug);
    assert_eq!(classify(&s, State::Balanced), Event::PowerUnPlug);
    // plugging in while saving power
    let s = sample(80, ChargingStatus::Charging, 40, 10);
    assert_eq!(classify(&s, State::Powersave), Event::PowerInPlug);
    // pressure, by load or by temperature
    let s = sample(80, ChargingStatus::Charging, 40, 90);
    assert_eq!(classify(&s, State::Performance), Event::HighCpuLoad);
    let s = sample(80, ChargingStatus::Charging, 85, 10);
    assert_eq!(classify(&s, State::Performance), Event::HighCpuLoad);
    // normalization only from balanced on AC
    let s = sample(80, ChargingStatus::Charging, 40, 10);
    assert_eq!(classify(&s, State::Balanced), Event::LoadNormalized);
    // nothing to report
    assert_eq!(classify(&s, State::Performance), Event::Unknown);
}

// ---------- the state machine ----------

#[test]
fn power_plug_is_idempotent() {
    for st in [State::Powersave, State::Balanced, State::Performance] {
        let once = transition(st, &Event::PowerInPlug);
        assert_eq!(once, State::Performance);
        assert_eq!(transition(once, &Event::PowerInPlug), State::Performance);
    }
}

#[test]
fn transition_table() {
    for st in [State::Powersave, State::Balanced, State::Performance] {
        assert_eq!(transition(st, &Event::PowerUnPlug), State::Powersave);
        assert_eq!(transition(st, &Event::LowBattery), State::Powersave);
        // unknowns, errors and the raw periodic event leave the state alone
        assert_eq!(transition(st, &Event::Unknown), st);
        assert_eq!(transition(st, &Event::PeriodicCheck), st);
        assert_eq!(
            transition(st, &Event::Error("poll failed".to_string())),
            st
        );
    }
    // pressure steps performance down, and only performance
    assert_eq!(
        transition(State::Performance, &Event::HighCpuLoad),
        State::Balanced
    );
    assert_eq!(
        transition(State::Performance, &Event::HighCpuTemp),
        State::Balanced
    );
    assert_eq!(transition(State::Balanced, &Event::HighCpuLoad), State::Balanced);
    assert_eq!(transition(State::Powersave, &Event::HighCpuTemp), State::Powersave);
    // normalization steps balanced back up, and only balanced
    assert_eq!(
        transition(State::Balanced, &Event::LoadNormalized),
        State::Performance
    );
    assert_eq!(
        transition(State::Powersave, &Event::LoadNormalized),
        State::Powersave
    );
}

#[test]
fn startup_state_follows_the_charging_status() {
    assert_eq!(initial_state(ChargingStatus::Charging), State::Performance);
    assert_eq!(initial_state(ChargingStatus::DisCharging), State::Powersave);
    assert_eq!(initial_state(ChargingStatus::Unknown), State::Powersave);
}

// ---------- the applier ----------

#[test]
fn discharging_performance_issues_zero_writes() {
    let writes = plan_writes(State::Performance, ChargingStatus::DisCharging);
    assert_eq!(writes.len(), 0);
}

#[test]
fn writes_follow_the_profile_in_fixed_order() {
    let writes = plan_writes(State::Performance, ChargingStatus::Charging);
    assert_eq!(
        writes,
        vec![
            ControlWrite::Governor(ScalingGoverner::Performance),
            ControlWrite::Epp(EPP::Performance),
            ControlWrite::Platform(PlatformProfile::Performance),
            ControlWrite::Boost(true),
        ]
    );
    let p = profile_for(State::Powersave);
    assert_eq!(p.governor, ScalingGoverner::Powersave);
    assert_eq!(p.epp, EPP::Power);
    assert_eq!(p.platform_profile, PlatformProfile::LowPower);
    assert!(!p.boost_enabled);
}

// ---------- end to end ----------

#[test]
fn low_battery_tick_lands_in_powersave_with_its_full_control_set() {
    let s = sample(15, ChargingStatus::DisCharging, 40, 10);
    let (next, writes) = handle_periodic(State::Performance, &s);
    assert_eq!(next, State::Powersave);
    assert_eq!(
        writes,
        vec![
            ControlWrite::Governor(ScalingGoverner::Powersave),
            ControlWrite::Epp(EPP::Power),
            ControlWrite::Platform(PlatformProfile::LowPower),
            ControlWrite::Boost(false),
        ]
    );
}

#[test]
fn high_load_tick_steps_performance_down_to_balanced() {
    let s = sample(80, ChargingStatus::Charging, 40, 90);
    let (next, writes) = handle_periodic(State::Performance, &s);
    assert_eq!(next, State::Balanced);
    assert_eq!(
        writes,
        vec![
            ControlWrite::Governor(ScalingGoverner::Powersave),
            ControlWrite::Epp(EPP::BalancePerformance),
            ControlWrite::Platform(PlatformProfile::Balanced),
            ControlWrite::Boost(true),
        ]
    );
}

#[test]
fn hardware_events_reapply_the_reached_state() {
    let (next, writes) =
        handle_notification(State::Powersave, &Event::PowerInPlug, ChargingStatus::Charging);
    assert_eq!(next, State::Performance);
    assert_eq!(writes.len(), 4);
    // the guard also holds on the notification path
    let (next, writes) =
        handle_notification(State::Powersave, &Event::PowerInPlug, ChargingStatus::DisCharging);
    assert_eq!(next, State::Performance);
    assert_eq!(writes.len(), 0);
}

// ---------- the event source's decisions ----------

#[test]
fn poll_timeout_never_goes_negative() {
    assert_eq!(poll_timeout_ms(1200, 5000), 3800);
    assert_eq!(poll_timeout_ms(5000, 5000), 0);
    assert_eq!(poll_timeout_ms(9000, 5000), 0);
}

#[test]
fn adapter_notifications_map_their_online_attribute() {
    let n = PowerNotification {
        name: "ACAD".to_string(),
        online: Some("1".to_string()),
    };
    assert_eq!(notification_event(&n), Some(Event::PowerInPlug));
    let n = PowerNotification {
        name: "AC0".to_string(),
        online: Some("0".to_string()),
    };
    assert_eq!(notification_event(&n), Some(Event::PowerUnPlug));
    let n = PowerNotification {
        name: "ADP1".to_string(),
        online: Some("?".to_string()),
    };
    assert_eq!(notification_event(&n), Some(Event::Unknown));
    let n = PowerNotification {
        name: "AC".to_string(),
        online: None,
    };
    assert_eq!(notification_event(&n), None);
    let n = PowerNotification {
        name: "BAT0".to_string(),
        online: Some("1".to_string()),
    };
    assert_eq!(notification_event(&n), None);
}

#[test]
fn first_matching_notification_wins() {
    let batch = vec![
        PowerNotification { name: "BAT0".to_string(), online: Some("1".to_string()) },
        PowerNotification { name: "AC".to_string(), online: Some("0".to_string()) },
        PowerNotification { name: "ACAD".to_string(), online: Some("1".to_string()) },
    ];
    assert_eq!(first_power_event(&batch), Event::PowerUnPlug);
    assert_eq!(first_power_event(&Vec::new()), Event::Unknown);
}

#[test]
fn periodic_deadline_outranks_pending_notifications() {
    let batch = vec![PowerNotification {
        name: "ACAD".to_string(),
        online: Some("1".to_string()),
    }];
    assert_eq!(
        poll_outcome(None, 5000, 5000, &batch),
        Event::PeriodicCheck
    );
    assert_eq!(
        poll_outcome(None, 1000, 5000, &batch),
        Event::PowerInPlug
    );
    assert_eq!(
        poll_outcome(Some("poll failed".to_string()), 5000, 5000, &batch),
        Event::Error("poll failed".to_string())
    );
}

#[test]
fn uevent_datagrams_decode_into_notifications() {
    let segs: Vec<String> = vec![
        "change@/devices/platform/ACPI0003:00/power_supply/ACAD".to_string(),
        "ACTION=change".to_string(),
        "SUBSYSTEM=power_supply".to_string(),
        "POWER_SUPPLY_NAME=ACAD".to_string(),
        "POWER_SUPPLY_ONLINE=1".to_string(),
    ];
    let n = uevent_notification(&segs).unwrap();
    assert_eq!(n.name, "ACAD");
    assert_eq!(n.online, Some("1".to_string()));
    assert_eq!(notification_event(&n), Some(Event::PowerInPlug));
}

#[test]
fn uevent_datagrams_outside_power_supply_are_dropped() {
    let other: Vec<String> = vec![
        "change@/devices/pci0000:00/usb1".to_string(),
        "SUBSYSTEM=usb".to_string(),
        "POWER_SUPPLY_NAME=ACAD".to_string(),
    ];
    assert!(uevent_notification(&other).is_none());
    let add: Vec<String> = vec![
        "add@/devices/platform/ACPI0003:00/power_supply/ACAD".to_string(),
        "SUBSYSTEM=power_supply".to_string(),
        "POWER_SUPPLY_NAME=ACAD".to_string(),
    ];
    assert!(uevent_notification(&add).is_none());
    let nameless: Vec<String> = vec![
        "change@/devices/platform/ACPI0003:00/power_supply/BAT0".to_string(),
        "SUBSYSTEM=power_supply".to_string(),
        "POWER_SUPPLY_STATUS=Discharging".to_string(),
    ];
    assert!(uevent_notification(&nameless).is_none());
    assert!(uevent_notification(&Vec::new()).is_none());
}

#[test]
fn uevent_values_take_the_first_matching_segment() {
    let segs: Vec<String> = vec![
        "change@/x".to_string(),
        "SUBSYSTEM=power_supply".to_string(),
        "SUBSYSTEM=usb".to_string(),
    ];
    assert_eq!(uevent_value(&segs, "SUBSYSTEM="), Some("power_supply".to_string()));
    assert_eq!(uevent_value(&segs, "DEVTYPE="), None);
}
