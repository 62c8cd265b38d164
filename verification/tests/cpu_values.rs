use powereg::battery::ChargingStatus;
use powereg::cpu::{
    average_value, boost_from_str, boost_token, consistent_value, load_percent, parse_stat_line,
    platform_options_supported, power_draw_uw, read_epp, read_governor, temp_c_from_raw,
    CpuStatesError, ScalingGoverner, StatSample, EPP,
};

#[test]
fn governor_tokens_round_trip() {
    assert_eq!(
        ScalingGoverner::from_string("performance"),
        ScalingGoverner::Performance
    );
    assert_eq!(
        ScalingGoverner::from_string("powersave"),
        ScalingGoverner::Powersave
    );
    assert_eq!(
        ScalingGoverner::from_string("ondemand"),
        ScalingGoverner::Unknown
    );
    assert_eq!(
        ScalingGoverner::Powersave.write_token(),
        Ok("powersave")
    );
    assert_eq!(
        ScalingGoverner::Performance.write_token(),
        Ok("performance")
    );
    assert_eq!(
        ScalingGoverner::Unknown.write_token(),
        Err(CpuStatesError::InvalidScalingGovVal)
    );
}

#[test]
fn epp_tokens_round_trip() {
    assert_eq!(EPP::from_string("default"), EPP::EDefault);
    assert_eq!(EPP::from_string("performance"), EPP::Performance);
    assert_eq!(
        EPP::from_string("balance_performance"),
        EPP::BalancePerformance
    );
    assert_eq!(EPP::from_string("balance_power"), EPP::BalancePower);
    assert_eq!(EPP::from_string("power"), EPP::Power);
    assert_eq!(EPP::from_string("anything"), EPP::Unknown);
    assert_eq!(EPP::BalancePower.write_token(), Ok("balance_power"));
    assert_eq!(
        EPP::Unknown.write_token(),
        Err(CpuStatesError::InvalidEPPVal)
    );
}

#[test]
fn governor_read_returns_the_shared_value() {
    let vals: Vec<String> = vec![
        "powersave".to_string(),
        "powersave".to_string(),
        "powersave".to_string(),
        "powersave".to_string(),
    ];
    assert_eq!(read_governor(&vals), Ok(ScalingGoverner::Powersave));
    let one: Vec<String> = vec!["performance".to_string()];
    assert_eq!(read_governor(&one), Ok(ScalingGoverner::Performance));
}

#[test]
fn governor_read_surfaces_a_single_divergent_core() {
    let vals: Vec<String> = vec![
        "powersave".to_string(),
        "powersave".to_string(),
        "performance".to_string(),
    ];
    assert_eq!(read_governor(&vals), Err(CpuStatesError::Inconsistent));
    let unk: Vec<String> = vec!["bogus".to_string(), "powersave".to_string()];
    assert_eq!(read_governor(&unk), Err(CpuStatesError::Inconsistent));
}

#[test]
fn epp_read_checks_every_core() {
    let vals: Vec<String> = vec!["power".to_string(), "power".to_string()];
    assert_eq!(read_epp(&vals), Ok(EPP::Power));
    let vals: Vec<String> = vec!["power".to_string(), "balance_power".to_string()];
    assert_eq!(read_epp(&vals), Err(CpuStatesError::Inconsistent));
}

#[test]
fn per_core_numeric_consistency() {
    assert_eq!(consistent_value(&vec![400000, 400000, 400000]), Ok(400000));
    assert_eq!(
        consistent_value(&vec![400000, 400001]),
        Err(CpuStatesError::Inconsistent)
    );
}

#[test]
fn frequency_average_rounds_down() {
    assert_eq!(average_value(&vec![1000, 2000, 3001]), 2000);
    assert_eq!(average_value(&vec![7]), 7);
    assert_eq!(average_value(&vec![u64::MAX, u64::MAX]), u64::MAX);
}

#[test]
fn stat_line_parses_totals_and_idle() {
    let s = parse_stat_line("cpu  100 200 300 400 500\ncpu0 1 2 3 4 5\n").unwrap();
    assert_eq!(s.total, 1500);
    assert_eq!(s.idle, 900);
    // without an iowait field, idle is the fourth field alone
    let s = parse_stat_line("cpu 10 20 30 40").unwrap();
    assert_eq!(s.total, 100);
    assert_eq!(s.idle, 40);
}

#[test]
fn stat_line_rejects_malformed_content() {
    assert!(matches!(
        parse_stat_line(""),
        Err(CpuStatesError::GeneralIoErr(_))
    ));
    assert!(matches!(
        parse_stat_line("cpu 1 2 3"),
        Err(CpuStatesError::GeneralIoErr(_))
    ));
    assert!(matches!(
        parse_stat_line("cpu one two three four"),
        Err(CpuStatesError::GeneralIoErr(_))
    ));
}

#[test]
fn load_percent_is_the_exact_quotient() {
    let prev = StatSample { total: 1000, idle: 400 };
    let now = StatSample { total: 2000, idle: 600 };
    // totalDelta = 1000, idleDelta = 200, busyDelta = 800
    assert_eq!(load_percent(prev, now), 80);
    let now = StatSample { total: 1400, idle: 700 };
    // totalDelta = 400, idleDelta = 300, busyDelta = 100
    assert_eq!(load_percent(prev, now), 25);
}

#[test]
fn load_percent_never_divides_by_zero() {
    // a no-progress sample: the total delta floors at one
    let s = StatSample { total: 500, idle: 200 };
    assert_eq!(load_percent(s, s), 100);
    // a regressing total also floors at one
    let prev = StatSample { total: 500, idle: 200 };
    let now = StatSample { total: 400, idle: 200 };
    assert_eq!(load_percent(prev, now), 100);
}

#[test]
fn load_percent_clamps_negative_busy_to_zero() {
    let prev = StatSample { total: 1000, idle: 0 };
    let now = StatSample { total: 2000, idle: 1500 };
    // idleDelta exceeds totalDelta: busyDelta clamps to zero
    assert_eq!(load_percent(prev, now), 0);
}

#[test]
fn temperature_is_reported_in_whole_degrees() {
    assert_eq!(temp_c_from_raw(55123), 55);
    assert_eq!(temp_c_from_raw(999), 0);
}

#[test]
fn boost_values_map_both_ways() {
    assert_eq!(boost_from_str("1"), Some(true));
    assert_eq!(boost_from_str("0"), Some(false));
    assert_eq!(boost_from_str("2"), None);
    assert_eq!(boost_token(true), "1");
    assert_eq!(boost_token(false), "0");
}

#[test]
fn power_draw_handles_counter_resets() {
    // one joule over half a second is two watts
    assert_eq!(power_draw_uw(1_000_000, 2_000_000, 500), 2_000_000);
    // a reset counter reports zero, not a wrapped value
    assert_eq!(power_draw_uw(2_000_000, 1_000_000, 500), 0);
    assert_eq!(power_draw_uw(7, 7, 250), 0);
}

#[test]
fn platform_option_sets_depend_on_the_charging_state() {
    let full = "default performance balance_performance balance_power power";
    assert!(platform_options_supported(
        "performance powersave",
        full,
        ChargingStatus::DisCharging
    ));
    assert!(platform_options_supported(
        "performance powersave",
        "performance",
        ChargingStatus::Charging
    ));
    assert!(platform_options_supported(
        "performance powersave",
        "performance",
        ChargingStatus::Unknown
    ));
    assert!(!platform_options_supported(
        "performance powersave",
        full,
        ChargingStatus::Charging
    ));
    assert!(!platform_options_supported(
        "performance powersave ondemand",
        full,
        ChargingStatus::DisCharging
    ));
}
