use powereg::fds::PersFdError;
use powereg::setup::check_installed_power_tools;
use powereg::system_state::{
    acpi_family, count_cpu_cores, linux_detected, resolve_vendor, vendor_from_cpuinfo,
    vendor_from_description, vendor_from_id_string, ACPIType, Config, CpuType, SystemStateError,
    ThresholdWrite,
};
use powereg::utils::StyledString;

#[test]
fn cpuinfo_vendor_lines_resolve_the_vendor() {
    let amd = "processor\t: 0\nvendor_id\t: AuthenticAMD\ncpu family\t: 25\n";
    assert_eq!(vendor_from_cpuinfo(amd), CpuType::AMD);
    let intel = "processor\t: 0\nvendor_id\t: GenuineIntel\nmodel\t: 154\n";
    assert_eq!(vendor_from_cpuinfo(intel), CpuType::Intel);
    let none = "processor\t: 0\nflags\t: fpu vme\n";
    assert_eq!(vendor_from_cpuinfo(none), CpuType::Unknown);
    // a vendor_id line naming neither vendor is skipped, not final
    let odd = "vendor_id\t: CentaurHauls\nvendor_id\t: AuthenticAMD\n";
    assert_eq!(vendor_from_cpuinfo(odd), CpuType::AMD);
}

#[test]
fn id_string_vendor_is_an_exact_match() {
    assert_eq!(vendor_from_id_string("GenuineIntel"), CpuType::Intel);
    assert_eq!(vendor_from_id_string("AuthenticAMD"), CpuType::AMD);
    assert_eq!(vendor_from_id_string("authenticamd"), CpuType::Unknown);
}

#[test]
fn description_vendor_matches_case_insensitively() {
    assert_eq!(
        vendor_from_description("Vendor ID:  GenuineIntel\nModel name: ..."),
        CpuType::Intel
    );
    assert_eq!(
        vendor_from_description("Model name: AMD Ryzen 7"),
        CpuType::AMD
    );
    assert_eq!(vendor_from_description("riscv64"), CpuType::Unknown);
}

#[test]
fn vendor_cascade_prefers_the_earliest_stage() {
    assert_eq!(
        resolve_vendor(
            Some("vendor_id\t: AuthenticAMD\n"),
            Some("GenuineIntel"),
            Some("Intel"),
        ),
        CpuType::AMD
    );
    assert_eq!(
        resolve_vendor(Some("flags\t: fpu\n"), Some("GenuineIntel"), None),
        CpuType::Intel
    );
    assert_eq!(
        resolve_vendor(None, None, Some("AMD EPYC")),
        CpuType::AMD
    );
    assert_eq!(resolve_vendor(None, None, None), CpuType::Unknown);
}

#[test]
fn acpi_family_cascades_over_dmi_and_the_legacy_marker() {
    assert_eq!(
        acpi_family(Some("ThinkPad X1 Carbon Gen 9"), None, false),
        ACPIType::ThinkPad
    );
    assert_eq!(
        acpi_family(Some("Default string"), Some("20U9THINKPAD T14"), false),
        ACPIType::ThinkPad
    );
    assert_eq!(acpi_family(None, None, true), ACPIType::ThinkPad);
    assert_eq!(
        acpi_family(Some("IdeaPad 5"), Some("81YM"), false),
        ACPIType::Unknown
    );
}

#[test]
fn core_counting_accepts_only_numbered_cpu_entries() {
    let names: Vec<String> = vec![
        "cpu0".to_string(),
        "cpu1".to_string(),
        "cpufreq".to_string(),
        "cpuidle".to_string(),
        "power".to_string(),
        "cpu12".to_string(),
        "cpu".to_string(),
        "cpu4294967296".to_string(),
    ];
    // "cpu" alone, non-numeric tails, and numbers beyond u32 do not count
    assert_eq!(count_cpu_cores(&names), 3);
}

#[test]
fn config_applies_only_on_the_thinkpad_family() {
    let c = Config {
        charge_start_threshold: Some(40),
        charge_stop_threshold: Some(80),
    };
    assert_eq!(
        c.apply(ACPIType::ThinkPad),
        Ok(vec![ThresholdWrite::Start(40), ThresholdWrite::Stop(80)])
    );
    let partial = Config {
        charge_start_threshold: None,
        charge_stop_threshold: Some(80),
    };
    assert_eq!(
        partial.apply(ACPIType::ThinkPad),
        Ok(vec![ThresholdWrite::Stop(80)])
    );
    assert!(matches!(
        c.apply(ACPIType::Unknown),
        Err(SystemStateError::ACPITypeErr(_))
    ));
}

#[test]
fn no_conflicting_power_tools_are_detected() {
    assert!(!check_installed_power_tools());
}

#[test]
fn control_point_errors_carry_their_description() {
    let e = PersFdError::ReadErr("permission denied".to_string());
    assert_eq!(e, PersFdError::ReadErr("permission denied".to_string()));
    assert_ne!(e, PersFdError::NotWritable);
}

#[test]
fn styled_strings_wrap_in_ansi_codes() {
    assert_eq!("boom".red(), "\u{1b}[31mboom\u{1b}[0m");
    assert_eq!("ok".green(), "\u{1b}[32mok\u{1b}[0m");
    assert_eq!("head".bold(), "\u{1b}[1mhead\u{1b}[0m");
    assert_eq!("x".bright_red(), "\u{1b}[91mx\u{1b}[0m");
}

#[test]
fn linux_detection_combines_its_probes() {
    assert!(linux_detected(true, false, false, false, false, false));
    assert!(linux_detected(false, true, true, true, false, false));
    assert!(linux_detected(false, false, true, true, true, true));
    assert!(!linux_detected(false, true, true, false, true, true));
    assert!(!linux_detected(false, false, true, true, true, false));
}
