use instrument_bridge::decimal::{format_micro, parse_micro};
use instrument_bridge::driver::{check_setting, DriverError, Quantity, SecurityLimits};

#[test]
fn parse_plain_and_fractional_settings() {
    assert_eq!(parse_micro("5.0"), Some(5_000_000));
    assert_eq!(parse_micro("5"), Some(5_000_000));
    assert_eq!(parse_micro("12.345"), Some(12_345_000));
    assert_eq!(parse_micro("0.000001"), Some(1));
    assert_eq!(parse_micro(".5"), Some(500_000));
    assert_eq!(parse_micro("5."), Some(5_000_000));
    assert_eq!(parse_micro("-0.5"), Some(-500_000));
    assert_eq!(parse_micro("+3"), Some(3_000_000));
    assert_eq!(parse_micro("999999999999.999999"), Some(999_999_999_999_999_999));
}

#[test]
fn parse_rejects_malformed_settings() {
    assert_eq!(parse_micro(""), None);
    assert_eq!(parse_micro("-"), None);
    assert_eq!(parse_micro("."), None);
    assert_eq!(parse_micro("abc"), None);
    assert_eq!(parse_micro("1e3"), None);
    assert_eq!(parse_micro("1.2.3"), None);
    assert_eq!(parse_micro(" 5"), None);
    assert_eq!(parse_micro("1.2345678"), None);
    assert_eq!(parse_micro("1234567890123"), None);
}

#[test]
fn format_writes_whole_and_fractional_settings() {
    assert_eq!(format_micro(5_000_000), "5");
    assert_eq!(format_micro(0), "0");
    assert_eq!(format_micro(30_000_000), "30");
    assert_eq!(format_micro(-500_000), "-0.500000");
    assert_eq!(format_micro(12_345_000), "12.345000");
    assert_eq!(format_micro(1), "0.000001");
}

#[test]
fn format_then_parse_gives_the_same_setting() {
    for v in [0i64, 1, -1, 5_000_000, -12_345_678, 999_999_999_999_999_999, -999_999_999_999_999_999] {
        assert_eq!(parse_micro(&format_micro(v)), Some(v));
    }
}

fn limits(min: Option<i64>, max: Option<i64>) -> SecurityLimits {
    SecurityLimits { min, max }
}

#[test]
fn check_accepts_settings_within_bounds() {
    let l = limits(Some(0), Some(30_000_000));
    assert_eq!(check_setting(Quantity::Voltage, "5.0", &l).unwrap(), 5_000_000);
    assert_eq!(check_setting(Quantity::Voltage, "0", &l).unwrap(), 0);
    assert_eq!(check_setting(Quantity::Voltage, "30", &l).unwrap(), 30_000_000);
    assert_eq!(check_setting(Quantity::Current, "-7", &SecurityLimits::none()).unwrap(), -7_000_000);
}

#[test]
fn check_reports_malformed_setting() {
    let r = check_setting(Quantity::Voltage, "abc", &SecurityLimits::none());
    match r {
        Err(DriverError::Generic(m)) => assert_eq!(m, "Invalid voltage format: abc"),
        other => panic!("unexpected {:?}", other),
    }
    let r = check_setting(Quantity::Current, "", &SecurityLimits::none());
    match r {
        Err(DriverError::Generic(m)) => assert_eq!(m, "Invalid current format: "),
        other => panic!("unexpected {:?}", other),
    }
}

#[test]
fn check_reports_settings_outside_bounds() {
    let l = limits(Some(1_000_000), Some(3_000_000));
    match check_setting(Quantity::Current, "0.5", &l) {
        Err(DriverError::CurrentSecurityLimitExceeded(m)) => {
            assert_eq!(m, "Current 0.500000 is below minimum security limit of 1")
        }
        other => panic!("unexpected {:?}", other),
    }
    match check_setting(Quantity::Voltage, "4", &l) {
        Err(DriverError::VoltageSecurityLimitExceeded(m)) => {
            assert_eq!(m, "Voltage 4 exceeds maximum security limit of 3")
        }
        other => panic!("unexpected {:?}", other),
    }
}

#[test]
fn error_text_names_its_kind() {
    let e = DriverError::Generic("boom".to_string());
    assert_eq!(e.to_text(), "An error occurred: boom");
    let e = DriverError::VoltageSecurityLimitExceeded("too high".to_string());
    assert_eq!(e.to_text(), "Security limit exceeded: too high");
}
