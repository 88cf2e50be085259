use instrument_bridge::config::{DeviceConfig, SerialPortEndpointConfig, UsbEndpointConfig};
use instrument_bridge::decimal::parse_micro;
use instrument_bridge::driver::{DriverError, Quantity, SecurityLimits};
use instrument_bridge::emulator::PowerSupplyEmulator;
use instrument_bridge::kd3005p::{DeviceCommand, Kd3005pProtocol};
use instrument_bridge::serial::{baud_rate, resolve_port_name, PortInfo, StandardDriver, UsbPortInfo};

fn limited_config() -> DeviceConfig {
    let mut c = DeviceConfig::for_model("emulator");
    c.voltage_limits = SecurityLimits { min: Some(0), max: Some(12_000_000) };
    c.current_limits = SecurityLimits { min: Some(100_000), max: Some(2_000_000) };
    c
}

#[test]
fn emulator_starts_off_at_zero() {
    let e = PowerSupplyEmulator::new(&limited_config());
    assert_eq!(e.output_enabled().unwrap(), false);
    assert_eq!(e.get_voltage().unwrap(), "0");
    assert_eq!(e.get_current().unwrap(), "0");
    assert_eq!(e.security_max_voltage(), Some(12_000_000));
    assert_eq!(e.security_min_current(), Some(100_000));
    assert_eq!(e.measure_voltage().unwrap(), "0");
    assert_eq!(e.measure_current().unwrap(), "0");
}

#[test]
fn emulator_refuses_settings_outside_limits_and_keeps_value() {
    let mut e = PowerSupplyEmulator::new(&limited_config());
    e.set_voltage("10".to_string()).unwrap();
    let r = e.set_voltage("12.5".to_string());
    assert!(matches!(r, Err(DriverError::VoltageSecurityLimitExceeded(_))));
    assert_eq!(e.get_voltage().unwrap(), "10");
    let r = e.set_current("0.05".to_string());
    assert!(matches!(r, Err(DriverError::CurrentSecurityLimitExceeded(_))));
    assert_eq!(e.get_current().unwrap(), "0");
    let r = e.set_current("lots".to_string());
    assert!(matches!(r, Err(DriverError::Generic(_))));
    assert_eq!(e.get_current().unwrap(), "0");
}

#[test]
fn emulator_stores_settings_within_limits() {
    let mut e = PowerSupplyEmulator::new(&limited_config());
    e.set_current("1.5".to_string()).unwrap();
    assert_eq!(e.get_current().unwrap(), "1.5");
    e.set_voltage("12".to_string()).unwrap();
    assert_eq!(e.get_voltage().unwrap(), "12");
}

#[test]
fn disable_output_twice_stays_disabled() {
    let mut e = PowerSupplyEmulator::new(&limited_config());
    e.enable_output().unwrap();
    assert!(e.output_enabled().unwrap());
    e.disable_output().unwrap();
    assert!(!e.output_enabled().unwrap());
    assert!(e.disable_output().is_ok());
    assert!(!e.output_enabled().unwrap());
}

#[test]
fn set_voltage_then_get_reads_back_five() {
    let mut e = PowerSupplyEmulator::new(&DeviceConfig::for_model("emulator"));
    e.set_voltage("5.0".to_string()).unwrap();
    let back = e.get_voltage().unwrap();
    assert_eq!(parse_micro(&back), Some(5_000_000));
}

#[test]
fn emulator_lifecycle_and_send_succeed() {
    let mut e = PowerSupplyEmulator::new(&limited_config());
    assert!(e.initialize().is_ok());
    assert!(e.send(&[1, 2, 3]).is_ok());
    assert!(e.shutdown().is_ok());
    assert_eq!(PowerSupplyEmulator::manifest().model, "emulator");
}

#[test]
fn kd3005p_plans_commands() {
    let mut c = DeviceConfig::for_model("kd3005p");
    c.voltage_limits = SecurityLimits { min: Some(0), max: Some(30_000_000) };
    let k = Kd3005pProtocol::new(c);
    assert_eq!(k.initialize_commands(), vec![DeviceCommand::Ovp(true), DeviceCommand::Ocp(true)]);
    assert_eq!(k.output_commands(false), vec![DeviceCommand::Power(false), DeviceCommand::Save(1)]);
    assert_eq!(
        k.setting_commands(Quantity::Voltage, "12.5").unwrap(),
        vec![DeviceCommand::Voltage(12_500_000), DeviceCommand::Save(1)]
    );
    assert_eq!(
        k.setting_commands(Quantity::Current, "2").unwrap(),
        vec![DeviceCommand::Current(2_000_000), DeviceCommand::Save(1)]
    );
    assert!(matches!(
        k.setting_commands(Quantity::Voltage, "31"),
        Err(DriverError::VoltageSecurityLimitExceeded(_))
    ));
    let m = Kd3005pProtocol::manifest();
    assert_eq!(m.voltage_limits.max, Some(30_000_000));
    assert_eq!(m.current_limits.max, Some(3_000_000));
}

fn ports() -> Vec<PortInfo> {
    vec![
        PortInfo { port_name: "/dev/ttyS0".to_string(), usb: None },
        PortInfo {
            port_name: "/dev/ttyUSB0".to_string(),
            usb: Some(UsbPortInfo { vid: 0x0403, pid: 0x6001, serial_number: Some("A1".to_string()) }),
        },
        PortInfo {
            port_name: "/dev/ttyUSB1".to_string(),
            usb: Some(UsbPortInfo { vid: 0x0403, pid: 0x6001, serial_number: Some("B2".to_string()) }),
        },
    ]
}

fn usb_endpoint(vid: Option<u16>, serial: Option<&str>) -> Option<SerialPortEndpointConfig> {
    Some(SerialPortEndpointConfig {
        name: None,
        usb: Some(UsbEndpointConfig { vid, pid: None, serial: serial.map(|s| s.to_string()) }),
        baud_rate: None,
    })
}

#[test]
fn resolve_prefers_the_configured_name() {
    let ep = Some(SerialPortEndpointConfig { name: Some("COM3".to_string()), usb: None, baud_rate: Some(9600) });
    assert_eq!(resolve_port_name(&ep, &ports()).unwrap(), "COM3");
    assert_eq!(baud_rate(&ep), 9600);
    assert_eq!(baud_rate(&None), 115200);
}

#[test]
fn resolve_finds_first_matching_usb_adapter() {
    assert_eq!(resolve_port_name(&usb_endpoint(Some(0x0403), None), &ports()).unwrap(), "/dev/ttyUSB0");
    assert_eq!(resolve_port_name(&usb_endpoint(None, Some("B2")), &ports()).unwrap(), "/dev/ttyUSB1");
}

#[test]
fn resolve_reports_each_failure() {
    let msg = |r: Result<String, DriverError>| match r {
        Err(DriverError::Generic(m)) => m,
        other => panic!("unexpected {:?}", other),
    };
    assert_eq!(msg(resolve_port_name(&usb_endpoint(Some(1), None), &ports())), "No matching USB device found");
    assert_eq!(msg(resolve_port_name(&None, &ports())), "No endpoint configuration provided");
    let bare = Some(SerialPortEndpointConfig { name: None, usb: None, baud_rate: None });
    assert_eq!(msg(resolve_port_name(&bare, &ports())), "No port name or USB configuration provided");
}

#[test]
fn scan_suggests_one_config_per_port() {
    let found = StandardDriver::scan(&ports());
    assert_eq!(found.len(), 3);
    let first = found[0].endpoint.as_ref().unwrap();
    assert_eq!(first.name.as_deref(), Some("/dev/ttyS0"));
    assert!(first.usb.is_none());
    assert_eq!(first.baud_rate, Some(115200));
    let second = found[1].endpoint.as_ref().unwrap();
    assert!(second.name.is_none());
    let usb = second.usb.as_ref().unwrap();
    assert_eq!((usb.vid, usb.pid, usb.serial.as_deref()), (Some(0x0403), Some(0x6001), Some("A1")));
    assert!(found.iter().all(|c| c.model == "standard"));
}
