use instrument_bridge::config::{DeviceConfig, ServerConfig, ServicesOverrides, TuiConfig};
use instrument_bridge::driver::{Quantity, SecurityLimits};
use instrument_bridge::factory::{Driver, DriverModel, Factory, FactoryError};
use instrument_bridge::runner::{PsuRunner, RunnerAction, SerialRunner};
use instrument_bridge::serial::{PortInfo, UsbPortInfo};
use instrument_bridge::supervisor::{Supervisor, SupervisorAction, TaskEvent, MAX_RETRIES};
use instrument_bridge::topics::{psu_topic, TopicId, Topics};

#[test]
fn psu_topic_joins_segments() {
    assert_eq!(psu_topic("bench", "control/oe/cmd"), "power-supply/bench/control/oe/cmd");
}

#[test]
fn topics_derive_from_name() {
    let t = Topics::new("dev1");
    assert_eq!(t.status, "serial-port/dev1/status");
    assert_eq!(t.error, "serial-port/dev1/error");
    assert_eq!(t.tx, "serial-port/dev1/state/cmd");
    assert_eq!(t.rx, "serial-port/dev1/state");
    assert_eq!(t.vec_sub_client(), vec![t.status.clone(), t.error.clone(), t.rx.clone()]);
    assert_eq!(t.vec_sub_server(), vec![t.tx.clone()]);
    assert_eq!(t.topic_to_id("serial-port/dev1/state"), Some(TopicId::Rx));
    assert_eq!(t.topic_to_id("serial-port/dev1/state/cmd"), Some(TopicId::Tx));
    assert_eq!(t.topic_to_id("serial-port/dev2/state"), None);
    assert_eq!(t.id_to_topic(&TopicId::Error), "serial-port/dev1/error");
}

#[test]
fn factory_builds_registered_models() {
    let f = Factory::new();
    assert_eq!(f.lookup("emulator"), Some(DriverModel::Emulator));
    assert_eq!(f.lookup("kd3005p"), Some(DriverModel::Kd3005p));
    assert_eq!(f.lookup("nope"), None);
    match f.instanciate_driver(DeviceConfig::for_model("emulator")) {
        Ok(Driver::Emulator(e)) => assert_eq!(e.get_voltage().unwrap(), "0"),
        _ => panic!("expected an emulator"),
    }
    assert!(matches!(f.instanciate_driver(DeviceConfig::for_model("standard")), Ok(Driver::Standard(_))));
}

#[test]
fn factory_reports_unregistered_model() {
    let f = Factory::new();
    match f.instanciate_driver(DeviceConfig::for_model("unknown-psu")) {
        Err(FactoryError::NoDriver(m)) => assert_eq!(m, "unknown-psu"),
        _ => panic!("expected NoDriver"),
    }
    let empty = Factory::empty();
    assert!(matches!(empty.instanciate_driver(DeviceConfig::for_model("emulator")), Err(FactoryError::NoDriver(_))));
}

#[test]
fn factory_registration_last_wins() {
    let mut f = Factory::empty();
    f.register_driver("x", DriverModel::Emulator);
    f.register_driver("x", DriverModel::Standard);
    assert_eq!(f.lookup("x"), Some(DriverModel::Standard));
}

fn two_ports() -> Vec<PortInfo> {
    vec![
        PortInfo { port_name: "/dev/ttyS0".to_string(), usb: None },
        PortInfo {
            port_name: "/dev/ttyACM0".to_string(),
            usb: Some(UsbPortInfo { vid: 1, pid: 2, serial_number: None }),
        },
    ]
}

#[test]
fn scan_returns_only_registered_models_under_random_keys() {
    let f = Factory::new();
    let found = f.scan(&two_ports());
    assert_eq!(found.len(), 2);
    for (key, config) in &found {
        assert_eq!(key.chars().count(), 10);
        assert!(key.chars().all(|c| c.is_ascii_alphanumeric()));
        assert!(f.lookup(&config.model).is_some());
    }
    let mut only_emulator = Factory::empty();
    only_emulator.register_driver("emulator", DriverModel::Emulator);
    only_emulator.register_scanner(instrument_bridge::factory::ScannerKind::SerialPorts);
    assert!(only_emulator.scan(&two_ports()).is_empty());
}

#[test]
fn runner_switches_output_on_valid_commands() {
    let r = PsuRunner::new("psu".to_string());
    assert!(matches!(r.handle_incoming_message("power-supply/psu/control/oe/cmd", "ON"), RunnerAction::SetOutput(true)));
    assert!(matches!(r.handle_incoming_message("power-supply/psu/control/oe/cmd", "OFF"), RunnerAction::SetOutput(false)));
    let p = r.confirm_output(true);
    assert_eq!((p.topic.as_str(), p.payload.as_str()), ("power-supply/psu/control/oe", "ON"));
    let p = r.confirm_output(false);
    assert_eq!(p.payload, "OFF");
}

#[test]
fn runner_publishes_error_on_invalid_output_command() {
    let r = PsuRunner::new("psu".to_string());
    for payload in ["on", "1", "", "ON "] {
        match r.handle_incoming_message("power-supply/psu/control/oe/cmd", payload) {
            RunnerAction::Publish(p) => {
                assert_eq!(p.topic, "power-supply/psu/control/oe");
                assert_eq!(p.payload, "ERROR");
            }
            other => panic!("unexpected {:?}", other),
        }
    }
}

#[test]
fn runner_forwards_settings_and_ignores_the_rest() {
    let r = PsuRunner::new("psu".to_string());
    match r.handle_incoming_message("power-supply/psu/control/voltage/cmd", "3.3") {
        RunnerAction::ApplySetting(Quantity::Voltage, t) => assert_eq!(t, "3.3"),
        other => panic!("unexpected {:?}", other),
    }
    match r.handle_incoming_message("power-supply/psu/control/current/cmd", "0.2") {
        RunnerAction::ApplySetting(Quantity::Current, t) => assert_eq!(t, "0.2"),
        other => panic!("unexpected {:?}", other),
    }
    assert!(matches!(r.handle_incoming_message("power-supply/psu/measure/voltage/refresh_freq", "10"), RunnerAction::Ignore));
    assert!(matches!(r.handle_incoming_message("power-supply/other/control/oe/cmd", "ON"), RunnerAction::Ignore));
    assert_eq!(r.subscriptions().len(), 5);
    assert_eq!(r.subscriptions()[0], "power-supply/psu/control/oe/cmd");
    let p = r.confirm_setting(Quantity::Current, "0.2".to_string());
    assert_eq!((p.topic.as_str(), p.payload.as_str()), ("power-supply/psu/control/current", "0.2"));
}

#[test]
fn startup_brings_readback_within_limits() {
    let l = SecurityLimits { min: Some(1_000_000), max: Some(30_000_000) };
    let s = PsuRunner::startup_setting("40".to_string(), &l);
    assert_eq!(s.publish, "30");
    assert_eq!(s.reapply.as_deref(), Some("30"));
    let s = PsuRunner::startup_setting("0.5".to_string(), &l);
    assert_eq!(s.publish, "1");
    let s = PsuRunner::startup_setting("12.00".to_string(), &l);
    assert_eq!(s.publish, "12.00");
    assert!(s.reapply.is_none());
    let s = PsuRunner::startup_setting("garbled".to_string(), &l);
    assert_eq!(s.publish, "garbled");
    assert!(s.reapply.is_none());
}

#[test]
fn serial_runner_sends_only_tx_messages() {
    let r = SerialRunner::new("port".to_string());
    assert!(r.is_send_command("serial-port/port/state/cmd"));
    assert!(!r.is_send_command("serial-port/port/state"));
    assert_eq!(r.subscriptions(), vec!["serial-port/port/state/cmd".to_string()]);
}

fn failed(name: &str) -> TaskEvent {
    TaskEvent::StoppedWithError(name.to_string(), "boom".to_string())
}

fn restart_delay(a: SupervisorAction) -> u64 {
    match a {
        SupervisorAction::Restart { delay_ms, .. } => delay_ms,
        other => panic!("expected a restart, got {:?}", other),
    }
}

#[test]
fn supervisor_restarts_with_doubling_delays_then_resets() {
    let mut s = Supervisor::new(&vec!["a".to_string(), "b".to_string()]);
    assert_eq!(restart_delay(s.on_event(&failed("a"))), 1000);
    assert_eq!(restart_delay(s.on_event(&TaskEvent::Panicked("a".to_string(), "p".to_string()))), 2000);
    assert!(matches!(s.on_event(&TaskEvent::Running("a".to_string())), SupervisorAction::Ignore));
    assert_eq!(restart_delay(s.on_event(&failed("a"))), 1000);
    assert_eq!(restart_delay(s.on_event(&failed("b"))), 1000);
}

#[test]
fn supervisor_gives_up_after_max_retries() {
    let mut s = Supervisor::new(&vec!["a".to_string()]);
    let mut delays = Vec::new();
    for _ in 0..MAX_RETRIES {
        delays.push(restart_delay(s.on_event(&failed("a"))));
    }
    assert_eq!(delays, vec![1000, 2000, 4000, 8000, 16000]);
    match s.on_event(&failed("a")) {
        SupervisorAction::GiveUp(n) => assert_eq!(n, "a"),
        other => panic!("unexpected {:?}", other),
    }
    assert!(matches!(s.on_event(&failed("a")), SupervisorAction::GiveUp(_)));
}

#[test]
fn supervisor_ignores_unknown_and_clean_stops() {
    let mut s = Supervisor::new(&vec!["a".to_string()]);
    assert!(matches!(s.on_event(&failed("ghost")), SupervisorAction::Ignore));
    assert!(matches!(s.on_event(&TaskEvent::StoppedCleanly("a".to_string())), SupervisorAction::Ignore));
    assert_eq!(Supervisor::backoff_delay_ms(0), 1000);
    assert_eq!(Supervisor::backoff_delay_ms(4), 16000);
}

#[test]
fn supervisor_cancels_on_shutdown_and_stops() {
    let mut s = Supervisor::new(&vec!["a".to_string()]);
    assert!(matches!(s.on_event(&TaskEvent::ShutdownRequested), SupervisorAction::CancelAll));
    assert!(matches!(s.on_event(&failed("a")), SupervisorAction::Stop));
    let mut s = Supervisor::new(&vec!["a".to_string()]);
    assert!(matches!(s.on_event(&TaskEvent::ChannelClosed), SupervisorAction::Stop));
}

#[test]
fn server_config_lists_endpoints_and_names() {
    let c = ServerConfig::default();
    assert_eq!(c.runner_names(), vec!["emulator".to_string()]);
    assert_eq!(c.list_mcp_servers_urls(), vec!["http://127.0.0.1:50051/serial-port/emulator".to_string()]);
    assert!(!c.should_enable_tracing());
    let mut quiet = c.clone();
    quiet.tui = TuiConfig { enable: None };
    assert!(quiet.should_enable_tracing());
    let overrides = ServicesOverrides { no_tui: true, no_broker: false, no_mcp: true, no_runners: false, no_traces: false };
    let same = c.apply_overrides(&overrides);
    assert_eq!(same.mcp.port, 50051);
    let none = ServerConfig { runners: None, ..ServerConfig::default() };
    assert!(none.list_mcp_servers_urls().is_empty());
}

#[test]
fn factory_manifest_lists_every_model() {
    let f = Factory::new();
    let models: Vec<&str> = f.manifest().iter().map(|m| m.model.as_str()).collect();
    assert_eq!(models, vec!["emulator", "kd3005p", "standard"]);
}
