use instrument_bridge::client::{
    ClientUpdate, DynamicCallbacks, MutableData, PowerSupplyClientBuilder, PowerSupplyClientState,
    SerialPortClientBuilder, SerialPortClientState,
};
use instrument_bridge::text::{eq_ignore_ascii_case_exec, trim};
use instrument_bridge::topics::TopicId;
use instrument_bridge::config::MqttBrokerConfig;
use instrument_bridge::paths::{
    factory_manifest_file, factory_manifest_file_in, global_config_file, global_config_file_in, user_root_dir,
    user_root_dir_in,
};
use instrument_bridge::payload::{generate_pza_id, BytesPayload, ErrorPayload, Status, StatusPayload};
use instrument_bridge::random::generate_random_string;

#[test]
fn callbacks_get_distinct_ids_and_remove_once() {
    let mut cbs: DynamicCallbacks<&'static str, u8> = DynamicCallbacks::new();
    let a = cbs.add_oe_callback("oe");
    let b = cbs.add_voltage_callback(1);
    let c = cbs.add_current_callback(2);
    assert_eq!((a, b, c), (0, 1, 2));
    assert_eq!(cbs.next_id(), 3);
    assert_eq!(cbs.oe_callbacks.len(), 1);
    assert!(cbs.remove_voltage_callback(b));
    assert!(!cbs.remove_voltage_callback(b));
    assert!(!cbs.remove_oe_callback(b));
    assert!(cbs.remove_oe_callback(a));
    assert!(cbs.remove_current_callback(c));
    assert!(cbs.current_callbacks.is_empty());
}

#[test]
fn mutable_data_defaults() {
    let d = MutableData::default();
    assert!(!d.enabled);
    assert_eq!(d.voltage, "0.00");
    assert_eq!(d.current, "0.00");
}

#[test]
fn builder_keeps_broker_and_name() {
    let b = PowerSupplyClientBuilder::from_broker_config(MqttBrokerConfig { host: "10.0.0.2".to_string(), port: 1884 });
    assert!(b.psu_name.is_none());
    let b = b.with_power_supply_name("bench".to_string());
    assert_eq!(b.psu_name.as_deref(), Some("bench"));
    assert_eq!(b.broker.port, 1884);
    assert_eq!(MqttBrokerConfig::default().port, 1883);
}

fn is_id(s: &str, n: usize) -> bool {
    s.chars().count() == n && s.chars().all(|c| c.is_ascii_alphanumeric())
}

#[test]
fn payloads_carry_fresh_or_echoed_ids() {
    assert!(is_id(&generate_pza_id(), 5));
    assert!(is_id(&generate_random_string(12), 12));
    assert_eq!(generate_random_string(0), "");
    let e = ErrorPayload::from_message("bad".to_string());
    assert!(is_id(&e.pza_id, 5));
    assert_eq!(e.message, "bad");
    let e = ErrorPayload::from_message_as_response("bad".to_string(), "abcde".to_string());
    assert_eq!(e.pza_id, "abcde");
    let s = StatusPayload::from_status(Status::Running);
    assert!(s.panic_message.is_none());
    let id = s.pza_id.clone();
    let s = s.with_panic_message("oops".to_string());
    assert_eq!(s.status, Status::Running);
    assert_eq!(s.panic_message.as_deref(), Some("oops"));
    assert_eq!(s.pza_id, id);
    let b = BytesPayload::from_data(vec![0, 255]);
    assert_eq!(b.data, vec![0, 255]);
    assert!(is_id(&b.pza_id, 5));
}

#[test]
fn paths_live_in_the_user_root() {
    let root = user_root_dir_in(Some("/home/u".to_string()));
    assert_eq!(root.as_deref(), Some("/home/u/.xdoctorwhoz"));
    assert_eq!(
        global_config_file_in(root.clone()).as_deref(),
        Some("/home/u/.xdoctorwhoz/panduza-power-supply-server.json5")
    );
    assert_eq!(
        factory_manifest_file_in(root).as_deref(),
        Some("/home/u/.xdoctorwhoz/panduza-power-supply-factory.json5")
    );
    assert!(user_root_dir_in(None).is_none());
    assert!(global_config_file_in(None).is_none());
}

#[test]
fn client_state_follows_state_topics() {
    let mut c = PowerSupplyClientState::new("bench".to_string());
    assert_eq!(c.subscriptions()[0], "power-supply/bench/control/oe");
    let u = c.handle_incoming_message("power-supply/bench/control/oe", " on\n");
    assert!(matches!(u, ClientUpdate::Output(true)));
    c.apply(u);
    assert!(c.data.enabled);
    let u = c.handle_incoming_message("power-supply/bench/control/oe", "OFF");
    assert!(matches!(u, ClientUpdate::Output(false)));
    let u = c.handle_incoming_message("power-supply/bench/control/voltage", "  5.0 ");
    c.apply(u);
    assert_eq!(c.data.voltage, "5.0");
    assert_eq!(c.data.current, "0.00");
    let u = c.handle_incoming_message("power-supply/bench/control/current", "\t0.25");
    c.apply(u);
    assert_eq!(c.data.current, "0.25");
    assert!(matches!(c.handle_incoming_message("power-supply/other/control/oe", "ON"), ClientUpdate::Ignore));
}

#[test]
fn client_commands_target_command_topics() {
    let c = PowerSupplyClientState::new("bench".to_string());
    let p = c.output_command(true);
    assert_eq!((p.topic.as_str(), p.payload.as_str()), ("power-supply/bench/control/oe/cmd", "ON"));
    assert_eq!(c.output_command(false).payload, "OFF");
    let p = c.voltage_command("3.3".to_string());
    assert_eq!((p.topic.as_str(), p.payload.as_str()), ("power-supply/bench/control/voltage/cmd", "3.3"));
    let p = c.current_command("1".to_string());
    assert_eq!(p.topic, "power-supply/bench/control/current/cmd");
}

#[test]
fn serial_client_monitors_tx_only_when_asked() {
    let b = SerialPortClientBuilder::default();
    assert!(!b.enable_tx_monitoring);
    let b = b.with_power_supply_name("port".to_string()).enable_tx_monitoring(true);
    assert!(b.enable_tx_monitoring);
    assert_eq!(b.instance_name.as_deref(), Some("port"));
    let quiet = SerialPortClientState::new("port".to_string(), false);
    assert_eq!(quiet.subscriptions(), vec!["serial-port/port/state".to_string()]);
    assert_eq!(quiet.route("serial-port/port/state"), Some(TopicId::Rx));
    assert_eq!(quiet.route("serial-port/port/state/cmd"), None);
    let loud = SerialPortClientState::new("port".to_string(), true);
    assert_eq!(loud.subscriptions().len(), 2);
    assert_eq!(loud.route("serial-port/port/state/cmd"), Some(TopicId::Tx));
    assert_eq!(loud.send_topic(), "serial-port/port/state/cmd");
}

#[test]
fn trim_and_case_folding() {
    assert_eq!(trim("  a b \t"), "a b");
    assert_eq!(trim("\u{3000}x\u{a0}"), "x");
    assert_eq!(trim("   "), "");
    assert_eq!(trim(""), "");
    assert!(eq_ignore_ascii_case_exec("oN", "ON"));
    assert!(!eq_ignore_ascii_case_exec("ONN", "ON"));
    assert!(!eq_ignore_ascii_case_exec("0N", "ON"));
}

#[test]
fn home_paths_end_with_their_file_names() {
    if let Some(root) = user_root_dir() {
        assert!(root.ends_with("/.xdoctorwhoz"));
    }
    if let Some(f) = global_config_file() {
        assert!(f.ends_with("/.xdoctorwhoz/panduza-power-supply-server.json5"));
    }
    if let Some(f) = factory_manifest_file() {
        assert!(f.ends_with("/.xdoctorwhoz/panduza-power-supply-factory.json5"));
    }
}
