//! Configuration records. They are read by the surrounding program and handed
//! to the library as values; numeric limits are in micro-units.
use vstd::prelude::*;
use vstd::string::*;
use crate::decimal::{append_digits, decimal_digits};
use crate::driver::SecurityLimits;

verus! {

/// Matches a USB serial adapter; an absent field matches anything.
#[derive(Debug, Clone)]
pub struct UsbEndpointConfig {
    pub vid: Option<u16>,
    pub pid: Option<u16>,
    pub serial: Option<String>,
}

/// Where a serial device is attached: a port name, or a USB match.
#[derive(Debug, Clone)]
pub struct SerialPortEndpointConfig {
    pub name: Option<String>,
    pub usb: Option<UsbEndpointConfig>,
    pub baud_rate: Option<u32>,
}

/// The configuration of one device.
#[derive(Debug, Clone)]
pub struct DeviceConfig {
    /// The driver model that serves the device.
    pub model: String,
    pub description: Option<String>,
    pub endpoint: Option<SerialPortEndpointConfig>,
    pub voltage_limits: SecurityLimits,
    pub current_limits: SecurityLimits,
}

fn copy_opt_string(s: &Option<String>) -> (r: Option<String>)
    ensures
        r == *s,
{
    match s {
        Some(x) => Some(x.clone()),
        None => None,
    }
}

impl UsbEndpointConfig {
    /// A copy with the same fields.
    pub fn duplicate(&self) -> (r: UsbEndpointConfig)
        ensures
            r == *self,
    {
        UsbEndpointConfig { vid: self.vid, pid: self.pid, serial: copy_opt_string(&self.serial) }
    }
}

impl SerialPortEndpointConfig {
    /// A copy with the same fields.
    pub fn duplicate(&self) -> (r: SerialPortEndpointConfig)
        ensures
            r == *self,
    {
        let usb = match &self.usb {
            Some(u) => Some(u.duplicate()),
            None => None,
        };
        SerialPortEndpointConfig { name: copy_opt_string(&self.name), usb, baud_rate: self.baud_rate }
    }
}

impl DeviceConfig {
    /// A copy with the same fields.
    pub fn duplicate(&self) -> (r: DeviceConfig)
        ensures
            r == *self,
    {
        let endpoint = match &self.endpoint {
            Some(e) => Some(e.duplicate()),
            None => None,
        };
        DeviceConfig {
            model: self.model.clone(),
            description: copy_opt_string(&self.description),
            endpoint,
            voltage_limits: self.voltage_limits,
            current_limits: self.current_limits,
        }
    }

    pub open spec fn wf(&self) -> bool {
        self.voltage_limits.wf() && self.current_limits.wf()
    }

    /// A configuration for `model` with no endpoint and no limits.
    pub fn for_model(model: &str) -> (r: DeviceConfig)
        ensures
            r.model@ == model@,
            r.description is None,
            r.endpoint is None,
            r.voltage_limits == SecurityLimits::no_bounds(),
            r.current_limits == SecurityLimits::no_bounds(),
            r.wf(),
    {
        DeviceConfig {
            model: model.to_owned(),
            description: None,
            endpoint: None,
            voltage_limits: SecurityLimits::none(),
            current_limits: SecurityLimits::none(),
        }
    }
}

/// Address of the message broker.
#[derive(Debug, Clone)]
pub struct MqttBrokerConfig {
    pub host: String,
    pub port: u16,
}

/// Whether the graphical panel runs.
#[derive(PartialEq, Eq, Structural, Clone, Copy, Debug)]
pub struct GuiConfig {
    pub enable: bool,
}

/// Whether the terminal dashboard runs; absent means the default.
#[derive(PartialEq, Eq, Structural, Clone, Copy, Debug)]
pub struct TuiConfig {
    pub enable: Option<bool>,
}

/// The tool-calling server: whether it runs and where it listens.
#[derive(Debug, Clone)]
pub struct McpServerConfig {
    pub enable: bool,
    pub host: String,
    pub port: u16,
}

/// Flags that switch services off for one run.
#[derive(PartialEq, Eq, Structural, Clone, Copy, Debug)]
pub struct ServicesOverrides {
    pub no_tui: bool,
    pub no_broker: bool,
    pub no_mcp: bool,
    pub no_runners: bool,
    pub no_traces: bool,
}

/// The command line: list resources, or run with some services off.
#[derive(PartialEq, Eq, Structural, Clone, Copy, Debug)]
pub enum Commands {
    List { mcps: bool, drivers: bool, devices: bool },
    Run { services: ServicesOverrides },
}

/// Parsed command line arguments.
#[derive(PartialEq, Eq, Structural, Clone, Copy, Debug)]
pub struct Args {
    pub command: Commands,
}

/// The configuration of the server.
#[derive(Debug, Clone)]
pub struct ServerConfig {
    pub tui: TuiConfig,
    pub mcp: McpServerConfig,
    pub broker: MqttBrokerConfig,
    /// The devices to run, each under its unique name.
    pub runners: Option<Vec<(String, DeviceConfig)>>,
}

/// The address of the tool-calling endpoint of the runner `name`.
pub open spec fn mcp_url(host: Seq<char>, port: u16, name: Seq<char>) -> Seq<char> {
    "http://"@ + host + ":"@ + decimal_digits(port as nat) + "/"@ + "serial-port"@ + "/"@ + name
}

impl ServerConfig {
    /// Every runner gets a tool-calling endpoint on the configured host and
    /// port, in the order of the configuration.
    pub fn list_mcp_servers_urls(&self) -> (r: Vec<String>)
        ensures
            r@.len() == (if self.runners is Some {
                self.runners->0@.len()
            } else {
                0
            }),
            forall|i: int|
                0 <= i < r@.len() ==> (#[trigger] r@[i])@ == mcp_url(
                    self.mcp.host@,
                    self.mcp.port,
                    self.runners->0@[i].0@,
                ),
    {
        let mut urls: Vec<String> = Vec::new();
        match &self.runners {
            Some(runners) => {
                let mut i: usize = 0;
                while i < runners.len()
                    invariant
                        self.runners == Some(*runners),
                        i <= runners@.len(),
                        urls@.len() == i,
                        forall|k: int|
                            0 <= k < i ==> (#[trigger] urls@[k])@ == mcp_url(
                                self.mcp.host@,
                                self.mcp.port,
                                runners@[k].0@,
                            ),
                    decreases runners@.len() - i,
                {
                    let mut u = String::from_str("http://");
                    u.append(self.mcp.host.as_str());
                    u.append(":");
                    append_digits(&mut u, self.mcp.port as u64);
                    u.append("/serial-port/");
                    u.append(runners[i].0.as_str());
                    proof {
                        reveal_strlit("/serial-port/");
                        reveal_strlit("/");
                        reveal_strlit("serial-port");
                        assert(u@ =~= mcp_url(self.mcp.host@, self.mcp.port, runners@[i as int].0@));
                    }
                    urls.push(u);
                    i = i + 1;
                }
            },
            None => {},
        }
        urls
    }

    /// The names of the configured runners, in order.
    pub fn runner_names(&self) -> (r: Vec<String>)
        ensures
            r@.len() == (if self.runners is Some {
                self.runners->0@.len()
            } else {
                0
            }),
            forall|i: int| 0 <= i < r@.len() ==> (#[trigger] r@[i])@ == self.runners->0@[i].0@,
    {
        let mut names: Vec<String> = Vec::new();
        match &self.runners {
            Some(runners) => {
                let mut i: usize = 0;
                while i < runners.len()
                    invariant
                        self.runners == Some(*runners),
                        i <= runners@.len(),
                        names@.len() == i,
                        forall|k: int| 0 <= k < i ==> (#[trigger] names@[k])@ == runners@[k].0@,
                    decreases runners@.len() - i,
                {
                    names.push(runners[i].0.clone());
                    i = i + 1;
                }
            },
            None => {},
        }
        names
    }

    /// Tracing goes to the terminal unless the dashboard holds it.
    pub fn should_enable_tracing(&self) -> (r: bool)
        ensures
            r == !(self.tui.enable == Some(true)),
    {
        match self.tui.enable {
            Some(e) => !e,
            None => true,
        }
    }

    /// Service overrides from the command line leave the configuration as
    /// it is.
    pub fn apply_overrides(self, overrides: &ServicesOverrides) -> (r: ServerConfig)
        ensures
            r == self,
    {
        self
    }
}

impl Default for MqttBrokerConfig {
    /// The broker on this machine, on the standard port.
    fn default() -> (r: MqttBrokerConfig)
        ensures
            r.host@ == "127.0.0.1"@,
            r.port == 1883,
    {
        MqttBrokerConfig { host: String::from_str("127.0.0.1"), port: 1883 }
    }
}

impl Default for ServerConfig {
    /// One emulated device called `emulator`, the dashboard on, the
    /// tool-calling server on this machine at port 50051, the default broker.
    fn default() -> (r: ServerConfig)
        ensures
            r.tui.enable == Some(true),
            r.mcp.enable,
            r.mcp.host@ == "127.0.0.1"@,
            r.mcp.port == 50051,
            r.broker.host@ == "127.0.0.1"@,
            r.broker.port == 1883,
            r.runners is Some,
            r.runners->0@.len() == 1,
            r.runners->0@[0].0@ == "emulator"@,
            r.runners->0@[0].1.model@ == "emulator"@,
            r.runners->0@[0].1.wf(),
            r.runners->0@[0].1.endpoint is Some,
            r.runners->0@[0].1.endpoint->0.baud_rate == Some(9600u32),
    {
        let device = DeviceConfig {
            model: String::from_str("emulator"),
            description: None,
            endpoint: Some(
                SerialPortEndpointConfig {
                    name: Some(String::from_str("emulator")),
                    usb: None,
                    baud_rate: Some(9600),
                },
            ),
            voltage_limits: SecurityLimits::none(),
            current_limits: SecurityLimits::none(),
        };
        ServerConfig {
            tui: TuiConfig { enable: Some(true) },
            mcp: McpServerConfig { enable: true, host: String::from_str("127.0.0.1"), port: 50051 },
            broker: MqttBrokerConfig::default(),
            runners: Some(vec![(String::from_str("emulator"), device)]),
        }
    }
}

} // verus!
