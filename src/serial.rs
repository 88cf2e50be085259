//! Generic serial ports: which port a configuration designates, and the
//! configurations that a list of attached ports suggests.
use vstd::prelude::*;
use vstd::string::*;
use crate::config::{DeviceConfig, SerialPortEndpointConfig, UsbEndpointConfig};
use crate::driver::{DriverError, DriverErrorKind, ManifestEntry, SecurityLimits};
use crate::topics::str_eq;

verus! {

/// Baud rate used when the configuration gives none.
pub const DEFAULT_BAUD_RATE: u32 = 115200;

/// What the system reports of a USB serial adapter.
#[derive(Debug, Clone)]
pub struct UsbPortInfo {
    pub vid: u16,
    pub pid: u16,
    pub serial_number: Option<String>,
}

/// One serial port attached to the machine.
#[derive(Debug, Clone)]
pub struct PortInfo {
    pub port_name: String,
    /// Present when the port is a USB adapter.
    pub usb: Option<UsbPortInfo>,
}

/// Whether the adapter `p` meets every field that `u` gives.
pub open spec fn usb_matches(u: UsbEndpointConfig, p: UsbPortInfo) -> bool {
    &&& (u.vid matches Some(v) ==> v == p.vid)
    &&& (u.pid matches Some(x) ==> x == p.pid)
    &&& (u.serial is Some ==> (p.serial_number is Some && p.serial_number->0@ == u.serial->0@))
}

pub open spec fn port_matches(u: UsbEndpointConfig, port: PortInfo) -> bool {
    port.usb is Some && usb_matches(u, port.usb->0)
}

/// What resolving the endpoint gives: the port name, or the message of the
/// generic error.
pub open spec fn resolve_spec(endpoint: Option<SerialPortEndpointConfig>, ports: Seq<PortInfo>) -> Result<
    Seq<char>,
    Seq<char>,
> {
    match endpoint {
        None => Err("No endpoint configuration provided"@),
        Some(e) => if e.name is Some {
            Ok(e.name->0@)
        } else if e.usb is Some {
            if exists|i: int| 0 <= i < ports.len() && port_matches(e.usb->0, #[trigger] ports[i]) {
                let i = choose|i: int|
                    0 <= i < ports.len() && port_matches(e.usb->0, #[trigger] ports[i]) && forall|
                        k: int,
                    |
                        0 <= k < i ==> !port_matches(e.usb->0, #[trigger] ports[k]);
                Ok(ports[i].port_name@)
            } else {
                Err("No matching USB device found"@)
            }
        } else {
            Err("No port name or USB configuration provided"@)
        },
    }
}

fn option_str_eq(a: &Option<String>, b: &String) -> (r: bool)
    ensures
        r == (a is Some && a->0@ == b@),
{
    match a {
        Some(x) => str_eq(x.as_str(), b.as_str()),
        None => false,
    }
}

fn usb_matches_exec(u: &UsbEndpointConfig, p: &UsbPortInfo) -> (r: bool)
    ensures
        r == usb_matches(*u, *p),
{
    let vid_ok = match u.vid {
        Some(v) => v == p.vid,
        None => true,
    };
    let pid_ok = match u.pid {
        Some(x) => x == p.pid,
        None => true,
    };
    let serial_ok = match &u.serial {
        Some(s) => option_str_eq(&p.serial_number, s),
        None => true,
    };
    vid_ok && pid_ok && serial_ok
}

/// The name of the port the endpoint designates: its name if it gives one,
/// else the first attached USB adapter that matches its USB fields.
pub fn resolve_port_name(endpoint: &Option<SerialPortEndpointConfig>, ports: &Vec<PortInfo>) -> (r: Result<String, DriverError>)
    ensures
        match r {
            Ok(n) => resolve_spec(*endpoint, ports@) == Ok::<Seq<char>, Seq<char>>(n@),
            Err(e) => e.kind() == DriverErrorKind::Generic && resolve_spec(*endpoint, ports@)
                == Err::<Seq<char>, Seq<char>>(e.message()),
        },
{
    match endpoint {
        None => Err(DriverError::Generic(String::from_str("No endpoint configuration provided"))),
        Some(e) => {
            if let Some(name) = &e.name {
                return Ok(name.clone());
            }
            match &e.usb {
                Some(u) => {
                    let mut i: usize = 0;
                    while i < ports.len()
                        invariant
                            i <= ports@.len(),
                            endpoint is Some,
                            endpoint->0.name is None,
                            endpoint->0.usb is Some,
                            endpoint->0.usb->0 == *u,
                            forall|k: int| 0 <= k < i ==> !port_matches(*u, #[trigger] ports@[k]),
                        decreases ports@.len() - i,
                    {
                        let p = &ports[i];
                        if let Some(info) = &p.usb {
                            if usb_matches_exec(u, info) {
                                proof {
                                    assert(port_matches(*u, ports@[i as int]));
                                    assert(0 <= i < ports@.len() && port_matches(*u, ports@[i as int])
                                        && forall|k: int|
                                        0 <= k < i ==> !port_matches(*u, #[trigger] ports@[k]));
                                    let j = choose|j: int|
                                        0 <= j < ports@.len() && port_matches(*u, #[trigger] ports@[j])
                                            && forall|k: int|
                                            0 <= k < j ==> !port_matches(*u, #[trigger] ports@[k]);
                                    assert(port_matches(*u, ports@[i as int]));
                                    if j < i {
                                        assert(!port_matches(*u, ports@[j]));
                                    }
                                    if j > i {
                                        assert(!port_matches(*u, ports@[i as int]));
                                    }
                                }
                                return Ok(p.port_name.clone());
                            }
                        }
                        i = i + 1;
                    }
                    Err(DriverError::Generic(String::from_str("No matching USB device found")))
                },
                None => Err(
                    DriverError::Generic(String::from_str("No port name or USB configuration provided")),
                ),
            }
        },
    }
}

/// The baud rate of the endpoint, or the default.
pub fn baud_rate(endpoint: &Option<SerialPortEndpointConfig>) -> (r: u32)
    ensures
        r == (if endpoint is Some && endpoint->0.baud_rate is Some {
            endpoint->0.baud_rate->0
        } else {
            DEFAULT_BAUD_RATE
        }),
{
    match endpoint {
        Some(e) => match e.baud_rate {
            Some(b) => b,
            None => DEFAULT_BAUD_RATE,
        },
        None => DEFAULT_BAUD_RATE,
    }
}

/// The configuration that the port `p` suggests: a USB adapter is matched by
/// its identifiers, any other port by its name.
pub open spec fn suggested_config(p: PortInfo, c: DeviceConfig) -> bool {
    &&& c.model@ == "standard"@
    &&& c.description is None
    &&& c.voltage_limits == SecurityLimits::no_bounds()
    &&& c.current_limits == SecurityLimits::no_bounds()
    &&& c.endpoint is Some
    &&& c.endpoint->0.baud_rate == Some(DEFAULT_BAUD_RATE)
    &&& match p.usb {
        Some(info) => {
            &&& c.endpoint->0.name is None
            &&& c.endpoint->0.usb is Some
            &&& c.endpoint->0.usb->0.vid == Some(info.vid)
            &&& c.endpoint->0.usb->0.pid == Some(info.pid)
            &&& c.endpoint->0.usb->0.serial is Some == info.serial_number is Some
            &&& (info.serial_number is Some ==> c.endpoint->0.usb->0.serial->0@
                == info.serial_number->0@)
        },
        None => {
            &&& c.endpoint->0.name is Some
            &&& c.endpoint->0.name->0@ == p.port_name@
            &&& c.endpoint->0.usb is None
        },
    }
}

fn clone_opt_string(s: &Option<String>) -> (r: Option<String>)
    ensures
        r is Some == s is Some,
        s is Some ==> r->0@ == s->0@,
{
    match s {
        Some(x) => Some(x.clone()),
        None => None,
    }
}

/// The configuration that one attached port suggests.
pub fn config_for_port(p: &PortInfo) -> (r: DeviceConfig)
    ensures
        suggested_config(*p, r),
        r.wf(),
{
    let (name, usb) = match &p.usb {
        Some(info) => (
            None,
            Some(
                UsbEndpointConfig {
                    vid: Some(info.vid),
                    pid: Some(info.pid),
                    serial: clone_opt_string(&info.serial_number),
                },
            ),
        ),
        None => (Some(p.port_name.clone()), None),
    };
    DeviceConfig {
        model: String::from_str("standard"),
        description: None,
        endpoint: Some(SerialPortEndpointConfig { name, usb, baud_rate: Some(DEFAULT_BAUD_RATE) }),
        voltage_limits: SecurityLimits::none(),
        current_limits: SecurityLimits::none(),
    }
}

/// The generic serial driver: it opens the port its endpoint designates and
/// streams bytes both ways.
#[derive(Debug, Clone)]
pub struct StandardDriver {
    pub config: DeviceConfig,
}

impl StandardDriver {
    pub fn new(config: DeviceConfig) -> (r: StandardDriver)
        ensures
            r.config == config,
    {
        StandardDriver { config }
    }

    /// What the generic serial driver declares of itself.
    pub fn manifest() -> (r: ManifestEntry)
        ensures
            r.model@ == "standard"@,
            r.description@ == "A generic serial port"@,
            r.voltage_limits == SecurityLimits::no_bounds(),
            r.current_limits == SecurityLimits::no_bounds(),
    {
        ManifestEntry {
            model: String::from_str("standard"),
            description: String::from_str("A generic serial port"),
            voltage_limits: SecurityLimits::none(),
            current_limits: SecurityLimits::none(),
        }
    }

    /// One suggested configuration per attached port, in the same order.
    pub fn scan(ports: &Vec<PortInfo>) -> (r: Vec<DeviceConfig>)
        ensures
            r@.len() == ports@.len(),
            forall|i: int| 0 <= i < r@.len() ==> suggested_config(ports@[i], #[trigger] r@[i]),
            forall|i: int| 0 <= i < r@.len() ==> (#[trigger] r@[i]).wf(),
    {
        let mut r: Vec<DeviceConfig> = Vec::new();
        let mut i: usize = 0;
        while i < ports.len()
            invariant
                i <= ports@.len(),
                r@.len() == i,
                forall|k: int| 0 <= k < i ==> suggested_config(ports@[k], #[trigger] r@[k]),
                forall|k: int| 0 <= k < i ==> (#[trigger] r@[k]).wf(),
            decreases ports@.len() - i,
        {
            r.push(config_for_port(&ports[i]));
            i = i + 1;
        }
        r
    }

    /// The port to open, from the configured endpoint and the attached ports.
    pub fn port_name(&self, ports: &Vec<PortInfo>) -> (r: Result<String, DriverError>)
        ensures
            match r {
                Ok(n) => resolve_spec(self.config.endpoint, ports@) == Ok::<Seq<char>, Seq<char>>(n@),
                Err(e) => e.kind() == DriverErrorKind::Generic && resolve_spec(self.config.endpoint, ports@)
                    == Err::<Seq<char>, Seq<char>>(e.message()),
            },
    {
        resolve_port_name(&self.config.endpoint, ports)
    }
}

} // verus!
