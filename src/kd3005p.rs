//! The Korad KD3005P bench supply. The library decides which instrument
//! commands each operation sends; the surrounding program sends them over
//! the serial line, in order, and stops at the first failure.
use vstd::prelude::*;
use vstd::string::*;
use crate::config::DeviceConfig;
use crate::driver::{check_setting, check_spec, DriverError, ManifestEntry, Quantity, SecurityLimits};

verus! {

/// The memory slot that settings are saved to.
pub const SAVE_SLOT: u8 = 1;

/// One instrument command.
#[derive(PartialEq, Eq, Structural, Clone, Copy, Debug)]
pub enum DeviceCommand {
    /// Switch the output on or off.
    Power(bool),
    /// Switch over-voltage protection on or off.
    Ovp(bool),
    /// Switch over-current protection on or off.
    Ocp(bool),
    /// Set the voltage, in micro-volts.
    Voltage(i64),
    /// Set the current, in micro-amperes.
    Current(i64),
    /// Save the settings to a memory slot, so that they survive a power cycle.
    Save(u8),
}

/// The setting command for `q` at `v` micro-units.
pub open spec fn setting_command(q: Quantity, v: i64) -> DeviceCommand {
    match q {
        Quantity::Voltage => DeviceCommand::Voltage(v),
        Quantity::Current => DeviceCommand::Current(v),
    }
}

/// The configuration side of a KD3005P driver.
#[derive(Debug, Clone)]
pub struct Kd3005pProtocol {
    pub config: DeviceConfig,
}

impl Kd3005pProtocol {
    pub fn new(config: DeviceConfig) -> (r: Kd3005pProtocol)
        ensures
            r.config == config,
    {
        Kd3005pProtocol { config }
    }

    /// What the KD3005P declares of itself: its model and the range of the
    /// hardware, 0 to 30 V and 0 to 3 A.
    pub fn manifest() -> (r: ManifestEntry)
        ensures
            r.model@ == "kd3005p"@,
            r.description@ == "A simple power supply from Korad"@,
            r.voltage_limits == (SecurityLimits { min: Some(0), max: Some(30000000) }),
            r.current_limits == (SecurityLimits { min: Some(0), max: Some(3000000) }),
    {
        ManifestEntry {
            model: String::from_str("kd3005p"),
            description: String::from_str("A simple power supply from Korad"),
            voltage_limits: SecurityLimits { min: Some(0), max: Some(30000000) },
            current_limits: SecurityLimits { min: Some(0), max: Some(3000000) },
        }
    }

    /// On start: both protections on.
    pub fn initialize_commands(&self) -> (r: Vec<DeviceCommand>)
        ensures
            r@ == seq![DeviceCommand::Ovp(true), DeviceCommand::Ocp(true)],
    {
        vec![DeviceCommand::Ovp(true), DeviceCommand::Ocp(true)]
    }

    /// Switch the output, then save, since the output state changed.
    pub fn output_commands(&self, enable: bool) -> (r: Vec<DeviceCommand>)
        ensures
            r@ == seq![DeviceCommand::Power(enable), DeviceCommand::Save(SAVE_SLOT)],
    {
        vec![DeviceCommand::Power(enable), DeviceCommand::Save(SAVE_SLOT)]
    }

    /// Check the setting against the configured limits; if it passes, set
    /// it, then save. A refused setting sends nothing.
    pub fn setting_commands(&self, q: Quantity, text: &str) -> (r: Result<Vec<DeviceCommand>, DriverError>)
        requires
            self.config.wf(),
        ensures
            match r {
                Ok(cmds) => check_spec(q, text@, self.limits(q)) matches Ok(v) && cmds@ == seq![
                    setting_command(q, v as i64),
                    DeviceCommand::Save(SAVE_SLOT),
                ],
                Err(e) => check_spec(q, text@, self.limits(q)) == Err::<
                    int,
                    (crate::driver::DriverErrorKind, Seq<char>),
                >((e.kind(), e.message())),
            },
    {
        let limits = match q {
            Quantity::Voltage => self.config.voltage_limits,
            Quantity::Current => self.config.current_limits,
        };
        match check_setting(q, text, &limits) {
            Ok(v) => {
                let c = match q {
                    Quantity::Voltage => DeviceCommand::Voltage(v),
                    Quantity::Current => DeviceCommand::Current(v),
                };
                Ok(vec![c, DeviceCommand::Save(SAVE_SLOT)])
            },
            Err(e) => Err(e),
        }
    }

    pub open spec fn limits(&self, q: Quantity) -> SecurityLimits {
        match q {
            Quantity::Voltage => self.config.voltage_limits,
            Quantity::Current => self.config.current_limits,
        }
    }

    pub fn security_min_voltage(&self) -> (r: Option<i64>)
        ensures
            r == self.config.voltage_limits.min,
    {
        self.config.voltage_limits.min
    }

    pub fn security_max_voltage(&self) -> (r: Option<i64>)
        ensures
            r == self.config.voltage_limits.max,
    {
        self.config.voltage_limits.max
    }

    pub fn security_min_current(&self) -> (r: Option<i64>)
        ensures
            r == self.config.current_limits.min,
    {
        self.config.current_limits.min
    }

    pub fn security_max_current(&self) -> (r: Option<i64>)
        ensures
            r == self.config.current_limits.max,
    {
        self.config.current_limits.max
    }
}

} // verus!
