//! A power supply emulator for testing and development: it keeps its state
//! in memory and applies the same security limits as real hardware.
use vstd::prelude::*;
use vstd::string::*;
use crate::config::DeviceConfig;
use crate::decimal::parse_decimal;
use crate::driver::{check_setting, check_spec, DriverError, ManifestEntry, Quantity, SecurityLimits};

verus! {

/// What an emulator holds.
pub struct EmulatorView {
    pub enabled: bool,
    pub voltage: Seq<char>,
    pub current: Seq<char>,
    pub voltage_limits: SecurityLimits,
    pub current_limits: SecurityLimits,
}

impl EmulatorView {
    pub open spec fn limits(self, q: Quantity) -> SecurityLimits {
        match q {
            Quantity::Voltage => self.voltage_limits,
            Quantity::Current => self.current_limits,
        }
    }

    pub open spec fn setting(self, q: Quantity) -> Seq<char> {
        match q {
            Quantity::Voltage => self.voltage,
            Quantity::Current => self.current,
        }
    }
}

/// The state after disabling the output.
pub open spec fn disabled(s: EmulatorView) -> EmulatorView {
    EmulatorView { enabled: false, ..s }
}

/// The state after switching the output on (`true`) or off.
pub open spec fn after_output(s: EmulatorView, enable: bool) -> EmulatorView {
    if enable {
        EmulatorView { enabled: true, ..s }
    } else {
        disabled(s)
    }
}

/// The state after asking to set `q` to `text`: changed only when the
/// setting is well formed and within the limits.
pub open spec fn after_set(s: EmulatorView, q: Quantity, text: Seq<char>) -> EmulatorView {
    if check_spec(q, text, s.limits(q)) is Ok {
        match q {
            Quantity::Voltage => EmulatorView { voltage: text, ..s },
            Quantity::Current => EmulatorView { current: text, ..s },
        }
    } else {
        s
    }
}

/// Disabling the output twice leaves it disabled both times, and the second
/// time changes nothing.
pub proof fn lemma_disable_output_idempotent(s: EmulatorView)
    ensures
        disabled(s).enabled == false,
        disabled(disabled(s)).enabled == false,
        disabled(disabled(s)) == disabled(s),
{
}

/// After a setting is accepted, reading it back gives text that reads as the
/// same number.
pub proof fn lemma_set_then_get(s: EmulatorView, q: Quantity, text: Seq<char>)
    requires
        check_spec(q, text, s.limits(q)) is Ok,
    ensures
        after_set(s, q, text).setting(q) == text,
        parse_decimal(after_set(s, q, text).setting(q)) == parse_decimal(text),
        parse_decimal(after_set(s, q, text).setting(q)) == Some(
            check_spec(q, text, s.limits(q))->Ok_0,
        ),
{
}

/// A setting outside the limits is refused and leaves the state unchanged; a
/// setting within them is stored as given.
pub proof fn lemma_set_respects_limits(s: EmulatorView, q: Quantity, text: Seq<char>)
    requires
        parse_decimal(text) is Some,
    ensures
        !s.limits(q).admits(parse_decimal(text)->0) ==> after_set(s, q, text) == s
            && check_spec(q, text, s.limits(q)) is Err,
        s.limits(q).admits(parse_decimal(text)->0) ==> after_set(s, q, text).setting(q) == text,
{
}

/// The in-memory power supply.
pub struct PowerSupplyEmulator {
    state_oe: bool,
    voltage: String,
    current: String,
    voltage_limits: SecurityLimits,
    current_limits: SecurityLimits,
}

impl View for PowerSupplyEmulator {
    type V = EmulatorView;

    closed spec fn view(&self) -> EmulatorView {
        EmulatorView {
            enabled: self.state_oe,
            voltage: self.voltage@,
            current: self.current@,
            voltage_limits: self.voltage_limits,
            current_limits: self.current_limits,
        }
    }
}

impl PowerSupplyEmulator {
    pub closed spec fn wf(&self) -> bool {
        self.voltage_limits.wf() && self.current_limits.wf()
    }

    /// An emulator with its output off, both settings at `0`, and the
    /// limits of `config`.
    pub fn new(config: &DeviceConfig) -> (r: PowerSupplyEmulator)
        requires
            config.wf(),
        ensures
            r.wf(),
            r@.enabled == false,
            r@.voltage == "0"@,
            r@.current == "0"@,
            r@.voltage_limits == config.voltage_limits,
            r@.current_limits == config.current_limits,
    {
        PowerSupplyEmulator {
            state_oe: false,
            voltage: String::from_str("0"),
            current: String::from_str("0"),
            voltage_limits: config.voltage_limits,
            current_limits: config.current_limits,
        }
    }

    /// What the emulator declares of itself.
    pub fn manifest() -> (r: ManifestEntry)
        ensures
            r.model@ == "emulator"@,
            r.description@ == "A simple power supply emulator for testing and development purposes."@,
            r.voltage_limits == SecurityLimits::no_bounds(),
            r.current_limits == SecurityLimits::no_bounds(),
    {
        ManifestEntry {
            model: String::from_str("emulator"),
            description: String::from_str(
                "A simple power supply emulator for testing and development purposes.",
            ),
            voltage_limits: SecurityLimits::none(),
            current_limits: SecurityLimits::none(),
        }
    }

    /// Nothing to set up.
    pub fn initialize(&mut self) -> (r: Result<(), DriverError>)
        ensures
            r is Ok,
            final(self)@ == old(self)@,
    {
        Ok(())
    }

    /// Nothing to release.
    pub fn shutdown(&mut self) -> (r: Result<(), DriverError>)
        ensures
            r is Ok,
            final(self)@ == old(self)@,
    {
        Ok(())
    }

    pub fn output_enabled(&self) -> (r: Result<bool, DriverError>)
        ensures
            r == Ok::<bool, DriverError>(self@.enabled),
    {
        Ok(self.state_oe)
    }

    pub fn enable_output(&mut self) -> (r: Result<(), DriverError>)
        ensures
            r is Ok,
            final(self)@ == after_output(old(self)@, true),
            final(self).wf() == old(self).wf(),
    {
        self.state_oe = true;
        Ok(())
    }

    pub fn disable_output(&mut self) -> (r: Result<(), DriverError>)
        ensures
            r is Ok,
            final(self)@ == disabled(old(self)@),
            final(self)@ == after_output(old(self)@, false),
            final(self).wf() == old(self).wf(),
    {
        self.state_oe = false;
        Ok(())
    }

    pub fn get_voltage(&self) -> (r: Result<String, DriverError>)
        ensures
            r matches Ok(v) && v@ == self@.voltage,
    {
        Ok(self.voltage.clone())
    }

    pub fn get_current(&self) -> (r: Result<String, DriverError>)
        ensures
            r matches Ok(v) && v@ == self@.current,
    {
        Ok(self.current.clone())
    }

    /// Sets `q` to `text` when it is well formed and within the limits;
    /// otherwise reports why and changes nothing.
    pub fn set_setting(&mut self, q: Quantity, text: String) -> (r: Result<(), DriverError>)
        requires
            old(self).wf(),
        ensures
            final(self).wf(),
            final(self)@ == after_set(old(self)@, q, text@),
            r is Ok <==> check_spec(q, text@, old(self)@.limits(q)) is Ok,
            r matches Err(e) ==> check_spec(q, text@, old(self)@.limits(q)) == Err::<
                int,
                (crate::driver::DriverErrorKind, Seq<char>),
            >((e.kind(), e.message())),
    {
        let limits = match q {
            Quantity::Voltage => self.voltage_limits,
            Quantity::Current => self.current_limits,
        };
        match check_setting(q, text.as_str(), &limits) {
            Ok(_) => {
                match q {
                    Quantity::Voltage => {
                        self.voltage = text;
                    },
                    Quantity::Current => {
                        self.current = text;
                    },
                }
                Ok(())
            },
            Err(e) => Err(e),
        }
    }

    /// Sets the voltage; see [`Self::set_setting`].
    pub fn set_voltage(&mut self, voltage: String) -> (r: Result<(), DriverError>)
        requires
            old(self).wf(),
        ensures
            final(self).wf(),
            final(self)@ == after_set(old(self)@, Quantity::Voltage, voltage@),
            r is Ok <==> check_spec(Quantity::Voltage, voltage@, old(self)@.voltage_limits) is Ok,
            r matches Err(e) ==> check_spec(Quantity::Voltage, voltage@, old(self)@.voltage_limits)
                == Err::<int, (crate::driver::DriverErrorKind, Seq<char>)>((e.kind(), e.message())),
    {
        self.set_setting(Quantity::Voltage, voltage)
    }

    /// Sets the current; see [`Self::set_setting`].
    pub fn set_current(&mut self, current: String) -> (r: Result<(), DriverError>)
        requires
            old(self).wf(),
        ensures
            final(self).wf(),
            final(self)@ == after_set(old(self)@, Quantity::Current, current@),
            r is Ok <==> check_spec(Quantity::Current, current@, old(self)@.current_limits) is Ok,
            r matches Err(e) ==> check_spec(Quantity::Current, current@, old(self)@.current_limits)
                == Err::<int, (crate::driver::DriverErrorKind, Seq<char>)>((e.kind(), e.message())),
    {
        self.set_setting(Quantity::Current, current)
    }

    pub fn security_min_voltage(&self) -> (r: Option<i64>)
        ensures
            r == self@.voltage_limits.min,
    {
        self.voltage_limits.min
    }

    pub fn security_max_voltage(&self) -> (r: Option<i64>)
        ensures
            r == self@.voltage_limits.max,
    {
        self.voltage_limits.max
    }

    pub fn security_min_current(&self) -> (r: Option<i64>)
        ensures
            r == self@.current_limits.min,
    {
        self.current_limits.min
    }

    pub fn security_max_current(&self) -> (r: Option<i64>)
        ensures
            r == self@.current_limits.max,
    {
        self.current_limits.max
    }

    /// The emulator measures nothing: always `0`.
    pub fn measure_voltage(&self) -> (r: Result<String, DriverError>)
        ensures
            r matches Ok(v) && v@ == "0"@,
    {
        Ok(String::from_str("0"))
    }

    /// The emulator measures nothing: always `0`.
    pub fn measure_current(&self) -> (r: Result<String, DriverError>)
        ensures
            r matches Ok(v) && v@ == "0"@,
    {
        Ok(String::from_str("0"))
    }

    /// The emulator has no raw byte channel: sending accepts and drops.
    pub fn send(&mut self, bytes: &[u8]) -> (r: Result<(), DriverError>)
        ensures
            r is Ok,
            final(self)@ == old(self)@,
    {
        Ok(())
    }
}

} // verus!
