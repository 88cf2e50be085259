//! The per-device protocol bridge. The library decides what each incoming
//! message asks of the driver and what is published back; the surrounding
//! program owns the connection, the driver lock and the settle delay.
use vstd::prelude::*;
use vstd::string::*;
use crate::decimal::{format_decimal, format_micro, parse_decimal, parse_micro};
use crate::driver::{Quantity, SecurityLimits};
use crate::emulator::{after_output, EmulatorView};
use crate::topics::{join3, psu_topic, psu_type_name, str_eq, Topics};

verus! {

/// Wait after switching the output before reading it back, in milliseconds.
pub const SETTLE_DELAY_MS: u64 = 200;

/// The topic `power-supply/<name>/<suffix>`.
pub open spec fn psu_topic_spec(name: Seq<char>, suffix: Seq<char>) -> Seq<char> {
    join3(psu_type_name(), name, suffix)
}

/// The topics of one power supply.
#[derive(Debug, Clone)]
pub struct PsuTopics {
    pub status: String,
    pub error: String,
    pub control_oe: String,
    pub control_oe_cmd: String,
    pub control_voltage: String,
    pub control_voltage_cmd: String,
    pub control_current: String,
    pub control_current_cmd: String,
    pub measure_voltage_refresh_freq: String,
    pub measure_current_refresh_freq: String,
}

impl PsuTopics {
    /// The topics of the power supply called `name`.
    pub open spec fn derived_from(&self, name: Seq<char>) -> bool {
        &&& self.status@ == psu_topic_spec(name, "status"@)
        &&& self.error@ == psu_topic_spec(name, "error"@)
        &&& self.control_oe@ == psu_topic_spec(name, "control/oe"@)
        &&& self.control_oe_cmd@ == psu_topic_spec(name, "control/oe/cmd"@)
        &&& self.control_voltage@ == psu_topic_spec(name, "control/voltage"@)
        &&& self.control_voltage_cmd@ == psu_topic_spec(name, "control/voltage/cmd"@)
        &&& self.control_current@ == psu_topic_spec(name, "control/current"@)
        &&& self.control_current_cmd@ == psu_topic_spec(name, "control/current/cmd"@)
        &&& self.measure_voltage_refresh_freq@ == psu_topic_spec(
            name,
            "measure/voltage/refresh_freq"@,
        )
        &&& self.measure_current_refresh_freq@ == psu_topic_spec(
            name,
            "measure/current/refresh_freq"@,
        )
    }

    pub fn new(name: &str) -> (r: PsuTopics)
        ensures
            r.derived_from(name@),
    {
        PsuTopics {
            status: psu_topic(name, "status"),
            error: psu_topic(name, "error"),
            control_oe: psu_topic(name, "control/oe"),
            control_oe_cmd: psu_topic(name, "control/oe/cmd"),
            control_voltage: psu_topic(name, "control/voltage"),
            control_voltage_cmd: psu_topic(name, "control/voltage/cmd"),
            control_current: psu_topic(name, "control/current"),
            control_current_cmd: psu_topic(name, "control/current/cmd"),
            measure_voltage_refresh_freq: psu_topic(name, "measure/voltage/refresh_freq"),
            measure_current_refresh_freq: psu_topic(name, "measure/current/refresh_freq"),
        }
    }

    /// The state topic of a setting.
    pub open spec fn setting_topic(&self, q: Quantity) -> Seq<char> {
        match q {
            Quantity::Voltage => self.control_voltage@,
            Quantity::Current => self.control_current@,
        }
    }
}

/// A message to publish: at least once, retained.
#[derive(Debug, Clone)]
pub struct Publication {
    pub topic: String,
    pub payload: String,
}

/// What an incoming message asks for.
#[derive(Debug, Clone)]
pub enum RunnerAction {
    /// Switch the output on (`true`) or off, wait the settle delay, read the
    /// output state back and publish it with [`PsuRunner::confirm_output`].
    SetOutput(bool),
    /// Apply the setting through the driver, which checks its limits, then
    /// read it back and publish it with [`PsuRunner::confirm_setting`].
    ApplySetting(Quantity, String),
    /// Publish without touching the driver.
    Publish(Publication),
    /// Nothing to do.
    Ignore,
}

/// What an output command asks: `Some(true)` for `ON`, `Some(false)` for
/// `OFF`, nothing for any other payload.
pub open spec fn oe_decision(p: Seq<char>) -> Option<bool> {
    if p == "ON"@ {
        Some(true)
    } else if p == "OFF"@ {
        Some(false)
    } else {
        None
    }
}

/// The text of an output state.
pub open spec fn oe_text(enabled: bool) -> Seq<char> {
    if enabled {
        "ON"@
    } else {
        "OFF"@
    }
}

/// A valid output command, applied to the emulator and read back, publishes
/// the commanded text and leaves the settings alone; any other payload is
/// neither `ON` nor `OFF`.
pub proof fn lemma_output_command_confirmed(s: EmulatorView, p: Seq<char>)
    ensures
        oe_decision(p) matches Some(b) ==> oe_text(after_output(s, b).enabled) == p,
        oe_decision(p) matches Some(b) ==> after_output(s, b).voltage == s.voltage
            && after_output(s, b).current == s.current,
        oe_decision(p) is None ==> p != "ON"@ && p != "OFF"@,
{
    reveal_strlit("ON");
    reveal_strlit("OFF");
}

/// The setting to publish at start-up, and the one to apply first if the
/// value read back lies outside the limits.
pub struct StartupSetting {
    pub publish: String,
    pub reapply: Option<String>,
}

/// The value read back at start-up brought within the limits: below the
/// minimum it becomes the minimum, above the maximum the maximum.
pub open spec fn clamp_spec(v: int, l: SecurityLimits) -> int {
    if l.max is Some && v > l.max->0 {
        l.max->0 as int
    } else if l.min is Some && v < l.min->0 {
        l.min->0 as int
    } else {
        v
    }
}

/// The per-device runner of a power supply.
pub struct PsuRunner {
    pub name: String,
    pub topics: PsuTopics,
}

impl PsuRunner {
    pub open spec fn wf(&self) -> bool {
        self.topics.derived_from(self.name@)
    }

    pub fn new(name: String) -> (r: PsuRunner)
        ensures
            r.wf(),
            r.name@ == name@,
    {
        let topics = PsuTopics::new(name.as_str());
        PsuRunner { name, topics }
    }

    /// The command topics, to subscribe to before the driver is initialized.
    pub fn subscriptions(&self) -> (r: Vec<String>)
        ensures
            r@.len() == 5,
            r@[0]@ == self.topics.control_oe_cmd@,
            r@[1]@ == self.topics.control_voltage_cmd@,
            r@[2]@ == self.topics.control_current_cmd@,
            r@[3]@ == self.topics.measure_voltage_refresh_freq@,
            r@[4]@ == self.topics.measure_current_refresh_freq@,
    {
        vec![
            self.topics.control_oe_cmd.clone(),
            self.topics.control_voltage_cmd.clone(),
            self.topics.control_current_cmd.clone(),
            self.topics.measure_voltage_refresh_freq.clone(),
            self.topics.measure_current_refresh_freq.clone(),
        ]
    }

    /// What a message on `topic` with `payload` asks for: an output command
    /// of `ON` or `OFF` switches the output, any other one publishes `ERROR`
    /// on the output state topic; a setting command applies its payload;
    /// refresh-frequency commands and other topics change nothing.
    pub fn handle_incoming_message(&self, topic: &str, payload: &str) -> (r: RunnerAction)
        ensures
            topic@ == self.topics.control_oe_cmd@ ==> match oe_decision(payload@) {
                Some(b) => r matches RunnerAction::SetOutput(x) && x == b,
                None => r matches RunnerAction::Publish(p) && p.topic@ == self.topics.control_oe@
                    && p.payload@ == "ERROR"@,
            },
            topic@ != self.topics.control_oe_cmd@ && topic@ == self.topics.control_voltage_cmd@
                ==> (r matches RunnerAction::ApplySetting(q, t) && q == Quantity::Voltage && t@
                == payload@),
            topic@ != self.topics.control_oe_cmd@ && topic@ != self.topics.control_voltage_cmd@
                && topic@ == self.topics.control_current_cmd@ ==> (r matches RunnerAction::ApplySetting(
                q,
                t,
            ) && q == Quantity::Current && t@ == payload@),
            topic@ != self.topics.control_oe_cmd@ && topic@ != self.topics.control_voltage_cmd@
                && topic@ != self.topics.control_current_cmd@ ==> r is Ignore,
    {
        if str_eq(topic, self.topics.control_oe_cmd.as_str()) {
            proof {
                reveal_strlit("ON");
                reveal_strlit("OFF");
            }
            if str_eq(payload, "ON") {
                RunnerAction::SetOutput(true)
            } else if str_eq(payload, "OFF") {
                RunnerAction::SetOutput(false)
            } else {
                RunnerAction::Publish(
                    Publication {
                        topic: self.topics.control_oe.clone(),
                        payload: String::from_str("ERROR"),
                    },
                )
            }
        } else if str_eq(topic, self.topics.control_voltage_cmd.as_str()) {
            RunnerAction::ApplySetting(Quantity::Voltage, payload.to_owned())
        } else if str_eq(topic, self.topics.control_current_cmd.as_str()) {
            RunnerAction::ApplySetting(Quantity::Current, payload.to_owned())
        } else {
            RunnerAction::Ignore
        }
    }

    /// The output state read back, published on its state topic.
    pub fn confirm_output(&self, enabled: bool) -> (r: Publication)
        ensures
            r.topic@ == self.topics.control_oe@,
            r.payload@ == oe_text(enabled),
    {
        let payload = if enabled {
            String::from_str("ON")
        } else {
            String::from_str("OFF")
        };
        Publication { topic: self.topics.control_oe.clone(), payload }
    }

    /// A setting read back, published on its state topic.
    pub fn confirm_setting(&self, q: Quantity, readback: String) -> (r: Publication)
        ensures
            r.topic@ == self.topics.setting_topic(q),
            r.payload@ == readback@,
    {
        let topic = match q {
            Quantity::Voltage => self.topics.control_voltage.clone(),
            Quantity::Current => self.topics.control_current.clone(),
        };
        Publication { topic, payload: readback }
    }

    /// The start-up step for one setting: a value read back that lies
    /// outside the limits is brought to the nearest bound, applied again and
    /// published; any other value is published as read.
    pub fn startup_setting(readback: String, l: &SecurityLimits) -> (r: StartupSetting)
        requires
            l.wf(),
        ensures
            match parse_decimal(readback@) {
                Some(v) => if clamp_spec(v, *l) != v {
                    r.reapply is Some && r.reapply->0@ == format_decimal(clamp_spec(v, *l))
                        && r.publish@ == r.reapply->0@
                } else {
                    r.reapply is None && r.publish@ == readback@
                },
                None => r.reapply is None && r.publish@ == readback@,
            },
            r.reapply is Some ==> ((parse_decimal(r.publish@) matches Some(w) && l.admits(w))
                || (l.min is Some && l.max is Some && l.min->0 > l.max->0)),
    {
        match parse_micro(readback.as_str()) {
            Some(v) => {
                let mut adjusted = v;
                if let Some(min) = l.min {
                    if v < min {
                        adjusted = min;
                    }
                }
                if let Some(max) = l.max {
                    if v > max {
                        adjusted = max;
                    }
                }
                if adjusted != v {
                    let text = format_micro(adjusted);
                    let again = text.clone();
                    StartupSetting { publish: text, reapply: Some(again) }
                } else {
                    StartupSetting { publish: readback, reapply: None }
                }
            },
            None => StartupSetting { publish: readback, reapply: None },
        }
    }
}

/// The per-device runner of a serial port: bytes on the command topic go to
/// the port; bytes from the port go to the state topic.
pub struct SerialRunner {
    pub name: String,
    pub topics: Topics,
}

impl SerialRunner {
    pub fn new(name: String) -> (r: SerialRunner)
        ensures
            r.topics.derived_from(name@),
            r.name@ == name@,
    {
        let topics = Topics::new(name.as_str());
        SerialRunner { name, topics }
    }

    /// The command topics, to subscribe to before the driver is initialized.
    pub fn subscriptions(&self) -> (r: Vec<String>)
        ensures
            r@.len() == 1,
            r@[0]@ == self.topics.tx@,
    {
        self.topics.vec_sub_server()
    }

    /// Whether a message on `topic` carries bytes to send to the port.
    pub fn is_send_command(&self, topic: &str) -> (r: bool)
        ensures
            r == (topic@ == self.topics.tx@),
    {
        str_eq(topic, self.topics.tx.as_str())
    }
}

} // verus!
