//! Client-side state: the last known output state and settings, the
//! callbacks registered on their changes, and the client builder.
use vstd::prelude::*;
use vstd::string::*;
use std::collections::HashMap;
use crate::config::MqttBrokerConfig;
use crate::runner::{oe_text, PsuTopics, Publication};
use crate::text::{eq_ignore_ascii_case, eq_ignore_ascii_case_exec, trim, trimmed};
use crate::topics::{str_eq, TopicId, Topics};

verus! {

broadcast use vstd::std_specs::hash::group_hash_axioms;

/// Identifies a registered callback.
pub type CallbackId = u64;

/// Callbacks per kind of change, each under a unique identifier. `B` is
/// the type of a callback on the output state, `S` of one on a setting.
pub struct DynamicCallbacks<B, S> {
    pub oe_callbacks: HashMap<CallbackId, B>,
    pub voltage_callbacks: HashMap<CallbackId, S>,
    pub current_callbacks: HashMap<CallbackId, S>,
    next_id: CallbackId,
}

impl<B, S> DynamicCallbacks<B, S> {
    /// The identifier the next registration receives.
    pub closed spec fn next(&self) -> CallbackId {
        self.next_id
    }

    /// Output-state callbacks by identifier.
    pub closed spec fn oe_map(&self) -> Map<CallbackId, B> {
        self.oe_callbacks@
    }

    /// Voltage callbacks by identifier.
    pub closed spec fn voltage_map(&self) -> Map<CallbackId, S> {
        self.voltage_callbacks@
    }

    /// Current callbacks by identifier.
    pub closed spec fn current_map(&self) -> Map<CallbackId, S> {
        self.current_callbacks@
    }

    /// Every identifier in use is below the next one.
    pub closed spec fn wf(&self) -> bool {
        &&& forall|id: CallbackId| #[trigger] self.oe_callbacks@.contains_key(id) ==> id < self.next_id
        &&& forall|id: CallbackId| #[trigger] self.voltage_callbacks@.contains_key(id) ==> id < self.next_id
        &&& forall|id: CallbackId| #[trigger] self.current_callbacks@.contains_key(id) ==> id < self.next_id
    }

    /// No callback, identifiers from zero.
    pub fn new() -> (r: Self)
        ensures
            r.wf(),
            r.next() == 0,
            r.oe_map() == Map::<CallbackId, B>::empty(),
            r.voltage_map() == Map::<CallbackId, S>::empty(),
            r.current_map() == Map::<CallbackId, S>::empty(),
    {
        DynamicCallbacks {
            oe_callbacks: HashMap::new(),
            voltage_callbacks: HashMap::new(),
            current_callbacks: HashMap::new(),
            next_id: 0,
        }
    }

    /// Hands out a new identifier.
    pub fn next_id(&mut self) -> (r: CallbackId)
        requires
            old(self).next() < u64::MAX,
        ensures
            r == old(self).next(),
            final(self).next() == old(self).next() + 1,
            final(self).oe_map() == old(self).oe_map(),
            final(self).voltage_map() == old(self).voltage_map(),
            final(self).current_map() == old(self).current_map(),
            old(self).wf() ==> final(self).wf(),
    {
        let id = self.next_id;
        self.next_id = self.next_id + 1;
        id
    }

    /// Registers a callback on the output state under a fresh identifier.
    pub fn add_oe_callback(&mut self, callback: B) -> (r: CallbackId)
        requires
            old(self).wf(),
            old(self).next() < u64::MAX,
        ensures
            final(self).wf(),
            r == old(self).next(),
            !old(self).oe_map().contains_key(r),
            final(self).oe_map() == old(self).oe_map().insert(r, callback),
            final(self).voltage_map() == old(self).voltage_map(),
            final(self).current_map() == old(self).current_map(),
    {
        let id = self.next_id();
        self.oe_callbacks.insert(id, callback);
        id
    }

    /// Registers a callback on the voltage under a fresh identifier.
    pub fn add_voltage_callback(&mut self, callback: S) -> (r: CallbackId)
        requires
            old(self).wf(),
            old(self).next() < u64::MAX,
        ensures
            final(self).wf(),
            r == old(self).next(),
            !old(self).voltage_map().contains_key(r),
            final(self).voltage_map() == old(self).voltage_map().insert(r, callback),
            final(self).oe_map() == old(self).oe_map(),
            final(self).current_map() == old(self).current_map(),
    {
        let id = self.next_id();
        self.voltage_callbacks.insert(id, callback);
        id
    }

    /// Registers a callback on the current under a fresh identifier.
    pub fn add_current_callback(&mut self, callback: S) -> (r: CallbackId)
        requires
            old(self).wf(),
            old(self).next() < u64::MAX,
        ensures
            final(self).wf(),
            r == old(self).next(),
            !old(self).current_map().contains_key(r),
            final(self).current_map() == old(self).current_map().insert(r, callback),
            final(self).oe_map() == old(self).oe_map(),
            final(self).voltage_map() == old(self).voltage_map(),
    {
        let id = self.next_id();
        self.current_callbacks.insert(id, callback);
        id
    }

    /// Removes an output-state callback; says whether there was one.
    pub fn remove_oe_callback(&mut self, id: CallbackId) -> (r: bool)
        requires
            old(self).wf(),
        ensures
            final(self).wf(),
            r == old(self).oe_map().contains_key(id),
            final(self).oe_map() == old(self).oe_map().remove(id),
            final(self).voltage_map() == old(self).voltage_map(),
            final(self).current_map() == old(self).current_map(),
            final(self).next() == old(self).next(),
    {
        let r = self.oe_callbacks.remove(&id).is_some();
        proof {
            assert(self.oe_callbacks@ == old(self).oe_callbacks@.remove(id));
            assert forall|k: CallbackId| #[trigger] self.oe_callbacks@.contains_key(k) implies k
                < self.next() by {
                assert(old(self).oe_callbacks@.contains_key(k));
            }
        }
        r
    }

    /// Removes a voltage callback; says whether there was one.
    pub fn remove_voltage_callback(&mut self, id: CallbackId) -> (r: bool)
        requires
            old(self).wf(),
        ensures
            final(self).wf(),
            r == old(self).voltage_map().contains_key(id),
            final(self).voltage_map() == old(self).voltage_map().remove(id),
            final(self).oe_map() == old(self).oe_map(),
            final(self).current_map() == old(self).current_map(),
            final(self).next() == old(self).next(),
    {
        let r = self.voltage_callbacks.remove(&id).is_some();
        proof {
            assert(self.voltage_callbacks@ == old(self).voltage_callbacks@.remove(id));
            assert forall|k: CallbackId| #[trigger] self.voltage_callbacks@.contains_key(k) implies k
                < self.next() by {
                assert(old(self).voltage_callbacks@.contains_key(k));
            }
        }
        r
    }

    /// Removes a current callback; says whether there was one.
    pub fn remove_current_callback(&mut self, id: CallbackId) -> (r: bool)
        requires
            old(self).wf(),
        ensures
            final(self).wf(),
            r == old(self).current_map().contains_key(id),
            final(self).current_map() == old(self).current_map().remove(id),
            final(self).oe_map() == old(self).oe_map(),
            final(self).voltage_map() == old(self).voltage_map(),
            final(self).next() == old(self).next(),
    {
        let r = self.current_callbacks.remove(&id).is_some();
        proof {
            assert(self.current_callbacks@ == old(self).current_callbacks@.remove(id));
            assert forall|k: CallbackId| #[trigger] self.current_callbacks@.contains_key(k) implies k
                < self.next() by {
                assert(old(self).current_callbacks@.contains_key(k));
            }
        }
        r
    }
}

/// The last known state of a power supply, as a client sees it.
#[derive(Debug, Clone)]
pub struct MutableData {
    pub enabled: bool,
    pub voltage: String,
    pub current: String,
}

impl Default for MutableData {
    /// Output off, both settings `0.00`.
    fn default() -> (r: MutableData)
        ensures
            r.enabled == false,
            r.voltage@ == "0.00"@,
            r.current@ == "0.00"@,
    {
        MutableData {
            enabled: false,
            voltage: String::from_str("0.00"),
            current: String::from_str("0.00"),
        }
    }
}

/// Failure on the client side.
#[derive(Debug, Clone)]
pub enum ClientError {
    Generic(String),
    MqttError(String),
}

/// Collects what a power-supply client needs before it connects.
#[derive(Debug, Clone)]
pub struct PowerSupplyClientBuilder {
    /// Name of the power supply to talk to.
    pub psu_name: Option<String>,
    pub broker: MqttBrokerConfig,
}

impl PowerSupplyClientBuilder {
    /// A builder for the broker `broker`, with no power supply chosen yet.
    pub fn from_broker_config(broker: MqttBrokerConfig) -> (r: PowerSupplyClientBuilder)
        ensures
            r.psu_name is None,
            r.broker == broker,
    {
        PowerSupplyClientBuilder { psu_name: None, broker }
    }

    /// The same builder, for the power supply called `name`.
    pub fn with_power_supply_name(self, name: String) -> (r: PowerSupplyClientBuilder)
        ensures
            r.psu_name == Some(name),
            r.broker == self.broker,
    {
        PowerSupplyClientBuilder { psu_name: Some(name), ..self }
    }
}

/// What a message on a state topic changes in a client.
#[derive(Debug, Clone)]
pub enum ClientUpdate {
    /// The output is now on (`true`) or off.
    Output(bool),
    Voltage(String),
    Current(String),
    Ignore,
}

/// The view of one power supply that a client keeps up to date.
pub struct PowerSupplyClientState {
    pub psu_name: String,
    pub topics: PsuTopics,
    pub data: MutableData,
}

impl PowerSupplyClientState {
    /// Nothing known yet of the power supply called `psu_name`.
    pub fn new(psu_name: String) -> (r: PowerSupplyClientState)
        ensures
            r.psu_name@ == psu_name@,
            r.topics.derived_from(psu_name@),
            r.data.enabled == false,
            r.data.voltage@ == "0.00"@,
            r.data.current@ == "0.00"@,
    {
        let topics = PsuTopics::new(psu_name.as_str());
        PowerSupplyClientState { psu_name, topics, data: MutableData::default() }
    }

    /// The state topics to follow.
    pub fn subscriptions(&self) -> (r: Vec<String>)
        ensures
            r@.len() == 3,
            r@[0]@ == self.topics.control_oe@,
            r@[1]@ == self.topics.control_voltage@,
            r@[2]@ == self.topics.control_current@,
    {
        vec![
            self.topics.control_oe.clone(),
            self.topics.control_voltage.clone(),
            self.topics.control_current.clone(),
        ]
    }

    /// What a message changes: on the output state topic, whether its
    /// trimmed text is `ON` in any ASCII case; on a setting topic, its
    /// trimmed text; elsewhere nothing.
    pub fn handle_incoming_message(&self, topic: &str, payload: &str) -> (r: ClientUpdate)
        ensures
            topic@ == self.topics.control_oe@ ==> (r matches ClientUpdate::Output(b) && b
                == eq_ignore_ascii_case(trimmed(payload@), "ON"@)),
            topic@ != self.topics.control_oe@ && topic@ == self.topics.control_voltage@ ==> (
            r matches ClientUpdate::Voltage(v) && v@ == trimmed(payload@)),
            topic@ != self.topics.control_oe@ && topic@ != self.topics.control_voltage@ && topic@
                == self.topics.control_current@ ==> (r matches ClientUpdate::Current(v) && v@
                == trimmed(payload@)),
            topic@ != self.topics.control_oe@ && topic@ != self.topics.control_voltage@ && topic@
                != self.topics.control_current@ ==> r is Ignore,
    {
        if str_eq(topic, self.topics.control_oe.as_str()) {
            let t = trim(payload);
            ClientUpdate::Output(eq_ignore_ascii_case_exec(t.as_str(), "ON"))
        } else if str_eq(topic, self.topics.control_voltage.as_str()) {
            ClientUpdate::Voltage(trim(payload))
        } else if str_eq(topic, self.topics.control_current.as_str()) {
            ClientUpdate::Current(trim(payload))
        } else {
            ClientUpdate::Ignore
        }
    }

    /// Records an update.
    pub fn apply(&mut self, update: ClientUpdate)
        ensures
            final(self).psu_name == old(self).psu_name,
            final(self).topics == old(self).topics,
            match update {
                ClientUpdate::Output(b) => final(self).data.enabled == b && final(self).data.voltage
                    == old(self).data.voltage && final(self).data.current == old(self).data.current,
                ClientUpdate::Voltage(v) => final(self).data.voltage == v && final(self).data.enabled
                    == old(self).data.enabled && final(self).data.current == old(self).data.current,
                ClientUpdate::Current(v) => final(self).data.current == v && final(self).data.enabled
                    == old(self).data.enabled && final(self).data.voltage == old(self).data.voltage,
                ClientUpdate::Ignore => final(self).data == old(self).data,
            },
    {
        match update {
            ClientUpdate::Output(b) => {
                self.data.enabled = b;
            },
            ClientUpdate::Voltage(v) => {
                self.data.voltage = v;
            },
            ClientUpdate::Current(v) => {
                self.data.current = v;
            },
            ClientUpdate::Ignore => {},
        }
    }

    /// The command that switches the output on or off.
    pub fn output_command(&self, enable: bool) -> (r: Publication)
        ensures
            r.topic@ == self.topics.control_oe_cmd@,
            r.payload@ == oe_text(enable),
    {
        let payload = if enable {
            String::from_str("ON")
        } else {
            String::from_str("OFF")
        };
        Publication { topic: self.topics.control_oe_cmd.clone(), payload }
    }

    /// The command that sets the voltage.
    pub fn voltage_command(&self, voltage: String) -> (r: Publication)
        ensures
            r.topic@ == self.topics.control_voltage_cmd@,
            r.payload == voltage,
    {
        Publication { topic: self.topics.control_voltage_cmd.clone(), payload: voltage }
    }

    /// The command that sets the current.
    pub fn current_command(&self, current: String) -> (r: Publication)
        ensures
            r.topic@ == self.topics.control_current_cmd@,
            r.payload == current,
    {
        Publication { topic: self.topics.control_current_cmd.clone(), payload: current }
    }
}

/// Collects what a serial-port client needs before it connects.
#[derive(Debug, Clone)]
pub struct SerialPortClientBuilder {
    pub instance_name: Option<String>,
    /// Also follow the bytes sent to the port, not only those received.
    pub enable_tx_monitoring: bool,
}

impl Default for SerialPortClientBuilder {
    /// No instance chosen, monitoring of sent bytes off.
    fn default() -> (r: SerialPortClientBuilder)
        ensures
            r.instance_name is None,
            !r.enable_tx_monitoring,
    {
        SerialPortClientBuilder { instance_name: None, enable_tx_monitoring: false }
    }
}

impl SerialPortClientBuilder {
    /// The same builder, for the instance called `name`.
    pub fn with_power_supply_name(self, name: String) -> (r: SerialPortClientBuilder)
        ensures
            r.instance_name == Some(name),
            r.enable_tx_monitoring == self.enable_tx_monitoring,
    {
        SerialPortClientBuilder { instance_name: Some(name), ..self }
    }

    /// The same builder, following sent bytes or not.
    pub fn enable_tx_monitoring(self, enable: bool) -> (r: SerialPortClientBuilder)
        ensures
            r.instance_name == self.instance_name,
            r.enable_tx_monitoring == enable,
    {
        SerialPortClientBuilder { enable_tx_monitoring: enable, ..self }
    }
}

/// The topics a serial-port client follows, and where their messages go.
pub struct SerialPortClientState {
    pub instance_name: String,
    pub topics: Topics,
    pub monitor_tx: bool,
}

impl SerialPortClientState {
    pub fn new(instance_name: String, monitor_tx: bool) -> (r: SerialPortClientState)
        ensures
            r.instance_name@ == instance_name@,
            r.topics.derived_from(instance_name@),
            r.monitor_tx == monitor_tx,
    {
        let topics = Topics::new(instance_name.as_str());
        SerialPortClientState { instance_name, topics, monitor_tx }
    }

    /// Received bytes always; sent bytes too when monitoring.
    pub fn subscriptions(&self) -> (r: Vec<String>)
        ensures
            r@.len() == (if self.monitor_tx {
                2int
            } else {
                1int
            }),
            r@[0]@ == self.topics.rx@,
            self.monitor_tx ==> r@[1]@ == self.topics.tx@,
    {
        if self.monitor_tx {
            vec![self.topics.rx.clone(), self.topics.tx.clone()]
        } else {
            vec![self.topics.rx.clone()]
        }
    }

    /// Which stream a message belongs to: received bytes, or sent bytes
    /// when monitoring; nothing otherwise.
    pub fn route(&self, topic: &str) -> (r: Option<TopicId>)
        ensures
            topic@ == self.topics.rx@ ==> r == Some(TopicId::Rx),
            topic@ != self.topics.rx@ && self.monitor_tx && topic@ == self.topics.tx@ ==> r == Some(
                TopicId::Tx,
            ),
            topic@ != self.topics.rx@ && !(self.monitor_tx && topic@ == self.topics.tx@) ==> r is None,
    {
        if str_eq(topic, self.topics.rx.as_str()) {
            Some(TopicId::Rx)
        } else if self.monitor_tx && str_eq(topic, self.topics.tx.as_str()) {
            Some(TopicId::Tx)
        } else {
            None
        }
    }

    /// The topic to publish bytes to send on.
    pub fn send_topic(&self) -> (r: &str)
        ensures
            r@ == self.topics.tx@,
    {
        self.topics.tx.as_str()
    }
}

} // verus!
