//! Topic naming: every topic of a device is derived from its name alone.
use vstd::prelude::*;
use vstd::string::*;

verus! {

/// The first segment of every serial-port device topic.
pub open spec fn server_type_name() -> Seq<char> {
    "serial-port"@
}

/// The first segment of every power-supply device topic.
pub open spec fn psu_type_name() -> Seq<char> {
    "power-supply"@
}

/// `a/b/c`, the topic made of three segments.
pub open spec fn join3(a: Seq<char>, b: Seq<char>, c: Seq<char>) -> Seq<char> {
    a + "/"@ + b + "/"@ + c
}

/// The topic `<server-type>/<name>/<suffix>` of a serial-port device.
pub open spec fn device_topic(name: Seq<char>, suffix: Seq<char>) -> Seq<char> {
    join3(server_type_name(), name, suffix)
}

/// Builds `a/b/c`.
fn concat3(a: &str, b: &str, c: &str) -> (r: String)
    ensures
        r@ == join3(a@, b@, c@),
{
    let mut s = String::from_str(a);
    s.append("/");
    s.append(b);
    s.append("/");
    s.append(c);
    s
}

/// The topic `power-supply/<name>/<suffix>` of a power-supply device.
pub fn psu_topic(name: &str, suffix: &str) -> (r: String)
    ensures
        r@ == join3(psu_type_name(), name@, suffix@),
{
    concat3("power-supply", name, suffix)
}

/// Identifies one topic of a serial-port device.
#[derive(PartialEq, Eq, Structural, Clone, Copy, Debug)]
pub enum TopicId {
    Status,
    Error,
    Tx,
    Rx,
}

/// Topics used to talk with one serial-port device.
#[derive(Debug, Clone)]
pub struct Topics {
    /// Status updates of the device.
    pub status: String,
    /// Error reports; their identifier echoes the command that caused them.
    pub error: String,
    /// Data to send to the equipment.
    pub tx: String,
    /// Data received from the equipment.
    pub rx: String,
}

/// The suffix of each topic.
pub open spec fn suffix_of(id: TopicId) -> Seq<char> {
    match id {
        TopicId::Status => "status"@,
        TopicId::Error => "error"@,
        TopicId::Tx => "state/cmd"@,
        TopicId::Rx => "state"@,
    }
}

impl Topics {
    /// The topic that `id` names.
    pub open spec fn topic_spec(&self, id: TopicId) -> Seq<char> {
        match id {
            TopicId::Status => self.status@,
            TopicId::Error => self.error@,
            TopicId::Tx => self.tx@,
            TopicId::Rx => self.rx@,
        }
    }

    /// The topics of the device called `name`.
    pub open spec fn derived_from(&self, name: Seq<char>) -> bool {
        forall|id: TopicId| #[trigger] self.topic_spec(id) == device_topic(name, suffix_of(id))
    }

    /// Builds the topics of the device called `name`.
    pub fn new(name: &str) -> (r: Topics)
        ensures
            r.derived_from(name@),
            r.status@ == device_topic(name@, "status"@),
            r.error@ == device_topic(name@, "error"@),
            r.tx@ == device_topic(name@, "state/cmd"@),
            r.rx@ == device_topic(name@, "state"@),
    {
        let r = Topics {
            status: concat3("serial-port", name, "status"),
            error: concat3("serial-port", name, "error"),
            tx: concat3("serial-port", name, "state/cmd"),
            rx: concat3("serial-port", name, "state"),
        };
        assert forall|id: TopicId| #[trigger] r.topic_spec(id) == device_topic(name@, suffix_of(id)) by {
        }
        r
    }

    /// The topics a client subscribes to: status, error and received data.
    pub fn vec_sub_client(&self) -> (r: Vec<String>)
        ensures
            r@.len() == 3,
            r@[0]@ == self.status@,
            r@[1]@ == self.error@,
            r@[2]@ == self.rx@,
    {
        vec![self.status.clone(), self.error.clone(), self.rx.clone()]
    }

    /// The topics the server subscribes to: data to send.
    pub fn vec_sub_server(&self) -> (r: Vec<String>)
        ensures
            r@.len() == 1,
            r@[0]@ == self.tx@,
    {
        vec![self.tx.clone()]
    }

    /// Which of the topics `topic` is, checked in the order status, error,
    /// tx, rx.
    pub fn topic_to_id(&self, topic: &str) -> (r: Option<TopicId>)
        ensures
            r == (if topic@ == self.status@ {
                Some(TopicId::Status)
            } else if topic@ == self.error@ {
                Some(TopicId::Error)
            } else if topic@ == self.tx@ {
                Some(TopicId::Tx)
            } else if topic@ == self.rx@ {
                Some(TopicId::Rx)
            } else {
                None
            }),
    {
        if str_eq(topic, self.status.as_str()) {
            Some(TopicId::Status)
        } else if str_eq(topic, self.error.as_str()) {
            Some(TopicId::Error)
        } else if str_eq(topic, self.tx.as_str()) {
            Some(TopicId::Tx)
        } else if str_eq(topic, self.rx.as_str()) {
            Some(TopicId::Rx)
        } else {
            None
        }
    }

    /// The topic that `id` names.
    pub fn id_to_topic(&self, id: &TopicId) -> (r: &str)
        ensures
            r@ == self.topic_spec(*id),
    {
        match id {
            TopicId::Status => self.status.as_str(),
            TopicId::Error => self.error.as_str(),
            TopicId::Tx => self.tx.as_str(),
            TopicId::Rx => self.rx.as_str(),
        }
    }
}

/// Whether two strings hold the same characters.
pub fn str_eq(a: &str, b: &str) -> (r: bool)
    ensures
        r == (a@ == b@),
{
    let n = a.unicode_len();
    let m = b.unicode_len();
    if n != m {
        return false;
    }
    let mut i: usize = 0;
    while i < n
        invariant
            n == a@.len(),
            m == b@.len(),
            n == m,
            i <= n,
            a@.subrange(0, i as int) == b@.subrange(0, i as int),
        decreases n - i,
    {
        if a.get_char(i) != b.get_char(i) {
            return false;
        }
        assert(a@.subrange(0, i + 1) == a@.subrange(0, i as int).push(a@[i as int]));
        assert(b@.subrange(0, i + 1) == b@.subrange(0, i as int).push(b@[i as int]));
        i = i + 1;
    }
    assert(a@ == a@.subrange(0, n as int));
    assert(b@ == b@.subrange(0, n as int));
    true
}

} // verus!
