use vstd::prelude::*;
use crate::cycle::SpeedTestResult;
use crate::probe::ProbeKind;
use crate::text::{thousandths_text, thousandths_to_text};

verus! {

/// Name of the sensor that reports a probe kind.
pub open spec fn slug(k: ProbeKind) -> Seq<char> {
    match k {
        ProbeKind::Download => "download"@,
        ProbeKind::Upload => "upload"@,
        ProbeKind::Latency => "ping"@,
        ProbeKind::Jitter => "jitter"@,
    }
}

pub open spec fn unit_of(k: ProbeKind) -> Seq<char> {
    match k {
        ProbeKind::Download | ProbeKind::Upload => "Mbit/s"@,
        ProbeKind::Latency | ProbeKind::Jitter => "ms"@,
    }
}

pub open spec fn device_class_of(k: ProbeKind) -> Seq<char> {
    match k {
        ProbeKind::Download | ProbeKind::Upload => "data_rate"@,
        ProbeKind::Latency | ProbeKind::Jitter => "duration"@,
    }
}

pub open spec fn state_topic(k: ProbeKind) -> Seq<char> {
    "homeassistant/sensor/speedtest/"@ + slug(k)
}

pub open spec fn config_topic(k: ProbeKind) -> Seq<char> {
    state_topic(k) + "/config"@
}

pub open spec fn display_name(k: ProbeKind) -> Seq<char> {
    "Speedtest "@ + slug(k)
}

pub open spec fn unique_id(k: ProbeKind) -> Seq<char> {
    "speedtest_"@ + slug(k)
}

fn slug_str(k: ProbeKind) -> (r: &'static str)
    ensures
        r@ == slug(k),
{
    match k {
        ProbeKind::Download => "download",
        ProbeKind::Upload => "upload",
        ProbeKind::Latency => "ping",
        ProbeKind::Jitter => "jitter",
    }
}

fn unit_str(k: ProbeKind) -> (r: &'static str)
    ensures
        r@ == unit_of(k),
{
    match k {
        ProbeKind::Download | ProbeKind::Upload => "Mbit/s",
        ProbeKind::Latency | ProbeKind::Jitter => "ms",
    }
}

fn device_class_str(k: ProbeKind) -> (r: &'static str)
    ensures
        r@ == device_class_of(k),
{
    match k {
        ProbeKind::Download | ProbeKind::Upload => "data_rate",
        ProbeKind::Latency | ProbeKind::Jitter => "duration",
    }
}

/// Topic on which the values of a probe kind are published.
pub fn state_topic_of(k: ProbeKind) -> (r: String)
    ensures
        r@ == state_topic(k),
{
    String::from_str("homeassistant/sensor/speedtest/").concat(slug_str(k))
}

/// Topic on which the discovery descriptor of a probe kind is published.
pub fn config_topic_of(k: ProbeKind) -> (r: String)
    ensures
        r@ == config_topic(k),
{
    state_topic_of(k).concat("/config")
}

/// The broker's delivery guarantee for a message.
#[derive(Debug, Clone, Copy, PartialEq, Eq, Structural)]
pub enum QoS {
    AtMostOnce,
    AtLeastOnce,
    ExactlyOnce,
}

/// One message for the broker: a value of one probe kind, published to that
/// kind's state topic with the value's text as payload, at least once and
/// not retained.
#[derive(Debug, Clone)]
pub struct MqttMessage {
    pub name: String,
    pub state_topic: String,
    pub json_attributes_topic: Option<String>,
    pub unit_of_measurement: Option<String>,
    pub value_template: Option<String>,
    pub payload: String,
    pub qos: QoS,
    pub retain: bool,
}

/// `m` is the state message of kind `k` carrying `value` (thousandths of
/// the kind's unit).
pub open spec fn is_state_message(m: MqttMessage, k: ProbeKind, value: u64) -> bool {
    &&& m.name@ == display_name(k)
    &&& m.state_topic@ == state_topic(k)
    &&& m.json_attributes_topic.is_none()
    &&& m.unit_of_measurement matches Some(u) && u@ == unit_of(k)
    &&& m.value_template.is_none()
    &&& m.payload@ == thousandths_text(value as nat)
    &&& m.qos == QoS::AtLeastOnce
    &&& !m.retain
}

impl MqttMessage {
    /// The state message of kind `k` carrying `value`, held in thousandths of
    /// the kind's unit (kbit/s for throughput, microseconds for latency).
    pub fn state(k: ProbeKind, value: u64) -> (r: MqttMessage)
        ensures
            is_state_message(r, k, value),
    {
        MqttMessage {
            name: String::from_str("Speedtest ").concat(slug_str(k)),
            state_topic: state_topic_of(k),
            json_attributes_topic: None,
            unit_of_measurement: Some(String::from_str(unit_str(k))),
            value_template: None,
            payload: thousandths_to_text(value),
            qos: QoS::AtLeastOnce,
            retain: false,
        }
    }
}

impl SpeedTestResult {
    /// The messages that publish this snapshot: download, upload and ping,
    /// then jitter when the snapshot has it.
    pub fn state_messages(&self) -> (r: Vec<MqttMessage>)
        ensures
            r@.len() == if self.jitter.is_some() {
                4int
            } else {
                3int
            },
            is_state_message(r@[0], ProbeKind::Download, self.download),
            is_state_message(r@[1], ProbeKind::Upload, self.upload),
            is_state_message(r@[2], ProbeKind::Latency, self.ping),
            self.jitter matches Some(j) ==> is_state_message(r@[3], ProbeKind::Jitter, j),
    {
        let mut r: Vec<MqttMessage> = Vec::new();
        r.push(MqttMessage::state(ProbeKind::Download, self.download));
        r.push(MqttMessage::state(ProbeKind::Upload, self.upload));
        r.push(MqttMessage::state(ProbeKind::Latency, self.ping));
        if let Some(j) = self.jitter {
            r.push(MqttMessage::state(ProbeKind::Jitter, j));
        }
        r
    }
}

/// Metadata that announces one sensor to an auto-discovering consumer,
/// published to its config topic at least once and retained, so that a
/// consumer that connects later still finds it.
#[derive(Debug, Clone)]
pub struct DiscoveryDescriptor {
    pub kind: ProbeKind,
    pub name: String,
    pub state_topic: String,
    pub config_topic: String,
    pub unit_of_measurement: String,
    pub device_class: String,
    pub unique_id: String,
    pub device_name: String,
    pub device_identifier: String,
    pub qos: QoS,
    pub retain: bool,
}

pub open spec fn is_descriptor_of(d: DiscoveryDescriptor, k: ProbeKind) -> bool {
    &&& d.kind == k
    &&& d.name@ == display_name(k)
    &&& d.state_topic@ == state_topic(k)
    &&& d.config_topic@ == config_topic(k)
    &&& d.unit_of_measurement@ == unit_of(k)
    &&& d.device_class@ == device_class_of(k)
    &&& d.unique_id@ == unique_id(k)
    &&& d.device_name@ == "Speedtest"@
    &&& d.device_identifier@ == "speedtest_device"@
    &&& d.qos == QoS::AtLeastOnce
    &&& d.retain
}

impl DiscoveryDescriptor {
    /// The descriptor of the sensor for kind `k`.
    pub fn of(k: ProbeKind) -> (r: DiscoveryDescriptor)
        ensures
            is_descriptor_of(r, k),
    {
        DiscoveryDescriptor {
            kind: k,
            name: String::from_str("Speedtest ").concat(slug_str(k)),
            state_topic: state_topic_of(k),
            config_topic: config_topic_of(k),
            unit_of_measurement: String::from_str(unit_str(k)),
            device_class: String::from_str(device_class_str(k)),
            unique_id: String::from_str("speedtest_").concat(slug_str(k)),
            device_name: String::from_str("Speedtest"),
            device_identifier: String::from_str("speedtest_device"),
            qos: QoS::AtLeastOnce,
            retain: true,
        }
    }
}

/// The kinds that are measured and published each cycle.
pub open spec fn reported_kinds_spec(with_jitter: bool) -> Seq<ProbeKind> {
    if with_jitter {
        seq![ProbeKind::Download, ProbeKind::Upload, ProbeKind::Latency, ProbeKind::Jitter]
    } else {
        seq![ProbeKind::Download, ProbeKind::Upload, ProbeKind::Latency]
    }
}

/// The descriptors announced before the first snapshot, one per reported
/// kind, in the order download, upload, ping, jitter.
pub fn discovery_descriptors(with_jitter: bool) -> (r: Vec<DiscoveryDescriptor>)
    ensures
        r@.len() == reported_kinds_spec(with_jitter).len(),
        forall|i: int|
            0 <= i < r@.len() ==> is_descriptor_of(#[trigger] r@[i], reported_kinds_spec(with_jitter)[i]),
{
    let mut r: Vec<DiscoveryDescriptor> = Vec::new();
    r.push(DiscoveryDescriptor::of(ProbeKind::Download));
    r.push(DiscoveryDescriptor::of(ProbeKind::Upload));
    r.push(DiscoveryDescriptor::of(ProbeKind::Latency));
    if with_jitter {
        r.push(DiscoveryDescriptor::of(ProbeKind::Jitter));
    }
    r
}

} // verus!
