//! Periodic network speed measurement, aggregated into snapshots and
//! published to an MQTT broker.
//!
//! All quantities are fixed-point integers: throughput in kbit/s (thousandths
//! of Mbit/s) and latency in microseconds (thousandths of milliseconds).
//! Each snapshot is published as one message per measurement kind: the bare
//! value, as decimal text in Mbit/s or ms, on that kind's own state topic.
//!
//! The loops that wait on the network (measuring, handing snapshots to the
//! publisher, retrying discovery, polling the broker) are state machines
//! here: each step takes what happened and says what to do next.
mod config;
mod cycle;
mod discovery;
mod messages;
mod probe;
mod pump;
mod scheduler;
mod series;
mod text;

pub use config::{parse_decimal, Config, LogLevel};
pub use config::{DEFAULT_CHECK_INTERVAL, DEFAULT_MQTT_PORT};
pub use cycle::{aggregate, transfer_outcome};
pub use cycle::{ServiceError, SpeedTestResult, UnitOutcome};
pub use discovery::{DiscoveryAction, DiscoveryNote, DiscoveryRun, MAX_ATTEMPTS, RETRY_DELAY_MS};
pub use messages::{config_topic_of, discovery_descriptors, state_topic_of};
pub use messages::{DiscoveryDescriptor, MqttMessage, QoS};
pub use probe::{jitter_micros, kbps_from_bps, transfer_bps};
pub use probe::{EngineStage, ProbeError, ProbeKind};
pub use pump::{after_poll, PumpAction};
pub use scheduler::{Phase, Scheduler, SchedulerAction, SchedulerEvent};
pub use series::{LatencySeries, SeriesAction, JITTER_SAMPLES, SAMPLE_SPACING_MS};
pub use text::{decimal_text, thousandths_to_text};
