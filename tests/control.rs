use speedtest_mqtt::{
    after_poll, parse_decimal, Config, EngineStage, LogLevel, Phase, ProbeError, ProbeKind,
    PumpAction, Scheduler, SchedulerAction, SchedulerEvent, ServiceError, SpeedTestResult,
    DEFAULT_CHECK_INTERVAL, DEFAULT_MQTT_PORT,
};

#[test]
fn scheduler_hands_off_before_sleeping() {
    let (mut s, first) = Scheduler::new(60);
    assert_eq!(first, SchedulerAction::RunCycle);
    let a = SpeedTestResult::at(1, 2, 3, None, 10);
    let b = SpeedTestResult::at(4, 5, 6, None, 20);
    assert_eq!(s.handle(SchedulerEvent::Measured(a.clone())), SchedulerAction::HandOff(a));
    assert_eq!(s.handle(SchedulerEvent::HandedOff), SchedulerAction::Sleep(60));
    assert_eq!(s.handle(SchedulerEvent::Woke), SchedulerAction::RunCycle);
    assert_eq!(s.handle(SchedulerEvent::Measured(b.clone())), SchedulerAction::HandOff(b));
    // the channel is full: nothing but the hand-off completing moves the loop on
    assert_eq!(s.handle(SchedulerEvent::Woke), SchedulerAction::Ignore);
    assert_eq!(s.phase, Phase::HandingOff);
    assert_eq!(s.handle(SchedulerEvent::HandedOff), SchedulerAction::Sleep(60));
    assert_eq!(s.phase, Phase::Sleeping);
}

#[test]
fn scheduler_skips_failed_cycle() {
    let (mut s, _) = Scheduler::new(5);
    let e = ServiceError::SpeedTest(ProbeError::Engine(ProbeKind::Upload, EngineStage::Transfer));
    assert_eq!(s.handle(SchedulerEvent::CycleFailed(e)), SchedulerAction::ReportAndSleep(e, 5));
    assert_eq!(s.phase, Phase::Sleeping);
    assert_eq!(s.handle(SchedulerEvent::Woke), SchedulerAction::RunCycle);
}

#[test]
fn scheduler_stops_on_closed_channel() {
    let (mut s, _) = Scheduler::new(60);
    let a = SpeedTestResult::at(1, 2, 3, None, 10);
    s.handle(SchedulerEvent::Measured(a));
    assert_eq!(s.handle(SchedulerEvent::ChannelClosed), SchedulerAction::Stop);
    assert_eq!(s.handle(SchedulerEvent::Woke), SchedulerAction::Stop);
    assert_eq!(s.phase, Phase::Stopped);
}

#[test]
fn poll_failure_shuts_down() {
    assert_eq!(after_poll(true), PumpAction::Continue);
    assert_eq!(after_poll(false), PumpAction::Shutdown);
    let (mut s, _) = Scheduler::new(60);
    s.handle(SchedulerEvent::Measured(SpeedTestResult::at(1, 2, 3, None, 10)));
    assert_eq!(s.handle(SchedulerEvent::Shutdown), SchedulerAction::Stop);
    assert_eq!(s.handle(SchedulerEvent::HandedOff), SchedulerAction::Stop);
}

#[test]
fn decimal_parsing() {
    assert_eq!(parse_decimal("60"), Some(60));
    assert_eq!(parse_decimal("0"), Some(0));
    assert_eq!(parse_decimal("18446744073709551615"), Some(u64::MAX));
    assert_eq!(parse_decimal("18446744073709551616"), None);
    assert_eq!(parse_decimal(""), None);
    assert_eq!(parse_decimal("12a"), None);
    assert_eq!(parse_decimal("-1"), None);
    assert_eq!(parse_decimal("-0"), None);
    assert_eq!(parse_decimal("+30"), Some(30));
    assert_eq!(parse_decimal("+0"), Some(0));
    assert_eq!(parse_decimal("+"), None);
    assert_eq!(parse_decimal("++1"), None);
    assert_eq!(parse_decimal("1+"), None);
    assert_eq!(parse_decimal(" 1"), None);
}

#[test]
fn config_reads_signed_numbers() {
    let c = Config::from_settings(text("+30"), None, None, text("+8883"), None, None, None, None);
    assert_eq!(c.check_interval, 30);
    assert_eq!(c.mqtt_port, 8883);
    let c = Config::from_settings(text("+"), None, None, text("+70000"), None, None, None, None);
    assert_eq!(c.check_interval, 60);
    assert_eq!(c.mqtt_port, 1883);
}

#[test]
fn config_log_level_in_any_case() {
    let level = |s: &str| {
        Config::from_settings(None, None, None, None, None, None, text(s), None).log_level
    };
    assert_eq!(level("DEBUG"), LogLevel::Debug);
    assert_eq!(level("Warn"), LogLevel::Warn);
    assert_eq!(level("tRaCe"), LogLevel::Trace);
    assert_eq!(level("off"), LogLevel::Off);
    assert_eq!(level("ERROR"), LogLevel::Error);
    assert_eq!(level("info"), LogLevel::Info);
    assert_eq!(level("bogus"), LogLevel::Info);
    assert_eq!(level(""), LogLevel::Info);
    assert_eq!(level("debug "), LogLevel::Info);
}

fn text(s: &str) -> Option<String> {
    Some(s.to_string())
}

#[test]
fn config_defaults() {
    let c = Config::from_settings(None, None, None, None, None, None, None, None);
    assert_eq!(c.check_interval, DEFAULT_CHECK_INTERVAL);
    assert_eq!(c.check_interval, 60);
    assert_eq!(c.mqtt_id, "speedtest");
    assert_eq!(c.mqtt_host, "localhost");
    assert_eq!(c.mqtt_port, DEFAULT_MQTT_PORT);
    assert_eq!(c.mqtt_port, 1883);
    assert_eq!(c.log_level, LogLevel::Info);
    assert!(!c.measure_jitter);
    assert!(c.credentials().is_none());
}

#[test]
fn config_given() {
    let c = Config::from_settings(
        text("300"),
        text("probe"),
        text("broker.lan"),
        text("8883"),
        text("user"),
        text("SECRET-REDACTED"),
        text("debug"),
        text("true"),
    );
    assert_eq!(c.check_interval, 300);
    assert_eq!(c.mqtt_id, "probe");
    assert_eq!(c.mqtt_host, "broker.lan");
    assert_eq!(c.mqtt_port, 8883);
    assert_eq!(c.log_level, LogLevel::Debug);
    assert!(c.measure_jitter);
    assert_eq!(
        c.credentials(),
        Some(("user".to_string(), "SECRET-REDACTED".to_string()))
    );
}

#[test]
fn config_unreadable_values_fall_back() {
    let c = Config::from_settings(
        text("soon"),
        None,
        None,
        text("70000"),
        text("user"),
        None,
        text("WARN"),
        text("yes"),
    );
    assert_eq!(c.check_interval, 60);
    assert_eq!(c.mqtt_port, 1883);
    assert_eq!(c.log_level, LogLevel::Warn);
    assert!(!c.measure_jitter);
    assert!(c.credentials().is_none());
    let c = Config::from_settings(None, None, None, None, None, None, text("loud"), None);
    assert_eq!(c.log_level, LogLevel::Info);
}
