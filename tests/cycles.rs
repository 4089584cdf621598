use speedtest_mqtt::{
    aggregate, EngineStage, ProbeError, ProbeKind, ServiceError,
    SpeedTestResult, UnitOutcome,
};

#[test]
fn upload_failure_fails_the_cycle() {
    let upload_error = ProbeError::Engine(ProbeKind::Upload, EngineStage::Transfer);
    let r = aggregate(
        UnitOutcome::Completed(50_000),
        UnitOutcome::Failed(upload_error),
        UnitOutcome::Completed(12_000),
        None,
        1_700_000_000_000,
    );
    assert_eq!(r, Err(ServiceError::SpeedTest(upload_error)));
}

#[test]
fn lost_unit_is_a_join_failure() {
    let r = aggregate(
        UnitOutcome::Completed(1),
        UnitOutcome::Completed(2),
        UnitOutcome::Lost,
        None,
        0,
    );
    assert_eq!(r, Err(ServiceError::TaskJoinError));
}

#[test]
fn first_failure_wins() {
    let d = ProbeError::Engine(ProbeKind::Download, EngineStage::ServerDiscovery);
    let r = aggregate(
        UnitOutcome::Failed(d),
        UnitOutcome::Lost,
        UnitOutcome::Completed(3),
        None,
        0,
    );
    assert_eq!(r, Err(ServiceError::SpeedTest(d)));
}

#[test]
fn jitter_failure_fails_the_cycle() {
    let j = ProbeError::Engine(ProbeKind::Jitter, EngineStage::ServerSelection);
    let r = aggregate(
        UnitOutcome::Completed(1),
        UnitOutcome::Completed(2),
        UnitOutcome::Completed(3),
        Some(UnitOutcome::Failed(j)),
        0,
    );
    assert_eq!(r, Err(ServiceError::SpeedTest(j)));
}

#[test]
fn full_cycle_gives_snapshot() {
    let r = aggregate(
        UnitOutcome::Completed(50_000),
        UnitOutcome::Completed(10_000),
        UnitOutcome::Completed(12_345),
        Some(UnitOutcome::Completed(678)),
        42,
    );
    assert_eq!(r, Ok(SpeedTestResult::at(50_000, 10_000, 12_345, Some(678), 42)));
    let r = aggregate(
        UnitOutcome::Completed(50_000),
        UnitOutcome::Completed(10_000),
        UnitOutcome::Completed(12_345),
        None,
        42,
    );
    assert_eq!(r.unwrap().jitter, None);
}

#[test]
fn snapshot_constructors() {
    let t = SpeedTestResult::new(1, 2, 3, 1_700_000_000_000);
    assert_eq!(t, SpeedTestResult::at(1, 2, 3, None, 1_700_000_000_000));
    assert_eq!(t.timestamp, 1_700_000_000_000);
}
