use speedtest_mqtt::{
    decimal_text, jitter_micros, kbps_from_bps, thousandths_to_text, transfer_bps,
    transfer_outcome, EngineStage, LatencySeries, ProbeError, ProbeKind, SeriesAction,
    UnitOutcome, JITTER_SAMPLES, SAMPLE_SPACING_MS,
};

#[test]
fn jitter_of_three_samples() {
    // 10 ms, 20 ms, 30 ms: mean 20 ms, jitter 20/3 ms = 6.666... ms,
    // rounded up to whole microseconds
    let j = jitter_micros(&vec![10_000, 20_000, 30_000]).unwrap();
    assert_eq!(j, 6_667);
    let expected = 20.0_f64 / 3.0;
    assert!((j as f64 / 1000.0 - expected).abs() < 0.001);
    assert_eq!(thousandths_to_text(j), "6.667");
}

#[test]
fn jitter_of_no_samples() {
    assert_eq!(jitter_micros(&vec![]), None);
}

#[test]
fn jitter_of_equal_samples_is_zero() {
    assert_eq!(jitter_micros(&vec![7, 7, 7, 7]), Some(0));
    assert_eq!(jitter_micros(&vec![7]), Some(0));
}

#[test]
fn jitter_of_close_samples_is_not_zero() {
    assert_eq!(jitter_micros(&vec![0, 1]), Some(1));
    assert_eq!(jitter_micros(&vec![5, 5, 5, 6]), Some(1));
}

#[test]
fn jitter_ignores_a_common_shift() {
    assert_eq!(
        jitter_micros(&vec![10_000, 20_000, 30_000]),
        jitter_micros(&vec![15_000, 25_000, 35_000])
    );
}

#[test]
fn jitter_of_largest_samples() {
    assert_eq!(jitter_micros(&vec![u64::MAX, 0]), Some(u64::MAX / 2 + 1));
    assert_eq!(jitter_micros(&vec![u64::MAX, u64::MAX]), Some(0));
}

#[test]
fn fifty_megabits() {
    let kbps = kbps_from_bps(50_000_000);
    assert_eq!(kbps, 50_000);
    assert_eq!(kbps as f64 / 1000.0, 50.0);
    assert_eq!(thousandths_to_text(kbps), "50");
}

#[test]
fn transfer_rate() {
    assert_eq!(transfer_bps(6_250_000, 1000), Some(50_000_000));
    assert_eq!(transfer_bps(1000, 3), Some(2_666_666));
    assert_eq!(transfer_bps(1000, 0), None);
    assert_eq!(transfer_bps(u64::MAX, 1), None);
}

#[test]
fn transfer_outcomes() {
    assert_eq!(
        transfer_outcome(ProbeKind::Download, 6_250_000, 1000),
        UnitOutcome::Completed(50_000)
    );
    assert_eq!(
        transfer_outcome(ProbeKind::Upload, 10, 0),
        UnitOutcome::Failed(ProbeError::Engine(ProbeKind::Upload, EngineStage::Transfer))
    );
}

#[test]
fn decimal_texts() {
    assert_eq!(decimal_text(0), "0");
    assert_eq!(decimal_text(1883), "1883");
    assert_eq!(decimal_text(u64::MAX), "18446744073709551615");
    assert_eq!(thousandths_to_text(0), "0");
    assert_eq!(thousandths_to_text(12_500), "12.5");
    assert_eq!(thousandths_to_text(12_050), "12.05");
    assert_eq!(thousandths_to_text(7), "0.007");
    assert_eq!(thousandths_to_text(1_234_567), "1234.567");
}

#[test]
fn latency_series_spacing_and_result() {
    let mut s = LatencySeries::new(3);
    assert_eq!(s.next_action(), SeriesAction::Sample);
    s.record(10_000);
    assert_eq!(s.next_action(), SeriesAction::WaitThenSample(SAMPLE_SPACING_MS));
    s.record(20_000);
    assert_eq!(s.next_action(), SeriesAction::WaitThenSample(100));
    s.record(30_000);
    assert_eq!(s.next_action(), SeriesAction::Done(6_667));
}

#[test]
fn latency_series_default_size() {
    let mut s = LatencySeries::new(JITTER_SAMPLES);
    for i in 0..10u64 {
        assert_ne!(s.next_action(), SeriesAction::Done(0));
        s.record(1_000 + (i % 2) * 2_000);
    }
    // samples alternate 1 ms and 3 ms: mean 2 ms, every deviation 1 ms
    assert_eq!(s.next_action(), SeriesAction::Done(1_000));
}
