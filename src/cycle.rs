use vstd::prelude::*;
use crate::probe::{kbps_from_bps, kbps_spec, transfer_bps, transfer_bps_spec, EngineStage, ProbeError, ProbeKind};

verus! {

/// Why a measurement cycle produced no snapshot.
#[derive(Debug, Clone, Copy, PartialEq, Eq, Structural)]
pub enum ServiceError {
    /// A probe's unit of work could not be joined (killed, panicked, cancelled).
    TaskJoinError,
    /// A probe completed and reported an engine failure.
    SpeedTest(ProbeError),
}

/// How one probe's unit of work ended.
#[derive(Debug, Clone, Copy, PartialEq, Eq, Structural)]
pub enum UnitOutcome {
    /// The probe measured this value.
    Completed(u64),
    /// The probe ran and failed.
    Failed(ProbeError),
    /// The unit of work could not be joined.
    Lost,
}

/// The aggregate of one cycle: download and upload in kbit/s, ping and jitter
/// in microseconds, and the capture time in milliseconds since the Unix epoch.
#[derive(Debug, Clone, PartialEq, Eq, Structural)]
pub struct SpeedTestResult {
    pub download: u64,
    pub upload: u64,
    pub ping: u64,
    pub jitter: Option<u64>,
    pub timestamp: i64,
}

pub open spec fn outcome_error(o: UnitOutcome) -> Option<ServiceError> {
    match o {
        UnitOutcome::Completed(_) => None,
        UnitOutcome::Failed(e) => Some(ServiceError::SpeedTest(e)),
        UnitOutcome::Lost => Some(ServiceError::TaskJoinError),
    }
}

pub open spec fn outcome_value(o: UnitOutcome) -> u64 {
    match o {
        UnitOutcome::Completed(v) => v,
        _ => 0,
    }
}

/// The error of the first failed unit, in the order download, upload, ping,
/// jitter; `None` when every required unit completed.
pub open spec fn first_error(
    download: UnitOutcome,
    upload: UnitOutcome,
    ping: UnitOutcome,
    jitter: Option<UnitOutcome>,
) -> Option<ServiceError> {
    if outcome_error(download).is_some() {
        outcome_error(download)
    } else if outcome_error(upload).is_some() {
        outcome_error(upload)
    } else if outcome_error(ping).is_some() {
        outcome_error(ping)
    } else {
        match jitter {
            Some(j) => outcome_error(j),
            None => None,
        }
    }
}

fn unit_error(o: UnitOutcome) -> (r: Option<ServiceError>)
    ensures
        r == outcome_error(o),
{
    match o {
        UnitOutcome::Completed(_) => None,
        UnitOutcome::Failed(e) => Some(ServiceError::SpeedTest(e)),
        UnitOutcome::Lost => Some(ServiceError::TaskJoinError),
    }
}

fn unit_value(o: UnitOutcome) -> (r: u64)
    ensures
        r == outcome_value(o),
{
    match o {
        UnitOutcome::Completed(v) => v,
        _ => 0,
    }
}

/// The outcome of a throughput probe of kind `kind` whose transfer moved
/// `size_bytes` bytes in `duration_ms` milliseconds: the rate in kbit/s, or a
/// transfer failure when no time elapsed or the rate is out of range.
pub fn transfer_outcome(kind: ProbeKind, size_bytes: u64, duration_ms: u64) -> (r: UnitOutcome)
    ensures
        duration_ms > 0 && transfer_bps_spec(size_bytes as int, duration_ms as int) <= u64::MAX
            ==> r == UnitOutcome::Completed(
            kbps_spec(transfer_bps_spec(size_bytes as int, duration_ms as int)) as u64,
        ),
        !(duration_ms > 0 && transfer_bps_spec(size_bytes as int, duration_ms as int)
            <= u64::MAX) ==> r == UnitOutcome::Failed(
            ProbeError::Engine(kind, EngineStage::Transfer),
        ),
{
    match transfer_bps(size_bytes, duration_ms) {
        Some(bps) => UnitOutcome::Completed(kbps_from_bps(bps)),
        None => UnitOutcome::Failed(ProbeError::Engine(kind, EngineStage::Transfer)),
    }
}

impl SpeedTestResult {
    /// A snapshot of the given values, captured at `timestamp` (ms since the
    /// Unix epoch).
    pub fn at(download: u64, upload: u64, ping: u64, jitter: Option<u64>, timestamp: i64) -> (r:
        Self)
        ensures
            r == (SpeedTestResult { download, upload, ping, jitter, timestamp }),
    {
        SpeedTestResult { download, upload, ping, jitter, timestamp }
    }

    /// A snapshot of the given values without jitter, captured at
    /// `timestamp` (ms since the Unix epoch).
    pub fn new(download: u64, upload: u64, ping: u64, timestamp: i64) -> (r: Self)
        ensures
            r == (SpeedTestResult { download, upload, ping, jitter: None, timestamp }),
    {
        SpeedTestResult { download, upload, ping, jitter: None, timestamp }
    }
}

/// Joins the outcomes of one cycle's probes. `jitter` is `None` when the
/// jitter probe is not part of the cycle. All or nothing: a snapshot comes
/// back only when every required probe completed; otherwise the error of the
/// first failed unit (download, upload, ping, jitter). `timestamp` is the
/// wall-clock time at which the cycle's probes were joined.
pub fn aggregate(
    download: UnitOutcome,
    upload: UnitOutcome,
    ping: UnitOutcome,
    jitter: Option<UnitOutcome>,
    timestamp: i64,
) -> (r: Result<SpeedTestResult, ServiceError>)
    ensures
        r.is_ok() <==> first_error(download, upload, ping, jitter).is_none(),
        r matches Err(e) ==> Some(e) == first_error(download, upload, ping, jitter),
        r matches Ok(s) ==> s == (SpeedTestResult {
            download: outcome_value(download),
            upload: outcome_value(upload),
            ping: outcome_value(ping),
            jitter: match jitter {
                Some(j) => Some(outcome_value(j)),
                None => None,
            },
            timestamp,
        }),
{
    if let Some(e) = unit_error(download) {
        return Err(e);
    }
    if let Some(e) = unit_error(upload) {
        return Err(e);
    }
    if let Some(e) = unit_error(ping) {
        return Err(e);
    }
    let jitter_value: Option<u64> = match jitter {
        Some(j) => {
            if let Some(e) = unit_error(j) {
                return Err(e);
            }
            Some(unit_value(j))
        },
        None => None,
    };
    Ok(SpeedTestResult::at(
        unit_value(download),
        unit_value(upload),
        unit_value(ping),
        jitter_value,
        timestamp,
    ))
}

/// A cycle in which any required probe fails yields no snapshot: whatever
/// the other probes returned, `aggregate` returns the
/// failed probe's error or an earlier one, never a partial snapshot. When
/// only the upload fails after a completed download, its error is the one
/// returned.
pub proof fn lemma_all_or_nothing(
    download: UnitOutcome,
    upload: UnitOutcome,
    ping: UnitOutcome,
    jitter: Option<UnitOutcome>,
)
    requires
        outcome_error(download).is_some() || outcome_error(upload).is_some() || outcome_error(
            ping,
        ).is_some() || (jitter matches Some(j) && outcome_error(j).is_some()),
    ensures
        first_error(download, upload, ping, jitter).is_some(),
        outcome_error(download).is_none() && outcome_error(upload).is_some() ==> first_error(
            download,
            upload,
            ping,
            jitter,
        ) == outcome_error(upload),
{
}

} // verus!
