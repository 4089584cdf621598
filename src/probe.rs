use vstd::prelude::*;

verus! {

/// What one probe measures.
#[derive(Debug, Clone, Copy, PartialEq, Eq, Structural)]
pub enum ProbeKind {
    Download,
    Upload,
    Latency,
    Jitter,
}

/// The step of the measurement engine that failed.
#[derive(Debug, Clone, Copy, PartialEq, Eq, Structural)]
pub enum EngineStage {
    Configuration,
    ServerDiscovery,
    ServerSelection,
    Transfer,
}

/// A probe failed inside the measurement engine.
#[derive(Debug, Clone, Copy, PartialEq, Eq, Structural)]
pub enum ProbeError {
    Engine(ProbeKind, EngineStage),
}

/// Whole kbit/s in a rate of `bps` bits per second.
pub open spec fn kbps_spec(bps: int) -> int {
    bps / 1000
}

/// Converts bits per second to kbit/s, that is thousandths of Mbit/s.
pub fn kbps_from_bps(bps: u64) -> (r: u64)
    ensures
        r == kbps_spec(bps as int),
{
    bps / 1000
}

/// Bits per second, rounded down, of `size` bytes moved in `ms` milliseconds.
pub open spec fn transfer_bps_spec(size: int, ms: int) -> int {
    size * 8000 / ms
}

/// Bits per second of a transfer of `size_bytes` bytes that took
/// `duration_ms` milliseconds; `None` when no time elapsed or the rate does
/// not fit in a `u64`.
pub fn transfer_bps(size_bytes: u64, duration_ms: u64) -> (r: Option<u64>)
    ensures
        duration_ms == 0 ==> r.is_none(),
        duration_ms > 0 ==> (r.is_some() <==> transfer_bps_spec(size_bytes as int, duration_ms as int)
            <= u64::MAX),
        r matches Some(v) ==> v == transfer_bps_spec(size_bytes as int, duration_ms as int),
{
    if duration_ms == 0 {
        return None;
    }
    let bits_per_ms_scaled: u128 = (size_bytes as u128) * 8000;
    let bps: u128 = bits_per_ms_scaled / (duration_ms as u128);
    if bps > u64::MAX as u128 {
        None
    } else {
        Some(bps as u64)
    }
}

/// Sum of a sequence of samples.
pub open spec fn total(s: Seq<u64>) -> int
    decreases s.len(),
{
    if s.len() == 0 {
        0
    } else {
        total(s.drop_last()) + s.last()
    }
}

pub open spec fn abs(x: int) -> int {
    if x < 0 {
        -x
    } else {
        x
    }
}

/// `sum |n * s_i - t|` over the samples: `n * n` times the summed absolute
/// deviation from the mean when `n` is the count and `t` the total.
pub open spec fn scaled_deviation(s: Seq<u64>, n: int, t: int) -> int
    decreases s.len(),
{
    if s.len() == 0 {
        0
    } else {
        scaled_deviation(s.drop_last(), n, t) + abs(n * s.last() - t)
    }
}

/// `a / b` rounded up, for `a >= 0` and `b > 0`.
pub open spec fn div_ceil(a: int, b: int) -> int {
    (a + b - 1) / b
}

/// Mean absolute deviation of the samples from their mean,
/// `(1/N) * sum |s_i - mean|`, rounded up: a series whose samples differ never
/// reads as free of jitter.
pub open spec fn jitter_spec(s: Seq<u64>) -> int {
    div_ceil(scaled_deviation(s, s.len() as int, total(s)), (s.len() * s.len()) as int)
}

/// Every sample of `s` is the same.
pub open spec fn all_equal(s: Seq<u64>) -> bool {
    forall|i: int, j: int| 0 <= i < s.len() && 0 <= j < s.len() ==> s[i] == s[j]
}

proof fn lemma_deviation_zero_iff(s: Seq<u64>, n: int, t: int)
    ensures
        scaled_deviation(s, n, t) >= 0,
        scaled_deviation(s, n, t) == 0 <==> forall|i: int|
            0 <= i < s.len() ==> n * #[trigger] s[i] == t,
    decreases s.len(),
{
    if s.len() > 0 {
        let p = s.drop_last();
        lemma_deviation_zero_iff(p, n, t);
        assert forall|i: int| 0 <= i < p.len() implies p[i] == s[i] by {}
        if scaled_deviation(s, n, t) == 0 {
            assert forall|i: int| 0 <= i < s.len() implies n * #[trigger] s[i] == t by {
                if i < p.len() {
                    assert(n * p[i] == t);
                }
            }
        }
        if forall|i: int| 0 <= i < s.len() ==> n * #[trigger] s[i] == t {
            assert(n * s[s.len() - 1] == t);
            assert forall|i: int| 0 <= i < p.len() implies n * #[trigger] p[i] == t by {
                assert(n * s[i] == t);
            }
        }
    }
}

proof fn lemma_total_of_equal(s: Seq<u64>, c: u64)
    requires
        forall|i: int| 0 <= i < s.len() ==> s[i] == c,
    ensures
        total(s) == s.len() * c,
    decreases s.len(),
{
    if s.len() > 0 {
        let p = s.drop_last();
        assert forall|i: int| 0 <= i < p.len() implies p[i] == c by {
            assert(p[i] == s[i]);
        }
        lemma_total_of_equal(p, c);
        let k = p.len() as int;
        assert(k * c + c == (k + 1) * c) by (nonlinear_arith);
    }
}

/// The jitter of a non-empty series is zero exactly when all its samples
/// are equal.
pub proof fn lemma_jitter_zero_iff_steady(s: Seq<u64>)
    requires
        s.len() > 0,
    ensures
        jitter_spec(s) >= 0,
        jitter_spec(s) == 0 <==> all_equal(s),
{
    let n = s.len() as int;
    let t = total(s);
    let d = scaled_deviation(s, n, t);
    lemma_deviation_zero_iff(s, n, t);
    assert(n * n >= 1) by (nonlinear_arith)
        requires
            n >= 1,
    ;
    assert(d == 0 <==> div_ceil(d, n * n) == 0) by (nonlinear_arith)
        requires
            d >= 0,
            n * n >= 1,
    ;
    assert(div_ceil(d, n * n) >= 0) by (nonlinear_arith)
        requires
            d >= 0,
            n * n >= 1,
    ;
    if all_equal(s) {
        let c = s[0];
        assert forall|i: int| 0 <= i < s.len() implies s[i] == c by {}
        lemma_total_of_equal(s, c);
        assert forall|i: int| 0 <= i < s.len() implies n * #[trigger] s[i] == t by {
            assert(s[i] == c);
        }
    }
    if d == 0 {
        assert forall|i: int, j: int| 0 <= i < s.len() && 0 <= j < s.len() implies s[i]
            == s[j] by {
            assert(n * s[i] == t);
            assert(n * s[j] == t);
            let a = s[i] as int;
            let b = s[j] as int;
            assert(a == b) by (nonlinear_arith)
                requires
                    n * a == n * b,
                    n >= 1,
            ;
        }
    }
}

/// The jitter of a non-empty series is the exact mean absolute deviation
/// rounded up to whole microseconds. With `N` samples summing to `S`, the
/// exact value is `(1/N) * sum |s_i - S/N|`, that is `D / (N*N)` where
/// `D = sum |N*s_i - S|`; the jitter `j` satisfies `j - 1 < D / (N*N) <= j`.
pub proof fn lemma_jitter_within_a_microsecond(s: Seq<u64>)
    requires
        s.len() > 0,
    ensures
        ({
            let n = s.len() as int;
            let d = scaled_deviation(s, n, total(s));
            let j = jitter_spec(s);
            &&& (j - 1) * (n * n) < d
            &&& d <= j * (n * n)
        }),
{
    let n = s.len() as int;
    let d = scaled_deviation(s, n, total(s));
    let m = n * n;
    let j = jitter_spec(s);
    lemma_deviation_zero_iff(s, n, total(s));
    assert(m >= 1) by (nonlinear_arith)
        requires
            n >= 1,
            m == n * n,
    ;
    assert((j - 1) * m < d && d <= j * m) by (nonlinear_arith)
        requires
            m >= 1,
            d >= 0,
            j == (d + m - 1) / m,
    ;
}

/// Jitter of a series of latency samples in microseconds: the mean absolute
/// deviation from the sample mean, rounded up. `None` for no samples.
pub fn jitter_micros(samples: &Vec<u64>) -> (r: Option<u64>)
    requires
        samples@.len() <= u32::MAX,
    ensures
        samples@.len() == 0 <==> r.is_none(),
        r matches Some(j) ==> j == jitter_spec(samples@),
{
    let n: usize = samples.len();
    if n == 0 {
        return None;
    }
    let ghost s = samples@;
    let ghost max = u64::MAX as int;
    let mut sum: u128 = 0;
    let mut i: usize = 0;
    while i < n
        invariant
            n == s.len(),
            s == samples@,
            0 < n <= u32::MAX,
            max == u64::MAX,
            i <= n,
            sum == total(s.subrange(0, i as int)),
            sum <= i * max,
        decreases n - i,
    {
        proof {
            assert(s.subrange(0, i as int + 1).drop_last() == s.subrange(0, i as int));
        }
        let x: u64 = samples[i];
        assert(sum + x <= (i + 1) * max) by (nonlinear_arith)
            requires
                sum <= i * max,
                x <= max,
        ;
        sum = sum + x as u128;
        i = i + 1;
    }
    assert(s.subrange(0, n as int) == s);
    let nn: u128 = n as u128;
    let mut dev: u128 = 0;
    let mut j: usize = 0;
    while j < n
        invariant
            n == s.len(),
            s == samples@,
            0 < n <= u32::MAX,
            max == u64::MAX,
            nn == n,
            j <= n,
            sum == total(s),
            sum <= n * max,
            dev == scaled_deviation(s.subrange(0, j as int), n as int, total(s)),
            dev <= j * (n * max),
        decreases n - j,
    {
        proof {
            assert(s.subrange(0, j as int + 1).drop_last() == s.subrange(0, j as int));
        }
        let x: u64 = samples[j];
        assert(nn * (x as u128) <= n * max) by (nonlinear_arith)
            requires
                x <= max,
                nn == n,
                0 < n,
        ;
        let scaled: u128 = nn * (x as u128);
        let d: u128 = if scaled >= sum {
            scaled - sum
        } else {
            sum - scaled
        };
        assert(dev + d <= (j + 1) * (n * max)) by (nonlinear_arith)
            requires
                dev <= j * (n * max),
                d <= n * max,
        ;
        assert((j + 1) * (n * max) <= n * (n * max)) by (nonlinear_arith)
            requires
                j < n,
                0 <= max,
        ;
        assert(n * (n * max) < 0x1_0000_0000_0000_0000_0000_0000_0000_0000) by (nonlinear_arith)
            requires
                n <= u32::MAX,
                max == u64::MAX,
        ;
        dev = dev + d;
        j = j + 1;
    }
    assert(s.subrange(0, n as int) == s);
    assert(nn * nn <= 0xffff_ffff_ffff_ffff) by (nonlinear_arith)
        requires
            nn <= u32::MAX,
    ;
    let denom: u128 = nn * nn;
    assert(denom > 0) by (nonlinear_arith)
        requires
            denom == nn * nn,
            nn > 0,
    ;
    assert(dev + denom - 1 < denom * (max + 1)) by (nonlinear_arith)
        requires
            dev <= n * (n * max),
            denom == n * n,
            denom > 0,
    ;
    assert(denom * (max + 1) <= 0x1_0000_0000_0000_0000_0000_0000_0000_0000) by (nonlinear_arith)
        requires
            denom <= 0xffff_ffff_ffff_ffff,
            max == u64::MAX,
    ;
    let q: u128 = (dev + (denom - 1)) / denom;
    assert(q <= max) by (nonlinear_arith)
        requires
            dev + denom - 1 < denom * (max + 1),
            q == (dev + denom - 1) as int / denom as int,
            denom > 0,
    ;
    Some(q as u64)
}

} // verus!
