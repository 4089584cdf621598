use vstd::prelude::*;

verus! {

/// Seconds between two measurement cycles when none is configured.
pub const DEFAULT_CHECK_INTERVAL: u64 = 60;

/// Broker port when none is configured.
pub const DEFAULT_MQTT_PORT: u16 = 1883;

/// How much the process logs.
#[derive(Debug, Clone, Copy, PartialEq, Eq, Structural)]
pub enum LogLevel {
    Off,
    Error,
    Warn,
    Info,
    Debug,
    Trace,
}

/// Settings of the process, fixed at startup.
#[derive(Debug, Clone)]
pub struct Config {
    pub check_interval: u64,
    pub mqtt_id: String,
    pub mqtt_host: String,
    pub mqtt_port: u16,
    pub mqtt_username: Option<String>,
    pub mqtt_password: Option<String>,
    pub log_level: LogLevel,
    pub measure_jitter: bool,
}

pub open spec fn is_digit(c: char) -> bool {
    '0' <= c && c <= '9'
}

pub open spec fn all_digits(s: Seq<char>) -> bool {
    forall|i: int| 0 <= i < s.len() ==> is_digit(#[trigger] s[i])
}

/// Value of a string of decimal digits.
pub open spec fn decimal_value(s: Seq<char>) -> int
    decreases s.len(),
{
    if s.len() == 0 {
        0
    } else {
        decimal_value(s.drop_last()) * 10 + (s.last() as u32 - '0' as u32)
    }
}

/// The digits of a number's text: what follows one optional leading `+`.
pub open spec fn unsigned_digits(s: Seq<char>) -> Seq<char> {
    if s.len() > 0 && s[0] == '+' {
        s.drop_first()
    } else {
        s
    }
}

/// `s` is the decimal text of an integer that is at most `max`: one optional
/// leading `+`, then one or more ASCII digits.
pub open spec fn is_number_upto(s: Seq<char>, max: int) -> bool {
    let d = unsigned_digits(s);
    d.len() > 0 && all_digits(d) && decimal_value(d) <= max
}

proof fn lemma_prefix_value_le(s: Seq<char>, k: int)
    requires
        all_digits(s),
        0 <= k <= s.len(),
    ensures
        0 <= decimal_value(s.subrange(0, k)) <= decimal_value(s),
    decreases s.len(),
{
    if k == s.len() {
        assert(s.subrange(0, k) == s);
        lemma_value_nonneg(s);
    } else {
        let t = s.drop_last();
        assert(t.subrange(0, k) == s.subrange(0, k));
        assert(all_digits(t)) by {
            assert forall|i: int| 0 <= i < t.len() implies is_digit(#[trigger] t[i]) by {
                assert(t[i] == s[i]);
            }
        }
        lemma_prefix_value_le(t, k);
        assert(is_digit(s[s.len() - 1]));
    }
}

proof fn lemma_value_nonneg(s: Seq<char>)
    requires
        all_digits(s),
    ensures
        decimal_value(s) >= 0,
    decreases s.len(),
{
    if s.len() > 0 {
        let t = s.drop_last();
        assert(all_digits(t)) by {
            assert forall|i: int| 0 <= i < t.len() implies is_digit(#[trigger] t[i]) by {
                assert(t[i] == s[i]);
            }
        }
        lemma_value_nonneg(t);
        assert(is_digit(s[s.len() - 1]));
    }
}

/// Parses the decimal text of an integer up to `u64::MAX`: one optional
/// leading `+`, then one or more ASCII digits, and nothing else.
pub fn parse_decimal(s: &str) -> (r: Option<u64>)
    ensures
        r.is_some() <==> is_number_upto(s@, u64::MAX as int),
        r matches Some(v) ==> v == decimal_value(unsigned_digits(s@)),
{
    let n: usize = s.unicode_len();
    let start: usize = if n > 0 && s.get_char(0) == '+' {
        1
    } else {
        0
    };
    let ghost d = unsigned_digits(s@);
    assert(d == s@.subrange(start as int, n as int));
    if n == start {
        return None;
    }
    let mut acc: u64 = 0;
    let mut i: usize = start;
    while i < n
        invariant
            n == s@.len(),
            start <= i <= n,
            d == s@.subrange(start as int, n as int),
            d == unsigned_digits(s@),
            all_digits(d.subrange(0, i - start)),
            acc == decimal_value(d.subrange(0, i - start)),
        decreases n - i,
    {
        let c = s.get_char(i);
        let k: usize = i - start;
        assert(d[k as int] == c);
        let ghost pre = d.subrange(0, k as int);
        let ghost next = d.subrange(0, k as int + 1);
        assert(next.drop_last() == pre);
        if c < '0' || c > '9' {
            assert(!is_digit(d[k as int]));
            return None;
        }
        let digit: u64 = (c as u32 - '0' as u32) as u64;
        assert(all_digits(next)) by {
            assert forall|m: int| 0 <= m < next.len() implies is_digit(#[trigger] next[m]) by {
                if m < k {
                    assert(next[m] == pre[m]);
                }
            }
        }
        if acc > (u64::MAX - digit) / 10 {
            proof {
                assert(decimal_value(next) > u64::MAX) by (nonlinear_arith)
                    requires
                        decimal_value(next) == acc * 10 + digit,
                        acc > (u64::MAX - digit) / 10,
                        digit <= 9,
                ;
                if all_digits(d) {
                    lemma_prefix_value_le(d, k as int + 1);
                }
            }
            return None;
        }
        assert(acc * 10 + digit <= u64::MAX) by (nonlinear_arith)
            requires
                acc <= (u64::MAX - digit) / 10,
                digit <= 9,
        ;
        acc = acc * 10 + digit;
        i = i + 1;
    }
    assert(d.subrange(0, n - start) == d);
    Some(acc)
}

/// Relies on log::LevelFilter's `FromStr`: a level name matched without
/// regard to ASCII case against OFF, ERROR, WARN, INFO, DEBUG and TRACE.
#[verifier::external_body]
fn parse_log_level(s: &str) -> (r: Option<LogLevel>)
    ensures
        r == level_named(s@),
{
    match s.parse::<log::LevelFilter>() {
        Ok(log::LevelFilter::Off) => Some(LogLevel::Off),
        Ok(log::LevelFilter::Error) => Some(LogLevel::Error),
        Ok(log::LevelFilter::Warn) => Some(LogLevel::Warn),
        Ok(log::LevelFilter::Info) => Some(LogLevel::Info),
        Ok(log::LevelFilter::Debug) => Some(LogLevel::Debug),
        Ok(log::LevelFilter::Trace) => Some(LogLevel::Trace),
        Err(_) => None,
    }
}

/// Whether two strings hold the same characters.
pub fn same_text(a: &str, b: &str) -> (r: bool)
    ensures
        r <==> a@ == b@,
{
    let n: usize = a.unicode_len();
    if n != b.unicode_len() {
        return false;
    }
    let mut i: usize = 0;
    while i < n
        invariant
            n == a@.len(),
            n == b@.len(),
            i <= n,
            a@.subrange(0, i as int) == b@.subrange(0, i as int),
        decreases n - i,
    {
        if a.get_char(i) != b.get_char(i) {
            return false;
        }
        assert(a@.subrange(0, i as int + 1) == a@.subrange(0, i as int).push(a@[i as int]));
        assert(b@.subrange(0, i as int + 1) == b@.subrange(0, i as int).push(b@[i as int]));
        i = i + 1;
    }
    assert(a@ == a@.subrange(0, n as int));
    assert(b@ == b@.subrange(0, n as int));
    true
}

/// `a` and `b` are the same character once ASCII upper case is taken as
/// lower case.
pub open spec fn same_ignoring_ascii_case(a: char, b: char) -> bool {
    ||| a == b
    ||| 'A' <= a && a <= 'Z' && a as u32 + 32 == b as u32
    ||| 'A' <= b && b <= 'Z' && b as u32 + 32 == a as u32
}

/// `s` spells the ASCII name `name` in any mix of upper and lower case.
pub open spec fn spells(s: Seq<char>, name: Seq<char>) -> bool {
    &&& s.len() == name.len()
    &&& forall|i: int| 0 <= i < s.len() ==> same_ignoring_ascii_case(#[trigger] s[i], name[i])
}

/// The level whose name `s` spells, in any case.
pub open spec fn level_named(s: Seq<char>) -> Option<LogLevel> {
    if spells(s, "off"@) {
        Some(LogLevel::Off)
    } else if spells(s, "error"@) {
        Some(LogLevel::Error)
    } else if spells(s, "warn"@) {
        Some(LogLevel::Warn)
    } else if spells(s, "info"@) {
        Some(LogLevel::Info)
    } else if spells(s, "debug"@) {
        Some(LogLevel::Debug)
    } else if spells(s, "trace"@) {
        Some(LogLevel::Trace)
    } else {
        None
    }
}

/// The level that the setting `text` selects: the level it names, else info.
pub open spec fn level_of(text: Option<String>) -> LogLevel {
    match text {
        Some(t) => match level_named(t@) {
            Some(l) => l,
            None => LogLevel::Info,
        },
        None => LogLevel::Info,
    }
}

pub open spec fn text_or(v: Option<String>, default: Seq<char>) -> Seq<char> {
    match v {
        Some(s) => s@,
        None => default,
    }
}

fn string_or(v: Option<String>, default: &str) -> (r: String)
    ensures
        r@ == text_or(v, default@),
{
    match v {
        Some(s) => s,
        None => String::from_str(default),
    }
}

/// The check interval given by `text`: its value when it is the decimal
/// text of a `u64` (an optional `+`, then digits), else the default.
pub open spec fn interval_of(text: Option<String>) -> u64 {
    match text {
        Some(t) => if is_number_upto(t@, u64::MAX as int) {
            decimal_value(unsigned_digits(t@)) as u64
        } else {
            DEFAULT_CHECK_INTERVAL
        },
        None => DEFAULT_CHECK_INTERVAL,
    }
}

/// The broker port given by `text`: its value when it is the decimal text
/// of a `u16` (an optional `+`, then digits), else the default.
pub open spec fn port_of(text: Option<String>) -> u16 {
    match text {
        Some(t) => if is_number_upto(t@, u16::MAX as int) {
            decimal_value(unsigned_digits(t@)) as u16
        } else {
            DEFAULT_MQTT_PORT
        },
        None => DEFAULT_MQTT_PORT,
    }
}

impl Config {
    /// Settings from the raw text of each setting, `None` where it is not
    /// given. A missing or unreadable interval or port falls back to 60 s and
    /// 1883; a missing client id or host to `speedtest` and `localhost`; a
    /// missing or unknown log level to info. Level names are read in any case. Jitter is measured when
    /// `jitter` reads `true`.
    pub fn from_settings(
        check_interval: Option<String>,
        mqtt_id: Option<String>,
        mqtt_host: Option<String>,
        mqtt_port: Option<String>,
        mqtt_username: Option<String>,
        mqtt_password: Option<String>,
        log_level: Option<String>,
        jitter: Option<String>,
    ) -> (r: Config)
        ensures
            r.check_interval == interval_of(check_interval),
            r.mqtt_id@ == text_or(mqtt_id, "speedtest"@),
            r.mqtt_host@ == text_or(mqtt_host, "localhost"@),
            r.mqtt_port == port_of(mqtt_port),
            r.mqtt_username == mqtt_username,
            r.mqtt_password == mqtt_password,
            r.log_level == level_of(log_level),
            r.measure_jitter <==> (jitter matches Some(j) && j@ == "true"@),
    {
        let interval: u64 = match &check_interval {
            Some(t) => match parse_decimal(t.as_str()) {
                Some(v) => v,
                None => DEFAULT_CHECK_INTERVAL,
            },
            None => DEFAULT_CHECK_INTERVAL,
        };
        let port: u16 = match &mqtt_port {
            Some(t) => match parse_decimal(t.as_str()) {
                Some(v) => if v <= u16::MAX as u64 {
                    v as u16
                } else {
                    DEFAULT_MQTT_PORT
                },
                None => DEFAULT_MQTT_PORT,
            },
            None => DEFAULT_MQTT_PORT,
        };
        let level: LogLevel = match &log_level {
            Some(t) => match parse_log_level(t.as_str()) {
                Some(l) => l,
                None => LogLevel::Info,
            },
            None => LogLevel::Info,
        };
        let measure_jitter: bool = match &jitter {
            Some(j) => same_text(j.as_str(), "true"),
            None => false,
        };
        Config {
            check_interval: interval,
            mqtt_id: string_or(mqtt_id, "speedtest"),
            mqtt_host: string_or(mqtt_host, "localhost"),
            mqtt_port: port,
            mqtt_username,
            mqtt_password,
            log_level: level,
            measure_jitter,
        }
    }

    /// The credentials to connect with: both a username and a password, or
    /// none, and then the connection is anonymous.
    pub fn credentials(&self) -> (r: Option<(String, String)>)
        ensures
            r.is_some() <==> (self.mqtt_username.is_some() && self.mqtt_password.is_some()),
            r matches Some(c) ==> c.0@ == self.mqtt_username.unwrap()@ && c.1@
                == self.mqtt_password.unwrap()@,
    {
        match (&self.mqtt_username, &self.mqtt_password) {
            (Some(u), Some(p)) => Some((u.clone(), p.clone())),
            _ => None,
        }
    }
}

} // verus!
