//! Configuration shared by every connection.

use vstd::prelude::*;

verus! {

/// A span of time, or a reading of a connection's clock, in nanoseconds.
pub type Nanos = u128;

/// Nanoseconds in one second.
pub const NANOS_PER_SEC: Nanos = 1_000_000_000;

/// Interval between two liveness checks unless configured otherwise.
pub const DEFAULT_HEARTBEAT: Nanos = 5 * NANOS_PER_SEC;

/// Silence tolerated from the peer unless configured otherwise.
pub const DEFAULT_TIMEOUT: Nanos = 20 * NANOS_PER_SEC;

/// Unanswered probes tolerated unless configured otherwise.
pub const DEFAULT_MAX_TIMEOUT: u8 = 6;

/// The span of `secs` whole seconds and `subsec` nanoseconds more.
pub open spec fn span_of(secs: u64, subsec: u32) -> nat {
    (secs * NANOS_PER_SEC + subsec) as nat
}

/// Puts a span together from whole seconds and the nanoseconds beyond them.
pub fn nanos_from_parts(secs: u64, subsec: u32) -> (span: Nanos)
    ensures
        span == span_of(secs, subsec),
{
    let whole: Nanos = secs as Nanos * NANOS_PER_SEC;
    whole + subsec as Nanos
}

/// Splits a span into whole seconds and the nanoseconds beyond them, which
/// are fewer than a second. There is no answer for a span whose seconds do
/// not fit into 64 bits.
pub fn nanos_into_parts(span: Nanos) -> (parts: Option<(u64, u32)>)
    ensures
        span / NANOS_PER_SEC <= u64::MAX ==> parts == Some(
            ((span / NANOS_PER_SEC) as u64, (span % NANOS_PER_SEC) as u32),
        ),
        span / NANOS_PER_SEC > u64::MAX ==> parts is None,
        parts matches Some((secs, subsec)) ==> subsec < NANOS_PER_SEC && span_of(secs, subsec)
            == span,
{
    let secs: Nanos = span / NANOS_PER_SEC;
    let subsec: Nanos = span % NANOS_PER_SEC;
    if secs <= u64::MAX as Nanos {
        Some((secs as u64, subsec as u32))
    } else {
        None
    }
}

/// Seconds and nanoseconds that are put together and split again come out
/// as they went in, provided the nanoseconds are fewer than a second.
pub proof fn law_parts_survive_the_round_trip(secs: u64, subsec: u32)
    requires
        subsec < NANOS_PER_SEC,
    ensures
        span_of(secs, subsec) <= u128::MAX,
        span_of(secs, subsec) / (NANOS_PER_SEC as nat) == secs,
        span_of(secs, subsec) % (NANOS_PER_SEC as nat) == subsec,
{
}

/// Settings that are fixed when the server starts and are read, never
/// written, by the connections that share them.
#[derive(Debug, Clone)]
pub struct Config {
    /// Location of the record store.
    pub db: String,
    /// Time between two liveness checks of a connection.
    pub heartbeat: Nanos,
    /// Longest silence from the peer that still counts as alive.
    pub timeout: Nanos,
    /// Unanswered probes tolerated before the connection is closed;
    /// `0` tolerates any number.
    pub max_timeout: u8,
}

impl Config {
    /// Both durations are positive. A `timeout` that does not exceed
    /// `heartbeat` is accepted; every check then finds the peer silent for
    /// too long.
    pub open spec fn wf(&self) -> bool {
        self.heartbeat > 0 && self.timeout > 0
    }

    /// The number of unanswered probes is not limited.
    pub open spec fn unlimited(&self) -> bool {
        self.max_timeout == 0
    }

    /// Tells whether both durations are positive.
    pub fn is_valid(&self) -> (ok: bool)
        ensures
            ok == self.wf(),
    {
        self.heartbeat > 0 && self.timeout > 0
    }
}

impl Default for Config {
    /// Checks every five seconds, tolerates twenty seconds of silence and
    /// six unanswered probes, and keeps the records in `db.sqlite`.
    fn default() -> (cfg: Self)
        ensures
            cfg.db@ == "db.sqlite"@,
            cfg.heartbeat == DEFAULT_HEARTBEAT,
            cfg.timeout == DEFAULT_TIMEOUT,
            cfg.max_timeout == DEFAULT_MAX_TIMEOUT,
            cfg.wf(),
    {
        Config {
            db: "db.sqlite".to_owned(),
            heartbeat: DEFAULT_HEARTBEAT,
            timeout: DEFAULT_TIMEOUT,
            max_timeout: DEFAULT_MAX_TIMEOUT,
        }
    }
}

} // verus!
