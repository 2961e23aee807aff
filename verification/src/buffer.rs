//! The shared buffer between the acquisition worker and the polling
//! consumer, and the poll result it is drained into.
//!
//! Pending lines and samples are bounded: appending past the cap drops the
//! oldest entries, a recency-over-completeness policy, not an error. The
//! drain is consume-once: returned items leave the buffer.

use vstd::prelude::*;
use vstd::string::StringExecFns;
use vstd::string::StringSliceAdditionalSpecFns;
use vstd::utf8::encode_utf8;
use crate::value::PhysValue;

verus! {

/// Cap on buffered log lines.
pub const MAX_PENDING_LINES: usize = 1500;

/// Cap on buffered decoded samples.
pub const MAX_PENDING_SAMPLES: usize = 500;

/// The worker's current operating regime, reported to consumers.
#[derive(Clone, Copy, Debug, PartialEq, Eq, Structural)]
pub enum ProtocolMode {
    /// No worker is producing data.
    Stopped,
    /// The deterministic simulator is producing data.
    Simulator,
    /// The adapter initialization sequence is running.
    ElmInitializing,
    /// Standard-PID querying over an initialized adapter.
    ElmObd,
    /// Standard-PID querying, and at least one manufacturer channel decoded.
    ElmBmw,
    /// Initialization failed; raw bytes are captured without decoding.
    RawFallback,
}

impl ProtocolMode {
    /// The mode's wire label.
    pub open spec fn spec_label(self) -> Seq<char> {
        match self {
            ProtocolMode::Stopped => "stopped"@,
            ProtocolMode::Simulator => "simulator"@,
            ProtocolMode::ElmInitializing => "elm_initializing"@,
            ProtocolMode::ElmObd => "elm_obd"@,
            ProtocolMode::ElmBmw => "elm+bmw"@,
            ProtocolMode::RawFallback => "raw_fallback"@,
        }
    }

    /// Renders the mode as its wire label.
    pub fn label(&self) -> (r: &'static str)
        ensures
            r@ == self.spec_label(),
    {
        match self {
            ProtocolMode::Stopped => "stopped",
            ProtocolMode::Simulator => "simulator",
            ProtocolMode::ElmInitializing => "elm_initializing",
            ProtocolMode::ElmObd => "elm_obd",
            ProtocolMode::ElmBmw => "elm+bmw",
            ProtocolMode::RawFallback => "raw_fallback",
        }
    }
}

/// One acquisition cycle's decoded result: a millisecond epoch timestamp and
/// the values of the keys that decoded in that cycle. Immutable once built.
pub struct DecodedSample {
    /// Millisecond epoch timestamp of the cycle.
    pub timestamp_ms: u128,
    /// Decoded values, one entry per key that decoded.
    pub values: Vec<(String, PhysValue)>,
}

/// A sequence capped to its most recent `cap` entries.
pub open spec fn spec_cap_seq<T>(s: Seq<T>, cap: int) -> Seq<T> {
    if s.len() > cap {
        s.skip(s.len() - cap)
    } else {
        s
    }
}

/// Appending to a bounded sequence: push, then drop the oldest overflow.
pub open spec fn spec_push_capped<T>(s: Seq<T>, x: T, cap: int) -> Seq<T> {
    spec_cap_seq(s.push(x), cap)
}

/// The byte length of a string view.
pub open spec fn str_byte_len(s: Seq<char>) -> nat {
    encode_utf8(s).len()
}

/// Saturating add on the cumulative byte counter.
pub open spec fn spec_sat_add_u64(t: u64, n: nat) -> u64 {
    if t + n <= u64::MAX {
        (t + n) as u64
    } else {
        u64::MAX
    }
}

/// Pending lines after appending a batch, oldest first, each capped.
pub open spec fn spec_lines_after(s: Seq<String>, batch: Seq<String>) -> Seq<String>
    decreases batch.len(),
{
    if batch.len() == 0 {
        s
    } else {
        spec_lines_after(
            spec_push_capped(s, batch[0], MAX_PENDING_LINES as int),
            batch.drop_first(),
        )
    }
}

/// The byte counter after crediting a batch of lines.
pub open spec fn spec_bytes_after(t: u64, batch: Seq<String>) -> u64
    decreases batch.len(),
{
    if batch.len() == 0 {
        t
    } else {
        spec_bytes_after(spec_sat_add_u64(t, str_byte_len(batch[0]@)), batch.drop_first())
    }
}

/// Drops the oldest entries until the vector is within the cap.
fn evict_to_cap<T>(v: &mut Vec<T>, cap: usize)
    requires
        cap >= 1,
    ensures
        final(v)@ == spec_cap_seq(old(v)@, cap as int),
{
    while v.len() > cap
        invariant
            spec_cap_seq(v@, cap as int) == spec_cap_seq(old(v)@, cap as int),
        decreases v@.len(),
    {
        let ghost before = v@;
        let _ = v.remove(0);
        proof {
            assert(v@ =~= before.drop_first());
            assert(before.drop_first().skip(before.drop_first().len() - cap) =~= before.skip(
                before.len() - cap,
            ));
        }
    }
}

/// The mutex-guarded state one session's worker fills and the poller drains.
pub struct DatalogSharedState {
    /// Most recent recorded failure; never cleared automatically.
    pub last_error: Option<String>,
    /// Buffered log lines, oldest first, at most `MAX_PENDING_LINES`.
    pub pending_lines: Vec<String>,
    /// Buffered decoded samples, oldest first, at most `MAX_PENDING_SAMPLES`.
    pub pending_samples: Vec<DecodedSample>,
    /// Cumulative bytes handled, saturating.
    pub total_bytes: u64,
    /// Current operating regime.
    pub protocol_mode: ProtocolMode,
}

/// What a poll returns: the drained lines and samples and the session's
/// current counters, error, and mode.
pub struct DatalogPollUpdate {
    /// Whether a session was active when polled.
    pub is_logging: bool,
    /// Most recent recorded failure of the session, if any.
    pub last_error: Option<String>,
    /// Drained log lines, oldest first.
    pub lines: Vec<String>,
    /// Cumulative bytes handled by the session.
    pub total_bytes: u64,
    /// Drained decoded samples, oldest first.
    pub decoded_samples: Vec<DecodedSample>,
    /// The session's operating regime.
    pub protocol_mode: ProtocolMode,
}

impl DatalogSharedState {
    /// Both pending buffers are within their caps.
    pub open spec fn wf(self) -> bool {
        self.pending_lines@.len() <= MAX_PENDING_LINES
            && self.pending_samples@.len() <= MAX_PENDING_SAMPLES
    }

    /// A fresh, empty buffer for a new session.
    pub fn new() -> (r: DatalogSharedState)
        ensures
            r.last_error is None,
            r.pending_lines@.len() == 0,
            r.pending_samples@.len() == 0,
            r.total_bytes == 0,
            r.protocol_mode == ProtocolMode::Stopped,
            r.wf(),
    {
        DatalogSharedState {
            last_error: None,
            pending_lines: Vec::new(),
            pending_samples: Vec::new(),
            total_bytes: 0,
            protocol_mode: ProtocolMode::Stopped,
        }
    }

    /// Sets the operating regime; everything else is untouched.
    pub fn set_mode(&mut self, mode: ProtocolMode)
        ensures
            final(self).protocol_mode == mode,
            final(self).last_error == old(self).last_error,
            final(self).pending_lines == old(self).pending_lines,
            final(self).pending_samples == old(self).pending_samples,
            final(self).total_bytes == old(self).total_bytes,
    {
        self.protocol_mode = mode;
    }

    /// Records a failure message; everything else is untouched. The message
    /// stays until overwritten: a later successful cycle does not clear it.
    pub fn record_error(&mut self, message: String)
        ensures
            final(self).last_error == Some(message),
            final(self).protocol_mode == old(self).protocol_mode,
            final(self).pending_lines == old(self).pending_lines,
            final(self).pending_samples == old(self).pending_samples,
            final(self).total_bytes == old(self).total_bytes,
    {
        self.last_error = Some(message);
    }

    /// Records the initialization failure and degrades to raw capture: the
    /// mode becomes `RawFallback` and a non-empty failure message is set.
    pub fn mark_init_failure(&mut self)
        ensures
            final(self).protocol_mode == ProtocolMode::RawFallback,
            final(self).last_error matches Some(m) && m@
                == "Adapter init failed. Falling back to raw serial capture."@ && m@.len() > 0,
            final(self).pending_lines == old(self).pending_lines,
            final(self).pending_samples == old(self).pending_samples,
            final(self).total_bytes == old(self).total_bytes,
    {
        proof {
            reveal_strlit("Adapter init failed. Falling back to raw serial capture.");
        }
        self.last_error = Some(
            String::from_str("Adapter init failed. Falling back to raw serial capture."),
        );
        self.protocol_mode = ProtocolMode::RawFallback;
    }

    /// Appends one log line, dropping the oldest line when the cap is hit.
    pub fn push_line(&mut self, line: String)
        ensures
            final(self).pending_lines@ == spec_push_capped(
                old(self).pending_lines@,
                line,
                MAX_PENDING_LINES as int,
            ),
            final(self).pending_lines@.len() <= MAX_PENDING_LINES,
            final(self).last_error == old(self).last_error,
            final(self).pending_samples == old(self).pending_samples,
            final(self).total_bytes == old(self).total_bytes,
            final(self).protocol_mode == old(self).protocol_mode,
    {
        self.pending_lines.push(line);
        evict_to_cap(&mut self.pending_lines, MAX_PENDING_LINES);
    }

    /// Appends one decoded sample, dropping the oldest when the cap is hit.
    pub fn push_sample(&mut self, sample: DecodedSample)
        ensures
            final(self).pending_samples@ == spec_push_capped(
                old(self).pending_samples@,
                sample,
                MAX_PENDING_SAMPLES as int,
            ),
            final(self).pending_samples@.len() <= MAX_PENDING_SAMPLES,
            final(self).last_error == old(self).last_error,
            final(self).pending_lines == old(self).pending_lines,
            final(self).total_bytes == old(self).total_bytes,
            final(self).protocol_mode == old(self).protocol_mode,
    {
        self.pending_samples.push(sample);
        evict_to_cap(&mut self.pending_samples, MAX_PENDING_SAMPLES);
    }

    /// Credits bytes to the cumulative counter, saturating.
    pub fn note_bytes(&mut self, n: u64)
        ensures
            final(self).total_bytes == spec_sat_add_u64(old(self).total_bytes, n as nat),
            final(self).last_error == old(self).last_error,
            final(self).pending_lines == old(self).pending_lines,
            final(self).pending_samples == old(self).pending_samples,
            final(self).protocol_mode == old(self).protocol_mode,
    {
        if self.total_bytes <= u64::MAX - n {
            self.total_bytes = self.total_bytes + n;
        } else {
            self.total_bytes = u64::MAX;
        }
    }

    /// Commits one raw-capture read: credits the chunk's raw byte count and
    /// appends its rendered line.
    pub fn commit_raw_chunk(&mut self, byte_count: u64, line: String)
        ensures
            final(self).total_bytes == spec_sat_add_u64(old(self).total_bytes, byte_count as nat),
            final(self).pending_lines@ == spec_push_capped(
                old(self).pending_lines@,
                line,
                MAX_PENDING_LINES as int,
            ),
            final(self).pending_samples == old(self).pending_samples,
            final(self).last_error == old(self).last_error,
            final(self).protocol_mode == old(self).protocol_mode,
            old(self).wf() ==> final(self).wf(),
    {
        self.note_bytes(byte_count);
        self.push_line(line);
    }

    /// Commits one acquisition tick: credits and appends the tick's log
    /// lines (oldest first), appends the joint sample when any value
    /// decoded, and upgrades the mode to `ElmBmw` when a manufacturer
    /// channel decoded — the upgrade is monotonic, the mode is otherwise
    /// untouched.
    pub fn commit_tick(
        &mut self,
        timestamp_ms: u128,
        values: Vec<(String, PhysValue)>,
        lines: Vec<String>,
        has_bmw: bool,
    )
        ensures
            final(self).protocol_mode == if has_bmw {
                ProtocolMode::ElmBmw
            } else {
                old(self).protocol_mode
            },
            final(self).pending_lines@ == spec_lines_after(old(self).pending_lines@, lines@),
            final(self).total_bytes == spec_bytes_after(old(self).total_bytes, lines@),
            final(self).pending_samples@ == if values@.len() == 0 {
                old(self).pending_samples@
            } else {
                spec_push_capped(
                    old(self).pending_samples@,
                    (DecodedSample { timestamp_ms, values }),
                    MAX_PENDING_SAMPLES as int,
                )
            },
            final(self).last_error == old(self).last_error,
            old(self).wf() ==> final(self).wf(),
    {
        if has_bmw {
            self.protocol_mode = ProtocolMode::ElmBmw;
        }
        let mut batch = lines;
        while batch.len() > 0
            invariant
                spec_lines_after(old(self).pending_lines@, lines@) == spec_lines_after(
                    self.pending_lines@,
                    batch@,
                ),
                spec_bytes_after(old(self).total_bytes, lines@) == spec_bytes_after(
                    self.total_bytes,
                    batch@,
                ),
                self.last_error == old(self).last_error,
                self.pending_samples == old(self).pending_samples,
                self.protocol_mode == if has_bmw {
                    ProtocolMode::ElmBmw
                } else {
                    old(self).protocol_mode
                },
                self.pending_lines@.len() <= MAX_PENDING_LINES
                    || self.pending_lines@ == old(self).pending_lines@,
            decreases batch@.len(),
        {
            let ghost batch_before = batch@;
            let line = batch.remove(0);
            let n = line.as_str().as_bytes().len();
            proof {
                assert(line == batch_before[0]);
                assert(n as nat == str_byte_len(batch_before[0]@));
                assert((n as u64) as nat == n as nat);
            }
            self.note_bytes(n as u64);
            self.push_line(line);
            proof {
                assert(batch@ =~= batch_before.drop_first());
            }
        }
        if values.len() > 0 {
            self.push_sample(DecodedSample { timestamp_ms, values });
        }
    }

    /// Drains the buffer for one poll: removes and returns all pending
    /// samples and the most recent `limit` pending lines (older excess is
    /// discarded), along with the counters, last error, and mode. Items
    /// returned leave the buffer — consume-once, not a snapshot.
    pub fn drain(&mut self, limit: usize) -> (r: DatalogPollUpdate)
        requires
            limit >= 1,
        ensures
            r.is_logging == true,
            r.lines@ == spec_cap_seq(old(self).pending_lines@, limit as int),
            r.lines@.len() <= limit,
            r.decoded_samples@ == old(self).pending_samples@,
            r.total_bytes == old(self).total_bytes,
            r.last_error == old(self).last_error,
            r.protocol_mode == old(self).protocol_mode,
            old(self).wf() ==> r.decoded_samples@.len() <= MAX_PENDING_SAMPLES,
            old(self).wf() ==> r.lines@.len() <= MAX_PENDING_LINES,
            final(self).pending_lines@.len() == 0,
            final(self).pending_samples@.len() == 0,
            final(self).total_bytes == old(self).total_bytes,
            final(self).last_error == old(self).last_error,
            final(self).protocol_mode == old(self).protocol_mode,
            final(self).wf(),
    {
        let mut lines: Vec<String> = Vec::new();
        core::mem::swap(&mut lines, &mut self.pending_lines);
        evict_to_cap(&mut lines, limit);
        let mut samples: Vec<DecodedSample> = Vec::new();
        core::mem::swap(&mut samples, &mut self.pending_samples);
        let last_error = match &self.last_error {
            None => None,
            Some(s) => Some(s.clone()),
        };
        DatalogPollUpdate {
            is_logging: true,
            last_error,
            lines,
            total_bytes: self.total_bytes,
            decoded_samples: samples,
            protocol_mode: self.protocol_mode,
        }
    }
}

/// The line budget a poll call works with: the caller's request, defaulting
/// to 400 and never below one.
pub open spec fn spec_effective_line_limit(max_lines: Option<usize>) -> int {
    match max_lines {
        None => 400,
        Some(n) => if n < 1 {
            1
        } else {
            n as int
        },
    }
}

/// Normalizes a poll caller's line budget: 400 when unspecified, at least 1.
pub fn effective_line_limit(max_lines: Option<usize>) -> (r: usize)
    ensures
        r == spec_effective_line_limit(max_lines),
        r >= 1,
{
    match max_lines {
        None => 400,
        Some(n) => if n < 1 {
            1
        } else {
            n
        },
    }
}

impl DatalogPollUpdate {
    /// The synthetic result of polling with no active session: not logging,
    /// stopped, empty data, no error.
    pub fn stopped() -> (r: DatalogPollUpdate)
        ensures
            r.is_logging == false,
            r.last_error is None,
            r.lines@.len() == 0,
            r.total_bytes == 0,
            r.decoded_samples@.len() == 0,
            r.protocol_mode == ProtocolMode::Stopped,
    {
        DatalogPollUpdate {
            is_logging: false,
            last_error: None,
            lines: Vec::new(),
            total_bytes: 0,
            decoded_samples: Vec::new(),
            protocol_mode: ProtocolMode::Stopped,
        }
    }
}

} // verus!
