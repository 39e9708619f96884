//! The summary loop's tick: decide whether to summarize, select and order
//! the captures of the trailing window, and turn the outcome of assembly and
//! remote summarization into the records to persist.

use vstd::prelude::*;
use crate::records::{ApiTelemetry, ScreenshotTrace, SummaryDraft};
use crate::remote::{telemetry_endpoint, ApiRequestResult, ClientError};

verus! {

broadcast use vstd::seq_lib::group_to_multiset_ensures;

/// The shortest summary interval a user may configure, in seconds.
pub const MIN_INTERVAL_SECONDS: u64 = 10;

/// The longest summary interval a user may configure, in seconds.
pub const MAX_INTERVAL_SECONDS: u64 = 3600;

/// The summary loop's timer: the interval it was built with.
#[derive(Debug, Clone, Copy, PartialEq, Eq, Structural)]
pub struct SummaryTimer {
    pub current_interval: u64,
}

/// Why a tick does no summarization.
#[derive(Debug, Clone, Copy, PartialEq, Eq, Structural)]
pub enum SkipReason {
    /// No API credential is configured.
    NoCredential,
}

/// What a tick of the summary loop does.
#[derive(Debug, Clone, Copy, PartialEq, Eq, Structural)]
pub enum TickAction {
    /// The session is no longer active: leave the loop, with no side effect.
    /// The loop is not aborted by `stop`; it ends here, on its next tick.
    Exit,
    /// Nothing this tick.
    Skip { reason: SkipReason },
    /// The configured interval changed: rebuild the timer with it and
    /// summarize nothing this tick.
    RebuildTimer { interval_seconds: u64 },
    /// Query the captures whose timestamp is at or after `start_ms`.
    QueryWindow { start_ms: i64 },
}

impl SummaryTimer {
    /// A timer for the configured interval.
    pub fn new(interval_seconds: u64) -> (r: SummaryTimer)
        ensures
            r.current_interval == interval_seconds,
    {
        SummaryTimer { current_interval: interval_seconds }
    }
}

/// The decision of one tick, and the timer's interval after it.
pub open spec fn tick_spec(
    current: u64,
    is_active: bool,
    configured: u64,
    has_credential: bool,
    now_ms: i64,
) -> (u64, TickAction) {
    if !is_active {
        (current, TickAction::Exit)
    } else if configured != current {
        (configured, TickAction::RebuildTimer { interval_seconds: configured })
    } else if !has_credential {
        (current, TickAction::Skip { reason: SkipReason::NoCredential })
    } else {
        (current, TickAction::QueryWindow { start_ms: (now_ms - current * 1000) as i64 })
    }
}

/// Decides one tick of the summary loop: leave once inactive; when the
/// configured interval differs from the timer's, adopt it and skip; skip
/// without a credential; otherwise query the trailing window of the
/// interval's length that ends at `now_ms`.
pub fn summary_tick(
    timer: &mut SummaryTimer,
    is_active: bool,
    configured_interval: u64,
    has_credential: bool,
    now_ms: i64,
) -> (r: TickAction)
    requires
        old(timer).current_interval <= MAX_INTERVAL_SECONDS,
        configured_interval <= MAX_INTERVAL_SECONDS,
        now_ms >= i64::MIN + MAX_INTERVAL_SECONDS * 1000,
    ensures
        (final(timer).current_interval, r) == tick_spec(
            old(timer).current_interval,
            is_active,
            configured_interval,
            has_credential,
            now_ms,
        ),
{
    if !is_active {
        return TickAction::Exit;
    }
    if configured_interval != timer.current_interval {
        timer.current_interval = configured_interval;
        return TickAction::RebuildTimer { interval_seconds: configured_interval };
    }
    if !has_credential {
        return TickAction::Skip { reason: SkipReason::NoCredential };
    }
    let span = (timer.current_interval * 1000) as i64;
    TickAction::QueryWindow { start_ms: now_ms - span }
}

/// A change of the interval is adopted on the tick that detects it, which
/// summarizes nothing; from the next tick on, the window has the new length.
pub proof fn lemma_interval_change_takes_effect_next_tick(
    current: u64,
    configured: u64,
    has_credential: bool,
    detect_ms: i64,
    next_ms: i64,
)
    requires
        current != configured,
        configured <= MAX_INTERVAL_SECONDS,
        next_ms >= i64::MIN + MAX_INTERVAL_SECONDS * 1000,
    ensures
        tick_spec(current, true, configured, has_credential, detect_ms) == (
            configured,
            TickAction::RebuildTimer { interval_seconds: configured },
        ),
        has_credential ==> tick_spec(configured, true, configured, true, next_ms).1 == (
        TickAction::QueryWindow { start_ms: (next_ms - configured * 1000) as i64 }),
{
}

/// Without a credential an active tick never queries, so it makes no
/// network call and persists nothing.
pub proof fn lemma_no_credential_skips(current: u64, configured: u64, now_ms: i64)
    ensures
        !(tick_spec(current, true, configured, false, now_ms).1 is QueryWindow),
{
}

/// The captures of `s` at or after `start_ms`, in the order of `s`.
pub open spec fn window_of(s: Seq<ScreenshotTrace>, start_ms: i64) -> Seq<ScreenshotTrace>
    decreases s.len(),
{
    if s.len() == 0 {
        Seq::empty()
    } else if s.last().timestamp_ms >= start_ms {
        window_of(s.drop_last(), start_ms).push(s.last())
    } else {
        window_of(s.drop_last(), start_ms)
    }
}

/// Whether captures are in ascending timestamp order.
pub open spec fn ascending(s: Seq<ScreenshotTrace>) -> bool {
    forall|i: int, j: int| 0 <= i < j < s.len() ==> s[i].timestamp_ms <= s[j].timestamp_ms
}

/// Inserts a capture into an ascending sequence, after those not later
/// than it.
fn insert_ordered(frames: &mut Vec<ScreenshotTrace>, t: ScreenshotTrace)
    requires
        ascending(old(frames)@),
    ensures
        ascending(final(frames)@),
        final(frames)@.to_multiset() == old(frames)@.to_multiset().insert(t),
{
    let mut i: usize = 0;
    while i < frames.len() && frames[i].timestamp_ms <= t.timestamp_ms
        invariant
            i <= frames@.len(),
            frames@ == old(frames)@,
            forall|k: int| 0 <= k < i ==> frames@[k].timestamp_ms <= t.timestamp_ms,
        decreases frames@.len() - i,
    {
        i = i + 1;
    }
    proof {
        vstd::seq_lib::to_multiset_insert(frames@, i as int, t);
    }
    let ghost ts = t.timestamp_ms;
    frames.insert(i, t);
    assert forall|a: int, b: int| 0 <= a < b < frames@.len() implies frames@[a].timestamp_ms
        <= frames@[b].timestamp_ms by {
        if a == i {
            assert(old(frames)@[i as int].timestamp_ms > ts);
        } else if a < i && b > i {
            assert(frames@[b] == old(frames)@[b - 1]);
        }
    }
}

/// Selects the captures of the trailing window, those at or after
/// `start_ms`, and orders them by ascending timestamp, whatever order
/// storage returned them in.
pub fn plan_frames(records: Vec<ScreenshotTrace>, start_ms: i64) -> (r: Vec<ScreenshotTrace>)
    ensures
        ascending(r@),
        r@.to_multiset() == window_of(records@, start_ms).to_multiset(),
{
    let mut rest = records;
    let mut frames: Vec<ScreenshotTrace> = Vec::new();
    while rest.len() > 0
        invariant
            ascending(frames@),
            frames@.to_multiset().add(window_of(rest@, start_ms).to_multiset())
                == window_of(records@, start_ms).to_multiset(),
        decreases rest@.len(),
    {
        let ghost before = rest@;
        let t = rest.pop().unwrap();
        assert(rest@ == before.drop_last());
        if t.timestamp_ms >= start_ms {
            insert_ordered(&mut frames, t);
        }
        proof {
            assert(frames@.to_multiset().add(window_of(rest@, start_ms).to_multiset())
                =~= window_of(records@, start_ms).to_multiset());
        }
    }
    frames
}

/// Whether a capture falls in the window starting at `start_ms`.
pub open spec fn in_window(start_ms: i64) -> spec_fn(ScreenshotTrace) -> bool {
    |t: ScreenshotTrace| t.timestamp_ms >= start_ms
}

/// The timestamps of captures, in order.
pub open spec fn timestamps(s: Seq<ScreenshotTrace>) -> Seq<i64> {
    s.map_values(|t: ScreenshotTrace| t.timestamp_ms)
}

/// The window of a retrieval depends only on which captures it returned,
/// not on their order.
proof fn lemma_window_multiset(s: Seq<ScreenshotTrace>, start_ms: i64)
    ensures
        window_of(s, start_ms).to_multiset() == s.to_multiset().filter(in_window(start_ms)),
    decreases s.len(),
{
    broadcast use vstd::multiset::group_multiset_axioms;

    if s.len() == 0 {
        assert(window_of(s, start_ms).to_multiset() =~= s.to_multiset().filter(in_window(start_ms)));
    } else {
        let p = s.drop_last();
        lemma_window_multiset(p, start_ms);
        assert(s =~= p.push(s.last()));
        vstd::seq_lib::to_multiset_build(p, s.last());
        if s.last().timestamp_ms >= start_ms {
            vstd::seq_lib::to_multiset_build(window_of(p, start_ms), s.last());
        }
        assert(window_of(s, start_ms).to_multiset() =~= s.to_multiset().filter(in_window(start_ms)));
    }
}

/// Two ascending orderings of the same captures list the same timestamps.
proof fn lemma_ascending_same_timestamps(x: Seq<ScreenshotTrace>, y: Seq<ScreenshotTrace>)
    requires
        ascending(x),
        ascending(y),
        x.to_multiset() == y.to_multiset(),
    ensures
        timestamps(x) == timestamps(y),
    decreases x.len(),
{
    broadcast use vstd::seq_lib::group_to_multiset_ensures;

    vstd::seq_lib::to_multiset_len(x);
    vstd::seq_lib::to_multiset_len(y);
    if x.len() == 0 {
        assert(y.len() == 0);
        assert(timestamps(x) =~= timestamps(y));
    } else {
        let n = x.len() - 1;
        let m = x.last();
        assert(x.contains(m)) by {
            assert(x[n] == m);
        }
        vstd::seq_lib::to_multiset_contains(x, m);
        vstd::seq_lib::to_multiset_contains(y, m);
        assert(y.contains(m));
        let j = choose|j: int| 0 <= j < y.len() && y[j] == m;
        let yl = y.last();
        assert(y.contains(yl)) by {
            assert(y[y.len() - 1] == yl);
        }
        vstd::seq_lib::to_multiset_contains(x, yl);
        vstd::seq_lib::to_multiset_contains(y, yl);
        assert(x.contains(yl));
        let k = choose|k: int| 0 <= k < x.len() && x[k] == yl;
        assert(yl.timestamp_ms <= m.timestamp_ms) by {
            if k < n {
            }
        }
        assert(forall|i: int| j <= i < y.len() ==> #[trigger] y[i].timestamp_ms == m.timestamp_ms) by {
            assert forall|i: int| j <= i < y.len() implies #[trigger] y[i].timestamp_ms == m.timestamp_ms by {
                if i < y.len() - 1 {
                    assert(y[i].timestamp_ms <= yl.timestamp_ms);
                }
                if j < i {
                    assert(y[j].timestamp_ms <= y[i].timestamp_ms);
                }
            }
        }
        let y2 = y.remove(j);
        vstd::seq_lib::to_multiset_remove(y, j);
        vstd::seq_lib::to_multiset_remove(x, n);
        assert(x.remove(n) =~= x.drop_last());
        assert(ascending(y2)) by {
            assert forall|a: int, b: int| 0 <= a < b < y2.len() implies y2[a].timestamp_ms
                <= y2[b].timestamp_ms by {
                let a1 = if a < j {
                    a
                } else {
                    a + 1
                };
                let b1 = if b < j {
                    b
                } else {
                    b + 1
                };
                assert(y2[a] == y[a1]);
                assert(y2[b] == y[b1]);
            }
        }
        lemma_ascending_same_timestamps(x.drop_last(), y2);
        assert(timestamps(x) =~= timestamps(x.drop_last()).push(m.timestamp_ms));
        assert(timestamps(y) =~= timestamps(y2).push(m.timestamp_ms)) by {
            assert forall|i: int| 0 <= i < y.len() implies #[trigger] timestamps(y)[i]
                == timestamps(y2).push(m.timestamp_ms)[i] by {
                if i < j {
                    assert(y2[i] == y[i]);
                } else if i < y.len() - 1 {
                    assert(y2[i] == y[i + 1]);
                }
            }
        }
    }
}

/// The frames of a cycle come out in ascending timestamp order whatever
/// order storage returned the captures in: two retrievals of the same
/// captures, in any orders, give frames with the same timestamp sequence.
pub proof fn lemma_frame_order_independent_of_retrieval(
    a: Seq<ScreenshotTrace>,
    b: Seq<ScreenshotTrace>,
    start_ms: i64,
    frames_a: Seq<ScreenshotTrace>,
    frames_b: Seq<ScreenshotTrace>,
)
    requires
        a.to_multiset() == b.to_multiset(),
        ascending(frames_a),
        frames_a.to_multiset() == window_of(a, start_ms).to_multiset(),
        ascending(frames_b),
        frames_b.to_multiset() == window_of(b, start_ms).to_multiset(),
    ensures
        timestamps(frames_a) == timestamps(frames_b),
{
    lemma_window_multiset(a, start_ms);
    lemma_window_multiset(b, start_ms);
    lemma_ascending_same_timestamps(frames_a, frames_b);
}

/// How a summarization cycle ended once captures were found.
#[derive(Debug, Clone, PartialEq, Eq)]
pub enum CycleOutcome {
    /// The video could not be assembled; nothing reached the provider.
    AssemblyFailed { detail: String },
    /// A remote phase failed.
    RemoteFailed { error: ClientError },
    /// The provider returned a summary.
    Summarized { result: ApiRequestResult },
}

/// What a cycle persists.
#[derive(Debug, Clone, PartialEq, Eq)]
pub struct CycleRecords {
    pub telemetry: Option<ApiTelemetry>,
    pub summary: Option<SummaryDraft>,
}

/// Whether `t` is the earliest timestamp of the captures.
pub open spec fn is_min_timestamp(s: Seq<ScreenshotTrace>, t: i64) -> bool {
    (forall|i: int| 0 <= i < s.len() ==> t <= #[trigger] s[i].timestamp_ms) && exists|i: int|
        0 <= i < s.len() && #[trigger] s[i].timestamp_ms == t
}

/// Whether `t` is the latest timestamp of the captures.
pub open spec fn is_max_timestamp(s: Seq<ScreenshotTrace>, t: i64) -> bool {
    (forall|i: int| 0 <= i < s.len() ==> #[trigger] s[i].timestamp_ms <= t) && exists|i: int|
        0 <= i < s.len() && #[trigger] s[i].timestamp_ms == t
}

/// The earliest and latest timestamps of a non-empty set of captures.
pub fn timestamp_span(frames: &Vec<ScreenshotTrace>) -> (r: (i64, i64))
    requires
        frames@.len() > 0,
    ensures
        is_min_timestamp(frames@, r.0),
        is_max_timestamp(frames@, r.1),
{
    let mut lo = frames[0].timestamp_ms;
    let mut hi = frames[0].timestamp_ms;
    let mut i: usize = 1;
    while i < frames.len()
        invariant
            1 <= i <= frames@.len(),
            forall|k: int| 0 <= k < i ==> lo <= #[trigger] frames@[k].timestamp_ms,
            forall|k: int| 0 <= k < i ==> #[trigger] frames@[k].timestamp_ms <= hi,
            exists|k: int| 0 <= k < i && #[trigger] frames@[k].timestamp_ms == lo,
            exists|k: int| 0 <= k < i && #[trigger] frames@[k].timestamp_ms == hi,
        decreases frames@.len() - i,
    {
        let t = frames[i].timestamp_ms;
        if t < lo {
            lo = t;
        }
        if t > hi {
            hi = t;
        }
        i = i + 1;
    }
    (lo, hi)
}

/// The telemetry entry of a failed remote phase.
pub open spec fn failed_telemetry(t: ApiTelemetry, model: Seq<char>, error: ClientError) -> bool {
    &&& !t.success
    &&& t.status_code == error.status_spec()
    &&& t.error_message matches Some(m) && m@ == error.message_spec()
    &&& t.model@ == model
    &&& t.endpoint@ == "https://generativelanguage.googleapis.com/v1beta/models"@
    &&& t.prompt_tokens is None
    &&& t.completion_tokens is None
    &&& t.total_tokens is None
    &&& t.duration_ms == 0
}

/// The telemetry entry of a successful summarization.
pub open spec fn succeeded_telemetry(t: ApiTelemetry, model: Seq<char>, result: ApiRequestResult) -> bool {
    &&& t.success
    &&& t.status_code == result.status_code
    &&& t.error_message is None
    &&& t.model@ == model
    &&& t.endpoint@ == "https://generativelanguage.googleapis.com/v1beta/models"@
    &&& t.prompt_tokens == result.prompt_tokens
    &&& t.completion_tokens == result.completion_tokens
    &&& t.total_tokens == result.total_tokens
    &&& t.duration_ms == result.duration_ms
}

/// The summary of a successful cycle over the captures `frames`.
pub open spec fn summary_of(d: SummaryDraft, frames: Seq<ScreenshotTrace>, result: ApiRequestResult) -> bool {
    &&& is_min_timestamp(frames, d.start_time_ms)
    &&& is_max_timestamp(frames, d.end_time_ms)
    &&& d.content@ == result.content@
    &&& d.capture_count == frames.len()
}

/// The records a cycle persists. A failed assembly persists nothing. A
/// failed remote phase persists a failed telemetry entry with the error's
/// status and description, and no summary. A success persists a successful
/// telemetry entry with the token usage and a summary spanning the earliest
/// to the latest of the captures included.
pub fn cycle_records(frames: &Vec<ScreenshotTrace>, model: &str, outcome: CycleOutcome) -> (r:
    CycleRecords)
    requires
        frames@.len() > 0,
    ensures
        match outcome {
            CycleOutcome::AssemblyFailed { .. } => r.telemetry is None && r.summary is None,
            CycleOutcome::RemoteFailed { error } => r.summary is None && (r.telemetry matches Some(
                t,
            ) && failed_telemetry(t, model@, error)),
            CycleOutcome::Summarized { result } => (r.telemetry matches Some(t)
                && succeeded_telemetry(t, model@, result)) && (r.summary matches Some(d)
                && summary_of(d, frames@, result)),
        },
{
    match outcome {
        CycleOutcome::AssemblyFailed { .. } => CycleRecords { telemetry: None, summary: None },
        CycleOutcome::RemoteFailed { error } => {
            let t = ApiTelemetry {
                model: String::from_str(model),
                endpoint: String::from_str(telemetry_endpoint()),
                prompt_tokens: None,
                completion_tokens: None,
                total_tokens: None,
                status_code: error.status_code(),
                success: false,
                error_message: Some(error.message()),
                duration_ms: 0,
            };
            CycleRecords { telemetry: Some(t), summary: None }
        },
        CycleOutcome::Summarized { result } => {
            let t = ApiTelemetry {
                model: String::from_str(model),
                endpoint: String::from_str(telemetry_endpoint()),
                prompt_tokens: result.prompt_tokens,
                completion_tokens: result.completion_tokens,
                total_tokens: result.total_tokens,
                status_code: result.status_code,
                success: true,
                error_message: None,
                duration_ms: result.duration_ms,
            };
            let (start, end) = timestamp_span(frames);
            let d = SummaryDraft {
                start_time_ms: start,
                end_time_ms: end,
                content: result.content,
                capture_count: frames.len() as u64,
            };
            CycleRecords { telemetry: Some(t), summary: Some(d) }
        },
    }
}

/// Every summary a cycle produces starts no later than it ends, and its
/// bounds are the earliest and latest timestamps of the captures included.
pub proof fn lemma_summary_span(frames: Seq<ScreenshotTrace>, d: SummaryDraft)
    requires
        frames.len() > 0,
        is_min_timestamp(frames, d.start_time_ms),
        is_max_timestamp(frames, d.end_time_ms),
    ensures
        d.start_time_ms <= d.end_time_ms,
{
    assert(d.start_time_ms <= frames[0].timestamp_ms);
    assert(frames[0].timestamp_ms <= d.end_time_ms);
}

} // verus!
