//! Forwarding audit events to other primals: the provenance DAG and the
//! attribution braids.
//!
//! The configuration, the resolution of the two targets and the cursor
//! discipline live here; the calls run outside the library. Forwarding is
//! best effort: the cursor stops at the last event that was forwarded (or
//! skipped as below the minimum severity), so the events after a failure
//! are tried again on the next poll.

use crate::integrations::rpc::{RpcError, TransportEndpoint, is_tcp_of, parse_tcp_host_port, parse_tcp_spec};
use crate::observability::audit_log::EventSeverity;
use crate::text;
use std::time::Duration;
use vstd::prelude::*;

verus! {

/// Capability domain socket name for provenance.
pub const PROVENANCE_CAPABILITY: &'static str = "provenance";

/// Capability domain socket name for attribution.
pub const ATTRIBUTION_CAPABILITY: &'static str = "attribution";

/// Default IPC timeout for forwarding calls, in seconds.
pub const FORWARD_TIMEOUT_SECS: u64 = 5;

/// Default polling interval of the forwarding loop, in seconds.
pub const POLL_INTERVAL_SECS: u64 = 10;

/// Minimum event severity forwarded by default (Info-level noise is skipped).
pub const MIN_FORWARD_SEVERITY: EventSeverity = EventSeverity::Warn;

/// Events fetched from the audit log per poll.
pub const FORWARD_BATCH: usize = 50;

/// What `Duration::from_secs` returns for a number of seconds.
pub uninterp spec fn duration_of_secs(secs: u64) -> Duration;

/// Calls `Duration::from_secs`; the contract names the duration
/// `duration_of_secs(secs)`.
#[verifier::external_body]
fn duration_from_secs(secs: u64) -> (d: Duration)
    ensures
        d == duration_of_secs(secs),
{
    Duration::from_secs(secs)
}

/// Configuration of the forwarding service.
#[derive(Debug)]
pub struct ForwardingConfig {
    /// How often to poll the audit log for new events.
    pub poll_interval: Duration,
    /// IPC call timeout.
    pub timeout: Duration,
    /// Minimum severity to forward (events below it are skipped).
    pub min_severity: EventSeverity,
    /// Whether forwarding to the provenance DAG is enabled.
    pub dag_enabled: bool,
    /// Whether forwarding to the attribution braids is enabled.
    pub braid_enabled: bool,
}

impl Default for ForwardingConfig {
    /// Poll every 10 s, 5 s timeout, forward `Warn` and above to both targets.
    fn default() -> (r: Self)
        ensures
            r.poll_interval == duration_of_secs(POLL_INTERVAL_SECS),
            r.timeout == duration_of_secs(FORWARD_TIMEOUT_SECS),
            r.min_severity == MIN_FORWARD_SEVERITY,
            r.dag_enabled,
            r.braid_enabled,
    {
        ForwardingConfig {
            poll_interval: duration_from_secs(POLL_INTERVAL_SECS),
            timeout: duration_from_secs(FORWARD_TIMEOUT_SECS),
            min_severity: MIN_FORWARD_SEVERITY,
            dag_enabled: true,
            braid_enabled: true,
        }
    }
}

/// ASCII lowercase of a text, as `str::to_ascii_lowercase` computes it.
pub open spec fn ascii_lower(s: Seq<char>) -> Seq<char> {
    s.map_values(|c: char| if 'A' <= c && c <= 'Z' {
        ((c as u32) + 32) as char
    } else {
        c
    })
}

/// Whether the ASCII lowercase of `s` is `lower`.
fn lower_eq(s: &str, lower: &str) -> (r: bool)
    ensures
        r == (ascii_lower(s@) == lower@),
{
    let n = s.unicode_len();
    if n != lower.unicode_len() {
        proof {
            assert(ascii_lower(s@).len() == s@.len());
        }
        return false;
    }
    let mut i: usize = 0;
    while i < n
        invariant
            n == s@.len(),
            n == lower@.len(),
            i <= n,
            forall|j: int| 0 <= j < i ==> ascii_lower(s@)[j] == lower@[j],
        decreases n - i,
    {
        let c = s.get_char(i);
        let cv = c as u32;
        let target: u32 = if 'A' <= c && c <= 'Z' {
            cv + 32
        } else {
            cv
        };
        if target != lower.get_char(i) as u32 {
            proof {
                assert(ascii_lower(s@)[i as int] != lower@[i as int]);
            }
            return false;
        }
        i = i + 1;
    }
    proof {
        assert(ascii_lower(s@) =~= lower@);
    }
    true
}

/// The minimum severity named by its environment value, read without
/// regard to ASCII case: `info`, `error` or `critical` (both meaning
/// `Error`); anything else, or no value, keeps the default `Warn`.
pub open spec fn min_severity_spec(value: Option<Seq<char>>) -> EventSeverity {
    match value {
        Some(v) => if ascii_lower(v) == "info"@ {
            EventSeverity::Info
        } else if ascii_lower(v) == "error"@ || ascii_lower(v) == "critical"@ {
            EventSeverity::Error
        } else {
            MIN_FORWARD_SEVERITY
        },
        None => MIN_FORWARD_SEVERITY,
    }
}

/// The minimum severity is read without regard to ASCII case: a value
/// spelling `error` or `critical` in any case raises the minimum to `Error`,
/// so that `Warn` events are no longer forwarded; one spelling `info` lowers
/// it to `Info`, so that every event is forwarded.
pub proof fn lemma_min_severity_names(v: Seq<char>)
    ensures
        ascii_lower(v) == "error"@ || ascii_lower(v) == "critical"@ ==> min_severity_spec(Some(v))
            == EventSeverity::Error && EventSeverity::Warn.spec_rank() < min_severity_spec(Some(v)).spec_rank()
            && EventSeverity::Error.spec_rank() >= min_severity_spec(Some(v)).spec_rank(),
        ascii_lower(v) == "info"@ ==> min_severity_spec(Some(v)) == EventSeverity::Info && forall|s: EventSeverity|
            #[trigger] s.spec_rank() >= min_severity_spec(Some(v)).spec_rank(),
        min_severity_spec(None) == EventSeverity::Warn,
{
    reveal_strlit("error");
    reveal_strlit("critical");
    reveal_strlit("info");
    assert("error"@.len() != "info"@.len());
    assert("critical"@.len() != "info"@.len());
    if ascii_lower(v) == "error"@ || ascii_lower(v) == "critical"@ {
        assert(ascii_lower(v) != "info"@);
        assert(min_severity_spec(Some(v)) == EventSeverity::Error);
    }
}

/// A number of seconds from its environment value, or the default when the
/// value is unset or not a number.
pub open spec fn secs_spec(value: Option<Seq<char>>, default_secs: u64) -> u64 {
    match value {
        Some(v) => match text::parse_u64_spec(v) {
            Some(n) => n,
            None => default_secs,
        },
        None => default_secs,
    }
}

fn secs_from(value: Option<&str>, default_secs: u64) -> (r: u64)
    ensures
        r == secs_spec(crate::reconnaissance::opt_view(value), default_secs),
{
    match value {
        Some(v) => match text::parse_u64(v) {
            Some(n) => n,
            None => default_secs,
        },
        None => default_secs,
    }
}

impl ForwardingConfig {
    /// The configuration from the environment values of the poll interval,
    /// the timeout (both in seconds) and the minimum severity; each falls
    /// back to its default. Both targets are enabled.
    pub fn from_env(interval: Option<&str>, timeout: Option<&str>, min_severity: Option<&str>) -> (r: Self)
        ensures
            r.poll_interval == duration_of_secs(
                secs_spec(crate::reconnaissance::opt_view(interval), POLL_INTERVAL_SECS),
            ),
            r.timeout == duration_of_secs(
                secs_spec(crate::reconnaissance::opt_view(timeout), FORWARD_TIMEOUT_SECS),
            ),
            r.min_severity == min_severity_spec(crate::reconnaissance::opt_view(min_severity)),
            r.dag_enabled,
            r.braid_enabled,
    {
        let sev = match min_severity {
            Some(v) => {
                if lower_eq(v, "info") {
                    EventSeverity::Info
                } else if lower_eq(v, "error") || lower_eq(v, "critical") {
                    EventSeverity::Error
                } else {
                    MIN_FORWARD_SEVERITY
                }
            },
            None => MIN_FORWARD_SEVERITY,
        };
        proof {
            reveal_strlit("info");
            reveal_strlit("error");
            reveal_strlit("critical");
        }
        ForwardingConfig {
            poll_interval: duration_from_secs(secs_from(interval, POLL_INTERVAL_SECS)),
            timeout: duration_from_secs(secs_from(timeout, FORWARD_TIMEOUT_SECS)),
            min_severity: sev,
            dag_enabled: true,
            braid_enabled: true,
        }
    }

    /// Whether an event of this severity is forwarded (at or above the
    /// minimum) rather than skipped.
    pub fn should_forward(&self, severity: EventSeverity) -> (r: bool)
        ensures
            r == (severity.spec_rank() >= self.min_severity.spec_rank()),
    {
        !severity.is_below(&self.min_severity)
    }
}

/// A forwarding target from what the environment holds, in order: the
/// target's transport description; the target's TCP endpoint value, when it
/// parses; the capability socket, when it exists; else no target.
pub fn resolve_target(
    transport: Option<TransportEndpoint>,
    tcp_env: Option<&str>,
    uds_path: &str,
    uds_exists: bool,
) -> (r: Option<TransportEndpoint>)
    ensures
        transport is Some ==> r == transport,
        transport is None && tcp_env is Some && parse_tcp_spec(tcp_env->0@) is Some ==> is_tcp_of(
            r,
            parse_tcp_spec(tcp_env->0@),
        ),
        transport is None && (tcp_env is None || parse_tcp_spec(tcp_env->0@) is None) ==> (if uds_exists {
            r matches Some(TransportEndpoint::Uds { path }) && path@ == uds_path@
        } else {
            r is None
        }),
{
    match transport {
        Some(t) => Some(t),
        None => {
            let tcp = match tcp_env {
                Some(v) => parse_tcp_host_port(v),
                None => None,
            };
            match tcp {
                Some(t) => Some(t),
                None => if uds_exists {
                    Some(TransportEndpoint::Uds { path: text::owned(uds_path) })
                } else {
                    None
                },
            }
        },
    }
}

/// The endpoint a forwarding call goes to: the resolved one, or the I/O
/// error `no endpoint resolved for forwarding target`.
pub fn call_target(endpoint: Option<&TransportEndpoint>) -> (r: Result<&TransportEndpoint, RpcError>)
    ensures
        match endpoint {
            Some(e) => r == Ok::<&TransportEndpoint, RpcError>(e),
            None => r matches Err(RpcError::Io(m)) && m@ == "no endpoint resolved for forwarding target"@,
        },
{
    match endpoint {
        Some(e) => Ok(e),
        None => Err(RpcError::Io(text::owned("no endpoint resolved for forwarding target"))),
    }
}

/// Whether one event was forwarded: every enabled target accepted it. A
/// target's result is `None` when it is disabled.
pub fn event_forwarded(dag: Option<bool>, braid: Option<bool>) -> (r: bool)
    ensures
        r == ((dag matches Some(d) ==> d) && (braid matches Some(b) ==> b)),
{
    let d = match dag {
        Some(d) => d,
        None => true,
    };
    let b = match braid {
        Some(b) => b,
        None => true,
    };
    d && b
}

/// Where the cursor ends after a batch of events `(seq, severity)` taken
/// in order, given the outcomes of the forwarding attempts in order: a
/// skipped event moves the cursor to it; a forwarded event moves the cursor
/// to it; the first failed (or unattempted) forward stops the batch there.
pub open spec fn cursor_spec(
    cursor: u64,
    events: Seq<(u64, EventSeverity)>,
    outcomes: Seq<bool>,
    min: EventSeverity,
) -> u64
    decreases events.len(),
{
    if events.len() == 0 {
        cursor
    } else if events[0].1.spec_rank() < min.spec_rank() {
        cursor_spec(events[0].0, events.skip(1), outcomes, min)
    } else if outcomes.len() > 0 && outcomes[0] {
        cursor_spec(events[0].0, events.skip(1), outcomes.skip(1), min)
    } else {
        cursor
    }
}

impl ForwardingConfig {
    /// The cursor after a batch: see `cursor_spec`. `outcomes` holds, in
    /// order, whether each attempted forward succeeded; attempts stop at the
    /// first failure.
    pub fn advance_cursor(&self, cursor: u64, events: &[(u64, EventSeverity)], outcomes: &[bool]) -> (r: u64)
        ensures
            r == cursor_spec(cursor, events@, outcomes@, self.min_severity),
    {
        let mut cur = cursor;
        let mut i: usize = 0;
        let mut k: usize = 0;
        assert(events@.skip(0) =~= events@);
        assert(outcomes@.skip(0) =~= outcomes@);
        while i < events.len()
            invariant
                i <= events@.len(),
                k <= outcomes@.len(),
                cursor_spec(cursor, events@, outcomes@, self.min_severity) == cursor_spec(
                    cur,
                    events@.skip(i as int),
                    outcomes@.skip(k as int),
                    self.min_severity,
                ),
            decreases events@.len() - i,
        {
            let (seq, sev) = events[i];
            proof {
                assert(events@.skip(i as int)[0] == events@[i as int]);
                assert(events@.skip(i as int).skip(1) =~= events@.skip(i + 1));
            }
            if sev.is_below(&self.min_severity) {
                cur = seq;
            } else if k < outcomes.len() && outcomes[k] {
                proof {
                    assert(outcomes@.skip(k as int)[0] == outcomes@[k as int]);
                    assert(outcomes@.skip(k as int).skip(1) =~= outcomes@.skip(k + 1));
                }
                cur = seq;
                k = k + 1;
            } else {
                proof {
                    if k < outcomes@.len() {
                        assert(outcomes@.skip(k as int)[0] == outcomes@[k as int]);
                    }
                }
                return cur;
            }
            i = i + 1;
        }
        cur
    }
}

/// The cursor never moves to an event outside the batch: it stays where it
/// was or lands on the sequence number of one of the batch's events.
pub proof fn lemma_cursor_in_batch(
    cursor: u64,
    events: Seq<(u64, EventSeverity)>,
    outcomes: Seq<bool>,
    min: EventSeverity,
)
    ensures
        cursor_spec(cursor, events, outcomes, min) == cursor || exists|i: int|
            0 <= i < events.len() && events[i].0 == cursor_spec(cursor, events, outcomes, min),
    decreases events.len(),
{
    if events.len() > 0 {
        let r = cursor_spec(cursor, events, outcomes, min);
        if events[0].1.spec_rank() < min.spec_rank() {
            lemma_cursor_in_batch(events[0].0, events.skip(1), outcomes, min);
        } else if outcomes.len() > 0 && outcomes[0] {
            lemma_cursor_in_batch(events[0].0, events.skip(1), outcomes.skip(1), min);
        }
        if r != cursor && r != events[0].0 {
            let i = choose|i: int| 0 <= i < events.skip(1).len() && events.skip(1)[i].0 == r;
            assert(events[i + 1].0 == r);
        }
    }
}

/// When every attempted forward succeeds, the whole batch is consumed: the
/// cursor lands on the last event of a non-empty batch.
pub proof fn lemma_all_forwarded_consumes_batch(
    cursor: u64,
    events: Seq<(u64, EventSeverity)>,
    outcomes: Seq<bool>,
    min: EventSeverity,
)
    requires
        events.len() > 0,
        outcomes.len() >= events.len(),
        forall|j: int| 0 <= j < outcomes.len() ==> outcomes[j],
    ensures
        cursor_spec(cursor, events, outcomes, min) == events.last().0,
    decreases events.len(),
{
    if events.len() > 1 {
        assert(events.skip(1).last() == events.last());
        if events[0].1.spec_rank() < min.spec_rank() {
            lemma_all_forwarded_consumes_batch(events[0].0, events.skip(1), outcomes, min);
        } else {
            assert(outcomes[0]);
            assert forall|j: int| 0 <= j < outcomes.skip(1).len() implies outcomes.skip(1)[j] by {
                assert(outcomes.skip(1)[j] == outcomes[j + 1]);
            }
            lemma_all_forwarded_consumes_batch(events[0].0, events.skip(1), outcomes.skip(1), min);
        }
    } else {
        assert(outcomes[0]);
        assert(events.skip(1).len() == 0);
        assert(cursor_spec(events[0].0, events.skip(1), outcomes, min) == events[0].0);
        assert(cursor_spec(events[0].0, events.skip(1), outcomes.skip(1), min) == events[0].0);
        assert(events.last() == events[0]);
    }
}

/// A failed forward holds the cursor: the event whose forward failed, and
/// every event after it, stay ahead of the cursor for the next poll.
pub proof fn lemma_failure_holds_cursor(
    cursor: u64,
    events: Seq<(u64, EventSeverity)>,
    min: EventSeverity,
)
    requires
        events.len() > 0,
        events[0].1.spec_rank() >= min.spec_rank(),
    ensures
        cursor_spec(cursor, events, seq![false], min) == cursor,
        cursor_spec(cursor, events, Seq::empty(), min) == cursor,
{
}

/// How many of the first `i` events of a batch are forwardable (at or above
/// `min`): the number of forwarding attempts made before the event at `i`.
pub open spec fn attempts_before(events: Seq<(u64, EventSeverity)>, min: EventSeverity, i: int) -> nat
    decreases i,
{
    if i <= 0 {
        0
    } else {
        attempts_before(events, min, i - 1) + if events[i - 1].1.spec_rank() >= min.spec_rank() {
            1nat
        } else {
            0nat
        }
    }
}

/// Whether the forward of the event at `i` failed or was never made: the
/// event is forwardable and its attempt has no successful outcome.
pub open spec fn forward_failed(
    events: Seq<(u64, EventSeverity)>,
    outcomes: Seq<bool>,
    min: EventSeverity,
    i: int,
) -> bool {
    &&& events[i].1.spec_rank() >= min.spec_rank()
    &&& !(attempts_before(events, min, i) < outcomes.len() && outcomes[attempts_before(
        events,
        min,
        i,
    ) as int])
}

/// Counting attempts past the first event of a batch.
proof fn lemma_attempts_shift(events: Seq<(u64, EventSeverity)>, min: EventSeverity, i: int)
    requires
        events.len() > 0,
        0 <= i < events.len(),
    ensures
        attempts_before(events, min, i + 1) == attempts_before(events.skip(1), min, i) + if events[0].1.spec_rank()
            >= min.spec_rank() {
            1nat
        } else {
            0nat
        },
    decreases i,
{
    let f = |e: (u64, EventSeverity)| if e.1.spec_rank() >= min.spec_rank() { 1nat } else { 0nat };
    assert(attempts_before(events, min, i + 1) == attempts_before(events, min, i) + f(events[i]));
    if i > 0 {
        lemma_attempts_shift(events, min, i - 1);
        assert(events.skip(1)[i - 1] == events[i]);
        assert(attempts_before(events.skip(1), min, i) == attempts_before(events.skip(1), min, i - 1) + f(
            events.skip(1)[i - 1],
        ));
    } else {
        assert(attempts_before(events, min, 0) == 0);
        assert(attempts_before(events.skip(1), min, 0) == 0);
    }
}

/// Over a whole forwarding cycle: the batch is what lies above the cursor,
/// in increasing order. The cursor never moves back, so no event at or below
/// where the cycle started is offered again; and every event whose forward
/// failed (or was never made) stays ahead of the new cursor, to be retried.
pub proof fn lemma_cycle_cursor(
    cursor: u64,
    events: Seq<(u64, EventSeverity)>,
    outcomes: Seq<bool>,
    min: EventSeverity,
)
    requires
        forall|i: int| 0 <= i < events.len() ==> cursor < #[trigger] events[i].0,
        forall|i: int, j: int| 0 <= i < j < events.len() ==> #[trigger] events[i].0 < #[trigger] events[j].0,
    ensures
        cursor <= cursor_spec(cursor, events, outcomes, min),
        forall|i: int|
            0 <= i < events.len() && #[trigger] forward_failed(events, outcomes, min, i) ==> cursor_spec(
                cursor,
                events,
                outcomes,
                min,
            ) < events[i].0,
    decreases events.len(),
{
    if events.len() > 0 {
        let rest = events.skip(1);
        let first = events[0].0;
        assert forall|i: int| 0 <= i < rest.len() implies first < #[trigger] rest[i].0 by {
            assert(rest[i] == events[i + 1]);
        }
        assert forall|i: int, j: int| 0 <= i < j < rest.len() implies #[trigger] rest[i].0 < #[trigger] rest[j].0 by {
            assert(rest[i] == events[i + 1] && rest[j] == events[j + 1]);
        }
        let r = cursor_spec(cursor, events, outcomes, min);
        if events[0].1.spec_rank() < min.spec_rank() {
            lemma_cycle_cursor(first, rest, outcomes, min);
            assert forall|i: int|
                0 <= i < events.len() && #[trigger] forward_failed(events, outcomes, min, i) implies r
                < events[i].0 by {
                assert(i != 0);
                lemma_attempts_shift(events, min, i - 1);
                assert(rest[i - 1] == events[i]);
                assert(forward_failed(rest, outcomes, min, i - 1));
            }
        } else if outcomes.len() > 0 && outcomes[0] {
            let later = outcomes.skip(1);
            lemma_cycle_cursor(first, rest, later, min);
            assert forall|i: int|
                0 <= i < events.len() && #[trigger] forward_failed(events, outcomes, min, i) implies r
                < events[i].0 by {
                if i == 0 {
                    assert(attempts_before(events, min, 0) == 0);
                } else {
                    lemma_attempts_shift(events, min, i - 1);
                    assert(rest[i - 1] == events[i]);
                    let a = attempts_before(rest, min, i - 1);
                    if a < later.len() {
                        assert(later[a as int] == outcomes[a as int + 1]);
                    }
                    assert(forward_failed(rest, later, min, i - 1));
                }
            }
        }
    }
}

} // verus!
