//! Audit log: a bounded ring buffer of security-relevant events.
//!
//! Events carry a sequence number that starts at 1 and grows by one with each
//! record. When the buffer is full, the oldest event is evicted. Consumers
//! poll with a cursor: `query(since, limit)` returns, oldest first, up to
//! `limit` events whose sequence number is above `since`.

use crate::primal_foundation::Timestamp;
use crate::text;
use std::collections::VecDeque;
use vstd::prelude::*;

verus! {

/// Maximum events retained in the ring buffer by default.
pub const DEFAULT_CAPACITY: usize = 1024;

/// Which subsystem produced the event.
#[derive(Clone, Copy, Debug, PartialEq, Eq, Structural)]
pub enum EventSource {
    /// Pre-dispatch method gate.
    MethodGate,
    /// Threat detection pipeline.
    ThreatDetection,
    /// Defense engine action.
    DefenseEngine,
    /// BTSP transport layer.
    Transport,
    /// Startup/shutdown lifecycle.
    Lifecycle,
}

/// Event severity levels, ordered from least to most severe.
#[derive(Clone, Copy, Debug, PartialEq, Eq, PartialOrd, Ord, Hash, Structural)]
pub enum EventSeverity {
    /// Informational — normal operation.
    Info,
    /// Warning — potential issue, no immediate action.
    Warn,
    /// Error — security-relevant failure.
    Error,
    /// Critical — immediate action required.
    Critical,
}

impl EventSeverity {
    /// The position of the severity in the order Info < Warn < Error < Critical.
    pub open spec fn spec_rank(self) -> nat {
        match self {
            EventSeverity::Info => 0,
            EventSeverity::Warn => 1,
            EventSeverity::Error => 2,
            EventSeverity::Critical => 3,
        }
    }

    /// The position of the severity in the order Info < Warn < Error < Critical.
    pub fn rank(&self) -> (r: u8)
        ensures
            r == self.spec_rank(),
    {
        match self {
            EventSeverity::Info => 0,
            EventSeverity::Warn => 1,
            EventSeverity::Error => 2,
            EventSeverity::Critical => 3,
        }
    }

    /// Whether this severity is strictly below `other`.
    pub fn is_below(&self, other: &EventSeverity) -> (r: bool)
        ensures
            r == (self.spec_rank() < other.spec_rank()),
    {
        self.rank() < other.rank()
    }
}

/// Structured event payload.
#[derive(Debug)]
pub enum EventKind {
    /// Gate rejected an unauthenticated call to a protected method.
    GateRejection {
        /// The method that was rejected.
        method: String,
        /// Connection origin (Unix/Loopback/Remote).
        origin: String,
    },
    /// Gate allowed a call in permissive mode (warning-level).
    GatePermissiveAllow {
        /// The protected method that was allowed.
        method: String,
        /// Connection origin.
        origin: String,
    },
    /// Threat detected by the detection pipeline.
    ThreatDetected {
        /// Unique threat identifier.
        threat_id: String,
        /// Threat type classification.
        threat_type: String,
        /// Threat severity level.
        severity: String,
        /// Source of the threat.
        source: String,
    },
    /// Defense action taken in response to a threat.
    DefenseAction {
        /// The threat that triggered the action.
        threat_id: String,
        /// Action taken (quarantine, alert, block).
        action: String,
    },
    /// BTSP negotiate completed (success or failure).
    BtspNegotiate {
        /// Session identifier.
        session_id: String,
        /// Negotiated cipher suite.
        cipher: String,
        /// Whether negotiation succeeded.
        success: bool,
    },
    /// BTSP encrypted frame decryption failure.
    BtspDecryptFailure {
        /// Reason for the failure.
        reason: String,
    },
    /// Baseline profiler received a live observation.
    BaselineObservation {
        /// Connection rate from the observation, as the IEEE-754 bit pattern
        /// of the `f64` rate (`f64::to_bits`).
        connection_rate_bits: u64,
    },
    /// Primal started or stopped.
    LifecycleTransition {
        /// Previous state.
        from_state: String,
        /// New state.
        to_state: String,
    },
}

impl EventKind {
    /// Whether the payload reports a detected threat.
    pub fn is_threat_detected(&self) -> (r: bool)
        ensures
            r == (*self is ThreatDetected),
    {
        match self {
            EventKind::ThreatDetected { .. } => true,
            _ => false,
        }
    }
}

impl Clone for EventKind {
    fn clone(&self) -> (r: Self)
        ensures
            r == *self,
    {
        match self {
            EventKind::GateRejection { method, origin } => EventKind::GateRejection {
                method: method.clone(),
                origin: origin.clone(),
            },
            EventKind::GatePermissiveAllow { method, origin } => EventKind::GatePermissiveAllow {
                method: method.clone(),
                origin: origin.clone(),
            },
            EventKind::ThreatDetected { threat_id, threat_type, severity, source } =>
                EventKind::ThreatDetected {
                threat_id: threat_id.clone(),
                threat_type: threat_type.clone(),
                severity: severity.clone(),
                source: source.clone(),
            },
            EventKind::DefenseAction { threat_id, action } => EventKind::DefenseAction {
                threat_id: threat_id.clone(),
                action: action.clone(),
            },
            EventKind::BtspNegotiate { session_id, cipher, success } => EventKind::BtspNegotiate {
                session_id: session_id.clone(),
                cipher: cipher.clone(),
                success: *success,
            },
            EventKind::BtspDecryptFailure { reason } => EventKind::BtspDecryptFailure {
                reason: reason.clone(),
            },
            EventKind::BaselineObservation { connection_rate_bits } =>
                EventKind::BaselineObservation { connection_rate_bits: *connection_rate_bits },
            EventKind::LifecycleTransition { from_state, to_state } =>
                EventKind::LifecycleTransition {
                from_state: from_state.clone(),
                to_state: to_state.clone(),
            },
        }
    }
}

/// A security-relevant event in the audit trail.
#[derive(Debug)]
pub struct SecurityEvent {
    /// Monotonically increasing sequence number.
    pub seq: u64,
    /// When the event occurred.
    pub timestamp: Timestamp,
    /// Event source (which subsystem generated it).
    pub source: EventSource,
    /// Event severity.
    pub severity: EventSeverity,
    /// Structured event payload.
    pub kind: EventKind,
    /// Optional correlation ID (links related events).
    pub correlation_id: Option<String>,
}

/// A copy of an optional string.
fn clone_opt_string(s: &Option<String>) -> (r: Option<String>)
    ensures
        r == *s,
{
    match s {
        Some(v) => Some(v.clone()),
        None => None,
    }
}

impl Clone for SecurityEvent {
    fn clone(&self) -> (r: Self)
        ensures
            r == *self,
    {
        SecurityEvent {
            seq: self.seq,
            timestamp: self.timestamp,
            source: self.source,
            severity: self.severity,
            kind: self.kind.clone(),
            correlation_id: clone_opt_string(&self.correlation_id),
        }
    }
}

/// The events of `events` whose sequence number is above `since`, in order.
pub open spec fn events_after(events: Seq<SecurityEvent>, since: u64) -> Seq<SecurityEvent> {
    events.filter(|e: SecurityEvent| e.seq > since)
}

/// The first `limit` elements of `s` (all of `s` when it is shorter).
pub open spec fn capped<A>(s: Seq<A>, limit: nat) -> Seq<A> {
    if s.len() <= limit {
        s
    } else {
        s.take(limit as int)
    }
}

/// What `query(since, limit)` returns for a buffer holding `events`.
pub open spec fn query_spec(events: Seq<SecurityEvent>, since: u64, limit: nat) -> Seq<SecurityEvent> {
    capped(events_after(events, since), limit)
}

/// The buffer after appending `e` to `events` under capacity `capacity`:
/// when the buffer already holds `capacity` events or more, the oldest is
/// evicted first.
pub open spec fn appended(events: Seq<SecurityEvent>, capacity: nat, e: SecurityEvent) -> Seq<
    SecurityEvent,
> {
    if events.len() >= capacity {
        if events.len() == 0 {
            seq![e]
        } else {
            events.drop_first().push(e)
        }
    } else {
        events.push(e)
    }
}

/// The ring buffer's invariant: at most `max(capacity, 1)` events, whose
/// sequence numbers are consecutive and end just below `next_seq`.
pub open spec fn log_wf(events: Seq<SecurityEvent>, capacity: nat, next_seq: nat) -> bool {
    &&& next_seq >= 1
    &&& events.len() <= next_seq - 1
    &&& (events.len() <= capacity || events.len() == 1)
    &&& forall|i: int| 0 <= i < events.len() ==> #[trigger] events[i].seq == next_seq - events.len() + i
}


/// Filtering a sequence none of whose elements passes yields nothing.
proof fn lemma_filter_none(s: Seq<SecurityEvent>, pred: spec_fn(SecurityEvent) -> bool)
    requires
        forall|i: int| 0 <= i < s.len() ==> !pred(#[trigger] s[i]),
    ensures
        s.filter(pred) == Seq::<SecurityEvent>::empty(),
    decreases s.len(),
{
    if s.len() == 0 {
        reveal(Seq::filter);
    } else {
        let init = s.drop_last();
        assert forall|i: int| 0 <= i < init.len() implies !pred(#[trigger] init[i]) by {
            assert(init[i] == s[i]);
        }
        lemma_filter_none(init, pred);
        assert(s =~= init.push(s.last()));
        init.lemma_filter_push(s.last(), pred);
    }
}

/// Sequence numbers in the log strictly increase from oldest to newest.
pub proof fn lemma_seq_increasing(events: Seq<SecurityEvent>, capacity: nat, next_seq: nat)
    requires
        log_wf(events, capacity, next_seq),
    ensures
        forall|i: int, j: int|
            0 <= i < j < events.len() ==> #[trigger] events[i].seq < #[trigger] events[j].seq,
        forall|i: int| 0 <= i < events.len() ==> #[trigger] events[i].seq < next_seq,
{
}

/// The log never holds more events than its capacity (when the capacity is
/// at least one).
pub proof fn lemma_capacity_bound(events: Seq<SecurityEvent>, capacity: nat, next_seq: nat)
    requires
        log_wf(events, capacity, next_seq),
        capacity >= 1,
    ensures
        events.len() <= capacity,
{
}

/// Every event a query returns lies above the cursor, and there are at most
/// `limit` of them.
pub proof fn lemma_query_bounds(events: Seq<SecurityEvent>, since: u64, limit: nat)
    ensures
        query_spec(events, since, limit).len() <= limit,
        forall|i: int|
            0 <= i < query_spec(events, since, limit).len() ==> #[trigger] query_spec(
                events,
                since,
                limit,
            )[i].seq > since,
{
    let pred = |e: SecurityEvent| e.seq > since;
    let f = events.filter(pred);
    assert forall|i: int| 0 <= i < f.len() implies #[trigger] f[i].seq > since by {
        events.lemma_filter_pred(pred, i);
    }
}

/// With sequence numbers increasing, the events above a cursor are a
/// suffix of the buffer.
proof fn lemma_after_is_suffix(events: Seq<SecurityEvent>, since: u64) -> (k: int)
    requires
        forall|i: int, j: int| 0 <= i < j < events.len() ==> #[trigger] events[i].seq < #[trigger] events[j].seq,
    ensures
        0 <= k <= events.len(),
        events_after(events, since) == events.skip(k),
        forall|i: int| 0 <= i < k ==> #[trigger] events[i].seq <= since,
        forall|i: int| k <= i < events.len() ==> #[trigger] events[i].seq > since,
    decreases events.len(),
{
    let pred = |e: SecurityEvent| e.seq > since;
    if events.len() == 0 {
        assert(events.filter(pred) =~= events.skip(0));
        0
    } else {
        let init = events.drop_last();
        let x = events.last();
        assert forall|i: int, j: int| 0 <= i < j < init.len() implies #[trigger] init[i].seq < #[trigger] init[j].seq by {
            assert(init[i] == events[i] && init[j] == events[j]);
        }
        let k0 = lemma_after_is_suffix(init, since);
        assert(events =~= init.push(x));
        init.lemma_filter_push(x, pred);
        if x.seq > since {
            assert(init.skip(k0).push(x) =~= events.skip(k0));
            assert forall|i: int| 0 <= i < k0 implies #[trigger] events[i].seq <= since by {
                assert(events[i] == init[i]);
            }
            assert forall|i: int| k0 <= i < events.len() implies #[trigger] events[i].seq > since by {
                if i < init.len() {
                    assert(events[i] == init[i]);
                }
            }
            k0
        } else {
            let n = events.len() as int;
            assert forall|i: int| 0 <= i < n implies #[trigger] events[i].seq <= since by {
                if i < n - 1 {
                    assert(events[i].seq < events[n - 1].seq);
                }
            }
            if k0 < init.len() {
                assert(init[k0] == events[k0]);
                assert(init[k0].seq > since);
                assert(events[k0].seq <= since);
            }
            assert(init.skip(k0) =~= Seq::<SecurityEvent>::empty());
            assert(events.skip(n) =~= Seq::<SecurityEvent>::empty());
            n
        }
    }
}

/// The first `limit` events of a suffix of an increasing buffer are the
/// oldest of that suffix, in order.
proof fn lemma_capped_suffix(events: Seq<SecurityEvent>, k: int, since: u64, limit: nat, r: Seq<SecurityEvent>)
    requires
        0 <= k <= events.len(),
        r == capped(events.skip(k), limit),
        forall|i: int, j: int| 0 <= i < j < events.len() ==> #[trigger] events[i].seq < #[trigger] events[j].seq,
        forall|i: int| 0 <= i < k ==> #[trigger] events[i].seq <= since,
        forall|i: int| k <= i < events.len() ==> #[trigger] events[i].seq > since,
    ensures
        forall|i: int| 0 <= i < r.len() ==> (#[trigger] r[i]).seq > since && events.contains(r[i]),
        forall|i: int, j: int| 0 <= i < j < r.len() ==> #[trigger] r[i].seq < #[trigger] r[j].seq,
        forall|j: int|
            0 <= j < events.len() && #[trigger] events[j].seq > since ==> (exists|i: int|
                0 <= i < r.len() && r[i] == events[j]) || (r.len() == limit && forall|i: int|
                0 <= i < r.len() ==> r[i].seq < events[j].seq),
{
    let a = events.skip(k);
    assert(r.len() <= a.len());
    assert forall|i: int| 0 <= i < r.len() implies #[trigger] r[i] == events[k + i] by {
        if a.len() > limit {
            assert(r[i] == a.take(limit as int)[i]);
        }
    }
    assert forall|i: int| 0 <= i < r.len() implies (#[trigger] r[i]).seq > since && events.contains(r[i]) by {
        assert(events[k + i] == r[i]);
    }
    assert forall|i: int, j: int| 0 <= i < j < r.len() implies #[trigger] r[i].seq < #[trigger] r[j].seq by {
        assert(r[i] == events[k + i] && r[j] == events[k + j]);
    }
    assert forall|j: int| 0 <= j < events.len() && #[trigger] events[j].seq > since implies (exists|i: int|
        0 <= i < r.len() && r[i] == events[j]) || (r.len() == limit && forall|i: int|
        0 <= i < r.len() ==> r[i].seq < events[j].seq) by {
        assert(j >= k);
        if j - k < r.len() {
            assert(r[j - k] == events[j]);
        } else {
            assert(r.len() == limit);
            assert forall|i: int| 0 <= i < r.len() implies r[i].seq < events[j].seq by {
                assert(r[i] == events[k + i]);
            }
        }
    }
}

/// A query answers with the oldest events after the cursor first, without
/// gaps: what it returns are events of the log above the cursor, in
/// increasing order; and any event above the cursor that it leaves out lies
/// beyond everything returned, in which case the answer is full (`limit`
/// events). So a poller that moves its cursor to the last event returned
/// never skips an event.
pub proof fn lemma_query_oldest_first(
    events: Seq<SecurityEvent>,
    capacity: nat,
    next_seq: nat,
    since: u64,
    limit: nat,
)
    requires
        log_wf(events, capacity, next_seq),
    ensures
        forall|i: int|
            0 <= i < query_spec(events, since, limit).len() ==> (#[trigger] query_spec(events, since, limit)[i]).seq
                > since && events.contains(query_spec(events, since, limit)[i]),
        forall|i: int, j: int|
            0 <= i < j < query_spec(events, since, limit).len() ==> #[trigger] query_spec(
                events,
                since,
                limit,
            )[i].seq < #[trigger] query_spec(events, since, limit)[j].seq,
        forall|j: int|
            0 <= j < events.len() && #[trigger] events[j].seq > since ==> (exists|i: int|
                0 <= i < query_spec(events, since, limit).len() && query_spec(events, since, limit)[i]
                    == events[j]) || (query_spec(events, since, limit).len() == limit && forall|i: int|
                0 <= i < query_spec(events, since, limit).len() ==> query_spec(events, since, limit)[i].seq
                    < events[j].seq),
{
    lemma_seq_increasing(events, capacity, next_seq);
    let k = lemma_after_is_suffix(events, since);
    lemma_capped_suffix(events, k, since, limit, query_spec(events, since, limit));
}

/// Read-after-write: a poll from the cursor taken just before a record (the
/// then latest sequence number) returns exactly the event just recorded.
pub proof fn lemma_query_after_record(
    events: Seq<SecurityEvent>,
    capacity: nat,
    next_seq: nat,
    e: SecurityEvent,
    limit: nat,
)
    requires
        log_wf(events, capacity, next_seq),
        next_seq < u64::MAX,
        e.seq == next_seq,
        limit >= 1,
    ensures
        query_spec(appended(events, capacity, e), (next_seq - 1) as u64, limit) == seq![e],
{
    let since = (next_seq - 1) as u64;
    let pred = |x: SecurityEvent| x.seq > since;
    let base = if events.len() >= capacity {
        if events.len() == 0 {
            Seq::<SecurityEvent>::empty()
        } else {
            events.drop_first()
        }
    } else {
        events
    };
    assert forall|i: int| 0 <= i < base.len() implies !pred(#[trigger] base[i]) by {
        if events.len() >= capacity && events.len() > 0 {
            assert(base[i] == events[i + 1]);
        } else {
            assert(base[i] == events[i]);
        }
    }
    lemma_filter_none(base, pred);
    assert(appended(events, capacity, e) =~= base.push(e));
    base.lemma_filter_push(e, pred);
    assert(Seq::<SecurityEvent>::empty().push(e) =~= seq![e]);
}

/// Audit log with bounded ring buffer.
pub struct AuditLog {
    events: VecDeque<SecurityEvent>,
    capacity: usize,
    next_seq: u64,
}

impl AuditLog {
    /// The events currently held, oldest first.
    pub closed spec fn events(&self) -> Seq<SecurityEvent> {
        self.events@
    }

    /// The buffer's capacity.
    pub closed spec fn capacity(&self) -> nat {
        self.capacity as nat
    }

    /// The sequence number the next recorded event will carry.
    pub closed spec fn next_seq(&self) -> nat {
        self.next_seq as nat
    }

    /// The log's invariant holds.
    pub open spec fn wf(&self) -> bool {
        log_wf(self.events(), self.capacity(), self.next_seq())
    }

    /// Create a new audit log with default capacity (1024 events).
    pub fn new() -> (log: Self)
        ensures
            log.wf(),
            log.events().len() == 0,
            log.capacity() == DEFAULT_CAPACITY,
            log.next_seq() == 1,
    {
        Self::with_capacity(DEFAULT_CAPACITY)
    }

    /// Create a new audit log with custom capacity.
    pub fn with_capacity(capacity: usize) -> (log: Self)
        ensures
            log.wf(),
            log.events().len() == 0,
            log.capacity() == capacity,
            log.next_seq() == 1,
    {
        AuditLog { events: VecDeque::with_capacity(capacity), capacity, next_seq: 1 }
    }

    /// Record a new security event, stamped now.
    pub fn record(&mut self, source: EventSource, severity: EventSeverity, kind: EventKind)
        requires
            old(self).wf(),
            old(self).next_seq() < u64::MAX,
        ensures
            final(self).wf(),
            final(self).capacity() == old(self).capacity(),
            final(self).next_seq() == old(self).next_seq() + 1,
            exists|e: SecurityEvent|
                {
                    &&& e.seq == old(self).next_seq()
                    &&& e.source == source
                    &&& e.severity == severity
                    &&& e.kind == kind
                    &&& e.correlation_id is None
                    &&& final(self).events() == appended(old(self).events(), old(self).capacity(), e)
                },
    {
        self.record_with_correlation(source, severity, kind, None)
    }

    /// Record a new security event with a correlation ID, stamped now.
    pub fn record_with_correlation(
        &mut self,
        source: EventSource,
        severity: EventSeverity,
        kind: EventKind,
        correlation_id: Option<String>,
    )
        requires
            old(self).wf(),
            old(self).next_seq() < u64::MAX,
        ensures
            final(self).wf(),
            final(self).capacity() == old(self).capacity(),
            final(self).next_seq() == old(self).next_seq() + 1,
            exists|e: SecurityEvent|
                {
                    &&& e.seq == old(self).next_seq()
                    &&& e.source == source
                    &&& e.severity == severity
                    &&& e.kind == kind
                    &&& e.correlation_id == correlation_id
                    &&& final(self).events() == appended(old(self).events(), old(self).capacity(), e)
                },
    {
        let timestamp = Timestamp::now();
        self.record_at(source, severity, kind, correlation_id, timestamp)
    }

    /// Record a new security event with an explicit timestamp.
    pub fn record_at(
        &mut self,
        source: EventSource,
        severity: EventSeverity,
        kind: EventKind,
        correlation_id: Option<String>,
        timestamp: Timestamp,
    )
        requires
            old(self).wf(),
            old(self).next_seq() < u64::MAX,
        ensures
            final(self).wf(),
            final(self).capacity() == old(self).capacity(),
            final(self).next_seq() == old(self).next_seq() + 1,
            final(self).events() == appended(
                old(self).events(),
                old(self).capacity(),
                SecurityEvent {
                    seq: old(self).next_seq() as u64,
                    timestamp,
                    source,
                    severity,
                    kind,
                    correlation_id,
                },
            ),
    {
        let seq = self.next_seq;
        self.next_seq = self.next_seq + 1;
        let event = SecurityEvent { seq, timestamp, source, severity, kind, correlation_id };
        let ghost before = self.events@;
        if self.events.len() >= self.capacity {
            self.events.pop_front();
        }
        self.events.push_back(event);
        proof {
            let after = self.events@;
            assert(after == appended(before, self.capacity as nat, event));
            assert forall|i: int| 0 <= i < after.len() implies #[trigger] after[i].seq
                == self.next_seq - after.len() + i by {
                if i == after.len() - 1 {
                } else if before.len() >= self.capacity && before.len() > 0 {
                    assert(after[i] == before[i + 1]);
                } else {
                    assert(after[i] == before[i]);
                }
            }
        }
    }

    /// Query events since a given sequence number: up to `limit` events with
    /// `seq > since_seq`, oldest first.
    pub fn query(&self, since_seq: u64, limit: usize) -> (r: Vec<SecurityEvent>)
        ensures
            r@ == query_spec(self.events(), since_seq, limit as nat),
    {
        let n = self.events.len();
        let mut out: Vec<SecurityEvent> = Vec::new();
        let ghost pred = |e: SecurityEvent| e.seq > since_seq;
        let mut i: usize = 0;
        while i < n
            invariant
                n == self.events@.len(),
                i <= n,
                pred == (|e: SecurityEvent| e.seq > since_seq),
                out@ == capped(self.events@.take(i as int).filter(pred), limit as nat),
            decreases n - i,
        {
            let ghost prefix = self.events@.take(i as int);
            let ghost next = self.events@.take(i + 1);
            proof {
                assert(next =~= prefix.push(self.events@[i as int]));
                prefix.lemma_filter_push(self.events@[i as int], pred);
            }
            let e = &self.events[i];
            assert(*e == self.events@[i as int]);
            if e.seq > since_seq && out.len() < limit {
                out.push(e.clone());
                proof {
                    assert(pred(self.events@[i as int]));
                    assert(next.filter(pred) == prefix.filter(pred).push(self.events@[i as int]));
                }
            } else {
                proof {
                    if e.seq > since_seq {
                        let f = prefix.filter(pred);
                        assert(next.filter(pred) == f.push(self.events@[i as int]));
                        assert(f.push(self.events@[i as int]).take(limit as int) =~= f.take(limit as int));
                    }
                }
            }
            i = i + 1;
        }
        assert(self.events@.take(n as int) =~= self.events@);
        out
    }

    /// The latest sequence number recorded (0 when none was recorded).
    pub fn latest_seq(&self) -> (r: u64)
        requires
            self.wf(),
        ensures
            r == self.next_seq() - 1,
    {
        self.next_seq - 1
    }

    /// Total number of events currently in the buffer.
    pub fn len(&self) -> (r: usize)
        ensures
            r == self.events().len(),
    {
        self.events.len()
    }

    /// Whether the buffer is empty.
    pub fn is_empty(&self) -> (r: bool)
        ensures
            r == (self.events().len() == 0),
    {
        self.events.len() == 0
    }
}

impl Default for AuditLog {
    fn default() -> (log: Self)
        ensures
            log.wf(),
            log.events().len() == 0,
            log.capacity() == DEFAULT_CAPACITY,
            log.next_seq() == 1,
    {
        Self::new()
    }
}

} // verus!
