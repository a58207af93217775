//! The decisions of the skunkBat primal that span its subsystems: the
//! counters a threat response advances, the advisory verdict given to the
//! HTTP gateway for a source, the primal's health and its dependencies.

use crate::config::FeatureFlags;
use crate::defense::{ActionType, ConfidenceCheck, DefenseAction, DefenseEngine, QuarantineRecord, ThreatFacts, decided_action, restored};
use crate::error::SkunkBatError;
use crate::observability::audit_log::{AuditLog, EventKind, EventSeverity, EventSource, SecurityEvent, appended};
use crate::primal_foundation::error::PrimalError;
use crate::primal_foundation::types::Timestamp;
use crate::reconnaissance::{NetworkScope, ReconnaissanceEngine};
use crate::observability::{HttpMetrics, SecurityMetrics, SecurityObserver, bump, http_after};
use crate::primal_foundation::health::{DependencyHealth, HealthStatus};
use crate::primal_foundation::lifecycle::PrimalState;
use crate::text;
use crate::threats::types::bool_text;
use crate::Verdict;
use vstd::prelude::*;

verus! {

/// Advisory verdict for the HTTP gateway integration.
#[derive(Debug)]
pub struct AdvisoryVerdict {
    /// The security verdict (allow, warn, or block).
    pub verdict: Verdict,
    /// Human-readable reason for the verdict.
    pub reason: String,
    /// Source address that was checked.
    pub source: String,
    /// Associated threat IDs (if any).
    pub threat_ids: Vec<String>,
}

/// Whether an action quarantines the threat's source.
pub open spec fn quarantines(action: ActionType) -> bool {
    action == ActionType::Quarantine || action == ActionType::QuarantineAndAlert
}

/// Whether an action alerts the operator.
pub open spec fn alerts(action: ActionType) -> bool {
    action == ActionType::QuarantineAndAlert || action == ActionType::MonitorAndAlert
}

/// The counters after a threat response with the given action: the
/// mitigations advance; the quarantines advance when the action
/// quarantines; the alerts advance when it alerts.
pub open spec fn after_response(m: SecurityMetrics, action: ActionType) -> SecurityMetrics {
    SecurityMetrics {
        threats: crate::observability::ThreatMetrics { mitigated: bump(m.threats.mitigated), ..m.threats },
        defense: crate::observability::DefenseMetrics {
            connections_quarantined: if quarantines(action) {
                bump(m.defense.connections_quarantined)
            } else {
                m.defense.connections_quarantined
            },
            alerts_sent: if alerts(action) {
                bump(m.defense.alerts_sent)
            } else {
                m.defense.alerts_sent
            },
        },
        ..m
    }
}

/// Records a threat response on the observer: a mitigation, plus a
/// quarantine and an alert as the action calls for.
pub fn record_response(observer: &mut SecurityObserver, action: ActionType)
    requires
        old(observer).wf(),
    ensures
        final(observer).wf(),
        final(observer).spec_enabled() == old(observer).spec_enabled(),
        final(observer).counts() == after_response(old(observer).counts(), action),
{
    observer.record_threat_mitigated();
    match action {
        ActionType::Quarantine | ActionType::QuarantineAndAlert => {
            observer.record_quarantine();
        },
        _ => {},
    }
    match action {
        ActionType::QuarantineAndAlert | ActionType::MonitorAndAlert => {
            observer.record_alert();
        },
        _ => {},
    }
}

/// The advisory verdict for a source: `Block` when it is quarantined;
/// otherwise `Allow` when defense is disabled; otherwise `Warn` when the
/// HTTP telemetry showed anomalies; otherwise `Allow`.
pub open spec fn advisory_verdict_spec(quarantined: bool, defense_enabled: bool, http_anomalies: Option<usize>) -> Verdict {
    if quarantined {
        Verdict::Block
    } else if !defense_enabled {
        Verdict::Allow
    } else if http_anomalies matches Some(n) && n > 0 {
        Verdict::Warn
    } else {
        Verdict::Allow
    }
}

/// The reason given with a `Warn` verdict for `n` HTTP anomalies.
pub open spec fn anomaly_reason(n: nat) -> Seq<char> {
    text::decimal(n) + " HTTP anomal"@ + (if n == 1 {
        "y"@
    } else {
        "ies"@
    }) + " detected for source"@
}

/// The reason given with an advisory verdict.
pub open spec fn advisory_reason_spec(quarantined: bool, defense_enabled: bool, http_anomalies: Option<usize>) -> Seq<char> {
    if quarantined {
        "source is quarantined"@
    } else if !defense_enabled {
        "defense engine disabled — no advisory"@
    } else if http_anomalies matches Some(n) && n > 0 {
        anomaly_reason(http_anomalies->Some_0 as nat)
    } else {
        "no threats detected for source"@
    }
}

/// Advisory security check for an inbound source, with the number of HTTP
/// anomalies the behavioral profiler found in the source's HTTP telemetry
/// (`None` when there was no telemetry). The verdict and reason follow
/// `advisory_verdict_spec` and `advisory_reason_spec`; a blocked source
/// carries the threat behind its quarantine. A screened HTTP request that is
/// not blocked and not exempt is counted on the observer.
pub fn advisory_check(
    defense: &DefenseEngine,
    observer: &mut SecurityObserver,
    source: &str,
    http_anomalies: Option<usize>,
) -> (r: AdvisoryVerdict)
    requires
        defense.wf(),
        old(observer).wf(),
    ensures
        final(observer).wf(),
        final(observer).spec_enabled() == old(observer).spec_enabled(),
        r.verdict == advisory_verdict_spec(
            defense.quarantined().contains_key(source@),
            defense.spec_enabled(),
            http_anomalies,
        ),
        r.reason@ == advisory_reason_spec(
            defense.quarantined().contains_key(source@),
            defense.spec_enabled(),
            http_anomalies,
        ),
        r.source@ == source@,
        defense.quarantined().contains_key(source@) ==> text::texts(r.threat_ids@) == seq![
            defense.quarantined()[source@].threat_id@,
        ],
        !defense.quarantined().contains_key(source@) ==> r.threat_ids@.len() == 0,
        final(observer).counts() == (if !defense.quarantined().contains_key(source@)
            && defense.spec_enabled() && http_anomalies is Some {
            SecurityMetrics {
                http: http_after(old(observer).counts().http, r.verdict),
                ..old(observer).counts()
            }
        } else {
            old(observer).counts()
        }),
{
    match defense.quarantine_record(source) {
        Some(rec) => {
            let mut ids: Vec<String> = Vec::new();
            ids.push(rec.threat_id);
            assert(text::texts(ids@) =~= seq![defense.quarantined()[source@].threat_id@]);
            return AdvisoryVerdict {
                verdict: Verdict::Block,
                reason: text::owned("source is quarantined"),
                source: text::owned(source),
                threat_ids: ids,
            };
        },
        None => {},
    }
    if !defense.is_healthy() {
        return AdvisoryVerdict {
            verdict: Verdict::Allow,
            reason: text::owned("defense engine disabled — no advisory"),
            source: text::owned(source),
            threat_ids: Vec::new(),
        };
    }
    match http_anomalies {
        Some(n) => {
            if n > 0 {
                observer.record_http_advisory(Verdict::Warn);
                let mut reason = String::new();
                text::push_decimal(&mut reason, n as u64);
                reason.append(" HTTP anomal");
                if n == 1 {
                    reason.append("y");
                } else {
                    reason.append("ies");
                }
                reason.append(" detected for source");
                assert(reason@ =~= anomaly_reason(n as nat));
                return AdvisoryVerdict {
                    verdict: Verdict::Warn,
                    reason,
                    source: text::owned(source),
                    threat_ids: Vec::new(),
                };
            }
            observer.record_http_advisory(Verdict::Allow);
        },
        None => {},
    }
    AdvisoryVerdict {
        verdict: Verdict::Allow,
        reason: text::owned("no threats detected for source"),
        source: text::owned(source),
        threat_ids: Vec::new(),
    }
}

/// A quarantined source is always answered `Block`, whatever the telemetry.
pub proof fn lemma_quarantined_source_blocked(defense_enabled: bool, http_anomalies: Option<usize>)
    ensures
        advisory_verdict_spec(true, defense_enabled, http_anomalies) == Verdict::Block,
{
}

/// Only a quarantined source is answered `Block`.
pub proof fn lemma_block_only_when_quarantined(quarantined: bool, defense_enabled: bool, http_anomalies: Option<usize>)
    ensures
        advisory_verdict_spec(quarantined, defense_enabled, http_anomalies) == Verdict::Block <==> quarantined,
{
}

/// The advisory for a source that is not quarantined: never `Block`;
/// `Warn` exactly when defense is enabled and the telemetry shows at least
/// one HTTP anomaly; `Allow` without telemetry or with defense disabled. A
/// screened request counts once as screened and once under its verdict
/// (`Warn` or `Allow`), every other counter unchanged.
pub proof fn lemma_unquarantined_advisory(h: HttpMetrics, defense_enabled: bool, http_anomalies: Option<usize>)
    ensures
        advisory_verdict_spec(false, defense_enabled, http_anomalies) != Verdict::Block,
        advisory_verdict_spec(false, defense_enabled, http_anomalies) == Verdict::Warn <==> (defense_enabled
            && (http_anomalies matches Some(n) && n > 0)),
        http_anomalies is None || !defense_enabled ==> advisory_verdict_spec(false, defense_enabled, http_anomalies)
            == Verdict::Allow,
        http_after(h, advisory_verdict_spec(false, defense_enabled, http_anomalies)).requests_screened == bump(
            h.requests_screened,
        ),
        http_after(h, advisory_verdict_spec(false, defense_enabled, http_anomalies)).blocks == h.blocks,
        advisory_verdict_spec(false, defense_enabled, http_anomalies) == Verdict::Warn ==> http_after(
            h,
            Verdict::Warn,
        ).warns == bump(h.warns) && http_after(h, Verdict::Warn).allows == h.allows,
        advisory_verdict_spec(false, defense_enabled, http_anomalies) == Verdict::Allow ==> http_after(
            h,
            Verdict::Allow,
        ).allows == bump(h.allows) && http_after(h, Verdict::Allow).warns == h.warns,
{
}

/// Quarantining a source makes the advisory block it, and releasing it
/// again restores the registry as it was without that source: the release
/// reports that the source was quarantined and undoes the quarantine.
pub proof fn lemma_quarantine_release_roundtrip(
    registry: Map<Seq<char>, QuarantineRecord>,
    source: Seq<char>,
    rec: QuarantineRecord,
    defense_enabled: bool,
    http_anomalies: Option<usize>,
)
    ensures
        registry.insert(source, rec).contains_key(source),
        advisory_verdict_spec(
            registry.insert(source, rec).contains_key(source),
            defense_enabled,
            http_anomalies,
        ) == Verdict::Block,
        registry.insert(source, rec).remove(source) == registry.remove(source),
        !registry.insert(source, rec).remove(source).contains_key(source),
{
    assert(registry.insert(source, rec).remove(source) =~= registry.remove(source));
}

/// The degraded reason naming each subsystem's health.
pub open spec fn subsystems_text(recon: bool, detector: bool, defense: bool, observer: bool) -> Seq<char> {
    "recon:"@ + bool_text(recon) + " detector:"@ + bool_text(detector) + " defense:"@ + bool_text(defense)
        + " observer:"@ + bool_text(observer)
}

fn push_bool(out: &mut String, b: bool)
    ensures
        final(out)@ == old(out)@ + bool_text(b),
{
    if b {
        out.append("true");
    } else {
        out.append("false");
    }
}

/// The primal's health from its lifecycle state and its subsystems: when
/// running, `Healthy` if every subsystem is healthy, else `Degraded` naming
/// each subsystem's health; when not running, `Unhealthy` naming the state.
pub fn health_status(state: PrimalState, recon: bool, detector: bool, defense: bool, observer: bool) -> (r: HealthStatus)
    ensures
        (state == PrimalState::Running) && recon && detector && defense && observer ==> r is Healthy,
        (state == PrimalState::Running) && !(recon && detector && defense && observer) ==> (r matches HealthStatus::Degraded { reason }
            && reason@ == subsystems_text(recon, detector, defense, observer)),
        !(state == PrimalState::Running) ==> (r matches HealthStatus::Unhealthy { reason } && reason@ == "state: "@
            + state.spec_text()),
{
    if state.is_running() {
        if recon && detector && defense && observer {
            HealthStatus::Healthy
        } else {
            let mut reason = text::owned("recon:");
            push_bool(&mut reason, recon);
            reason.append(" detector:");
            push_bool(&mut reason, detector);
            reason.append(" defense:");
            push_bool(&mut reason, defense);
            reason.append(" observer:");
            push_bool(&mut reason, observer);
            HealthStatus::Degraded { reason }
        }
    } else {
        let t = state.to_text();
        HealthStatus::Unhealthy { reason: text::concat2("state: ", t.as_str()) }
    }
}

/// The primal's dependencies: the lineage verifier (healthy when a lineage
/// identifier is configured) and the security observer (healthy when
/// enabled), in that order.
pub fn dependency_health(lineage_configured: bool, observer_healthy: bool) -> (r: Vec<DependencyHealth>)
    ensures
        r@.len() == 2,
        r@[0].name@ == "lineage-verifier"@,
        r@[0].dependency_type@ == "capability"@,
        lineage_configured ==> r@[0].status is Healthy,
        !lineage_configured ==> (r@[0].status matches HealthStatus::Unhealthy { reason } && reason@
            == "no lineage_id configured"@),
        r@[1].name@ == "security-observer"@,
        r@[1].dependency_type@ == "internal"@,
        observer_healthy ==> r@[1].status is Healthy,
        !observer_healthy ==> (r@[1].status matches HealthStatus::Unhealthy { reason } && reason@
            == "disabled by config"@),
{
    let mut deps: Vec<DependencyHealth> = Vec::new();
    let lineage = if lineage_configured {
        DependencyHealth::healthy("lineage-verifier", "capability")
    } else {
        DependencyHealth::unhealthy("lineage-verifier", "capability", "no lineage_id configured")
    };
    deps.push(lineage);
    let observer = if observer_healthy {
        DependencyHealth::healthy("security-observer", "internal")
    } else {
        DependencyHealth::unhealthy("security-observer", "internal", "disabled by config")
    };
    deps.push(observer);
    deps
}

/// The state of the skunkBat primal that the library holds: its lifecycle
/// state and the subsystems whose logic is verified (reconnaissance,
/// defense, observability and the audit trail), plus whether a lineage
/// identifier is configured. Threat detection, whose statistics are
/// floating-point, lives beside it.
pub struct PrimalCore {
    state: PrimalState,
    reconnaissance: ReconnaissanceEngine,
    defense: DefenseEngine,
    observer: SecurityObserver,
    audit_log: AuditLog,
    lineage_configured: bool,
}

/// The audit event of a lifecycle transition between two named states.
pub open spec fn is_transition(e: SecurityEvent, seq: nat, from: Seq<char>, to: Seq<char>) -> bool {
    &&& e.seq == seq
    &&& e.source == EventSource::Lifecycle
    &&& e.severity == EventSeverity::Info
    &&& e.kind matches EventKind::LifecycleTransition { from_state, to_state }
    &&& from_state@ == from
    &&& to_state@ == to
    &&& e.correlation_id is None
}

impl PrimalCore {
    /// The lifecycle state.
    pub closed spec fn spec_state(&self) -> PrimalState {
        self.state
    }

    /// The reconnaissance engine.
    pub closed spec fn spec_reconnaissance(&self) -> ReconnaissanceEngine {
        self.reconnaissance
    }

    /// The defense engine.
    pub closed spec fn spec_defense(&self) -> DefenseEngine {
        self.defense
    }

    /// The security observer.
    pub closed spec fn spec_observer(&self) -> SecurityObserver {
        self.observer
    }

    /// The audit trail.
    pub closed spec fn spec_audit_log(&self) -> AuditLog {
        self.audit_log
    }

    /// Whether a lineage identifier is configured.
    pub closed spec fn spec_lineage_configured(&self) -> bool {
        self.lineage_configured
    }

    /// Every subsystem keeps its own invariant.
    pub closed spec fn wf(&self) -> bool {
        &&& self.defense.wf()
        &&& self.observer.wf()
        &&& self.audit_log.wf()
    }

    /// A primal in the `Created` state: each subsystem follows its feature
    /// flag, reconnaissance scans the given scope, the audit trail holds up
    /// to `audit_capacity` events, and nothing has happened yet.
    pub fn new(features: &FeatureFlags, scope: NetworkScope, audit_capacity: usize, lineage_configured: bool) -> (r: Self)
        ensures
            r.wf(),
            r.spec_state() == PrimalState::Created,
            r.spec_reconnaissance().spec_enabled() == features.reconnaissance,
            r.spec_defense().spec_enabled() == features.auto_defense,
            r.spec_defense().quarantined().len() == 0,
            r.spec_observer().spec_enabled() == features.observability,
            r.spec_observer().counts() == crate::observability::zero_metrics(),
            r.spec_audit_log().events().len() == 0,
            r.spec_audit_log().capacity() == audit_capacity,
            r.spec_lineage_configured() == lineage_configured,
    {
        PrimalCore {
            state: PrimalState::Created,
            reconnaissance: ReconnaissanceEngine::new(features, scope),
            defense: DefenseEngine::new(features.auto_defense),
            observer: SecurityObserver::new(features),
            audit_log: AuditLog::with_capacity(audit_capacity),
            lineage_configured,
        }
    }

    /// The lifecycle state.
    pub fn state(&self) -> (r: PrimalState)
        ensures
            r == self.spec_state(),
    {
        self.state
    }

    /// The audit trail.
    pub fn audit_log(&self) -> (r: &AuditLog)
        ensures
            *r == self.spec_audit_log(),
    {
        &self.audit_log
    }

    /// The defense engine.
    pub fn defense(&self) -> (r: &DefenseEngine)
        ensures
            *r == self.spec_defense(),
    {
        &self.defense
    }

    /// The reconnaissance engine.
    pub fn reconnaissance(&self) -> (r: &ReconnaissanceEngine)
        ensures
            *r == self.spec_reconnaissance(),
    {
        &self.reconnaissance
    }

    /// Records a lifecycle transition in the audit trail, unless its
    /// sequence numbers are exhausted.
    fn record_transition(&mut self, from: &str, to: &str)
        requires
            old(self).wf(),
        ensures
            final(self).wf(),
            final(self).spec_state() == old(self).spec_state(),
            final(self).spec_reconnaissance() == old(self).spec_reconnaissance(),
            final(self).spec_defense() == old(self).spec_defense(),
            final(self).spec_observer() == old(self).spec_observer(),
            final(self).spec_lineage_configured() == old(self).spec_lineage_configured(),
            final(self).spec_audit_log().capacity() == old(self).spec_audit_log().capacity(),
            old(self).spec_audit_log().next_seq() < u64::MAX ==> exists|e: SecurityEvent|
                {
                    &&& is_transition(e, old(self).spec_audit_log().next_seq(), from@, to@)
                    &&& final(self).spec_audit_log().events() == appended(
                        old(self).spec_audit_log().events(),
                        old(self).spec_audit_log().capacity(),
                        e,
                    )
                },
            old(self).spec_audit_log().next_seq() >= u64::MAX ==> final(self).spec_audit_log()
                == old(self).spec_audit_log(),
    {
        if self.audit_log.latest_seq() < u64::MAX - 1 {
            self.audit_log.record(
                EventSource::Lifecycle,
                EventSeverity::Info,
                EventKind::LifecycleTransition { from_state: text::owned(from), to_state: text::owned(to) },
            );
        }
    }

    /// Records a security event in the audit trail, stamped now, unless its
    /// sequence numbers are exhausted.
    pub fn record_event(&mut self, source: EventSource, severity: EventSeverity, kind: EventKind)
        requires
            old(self).wf(),
        ensures
            final(self).wf(),
            final(self).spec_state() == old(self).spec_state(),
            final(self).spec_reconnaissance() == old(self).spec_reconnaissance(),
            final(self).spec_defense() == old(self).spec_defense(),
            final(self).spec_observer() == old(self).spec_observer(),
            final(self).spec_lineage_configured() == old(self).spec_lineage_configured(),
            final(self).spec_audit_log().capacity() == old(self).spec_audit_log().capacity(),
            old(self).spec_audit_log().next_seq() < u64::MAX ==> exists|e: SecurityEvent|
                {
                    &&& e.seq == old(self).spec_audit_log().next_seq()
                    &&& e.source == source
                    &&& e.severity == severity
                    &&& e.kind == kind
                    &&& e.correlation_id is None
                    &&& final(self).spec_audit_log().events() == appended(
                        old(self).spec_audit_log().events(),
                        old(self).spec_audit_log().capacity(),
                        e,
                    )
                },
            old(self).spec_audit_log().next_seq() >= u64::MAX ==> final(self).spec_audit_log()
                == old(self).spec_audit_log(),
    {
        if self.audit_log.latest_seq() < u64::MAX - 1 {
            self.audit_log.record(source, severity, kind);
        }
    }

    /// Starts the primal: `Starting`, then every subsystem starts (threat
    /// detection reports how its own start went), then `Running`, with the
    /// transition recorded in the audit trail. A subsystem that fails to
    /// start leaves the primal `Starting` and is a lifecycle error.
    pub fn start(&mut self, detector_start: Result<(), SkunkBatError>) -> (r: Result<(), PrimalError>)
        requires
            old(self).wf(),
        ensures
            final(self).wf(),
            final(self).spec_reconnaissance() == old(self).spec_reconnaissance(),
            final(self).spec_defense() == old(self).spec_defense(),
            final(self).spec_observer() == old(self).spec_observer(),
            final(self).spec_lineage_configured() == old(self).spec_lineage_configured(),
            match detector_start {
                Ok(()) => {
                    &&& r is Ok
                    &&& final(self).spec_state() == PrimalState::Running
                    &&& old(self).spec_audit_log().next_seq() < u64::MAX ==> exists|e: SecurityEvent|
                        {
                            &&& is_transition(e, old(self).spec_audit_log().next_seq(), "Starting"@, "Running"@)
                            &&& final(self).spec_audit_log().events() == appended(
                                old(self).spec_audit_log().events(),
                                old(self).spec_audit_log().capacity(),
                                e,
                            )
                        }
                },
                Err(e) => {
                    &&& r matches Err(PrimalError::Lifecycle(m)) && m@ == e.spec_message()
                    &&& final(self).spec_state() == PrimalState::Starting
                    &&& final(self).spec_audit_log() == old(self).spec_audit_log()
                },
            },
    {
        self.state = PrimalState::Starting;
        let _ = self.reconnaissance.start();
        match detector_start {
            Ok(()) => {},
            Err(e) => {
                let m = e.message();
                return Err(PrimalError::lifecycle(m.as_str()));
            },
        }
        let _ = self.defense.start();
        let _ = self.observer.start();
        self.state = PrimalState::Running;
        self.record_transition("Starting", "Running");
        Ok(())
    }

    /// Stops the primal: `Stopping`, with the transition recorded in the
    /// audit trail, then every subsystem stops (threat detection reports how
    /// its own stop went), then `Stopped`. A subsystem that fails to stop
    /// leaves the primal `Stopping` and is a lifecycle error.
    pub fn stop(&mut self, detector_stop: Result<(), SkunkBatError>) -> (r: Result<(), PrimalError>)
        requires
            old(self).wf(),
        ensures
            final(self).wf(),
            final(self).spec_reconnaissance() == old(self).spec_reconnaissance(),
            final(self).spec_defense() == old(self).spec_defense(),
            final(self).spec_observer() == old(self).spec_observer(),
            final(self).spec_lineage_configured() == old(self).spec_lineage_configured(),
            old(self).spec_audit_log().next_seq() < u64::MAX ==> exists|e: SecurityEvent|
                {
                    &&& is_transition(e, old(self).spec_audit_log().next_seq(), "Running"@, "Stopping"@)
                    &&& final(self).spec_audit_log().events() == appended(
                        old(self).spec_audit_log().events(),
                        old(self).spec_audit_log().capacity(),
                        e,
                    )
                },
            match detector_stop {
                Ok(()) => r is Ok && final(self).spec_state() == PrimalState::Stopped,
                Err(e) => (r matches Err(PrimalError::Lifecycle(m)) && m@ == e.spec_message())
                    && final(self).spec_state() == PrimalState::Stopping,
            },
    {
        self.state = PrimalState::Stopping;
        self.record_transition("Running", "Stopping");
        let _ = self.observer.stop();
        let _ = self.defense.stop();
        match detector_stop {
            Ok(()) => {},
            Err(e) => {
                let m = e.message();
                return Err(PrimalError::lifecycle(m.as_str()));
            },
        }
        let _ = self.reconnaissance.stop();
        self.state = PrimalState::Stopped;
        Ok(())
    }

    /// Counts detected threats on the observer.
    pub fn record_threats_detected(&mut self, count: usize)
        requires
            old(self).wf(),
        ensures
            final(self).wf(),
            final(self).spec_state() == old(self).spec_state(),
            final(self).spec_reconnaissance() == old(self).spec_reconnaissance(),
            final(self).spec_defense() == old(self).spec_defense(),
            final(self).spec_audit_log() == old(self).spec_audit_log(),
            final(self).spec_lineage_configured() == old(self).spec_lineage_configured(),
            final(self).spec_observer().spec_enabled() == old(self).spec_observer().spec_enabled(),
            final(self).spec_observer().counts().threats.mitigated == old(self).spec_observer().counts().threats.mitigated,
            final(self).spec_observer().counts().scanning == old(self).spec_observer().counts().scanning,
            final(self).spec_observer().counts().defense == old(self).spec_observer().counts().defense,
            final(self).spec_observer().counts().http == old(self).spec_observer().counts().http,
            old(self).spec_observer().counts().threats.detected + count <= u64::MAX ==> final(self).spec_observer().counts().threats.detected == old(self).spec_observer().counts().threats.detected
                + count,
    {
        let mut i: usize = 0;
        while i < count
            invariant
                i <= count,
                self.wf(),
                self.spec_state() == old(self).spec_state(),
                self.spec_reconnaissance() == old(self).spec_reconnaissance(),
                self.spec_defense() == old(self).spec_defense(),
                self.spec_audit_log() == old(self).spec_audit_log(),
                self.spec_lineage_configured() == old(self).spec_lineage_configured(),
                self.spec_observer().spec_enabled() == old(self).spec_observer().spec_enabled(),
                self.spec_observer().counts().threats.mitigated == old(self).spec_observer().counts().threats.mitigated,
                self.spec_observer().counts().scanning == old(self).spec_observer().counts().scanning,
                self.spec_observer().counts().defense == old(self).spec_observer().counts().defense,
                self.spec_observer().counts().http == old(self).spec_observer().counts().http,
                old(self).spec_observer().counts().threats.detected + count <= u64::MAX ==> self.spec_observer().counts().threats.detected
                    == old(self).spec_observer().counts().threats.detected + i,
            decreases count - i,
        {
            self.observer.record_threat_detected();
            i = i + 1;
        }
    }

    /// Counts a network scan performed.
    pub fn record_scan(&mut self)
        requires
            old(self).wf(),
        ensures
            final(self).wf(),
            final(self).spec_state() == old(self).spec_state(),
            final(self).spec_reconnaissance() == old(self).spec_reconnaissance(),
            final(self).spec_defense() == old(self).spec_defense(),
            final(self).spec_audit_log() == old(self).spec_audit_log(),
            final(self).spec_lineage_configured() == old(self).spec_lineage_configured(),
            final(self).spec_observer().spec_enabled() == old(self).spec_observer().spec_enabled(),
            final(self).spec_observer().counts() == (SecurityMetrics {
                scanning: crate::observability::ScanMetrics {
                    performed: bump(old(self).spec_observer().counts().scanning.performed),
                },
                ..old(self).spec_observer().counts()
            }),
    {
        self.observer.record_scan_performed();
    }

    /// Responds to a detected threat: the defense engine acts on it, and
    /// the observer counts the response (see `after_response`).
    pub fn respond_to_threat(&mut self, threat: &ThreatFacts, check: ConfidenceCheck, now: Timestamp) -> (r: Result<ActionType, SkunkBatError>)
        requires
            old(self).wf(),
        ensures
            final(self).wf(),
            final(self).spec_state() == old(self).spec_state(),
            final(self).spec_reconnaissance() == old(self).spec_reconnaissance(),
            final(self).spec_audit_log() == old(self).spec_audit_log(),
            final(self).spec_lineage_configured() == old(self).spec_lineage_configured(),
            final(self).spec_observer().spec_enabled() == old(self).spec_observer().spec_enabled(),
            final(self).spec_defense().spec_enabled() == old(self).spec_defense().spec_enabled(),
            r matches Ok(a) && a == (if old(self).spec_defense().spec_enabled() {
                decided_action(threat.severity, check)
            } else {
                ActionType::MonitorAndAlert
            }),
            final(self).spec_observer().counts() == after_response(
                old(self).spec_observer().counts(),
                r->Ok_0,
            ),
            old(self).spec_defense().spec_enabled() && old(self).spec_defense().spec_auto_response()
                && quarantines(decided_action(threat.severity, check)) ==> final(self).spec_defense().quarantined()
                == old(self).spec_defense().quarantined().insert(
                threat.source@,
                QuarantineRecord {
                    source: threat.source,
                    started_at: now,
                    reason: threat.description,
                    threat_id: threat.id,
                },
            ),
            !(old(self).spec_defense().spec_enabled() && old(self).spec_defense().spec_auto_response()
                && quarantines(decided_action(threat.severity, check))) ==> final(self).spec_defense().quarantined()
                == old(self).spec_defense().quarantined(),
    {
        let r = self.defense.respond(threat, check, now);
        match r {
            Ok(action) => {
                record_response(&mut self.observer, action);
                Ok(action)
            },
            Err(e) => Err(e),
        }
    }

    /// Manually quarantines a source address, stamped now.
    pub fn quarantine(&mut self, source: &str, reason: &str, threat_id: &str)
        requires
            old(self).wf(),
        ensures
            final(self).wf(),
            final(self).spec_state() == old(self).spec_state(),
            final(self).spec_observer() == old(self).spec_observer(),
            final(self).spec_audit_log() == old(self).spec_audit_log(),
            final(self).spec_defense().spec_enabled() == old(self).spec_defense().spec_enabled(),
            final(self).spec_defense().quarantined().dom() == old(self).spec_defense().quarantined().dom().insert(source@),
            final(self).spec_defense().quarantined()[source@].threat_id@ == threat_id@,
            final(self).spec_defense().quarantined()[source@].reason@ == reason@,
    {
        self.defense.quarantine(source, reason, threat_id);
    }

    /// Restores saved quarantine records into the defense registry, in
    /// order (a later record for a source replaces an earlier one).
    pub fn restore_quarantine(&mut self, records: Vec<QuarantineRecord>)
        requires
            old(self).wf(),
        ensures
            final(self).wf(),
            final(self).spec_state() == old(self).spec_state(),
            final(self).spec_reconnaissance() == old(self).spec_reconnaissance(),
            final(self).spec_observer() == old(self).spec_observer(),
            final(self).spec_audit_log() == old(self).spec_audit_log(),
            final(self).spec_lineage_configured() == old(self).spec_lineage_configured(),
            final(self).spec_defense().spec_enabled() == old(self).spec_defense().spec_enabled(),
            final(self).spec_defense().spec_auto_response() == old(self).spec_defense().spec_auto_response(),
            final(self).spec_defense().quarantined() == restored(old(self).spec_defense().quarantined(), records@),
    {
        self.defense.restore(records);
    }

    /// Releases a source from quarantine: `true` if it was quarantined.
    pub fn release_quarantine(&mut self, source: &str) -> (released: bool)
        requires
            old(self).wf(),
        ensures
            final(self).wf(),
            final(self).spec_state() == old(self).spec_state(),
            final(self).spec_observer() == old(self).spec_observer(),
            final(self).spec_audit_log() == old(self).spec_audit_log(),
            final(self).spec_defense().spec_enabled() == old(self).spec_defense().spec_enabled(),
            released == old(self).spec_defense().quarantined().contains_key(source@),
            final(self).spec_defense().quarantined() == old(self).spec_defense().quarantined().remove(source@),
    {
        self.defense.release(source)
    }

    /// Whether a source address is currently quarantined.
    pub fn is_quarantined(&self, source: &str) -> (r: bool)
        ensures
            r == self.spec_defense().quarantined().contains_key(source@),
    {
        self.defense.is_quarantined(source)
    }

    /// The recommended action for a threat, without executing it.
    pub fn evaluate_threat(&self, threat: &ThreatFacts, check: ConfidenceCheck) -> (a: DefenseAction)
        ensures
            !self.spec_defense().spec_enabled() ==> a.action_type == ActionType::MonitorAndAlert
                && a.requires_approval,
            self.spec_defense().spec_enabled() ==> a.action_type == decided_action(threat.severity, check),
            a.target@ == threat.source@,
    {
        self.defense.evaluate(threat, check)
    }

    /// The advisory verdict for a source, given the number of HTTP anomalies
    /// found in its telemetry (see `advisory_check`).
    pub fn advisory_check_http(&mut self, source: &str, http_anomalies: Option<usize>) -> (r: AdvisoryVerdict)
        requires
            old(self).wf(),
        ensures
            final(self).wf(),
            final(self).spec_state() == old(self).spec_state(),
            final(self).spec_defense() == old(self).spec_defense(),
            final(self).spec_audit_log() == old(self).spec_audit_log(),
            r.verdict == advisory_verdict_spec(
                old(self).spec_defense().quarantined().contains_key(source@),
                old(self).spec_defense().spec_enabled(),
                http_anomalies,
            ),
            r.reason@ == advisory_reason_spec(
                old(self).spec_defense().quarantined().contains_key(source@),
                old(self).spec_defense().spec_enabled(),
                http_anomalies,
            ),
            r.source@ == source@,
            old(self).spec_defense().quarantined().contains_key(source@) ==> text::texts(r.threat_ids@)
                == seq![old(self).spec_defense().quarantined()[source@].threat_id@],
            !old(self).spec_defense().quarantined().contains_key(source@) ==> r.threat_ids@.len() == 0,
            final(self).spec_observer().spec_enabled() == old(self).spec_observer().spec_enabled(),
            final(self).spec_observer().counts() == (if !old(self).spec_defense().quarantined().contains_key(
                source@,
            ) && old(self).spec_defense().spec_enabled() && http_anomalies is Some {
                SecurityMetrics {
                    http: http_after(old(self).spec_observer().counts().http, r.verdict),
                    ..old(self).spec_observer().counts()
                }
            } else {
                old(self).spec_observer().counts()
            }),
    {
        advisory_check(&self.defense, &mut self.observer, source, http_anomalies)
    }

    /// A snapshot of the security counters, stamped now.
    pub fn get_security_metrics(&self) -> (r: SecurityMetrics)
        ensures
            r.threats == self.spec_observer().counts().threats,
            r.scanning == self.spec_observer().counts().scanning,
            r.defense == self.spec_observer().counts().defense,
            r.http == self.spec_observer().counts().http,
            r.last_updated is Some,
    {
        self.observer.get_metrics()
    }

    /// The primal's health, given whether threat detection is healthy (see
    /// `health_status`).
    pub fn health_status(&self, detector_healthy: bool) -> (r: HealthStatus)
        ensures
            self.spec_state() == PrimalState::Running && self.spec_reconnaissance().spec_enabled()
                && detector_healthy && self.spec_defense().spec_enabled() && self.spec_observer().spec_enabled()
                ==> r is Healthy,
            self.spec_state() == PrimalState::Running && !(self.spec_reconnaissance().spec_enabled()
                && detector_healthy && self.spec_defense().spec_enabled()
                && self.spec_observer().spec_enabled()) ==> (r matches HealthStatus::Degraded { reason }
                && reason@ == subsystems_text(
                self.spec_reconnaissance().spec_enabled(),
                detector_healthy,
                self.spec_defense().spec_enabled(),
                self.spec_observer().spec_enabled(),
            )),
            self.spec_state() != PrimalState::Running ==> (r matches HealthStatus::Unhealthy { reason }
                && reason@ == "state: "@ + self.spec_state().spec_text()),
    {
        health_status(
            self.state,
            self.reconnaissance.is_healthy(),
            detector_healthy,
            self.defense.is_healthy(),
            self.observer.is_healthy(),
        )
    }

    /// The primal's dependencies (see `dependency_health`).
    pub fn dependency_health(&self) -> (r: Vec<DependencyHealth>)
        ensures
            r@.len() == 2,
            r@[0].name@ == "lineage-verifier"@,
            r@[0].dependency_type@ == "capability"@,
            self.spec_lineage_configured() ==> r@[0].status is Healthy,
            !self.spec_lineage_configured() ==> (r@[0].status matches HealthStatus::Unhealthy { reason }
                && reason@ == "no lineage_id configured"@),
            r@[1].name@ == "security-observer"@,
            r@[1].dependency_type@ == "internal"@,
            self.spec_observer().spec_enabled() ==> r@[1].status is Healthy,
            !self.spec_observer().spec_enabled() ==> (r@[1].status matches HealthStatus::Unhealthy { reason }
                && reason@ == "disabled by config"@),
    {
        dependency_health(self.lineage_configured, self.observer.is_healthy())
    }
}

} // verus!
