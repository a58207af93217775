//! Automated defense: threat response decisions and the quarantine registry.
//!
//! The engine decides, from a threat's severity and whether its confidence
//! clears the configured thresholds, whether to quarantine its source, to
//! quarantine and alert, or only to monitor and alert. The quarantine
//! registry maps each quarantined source address to one record.

use crate::error::SkunkBatError;
use crate::primal_foundation::Timestamp;
use crate::text;
use crate::threats::Severity;
use vstd::prelude::*;

verus! {

/// Type of defense action.
#[derive(Debug, Clone, Copy, PartialEq, Eq, Structural)]
pub enum ActionType {
    /// Quarantine connection (isolate but don't block)
    Quarantine,
    /// Quarantine and alert operator
    QuarantineAndAlert,
    /// Monitor and alert operator
    MonitorAndAlert,
    /// Block connection entirely
    Block,
}

/// Defense action to take.
#[derive(Debug, Clone)]
pub struct DefenseAction {
    /// Type of action
    pub action_type: ActionType,
    /// Target of action
    pub target: String,
    /// Requires user approval
    pub requires_approval: bool,
    /// Reason for action
    pub reason: String,
}

/// Quarantine record.
#[derive(Debug)]
pub struct QuarantineRecord {
    /// Source being quarantined
    pub source: String,
    /// When quarantine started
    pub started_at: Timestamp,
    /// Reason for quarantine
    pub reason: String,
    /// Associated threat
    pub threat_id: String,
}

impl Clone for QuarantineRecord {
    fn clone(&self) -> (r: Self)
        ensures
            r == *self,
    {
        QuarantineRecord {
            source: self.source.clone(),
            started_at: self.started_at,
            reason: self.reason.clone(),
            threat_id: self.threat_id.clone(),
        }
    }
}

/// What the defense engine reads of a threat.
#[derive(Debug, Clone)]
pub struct ThreatFacts {
    /// Unique threat identifier.
    pub id: String,
    /// Severity level.
    pub severity: Severity,
    /// Source of the threat (the address a quarantine targets).
    pub source: String,
    /// Human-readable description.
    pub description: String,
}

/// How a threat's confidence compares with the engine's two thresholds:
/// whether it is strictly above the critical-quarantine threshold and
/// whether it is strictly above the high-severity-quarantine threshold.
#[derive(Debug, Clone, Copy, PartialEq, Eq, Structural)]
pub struct ConfidenceCheck {
    /// Confidence strictly above the critical-quarantine threshold.
    pub exceeds_critical: bool,
    /// Confidence strictly above the high-severity-quarantine threshold.
    pub exceeds_high: bool,
}

/// The action the engine decides on for a threat.
pub open spec fn decided_action(severity: Severity, check: ConfidenceCheck) -> ActionType {
    if severity == Severity::Critical && check.exceeds_critical {
        ActionType::Quarantine
    } else if severity == Severity::High && check.exceeds_high {
        ActionType::QuarantineAndAlert
    } else {
        ActionType::MonitorAndAlert
    }
}

/// The reason text the engine gives for its decision.
pub open spec fn decided_reason(severity: Severity, check: ConfidenceCheck, description: Seq<char>) -> Seq<
    char,
> {
    if severity == Severity::Critical && check.exceeds_critical {
        "Critical threat detected: "@ + description
    } else if severity == Severity::High && check.exceeds_high {
        "High severity threat: "@ + description
    } else {
        "Potential threat detected: "@ + description
    }
}

/// Whether a quarantine registry holds a record for `source`.
pub open spec fn holds_source(records: Seq<QuarantineRecord>, source: Seq<char>) -> bool {
    exists|i: int| 0 <= i < records.len() && #[trigger] records[i].source@ == source
}

/// No two records of a registry share a source.
pub open spec fn sources_unique(records: Seq<QuarantineRecord>) -> bool {
    forall|i: int, j: int|
        0 <= i < records.len() && 0 <= j < records.len() && i != j ==> #[trigger] records[i].source@
            != #[trigger] records[j].source@
}

/// The record a registry holds for `source` (meaningful when it holds one).
pub open spec fn record_of(records: Seq<QuarantineRecord>, source: Seq<char>) -> QuarantineRecord {
    records[choose|i: int| 0 <= i < records.len() && #[trigger] records[i].source@ == source]
}

/// A registry as a map from source address to its record.
pub open spec fn registry_map(records: Seq<QuarantineRecord>) -> Map<Seq<char>, QuarantineRecord> {
    Map::new(|k: Seq<char>| holds_source(records, k), |k: Seq<char>| record_of(records, k))
}

/// With unique sources, the record for the source at index `i` is the one at `i`.
proof fn lemma_record_at(records: Seq<QuarantineRecord>, i: int)
    requires
        sources_unique(records),
        0 <= i < records.len(),
    ensures
        holds_source(records, records[i].source@),
        record_of(records, records[i].source@) == records[i],
{
    let k = records[i].source@;
    assert(records[i].source@ == k);
    let j = choose|j: int| 0 <= j < records.len() && #[trigger] records[j].source@ == k;
    assert(records[j].source@ == records[i].source@);
}

/// Appending a record for a source the registry does not hold keeps the
/// sources unique and adds exactly that entry to the map.
proof fn lemma_registry_push(old_records: Seq<QuarantineRecord>, record: QuarantineRecord)
    requires
        sources_unique(old_records),
        !holds_source(old_records, record.source@),
    ensures
        sources_unique(old_records.push(record)),
        registry_map(old_records.push(record)) == registry_map(old_records).insert(record.source@, record),
{
    let new_records = old_records.push(record);
    let key = record.source@;
    let n = old_records.len() as int;
    assert forall|a: int, b: int|
        0 <= a < new_records.len() && 0 <= b < new_records.len() && a != b
            implies #[trigger] new_records[a].source@ != #[trigger] new_records[b].source@ by {
        if a == n {
            assert(!(0 <= b < old_records.len() && old_records[b].source@ == key));
        } else if b == n {
            assert(!(0 <= a < old_records.len() && old_records[a].source@ == key));
        } else {
            assert(old_records[a].source@ != old_records[b].source@);
        }
    }
    assert forall|k: Seq<char>| holds_source(new_records, k) <==> (holds_source(old_records, k)
        || k == key) by {
        if holds_source(old_records, k) {
            let j = choose|j: int| 0 <= j < old_records.len() && #[trigger] old_records[j].source@ == k;
            assert(new_records[j].source@ == k);
        }
        if holds_source(new_records, k) {
            let j = choose|j: int| 0 <= j < new_records.len() && #[trigger] new_records[j].source@ == k;
            if j < n {
                assert(old_records[j].source@ == k);
            }
        }
        if k == key {
            assert(new_records[n].source@ == k);
        }
    }
    assert forall|k: Seq<char>| #[trigger] holds_source(new_records, k) implies record_of(new_records, k)
        == (if k == key { record } else { record_of(old_records, k) }) by {
        let j = choose|j: int| 0 <= j < new_records.len() && #[trigger] new_records[j].source@ == k;
        lemma_record_at(new_records, j);
        if j == n {
            assert(new_records[j] == record);
        } else {
            assert(new_records[j] == old_records[j]);
            lemma_record_at(old_records, j);
        }
    }
    assert(registry_map(new_records) =~= registry_map(old_records).insert(key, record));
}

/// The registry after inserting each of `records`, in order, into `base`: a
/// later record for a source replaces an earlier one.
pub open spec fn restored(base: Map<Seq<char>, QuarantineRecord>, records: Seq<QuarantineRecord>) -> Map<
    Seq<char>,
    QuarantineRecord,
>
    decreases records.len(),
{
    if records.len() == 0 {
        base
    } else {
        restored(base, records.drop_last()).insert(records.last().source@, records.last())
    }
}

/// Records with unique sources, restored in order into an empty registry,
/// give the registry they form.
proof fn lemma_restored_unique(s: Seq<QuarantineRecord>)
    requires
        sources_unique(s),
    ensures
        restored(Map::empty(), s) == registry_map(s),
    decreases s.len(),
{
    if s.len() == 0 {
        assert(registry_map(s) =~= Map::<Seq<char>, QuarantineRecord>::empty());
    } else {
        let p = s.drop_last();
        let last = s.last();
        assert(sources_unique(p)) by {
            assert forall|a: int, b: int|
                0 <= a < p.len() && 0 <= b < p.len() && a != b
                    implies #[trigger] p[a].source@ != #[trigger] p[b].source@ by {
                assert(p[a] == s[a] && p[b] == s[b]);
            }
        }
        lemma_restored_unique(p);
        assert(!holds_source(p, last.source@)) by {
            if holds_source(p, last.source@) {
                let j = choose|j: int| 0 <= j < p.len() && #[trigger] p[j].source@ == last.source@;
                assert(s[j].source@ == s[s.len() - 1].source@);
            }
        }
        lemma_registry_push(p, last);
        assert(p.push(last) =~= s);
    }
}

/// What is saved of the registry is what comes back: a snapshot of an
/// engine's registry (one record per source, forming that registry),
/// restored in order into an empty registry, is the engine's registry again.
pub proof fn lemma_snapshot_restore_roundtrip(engine: &DefenseEngine, snapshot: Seq<QuarantineRecord>)
    requires
        sources_unique(snapshot),
        registry_map(snapshot) == engine.quarantined(),
    ensures
        restored(Map::empty(), snapshot) == engine.quarantined(),
{
    lemma_restored_unique(snapshot);
}

/// The engine quarantines only on clear evidence: a quarantine (with or
/// without alert) is decided only for a critical threat whose confidence
/// exceeds the critical threshold, or a high-severity one whose confidence
/// exceeds the high threshold. Any other threat is only monitored, with
/// operator approval required, for the reason `Potential threat detected:
/// <description>`.
pub proof fn lemma_quarantine_needs_confidence(severity: Severity, check: ConfidenceCheck, description: Seq<char>)
    ensures
        decided_action(severity, check) == ActionType::Quarantine ==> severity == Severity::Critical
            && check.exceeds_critical,
        decided_action(severity, check) == ActionType::QuarantineAndAlert ==> severity == Severity::High
            && check.exceeds_high,
        decided_action(severity, check) != ActionType::Block,
        !(severity == Severity::Critical && check.exceeds_critical) && !(severity == Severity::High
            && check.exceeds_high) ==> decided_action(severity, check) == ActionType::MonitorAndAlert
            && decided_reason(severity, check, description) == "Potential threat detected: "@ + description,
        !check.exceeds_high && !check.exceeds_critical ==> decided_action(severity, check)
            == ActionType::MonitorAndAlert,
{
}

/// The registry after an action of kind `kind` on `target` is carried out:
/// with automatic response off nothing changes; otherwise a quarantine holds
/// `record` for the target, a block drops the target's record, and
/// monitoring changes nothing.
pub open spec fn after_action(
    registry: Map<Seq<char>, QuarantineRecord>,
    auto_response: bool,
    kind: ActionType,
    target: Seq<char>,
    record: QuarantineRecord,
) -> Map<Seq<char>, QuarantineRecord> {
    if !auto_response {
        registry
    } else {
        match kind {
            ActionType::Quarantine | ActionType::QuarantineAndAlert => registry.insert(target, record),
            ActionType::Block => registry.remove(target),
            ActionType::MonitorAndAlert => registry,
        }
    }
}

/// Defense engine with the quarantine registry.
pub struct DefenseEngine {
    enabled: bool,
    auto_response_enabled: bool,
    records: Vec<QuarantineRecord>,
}

impl DefenseEngine {
    /// Whether defense is enabled.
    pub closed spec fn spec_enabled(&self) -> bool {
        self.enabled
    }

    /// Whether automatic response (quarantine/block) is enabled.
    pub closed spec fn spec_auto_response(&self) -> bool {
        self.auto_response_enabled
    }

    /// The quarantined sources and their records.
    pub closed spec fn quarantined(&self) -> Map<Seq<char>, QuarantineRecord> {
        registry_map(self.records@)
    }

    /// The engine's invariant: each source is quarantined at most once.
    pub closed spec fn wf(&self) -> bool {
        sources_unique(self.records@)
    }

    /// Create a defense engine. Defense and automatic response both follow
    /// the `auto_defense` feature flag; the registry starts empty.
    pub fn new(auto_defense: bool) -> (e: Self)
        ensures
            e.wf(),
            e.spec_enabled() == auto_defense,
            e.spec_auto_response() == auto_defense,
            e.quarantined() == Map::<Seq<char>, QuarantineRecord>::empty(),
    {
        let e = DefenseEngine {
            enabled: auto_defense,
            auto_response_enabled: auto_defense,
            records: Vec::new(),
        };
        assert(e.quarantined() =~= Map::<Seq<char>, QuarantineRecord>::empty());
        e
    }

    /// Start the defense engine; it never fails.
    pub fn start(&self) -> (r: Result<(), SkunkBatError>)
        ensures
            r is Ok,
    {
        Ok(())
    }

    /// Stop the defense engine; it never fails.
    pub fn stop(&self) -> (r: Result<(), SkunkBatError>)
        ensures
            r is Ok,
    {
        Ok(())
    }

    /// The engine is healthy exactly when it is enabled.
    pub fn is_healthy(&self) -> (r: bool)
        ensures
            r == self.spec_enabled(),
    {
        self.enabled
    }

    /// Whether automatic response is enabled.
    pub fn auto_response_enabled(&self) -> (r: bool)
        ensures
            r == self.spec_auto_response(),
    {
        self.auto_response_enabled
    }

    /// Decide the action for a threat from its severity and confidence.
    pub fn determine_action(&self, threat: &ThreatFacts, check: ConfidenceCheck) -> (a:
        DefenseAction)
        ensures
            a.action_type == decided_action(threat.severity, check),
            a.target == threat.source,
            a.requires_approval == (decided_action(threat.severity, check)
                == ActionType::MonitorAndAlert),
            a.reason@ == decided_reason(threat.severity, check, threat.description@),
    {
        if threat.severity == Severity::Critical && check.exceeds_critical {
            return DefenseAction {
                action_type: ActionType::Quarantine,
                target: threat.source.clone(),
                requires_approval: false,
                reason: text::concat2("Critical threat detected: ", threat.description.as_str()),
            };
        }
        if threat.severity == Severity::High && check.exceeds_high {
            return DefenseAction {
                action_type: ActionType::QuarantineAndAlert,
                target: threat.source.clone(),
                requires_approval: false,
                reason: text::concat2("High severity threat: ", threat.description.as_str()),
            };
        }
        DefenseAction {
            action_type: ActionType::MonitorAndAlert,
            target: threat.source.clone(),
            requires_approval: true,
            reason: text::concat2("Potential threat detected: ", threat.description.as_str()),
        }
    }

    /// Evaluate a threat and return the recommended action without executing
    /// it. A disabled engine only ever recommends monitoring, with approval.
    pub fn evaluate(&self, threat: &ThreatFacts, check: ConfidenceCheck) -> (a: DefenseAction)
        ensures
            !self.spec_enabled() ==> {
                &&& a.action_type == ActionType::MonitorAndAlert
                &&& a.target@ == threat.source@
                &&& a.requires_approval
                &&& a.reason@ == "defense engine disabled — advisory only"@
            },
            self.spec_enabled() ==> {
                &&& a.action_type == decided_action(threat.severity, check)
                &&& a.target@ == threat.source@
                &&& a.requires_approval == (decided_action(threat.severity, check)
                    == ActionType::MonitorAndAlert)
                &&& a.reason@ == decided_reason(threat.severity, check, threat.description@)
            },
    {
        if !self.enabled {
            return DefenseAction {
                action_type: ActionType::MonitorAndAlert,
                target: threat.source.clone(),
                requires_approval: true,
                reason: text::owned("defense engine disabled — advisory only"),
            };
        }
        self.determine_action(threat, check)
    }

    /// Respond to a threat, stamping any quarantine with `now`.
    ///
    /// A disabled engine monitors only. Otherwise the decided action is
    /// returned; with automatic response on, a quarantine action quarantines
    /// the threat's source (reason: the description; threat: its id). With
    /// automatic response off, the registry is left as it is.
    pub fn respond(&mut self, threat: &ThreatFacts, check: ConfidenceCheck, now: Timestamp) -> (r:
        Result<ActionType, SkunkBatError>)
        requires
            old(self).wf(),
        ensures
            final(self).wf(),
            final(self).spec_enabled() == old(self).spec_enabled(),
            final(self).spec_auto_response() == old(self).spec_auto_response(),
            !old(self).spec_enabled() ==> r == Ok::<ActionType, SkunkBatError>(
                ActionType::MonitorAndAlert,
            ) && final(self).quarantined() == old(self).quarantined(),
            old(self).spec_enabled() ==> r == Ok::<ActionType, SkunkBatError>(
                decided_action(threat.severity, check),
            ),
            old(self).spec_enabled() && old(self).spec_auto_response() && (decided_action(
                threat.severity,
                check,
            ) == ActionType::Quarantine || decided_action(threat.severity, check)
                == ActionType::QuarantineAndAlert) ==> final(self).quarantined() == old(
                self,
            ).quarantined().insert(
                threat.source@,
                QuarantineRecord {
                    source: threat.source,
                    started_at: now,
                    reason: threat.description,
                    threat_id: threat.id,
                },
            ),
            !(old(self).spec_enabled() && old(self).spec_auto_response() && (decided_action(
                threat.severity,
                check,
            ) == ActionType::Quarantine || decided_action(threat.severity, check)
                == ActionType::QuarantineAndAlert)) ==> final(self).quarantined() == old(
                self,
            ).quarantined(),
    {
        if !self.enabled {
            return Ok(ActionType::MonitorAndAlert);
        }
        let action = self.determine_action(threat, check);
        self.execute_action(&action, threat, now);
        Ok(action.action_type)
    }

    /// Carry out a defense action for a threat, stamping any quarantine with
    /// `now`. With automatic response off the registry is left as it is (the
    /// operator decides). Otherwise a quarantine action quarantines the
    /// action's target (reason: the threat's description; threat: its id),
    /// a block drops any record for the target, and monitoring changes
    /// nothing.
    pub fn execute_action(&mut self, action: &DefenseAction, threat: &ThreatFacts, now: Timestamp)
        requires
            old(self).wf(),
        ensures
            final(self).wf(),
            final(self).spec_enabled() == old(self).spec_enabled(),
            final(self).spec_auto_response() == old(self).spec_auto_response(),
            final(self).quarantined() == after_action(
                old(self).quarantined(),
                old(self).spec_auto_response(),
                action.action_type,
                action.target@,
                (QuarantineRecord {
                    source: action.target,
                    started_at: now,
                    reason: threat.description,
                    threat_id: threat.id,
                }),
            ),
    {
        if !self.auto_response_enabled {
            return;
        }
        match action.action_type {
            ActionType::Quarantine | ActionType::QuarantineAndAlert => {
                let record = QuarantineRecord {
                    source: action.target.clone(),
                    started_at: now,
                    reason: threat.description.clone(),
                    threat_id: threat.id.clone(),
                };
                self.insert_record(record);
            },
            ActionType::MonitorAndAlert => {},
            ActionType::Block => {
                self.remove_source(action.target.as_str());
            },
        }
    }

    /// The index of the record for `source`, if any.
    fn find(&self, source: &str) -> (r: Option<usize>)
        ensures
            match r {
                Some(i) => i < self.records@.len() && self.records@[i as int].source@ == source@,
                None => !holds_source(self.records@, source@),
            },
    {
        let mut i: usize = 0;
        while i < self.records.len()
            invariant
                i <= self.records@.len(),
                forall|j: int| 0 <= j < i ==> self.records@[j].source@ != source@,
            decreases self.records@.len() - i,
        {
            if text::str_eq(self.records[i].source.as_str(), source) {
                return Some(i);
            }
            i = i + 1;
        }
        None
    }

    /// Insert or replace the record for its source.
    fn insert_record(&mut self, record: QuarantineRecord)
        requires
            old(self).wf(),
        ensures
            final(self).wf(),
            final(self).enabled == old(self).enabled,
            final(self).auto_response_enabled == old(self).auto_response_enabled,
            final(self).quarantined() == old(self).quarantined().insert(record.source@, record),
    {
        let ghost old_records = self.records@;
        let ghost key = record.source@;
        match self.find(record.source.as_str()) {
            Some(i) => {
                self.records.set(i, record);
                proof {
                    let new_records = self.records@;
                    assert(new_records == old_records.update(i as int, record));
                    assert forall|a: int, b: int|
                        0 <= a < new_records.len() && 0 <= b < new_records.len() && a != b
                            implies #[trigger] new_records[a].source@ != #[trigger] new_records[b].source@ by {
                        if a == i {
                            assert(old_records[b].source@ != old_records[a].source@);
                        } else if b == i {
                            assert(old_records[a].source@ != old_records[b].source@);
                        } else {
                            assert(old_records[a].source@ != old_records[b].source@);
                        }
                    }
                    self.lemma_insert_map(old_records, record, i as int);
                }
            },
            None => {
                self.records.push(record);
                proof {
                    assert(self.records@ == old_records.push(record));
                    lemma_registry_push(old_records, record);
                }
            },
        }
    }

    /// Replacing the record at `i` (whose source equals the new record's)
    /// updates the map at that source only.
    proof fn lemma_insert_map(&self, old_records: Seq<QuarantineRecord>, record: QuarantineRecord, i: int)
        requires
            sources_unique(old_records),
            sources_unique(self.records@),
            0 <= i < old_records.len(),
            old_records[i].source@ == record.source@,
            self.records@ == old_records.update(i, record),
        ensures
            registry_map(self.records@) == registry_map(old_records).insert(record.source@, record),
    {
        let new_records = self.records@;
        let key = record.source@;
        assert forall|k: Seq<char>| holds_source(new_records, k) <==> (holds_source(old_records, k)
            || k == key) by {
            if holds_source(old_records, k) {
                let j = choose|j: int| 0 <= j < old_records.len() && #[trigger] old_records[j].source@ == k;
                assert(new_records[j].source@ == k);
            }
            if holds_source(new_records, k) {
                let j = choose|j: int| 0 <= j < new_records.len() && #[trigger] new_records[j].source@ == k;
                assert(old_records[j].source@ == k);
            }
            if k == key {
                assert(new_records[i].source@ == k);
            }
        }
        assert forall|k: Seq<char>| #[trigger] holds_source(new_records, k) implies record_of(new_records, k)
            == (if k == key { record } else { record_of(old_records, k) }) by {
            let j = choose|j: int| 0 <= j < new_records.len() && #[trigger] new_records[j].source@ == k;
            lemma_record_at(new_records, j);
            if j == i {
                assert(new_records[j] == record);
            } else {
                assert(new_records[j] == old_records[j]);
                lemma_record_at(old_records, j);
            }
        }
        assert(registry_map(new_records) =~= registry_map(old_records).insert(key, record));
    }

    /// Remove the record for `source`; whether one was removed.
    fn remove_source(&mut self, source: &str) -> (removed: bool)
        requires
            old(self).wf(),
        ensures
            final(self).wf(),
            final(self).enabled == old(self).enabled,
            final(self).auto_response_enabled == old(self).auto_response_enabled,
            removed == old(self).quarantined().contains_key(source@),
            final(self).quarantined() == old(self).quarantined().remove(source@),
    {
        let ghost old_records = self.records@;
        match self.find(source) {
            Some(i) => {
                self.records.remove(i);
                proof {
                    let new_records = self.records@;
                    assert(new_records == old_records.remove(i as int));
                    assert forall|a: int, b: int|
                        0 <= a < new_records.len() && 0 <= b < new_records.len() && a != b
                            implies #[trigger] new_records[a].source@ != #[trigger] new_records[b].source@ by {
                        let oa = if a < i { a } else { a + 1 };
                        let ob = if b < i { b } else { b + 1 };
                        assert(new_records[a] == old_records[oa]);
                        assert(new_records[b] == old_records[ob]);
                    }
                    assert forall|k: Seq<char>| holds_source(new_records, k) <==> (holds_source(
                        old_records,
                        k,
                    ) && k != source@) by {
                        if holds_source(old_records, k) && k != source@ {
                            let j = choose|j: int| 0 <= j < old_records.len() && #[trigger] old_records[j].source@ == k;
                            assert(j != i);
                            let nj = if j < i { j } else { j - 1 };
                            assert(new_records[nj] == old_records[j]);
                        }
                        if holds_source(new_records, k) {
                            let j = choose|j: int| 0 <= j < new_records.len() && #[trigger] new_records[j].source@ == k;
                            let oj = if j < i { j } else { j + 1 };
                            assert(new_records[j] == old_records[oj]);
                            assert(oj != i);
                        }
                    }
                    assert forall|k: Seq<char>| #[trigger] holds_source(new_records, k) implies record_of(
                        new_records,
                        k,
                    ) == record_of(old_records, k) by {
                        let j = choose|j: int| 0 <= j < new_records.len() && #[trigger] new_records[j].source@ == k;
                        let oj = if j < i { j } else { j + 1 };
                        assert(new_records[j] == old_records[oj]);
                        lemma_record_at(new_records, j);
                        lemma_record_at(old_records, oj);
                    }
                    assert(registry_map(new_records) =~= registry_map(old_records).remove(source@));
                    assert(holds_source(old_records, source@)) by {
                        assert(old_records[i as int].source@ == source@);
                    }
                }
                true
            },
            None => {
                assert(registry_map(old_records).remove(source@) =~= registry_map(old_records));
                false
            },
        }
    }

    /// Manually quarantine a source address, stamped now. An existing record
    /// for the source is replaced.
    pub fn quarantine(&mut self, source: &str, reason: &str, threat_id: &str)
        requires
            old(self).wf(),
        ensures
            final(self).wf(),
            final(self).spec_enabled() == old(self).spec_enabled(),
            final(self).spec_auto_response() == old(self).spec_auto_response(),
            final(self).quarantined().dom() == old(self).quarantined().dom().insert(source@),
            final(self).quarantined()[source@].source@ == source@,
            final(self).quarantined()[source@].reason@ == reason@,
            final(self).quarantined()[source@].threat_id@ == threat_id@,
            forall|k: Seq<char>|
                k != source@ && old(self).quarantined().contains_key(k)
                    ==> #[trigger] final(self).quarantined()[k] == old(self).quarantined()[k],
    {
        let now = Timestamp::now();
        self.quarantine_at(source, reason, threat_id, now)
    }

    /// Quarantine a source address with an explicit start time.
    pub fn quarantine_at(&mut self, source: &str, reason: &str, threat_id: &str, now: Timestamp)
        requires
            old(self).wf(),
        ensures
            final(self).wf(),
            final(self).spec_enabled() == old(self).spec_enabled(),
            final(self).spec_auto_response() == old(self).spec_auto_response(),
            exists|rec: QuarantineRecord|
                {
                    &&& rec.source@ == source@
                    &&& rec.reason@ == reason@
                    &&& rec.threat_id@ == threat_id@
                    &&& rec.started_at == now
                    &&& final(self).quarantined() == old(self).quarantined().insert(source@, rec)
                },
            final(self).quarantined().dom() == old(self).quarantined().dom().insert(source@),
            final(self).quarantined()[source@].source@ == source@,
            final(self).quarantined()[source@].reason@ == reason@,
            final(self).quarantined()[source@].threat_id@ == threat_id@,
            forall|k: Seq<char>|
                k != source@ && old(self).quarantined().contains_key(k)
                    ==> #[trigger] final(self).quarantined()[k] == old(self).quarantined()[k],
    {
        let record = QuarantineRecord {
            source: text::owned(source),
            started_at: now,
            reason: text::owned(reason),
            threat_id: text::owned(threat_id),
        };
        self.insert_record(record);
    }

    /// Release a source from quarantine: `true` if it was quarantined (and is
    /// now released), `false` if it was not.
    pub fn release(&mut self, source: &str) -> (released: bool)
        requires
            old(self).wf(),
        ensures
            final(self).wf(),
            final(self).spec_enabled() == old(self).spec_enabled(),
            final(self).spec_auto_response() == old(self).spec_auto_response(),
            released == old(self).quarantined().contains_key(source@),
            final(self).quarantined() == old(self).quarantined().remove(source@),
    {
        self.remove_source(source)
    }

    /// Whether a source address is currently quarantined.
    pub fn is_quarantined(&self, source: &str) -> (r: bool)
        ensures
            r == self.quarantined().contains_key(source@),
    {
        self.find(source).is_some()
    }

    /// The record held for a source address, if it is quarantined.
    pub fn quarantine_record(&self, source: &str) -> (r: Option<QuarantineRecord>)
        requires
            self.wf(),
        ensures
            match r {
                Some(rec) => self.quarantined().contains_key(source@) && rec == self.quarantined()[source@],
                None => !self.quarantined().contains_key(source@),
            },
    {
        match self.find(source) {
            Some(i) => {
                proof {
                    lemma_record_at(self.records@, i as int);
                }
                Some(self.records[i].clone())
            },
            None => None,
        }
    }

    /// Restore saved records into the registry, in order: each record is
    /// held for its source, replacing any record already held for it.
    pub fn restore(&mut self, records: Vec<QuarantineRecord>)
        requires
            old(self).wf(),
        ensures
            final(self).wf(),
            final(self).spec_enabled() == old(self).spec_enabled(),
            final(self).spec_auto_response() == old(self).spec_auto_response(),
            final(self).quarantined() == restored(old(self).quarantined(), records@),
    {
        let ghost base = self.quarantined();
        let ghost enabled = self.enabled;
        let ghost auto = self.auto_response_enabled;
        let mut i: usize = 0;
        while i < records.len()
            invariant
                self.wf(),
                i <= records@.len(),
                self.enabled == enabled,
                self.auto_response_enabled == auto,
                self.quarantined() == restored(base, records@.take(i as int)),
            decreases records@.len() - i,
        {
            let rec = records[i].clone();
            self.insert_record(rec);
            proof {
                let t = records@.take(i as int + 1);
                assert(t.drop_last() =~= records@.take(i as int));
                assert(t.last() == records@[i as int]);
            }
            i = i + 1;
        }
        proof {
            assert(records@.take(records@.len() as int) =~= records@);
        }
    }

    /// A snapshot of the quarantine registry: one record per quarantined
    /// source.
    pub fn quarantine_snapshot(&self) -> (r: Vec<QuarantineRecord>)
        requires
            self.wf(),
        ensures
            sources_unique(r@),
            registry_map(r@) == self.quarantined(),
    {
        let mut r: Vec<QuarantineRecord> = Vec::new();
        let mut i: usize = 0;
        while i < self.records.len()
            invariant
                i <= self.records@.len(),
                r@ == self.records@.take(i as int),
            decreases self.records@.len() - i,
        {
            r.push(self.records[i].clone());
            i = i + 1;
            assert(r@ =~= self.records@.take(i as int));
        }
        assert(self.records@.take(self.records@.len() as int) =~= self.records@);
        r
    }

    /// The number of quarantined sources.
    pub fn quarantined_count(&self) -> (n: usize)
        requires
            self.wf(),
        ensures
            n == self.quarantined().len(),
    {
        proof {
            self.lemma_count();
        }
        self.records.len()
    }

    /// The registry's map has one entry per record.
    proof fn lemma_count(&self)
        requires
            self.wf(),
        ensures
            self.quarantined().len() == self.records@.len(),
            self.quarantined().dom().finite(),
    {
        let recs = self.records@;
        let f = |i: int| recs[i].source@;
        let idx = Set::new(|i: int| 0 <= i < recs.len());
        assert forall|k: Seq<char>| registry_map(recs).dom().contains(k) <==> idx.map(f).contains(k) by {
            if registry_map(recs).dom().contains(k) {
                let j = choose|j: int| 0 <= j < recs.len() && #[trigger] recs[j].source@ == k;
                assert(idx.contains(j) && f(j) == k);
            }
            if idx.map(f).contains(k) {
                let j = choose|j: int| idx.contains(j) && f(j) == k;
                assert(recs[j].source@ == k);
            }
        }
        assert(registry_map(recs).dom() =~= idx.map(f));
        vstd::set_lib::lemma_int_range(0, recs.len() as int);
        assert(idx =~= vstd::set_lib::set_int_range(0, recs.len() as int));
        assert forall|a: int, b: int| idx.contains(a) && idx.contains(b) && #[trigger] f(a) == #[trigger] f(b) implies a == b by {
        }
        vstd::set_lib::lemma_map_size(idx, idx.map(f), f);
    }
}

} // verus!
