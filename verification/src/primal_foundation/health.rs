//! Health reports for observability.

use super::types::Timestamp;
use crate::text;
use vstd::prelude::*;

verus! {

/// Overall health status of a primal.
#[derive(Clone, Debug, PartialEq, Eq)]
pub enum HealthStatus {
    /// Healthy and ready to serve requests.
    Healthy,
    /// Unhealthy but may recover.
    Degraded {
        /// Reason for degraded status.
        reason: String,
    },
    /// Unhealthy and not serving requests.
    Unhealthy {
        /// Reason for unhealthy status.
        reason: String,
    },
    /// Health unknown (e.g., startup in progress).
    Unknown,
}

impl HealthStatus {
    /// Whether the status allows serving requests: healthy or degraded.
    pub open spec fn spec_is_serving(&self) -> bool {
        self is Healthy || self is Degraded
    }

    /// Check if the status is healthy.
    pub fn is_healthy(&self) -> (r: bool)
        ensures
            r == (self is Healthy),
    {
        matches!(self, HealthStatus::Healthy)
    }

    /// Check if the status allows serving requests.
    pub fn is_serving(&self) -> (r: bool)
        ensures
            r == self.spec_is_serving(),
    {
        matches!(self, HealthStatus::Healthy | HealthStatus::Degraded { .. })
    }

    /// The display text of the status.
    pub fn to_text(&self) -> (r: String)
        ensures
            self is Healthy ==> r@ == "healthy"@,
            self is Unknown ==> r@ == "unknown"@,
            self matches HealthStatus::Degraded { reason } ==> r@ == "degraded: "@ + reason@,
            self matches HealthStatus::Unhealthy { reason } ==> r@ == "unhealthy: "@ + reason@,
    {
        match self {
            HealthStatus::Healthy => text::owned("healthy"),
            HealthStatus::Degraded { reason } => text::concat2("degraded: ", reason.as_str()),
            HealthStatus::Unhealthy { reason } => text::concat2("unhealthy: ", reason.as_str()),
            HealthStatus::Unknown => text::owned("unknown"),
        }
    }
}

/// Health of a dependency.
#[derive(Clone, Debug)]
pub struct DependencyHealth {
    /// Name of the dependency.
    pub name: String,
    /// Type of dependency (e.g., "database", "service", "file").
    pub dependency_type: String,
    /// Health status.
    pub status: HealthStatus,
    /// Latency to the dependency (optional).
    pub latency_ms: Option<u64>,
    /// Last check time.
    pub last_check: Timestamp,
}

impl DependencyHealth {
    /// Create a healthy dependency, checked now.
    pub fn healthy(name: &str, dep_type: &str) -> (d: Self)
        ensures
            d.name@ == name@,
            d.dependency_type@ == dep_type@,
            d.status is Healthy,
            d.latency_ms is None,
            d.last_check.wf(),
    {
        DependencyHealth {
            name: text::owned(name),
            dependency_type: text::owned(dep_type),
            status: HealthStatus::Healthy,
            latency_ms: None,
            last_check: Timestamp::now(),
        }
    }

    /// Create an unhealthy dependency with a reason, checked now.
    pub fn unhealthy(name: &str, dep_type: &str, reason: &str) -> (d: Self)
        ensures
            d.name@ == name@,
            d.dependency_type@ == dep_type@,
            d.status matches HealthStatus::Unhealthy { reason: r } && r@ == reason@,
            d.latency_ms is None,
            d.last_check.wf(),
    {
        DependencyHealth {
            name: text::owned(name),
            dependency_type: text::owned(dep_type),
            status: HealthStatus::Unhealthy { reason: text::owned(reason) },
            latency_ms: None,
            last_check: Timestamp::now(),
        }
    }

    /// Set latency; every other field is kept.
    pub fn with_latency(self, latency_ms: u64) -> (d: Self)
        ensures
            d.latency_ms == Some(latency_ms),
            d.name == self.name,
            d.dependency_type == self.dependency_type,
            d.status == self.status,
            d.last_check == self.last_check,
    {
        let mut d = self;
        d.latency_ms = Some(latency_ms);
        d
    }
}

/// The value last recorded for `key` in an association list (later entries
/// override earlier ones).
pub open spec fn lookup_detail(details: Seq<(String, String)>, key: Seq<char>) -> Option<Seq<char>>
    decreases details.len(),
{
    if details.len() == 0 {
        None
    } else if details.last().0@ == key {
        Some(details.last().1@)
    } else {
        lookup_detail(details.drop_last(), key)
    }
}

/// No key occurs twice in an association list.
pub open spec fn detail_keys_unique(details: Seq<(String, String)>) -> bool {
    forall|i: int, j: int|
        0 <= i < j < details.len() ==> #[trigger] details[i].0@ != #[trigger] details[j].0@
}

/// Whether some entry of an association list has key `key`.
pub open spec fn has_detail(details: Seq<(String, String)>, key: Seq<char>) -> bool {
    exists|i: int| 0 <= i < details.len() && #[trigger] details[i].0@ == key
}

/// Replacing the value of the last entry for `key` makes `key` map to the
/// new value and leaves every other key's value as it was.
proof fn lemma_lookup_replace(details: Seq<(String, String)>, i: int, entry: (String, String), k: Seq<char>)
    requires
        0 <= i < details.len(),
        details[i].0@ == entry.0@,
        forall|j: int| i < j < details.len() ==> #[trigger] details[j].0@ != entry.0@,
    ensures
        lookup_detail(details.update(i, entry), k) == if k == entry.0@ {
            Some(entry.1@)
        } else {
            lookup_detail(details, k)
        },
    decreases details.len(),
{
    let u = details.update(i, entry);
    if i == details.len() - 1 {
        assert(u.drop_last() =~= details.drop_last());
    } else {
        assert(u.last() == details.last());
        assert(details.last().0@ != entry.0@);
        assert(u.drop_last() =~= details.drop_last().update(i, entry));
        lemma_lookup_replace(details.drop_last(), i, entry, k);
    }
}

/// The index of the last entry for `key`, if any.
fn find_detail(details: &Vec<(String, String)>, key: &str) -> (r: Option<usize>)
    ensures
        match r {
            Some(i) => i < details@.len() && details@[i as int].0@ == key@ && forall|j: int|
                i < j < details@.len() ==> #[trigger] details@[j].0@ != key@,
            None => !has_detail(details@, key@),
        },
{
    let mut i: usize = details.len();
    while i > 0
        invariant
            i <= details@.len(),
            forall|j: int| i <= j < details@.len() ==> #[trigger] details@[j].0@ != key@,
        decreases i,
    {
        if text::str_eq(details[i - 1].0.as_str(), key) {
            return Some(i - 1);
        }
        i = i - 1;
    }
    None
}

/// Full health report for a primal.
#[derive(Clone, Debug)]
pub struct HealthReport {
    /// Primal name.
    pub name: String,
    /// Primal version.
    pub version: String,
    /// Overall status.
    pub status: HealthStatus,
    /// Liveness (is the process alive?).
    pub liveness: bool,
    /// Readiness (can it serve requests?).
    pub readiness: bool,
    /// Dependency health.
    pub dependencies: Vec<DependencyHealth>,
    /// Report timestamp.
    pub timestamp: Timestamp,
    /// Additional details, as an association list: the last entry for a key
    /// is its value (see [`HealthReport::detail`]).
    pub details: Vec<(String, String)>,
}

impl HealthReport {
    /// Create a new health report: status unknown, live, not ready, no
    /// dependencies and no details, stamped now.
    pub fn new(name: &str, version: &str) -> (r: Self)
        ensures
            r.name@ == name@,
            r.version@ == version@,
            r.status is Unknown,
            r.liveness,
            !r.readiness,
            r.dependencies@.len() == 0,
            r.details@.len() == 0,
            r.timestamp.wf(),
    {
        HealthReport {
            name: text::owned(name),
            version: text::owned(version),
            status: HealthStatus::Unknown,
            liveness: true,
            readiness: false,
            dependencies: Vec::new(),
            timestamp: Timestamp::now(),
            details: Vec::new(),
        }
    }

    /// Set the status; readiness follows whether the status serves requests.
    pub fn with_status(self, status: HealthStatus) -> (r: Self)
        ensures
            r.readiness == status.spec_is_serving(),
            r.status == status,
            r.name == self.name,
            r.version == self.version,
            r.liveness == self.liveness,
            r.dependencies == self.dependencies,
            r.timestamp == self.timestamp,
            r.details == self.details,
    {
        let mut r = self;
        r.readiness = status.is_serving();
        r.status = status;
        r
    }

    /// Add a dependency at the end of the list.
    pub fn with_dependency(self, dep: DependencyHealth) -> (r: Self)
        ensures
            r.dependencies@ == self.dependencies@.push(dep),
            r.name == self.name,
            r.version == self.version,
            r.status == self.status,
            r.liveness == self.liveness,
            r.readiness == self.readiness,
            r.timestamp == self.timestamp,
            r.details == self.details,
    {
        let mut r = self;
        r.dependencies.push(dep);
        r
    }

    /// Add a detail: afterwards `key` maps to `value` and every other key
    /// keeps its value. An entry already held for `key` is replaced in
    /// place; otherwise the entry is added at the end.
    pub fn with_detail(self, key: &str, value: &str) -> (r: Self)
        ensures
            lookup_detail(r.details@, key@) == Some(value@),
            has_detail(self.details@, key@) ==> r.details@.len() == self.details@.len(),
            !has_detail(self.details@, key@) ==> r.details@.len() == self.details@.len() + 1,
            detail_keys_unique(self.details@) ==> detail_keys_unique(r.details@),
            forall|k: Seq<char>|
                k != key@ ==> lookup_detail(r.details@, k) == lookup_detail(self.details@, k),
            r.name == self.name,
            r.version == self.version,
            r.status == self.status,
            r.liveness == self.liveness,
            r.readiness == self.readiness,
            r.dependencies == self.dependencies,
            r.timestamp == self.timestamp,
    {
        let mut r = self;
        let ghost old_details = r.details@;
        let entry = (text::owned(key), text::owned(value));
        match find_detail(&r.details, key) {
            Some(i) => {
                r.details.set(i, entry);
                proof {
                    assert(r.details@ == old_details.update(i as int, entry));
                    assert forall|k: Seq<char>| k != key@ implies #[trigger] lookup_detail(r.details@, k)
                        == lookup_detail(old_details, k) by {
                        lemma_lookup_replace(old_details, i as int, entry, k);
                    }
                    lemma_lookup_replace(old_details, i as int, entry, key@);
                    assert(old_details[i as int].0@ == key@);
                    assert(has_detail(old_details, key@));
                    if detail_keys_unique(old_details) {
                        assert forall|a: int, b: int|
                            0 <= a < b < r.details@.len() implies #[trigger] r.details@[a].0@
                            != #[trigger] r.details@[b].0@ by {
                            assert(old_details[a].0@ != old_details[b].0@);
                        }
                    }
                }
            },
            None => {
                r.details.push(entry);
                proof {
                    assert(r.details@.drop_last() =~= old_details);
                    if detail_keys_unique(old_details) {
                        assert forall|a: int, b: int|
                            0 <= a < b < r.details@.len() implies #[trigger] r.details@[a].0@
                            != #[trigger] r.details@[b].0@ by {
                            if b == old_details.len() {
                                assert(r.details@[a] == old_details[a]);
                            } else {
                                assert(old_details[a].0@ != old_details[b].0@);
                            }
                        }
                    }
                }
            },
        }
        r
    }

    /// The value recorded for `key`, if any.
    pub fn detail(&self, key: &str) -> (r: Option<&String>)
        ensures
            match r {
                Some(v) => lookup_detail(self.details@, key@) == Some(v@),
                None => lookup_detail(self.details@, key@) is None,
            },
    {
        let mut i: usize = self.details.len();
        assert(self.details@.subrange(0, i as int) =~= self.details@);
        while i > 0
            invariant
                i <= self.details@.len(),
                lookup_detail(self.details@, key@) == lookup_detail(
                    self.details@.subrange(0, i as int),
                    key@,
                ),
            decreases i,
        {
            let ghost pre = self.details@.subrange(0, i as int);
            assert(pre.drop_last() =~= self.details@.subrange(0, i - 1));
            if text::str_eq(self.details[i - 1].0.as_str(), key) {
                return Some(&self.details[i - 1].1);
            }
            i = i - 1;
        }
        None
    }
}

} // verus!
