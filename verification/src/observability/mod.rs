//! Security observability: counters and the audit trail.
//!
//! The observer counts what the primal does (threats detected and
//! mitigated, scans, quarantines, alerts, HTTP advisories). Each counter
//! advances by one per recorded event and wraps around at `u64::MAX`, as a
//! relaxed atomic `fetch_add(1)` does.

pub mod audit_log;

use crate::config::FeatureFlags;
use crate::error::SkunkBatError;
use crate::primal_foundation::types::Timestamp;
use crate::Verdict;
use vstd::prelude::*;

verus! {

/// One step of a counter: `x + 1`, wrapping to zero after `u64::MAX`.
pub open spec fn bump(x: u64) -> u64 {
    if x == u64::MAX {
        0
    } else {
        (x + 1) as u64
    }
}

fn bump_exec(x: u64) -> (r: u64)
    ensures
        r == bump(x),
{
    if x == u64::MAX {
        0
    } else {
        x + 1
    }
}

/// Threat detection counters.
#[derive(Debug, Clone, Copy)]
pub struct ThreatMetrics {
    /// Total threats detected.
    pub detected: u64,
    /// Threats successfully mitigated.
    pub mitigated: u64,
}

/// Network scanning counters.
#[derive(Debug, Clone, Copy)]
pub struct ScanMetrics {
    /// Total scans performed.
    pub performed: u64,
}

/// Active defense counters.
#[derive(Debug, Clone, Copy)]
pub struct DefenseMetrics {
    /// Connections quarantined.
    pub connections_quarantined: u64,
    /// Alerts sent to the operator.
    pub alerts_sent: u64,
}

/// HTTP outer membrane advisory counters.
#[derive(Debug, Clone, Copy)]
pub struct HttpMetrics {
    /// Total HTTP requests screened by an advisory.
    pub requests_screened: u64,
    /// Requests that passed the advisory.
    pub allows: u64,
    /// Requests flagged as suspicious.
    pub warns: u64,
    /// Requests whose source was quarantined.
    pub blocks: u64,
}

impl HttpMetrics {
    /// The counters are empty when no request was screened.
    pub fn is_empty(&self) -> (r: bool)
        ensures
            r == (self.requests_screened == 0),
    {
        self.requests_screened == 0
    }
}

/// Security metrics snapshot, organized by domain.
#[derive(Debug, Clone, Copy)]
pub struct SecurityMetrics {
    /// Threat detection metrics.
    pub threats: ThreatMetrics,
    /// Scanning / reconnaissance metrics.
    pub scanning: ScanMetrics,
    /// Defense response metrics.
    pub defense: DefenseMetrics,
    /// HTTP outer membrane advisory metrics.
    pub http: HttpMetrics,
    /// When the snapshot was taken.
    pub last_updated: Option<Timestamp>,
}

/// All counters zero, no timestamp.
pub open spec fn zero_metrics() -> SecurityMetrics {
    SecurityMetrics {
        threats: ThreatMetrics { detected: 0, mitigated: 0 },
        scanning: ScanMetrics { performed: 0 },
        defense: DefenseMetrics { connections_quarantined: 0, alerts_sent: 0 },
        http: HttpMetrics { requests_screened: 0, allows: 0, warns: 0, blocks: 0 },
        last_updated: None,
    }
}

impl Default for SecurityMetrics {
    /// All counters zero, no timestamp.
    fn default() -> (r: Self)
        ensures
            r == zero_metrics(),
    {
        SecurityMetrics {
            threats: ThreatMetrics { detected: 0, mitigated: 0 },
            scanning: ScanMetrics { performed: 0 },
            defense: DefenseMetrics { connections_quarantined: 0, alerts_sent: 0 },
            http: HttpMetrics { requests_screened: 0, allows: 0, warns: 0, blocks: 0 },
            last_updated: None,
        }
    }
}

impl SecurityMetrics {
    /// Total threats detected.
    pub fn threats_detected(&self) -> (r: u64)
        ensures
            r == self.threats.detected,
    {
        self.threats.detected
    }

    /// Total threats mitigated.
    pub fn threats_mitigated(&self) -> (r: u64)
        ensures
            r == self.threats.mitigated,
    {
        self.threats.mitigated
    }

    /// Total scans performed.
    pub fn scans_performed(&self) -> (r: u64)
        ensures
            r == self.scanning.performed,
    {
        self.scanning.performed
    }

    /// Connections quarantined.
    pub fn connections_quarantined(&self) -> (r: u64)
        ensures
            r == self.defense.connections_quarantined,
    {
        self.defense.connections_quarantined
    }

    /// Alerts sent.
    pub fn alerts_sent(&self) -> (r: u64)
        ensures
            r == self.defense.alerts_sent,
    {
        self.defense.alerts_sent
    }
}

/// The modulus at which the counters wrap.
pub open spec fn counter_modulus() -> int {
    0x1_0000_0000_0000_0000
}

/// The HTTP counters agree: the requests screened are the allows, warns and
/// blocks together, counted modulo `2^64` as the counters wrap.
pub open spec fn http_consistent(h: HttpMetrics) -> bool {
    h.requests_screened as int == (h.allows + h.warns + h.blocks) % counter_modulus()
}

/// The HTTP counters after one advisory with the given verdict.
pub open spec fn http_after(h: HttpMetrics, verdict: Verdict) -> HttpMetrics {
    HttpMetrics {
        requests_screened: bump(h.requests_screened),
        allows: if verdict == Verdict::Allow { bump(h.allows) } else { h.allows },
        warns: if verdict == Verdict::Warn { bump(h.warns) } else { h.warns },
        blocks: if verdict == Verdict::Block { bump(h.blocks) } else { h.blocks },
    }
}

/// Security observer: whether observability is enabled, and the counters.
pub struct SecurityObserver {
    enabled: bool,
    counts: SecurityMetrics,
}

impl SecurityObserver {
    /// Whether observability is enabled.
    pub closed spec fn spec_enabled(&self) -> bool {
        self.enabled
    }

    /// The counters (without timestamp).
    pub closed spec fn counts(&self) -> SecurityMetrics {
        self.counts
    }

    /// The observer's invariant: the HTTP counters agree and no timestamp is
    /// stored with the counters.
    pub closed spec fn wf(&self) -> bool {
        http_consistent(self.counts.http) && self.counts.last_updated is None
    }

    /// An observer enabled by the observability feature flag, every counter
    /// at zero.
    pub fn new(features: &FeatureFlags) -> (r: Self)
        ensures
            r.wf(),
            r.spec_enabled() == features.observability,
            r.counts() == zero_metrics(),
    {
        let r = SecurityObserver { enabled: features.observability, counts: SecurityMetrics::default() };
        assert(0int % counter_modulus() == 0);
        r
    }

    /// Starts the observer; always succeeds (a disabled observer stays idle).
    pub fn start(&self) -> (r: Result<(), SkunkBatError>)
        ensures
            r is Ok,
    {
        Ok(())
    }

    /// Stops the observer; always succeeds.
    pub fn stop(&self) -> (r: Result<(), SkunkBatError>)
        ensures
            r is Ok,
    {
        Ok(())
    }

    /// The observer is healthy exactly when it is enabled.
    pub fn is_healthy(&self) -> (r: bool)
        ensures
            r == self.spec_enabled(),
    {
        self.enabled
    }

    /// A snapshot of the counters, stamped with the current time.
    pub fn get_metrics(&self) -> (r: SecurityMetrics)
        ensures
            r.threats == self.counts().threats,
            r.scanning == self.counts().scanning,
            r.defense == self.counts().defense,
            r.http == self.counts().http,
            r.last_updated is Some,
            r.last_updated->Some_0.wf(),
    {
        SecurityMetrics {
            threats: self.counts.threats,
            scanning: self.counts.scanning,
            defense: self.counts.defense,
            http: self.counts.http,
            last_updated: Some(Timestamp::now()),
        }
    }

    /// Records a threat detection.
    pub fn record_threat_detected(&mut self)
        requires
            old(self).wf(),
        ensures
            final(self).wf(),
            final(self).spec_enabled() == old(self).spec_enabled(),
            final(self).counts() == (SecurityMetrics {
                threats: ThreatMetrics {
                    detected: bump(old(self).counts().threats.detected),
                    ..old(self).counts().threats
                },
                ..old(self).counts()
            }),
    {
        self.counts.threats.detected = bump_exec(self.counts.threats.detected);
    }

    /// Records a threat mitigation.
    pub fn record_threat_mitigated(&mut self)
        requires
            old(self).wf(),
        ensures
            final(self).wf(),
            final(self).spec_enabled() == old(self).spec_enabled(),
            final(self).counts() == (SecurityMetrics {
                threats: ThreatMetrics {
                    mitigated: bump(old(self).counts().threats.mitigated),
                    ..old(self).counts().threats
                },
                ..old(self).counts()
            }),
    {
        self.counts.threats.mitigated = bump_exec(self.counts.threats.mitigated);
    }

    /// Records a scan performed.
    pub fn record_scan_performed(&mut self)
        requires
            old(self).wf(),
        ensures
            final(self).wf(),
            final(self).spec_enabled() == old(self).spec_enabled(),
            final(self).counts() == (SecurityMetrics {
                scanning: ScanMetrics { performed: bump(old(self).counts().scanning.performed) },
                ..old(self).counts()
            }),
    {
        self.counts.scanning.performed = bump_exec(self.counts.scanning.performed);
    }

    /// Records a connection quarantined.
    pub fn record_quarantine(&mut self)
        requires
            old(self).wf(),
        ensures
            final(self).wf(),
            final(self).spec_enabled() == old(self).spec_enabled(),
            final(self).counts() == (SecurityMetrics {
                defense: DefenseMetrics {
                    connections_quarantined: bump(old(self).counts().defense.connections_quarantined),
                    ..old(self).counts().defense
                },
                ..old(self).counts()
            }),
    {
        self.counts.defense.connections_quarantined = bump_exec(
            self.counts.defense.connections_quarantined,
        );
    }

    /// Records an alert sent.
    pub fn record_alert(&mut self)
        requires
            old(self).wf(),
        ensures
            final(self).wf(),
            final(self).spec_enabled() == old(self).spec_enabled(),
            final(self).counts() == (SecurityMetrics {
                defense: DefenseMetrics {
                    alerts_sent: bump(old(self).counts().defense.alerts_sent),
                    ..old(self).counts().defense
                },
                ..old(self).counts()
            }),
    {
        self.counts.defense.alerts_sent = bump_exec(self.counts.defense.alerts_sent);
    }

    /// Records an HTTP advisory with the given verdict. The verdict's own counter and the
    /// requests screened each advance by one.
    pub fn record_http_advisory(&mut self, verdict: Verdict)
        requires
            old(self).wf(),
        ensures
            final(self).wf(),
            final(self).spec_enabled() == old(self).spec_enabled(),
            final(self).counts() == (SecurityMetrics {
                http: http_after(old(self).counts().http, verdict),
                ..old(self).counts()
            }),
    {
        proof {
            lemma_http_after_consistent(self.counts.http, verdict);
        }
        match verdict {
            Verdict::Allow => {
                self.counts.http.allows = bump_exec(self.counts.http.allows);
            },
            Verdict::Warn => {
                self.counts.http.warns = bump_exec(self.counts.http.warns);
            },
            Verdict::Block => {
                self.counts.http.blocks = bump_exec(self.counts.http.blocks);
            },
        }
        self.counts.http.requests_screened = bump_exec(self.counts.http.requests_screened);
    }
}

/// Bumping a counter adds one modulo `2^64`.
proof fn lemma_bump_mod(x: u64)
    ensures
        bump(x) as int == (x + 1) % counter_modulus(),
{
    if x == u64::MAX {
        assert((x + 1) % counter_modulus() == 0) by {
            assert(x + 1 == counter_modulus());
        }
    } else {
        assert((x + 1) % counter_modulus() == x + 1) by {
            vstd::arithmetic::div_mod::lemma_small_mod((x + 1) as nat, counter_modulus() as nat);
        }
    }
}

/// Every HTTP advisory keeps the HTTP counters in agreement: the requests
/// screened stay the sum of allows, warns and blocks (modulo `2^64`).
pub proof fn lemma_http_after_consistent(h: HttpMetrics, verdict: Verdict)
    requires
        http_consistent(h),
    ensures
        http_consistent(http_after(h, verdict)),
{
    let m = counter_modulus();
    let s = h.allows + h.warns + h.blocks;
    let h2 = http_after(h, verdict);
    let s2 = h2.allows + h2.warns + h2.blocks;
    lemma_bump_mod(h.requests_screened);
    lemma_bump_mod(h.allows);
    lemma_bump_mod(h.warns);
    lemma_bump_mod(h.blocks);
    // the sum after the advisory differs from `s + 1` by a multiple of the modulus
    assert(s2 == s + 1 || s2 == s + 1 - m);
    vstd::arithmetic::div_mod::lemma_add_mod_noop(s, 1, m);
    vstd::arithmetic::div_mod::lemma_mod_twice(s, m);
    vstd::arithmetic::div_mod::lemma_small_mod(1, m as nat);
    if s2 == s + 1 - m {
        vstd::arithmetic::div_mod::lemma_mod_sub_multiples_vanish(s + 1, m);
    }
}

} // verus!
