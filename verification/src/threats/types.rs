//! Threat data types.

use crate::text;
use vstd::prelude::*;

verus! {

/// Threat severity, ordered Low < Medium < High < Critical.
#[derive(Clone, Copy, Debug, PartialEq, Eq, PartialOrd, Ord, Hash, Structural)]
pub enum Severity {
    /// Low severity - informational
    Low,
    /// Medium severity - potential threat
    Medium,
    /// High severity - active threat
    High,
    /// Critical severity - immediate action required
    Critical,
}

impl Severity {
    /// The position of the severity in the order Low < Medium < High < Critical.
    pub open spec fn spec_rank(self) -> nat {
        match self {
            Severity::Low => 0,
            Severity::Medium => 1,
            Severity::High => 2,
            Severity::Critical => 3,
        }
    }

    /// The position of the severity in the order Low < Medium < High < Critical.
    pub fn rank(&self) -> (r: u8)
        ensures
            r == self.spec_rank(),
    {
        match self {
            Severity::Low => 0,
            Severity::Medium => 1,
            Severity::High => 2,
            Severity::Critical => 3,
        }
    }

    /// The variant's name, as `Debug` prints it.
    pub open spec fn spec_name(self) -> Seq<char> {
        match self {
            Severity::Low => "Low"@,
            Severity::Medium => "Medium"@,
            Severity::High => "High"@,
            Severity::Critical => "Critical"@,
        }
    }

    /// The variant's name, as `Debug` prints it.
    pub fn name(&self) -> (r: String)
        ensures
            r@ == self.spec_name(),
    {
        match self {
            Severity::Low => text::owned("Low"),
            Severity::Medium => text::owned("Medium"),
            Severity::High => text::owned("High"),
            Severity::Critical => text::owned("Critical"),
        }
    }
}

/// Path validation result.
#[derive(Debug, Clone)]
pub struct PathValidation {
    /// Whether the path is valid
    pub is_valid: bool,
    /// Expected path
    pub expected_path: Vec<u8>,
    /// Actual path taken
    pub actual_path: Vec<u8>,
    /// Bypassed layers (if any)
    pub bypassed_layers: Vec<u8>,
}

/// What `format!("{:?}", ..)` prints for an optional string: `None`, or
/// `Some(` and the string quoted and escaped as `Debug` escapes it, then `)`.
pub uninterp spec fn option_debug_text(v: Option<Seq<char>>) -> Seq<char>;

/// Formats an optional string with `Debug`; the contract names the text
/// `option_debug_text(v)`.
#[verifier::external_body]
fn debug_option_string(v: &Option<String>) -> (r: String)
    ensures
        r@ == option_debug_text(opt_text(*v)),
{
    format!("{:?}", v)
}

/// The text of an optional string.
pub open spec fn opt_text(v: Option<String>) -> Option<Seq<char>> {
    match v {
        Some(s) => Some(s@),
        None => None,
    }
}

/// How `bool::to_string` renders a boolean.
pub open spec fn bool_text(b: bool) -> Seq<char> {
    if b {
        "true"@
    } else {
        "false"@
    }
}

fn bool_to_string(b: bool) -> (r: String)
    ensures
        r@ == bool_text(b),
{
    if b {
        text::owned("true")
    } else {
        text::owned("false")
    }
}

/// Snapshot of security-relevant configuration fields for drift detection.
///
/// Captured at startup and compared on each detection cycle. A field that
/// changes at runtime is reported as configuration drift.
#[derive(Debug)]
pub struct ConfigSnapshot {
    /// Feature flag states, serialized for stable comparison.
    pub features_json: String,
    /// Lineage ID binding.
    pub lineage_id: Option<String>,
    /// Whether topology validation is active.
    pub topology_configured: bool,
    /// Detection-relevant threshold fingerprint.
    pub threshold_fingerprint: String,
}

/// One changed field: its name, the old value and the new value, as text.
pub type DriftEntry = (Seq<char>, Seq<char>, Seq<char>);

/// The one-entry list when `changed`, else the empty list.
pub open spec fn entry_if(changed: bool, e: DriftEntry) -> Seq<DriftEntry> {
    if changed {
        seq![e]
    } else {
        Seq::empty()
    }
}

/// The fields that differ between two snapshots, in the order features,
/// lineage ID, topology, thresholds, each with its old and new value.
pub open spec fn diff_spec(a: ConfigSnapshot, b: ConfigSnapshot) -> Seq<DriftEntry> {
    entry_if(a.features_json@ != b.features_json@, ("features"@, a.features_json@, b.features_json@))
        + entry_if(
        opt_text(a.lineage_id) != opt_text(b.lineage_id),
        ("lineage_id"@, option_debug_text(opt_text(a.lineage_id)), option_debug_text(opt_text(b.lineage_id))),
    ) + entry_if(
        a.topology_configured != b.topology_configured,
        ("topology_configured"@, bool_text(a.topology_configured), bool_text(b.topology_configured)),
    ) + entry_if(
        a.threshold_fingerprint@ != b.threshold_fingerprint@,
        ("thresholds"@, a.threshold_fingerprint@, b.threshold_fingerprint@),
    )
}

/// The text of a list of drift entries.
pub open spec fn drift_view(v: Seq<(&'static str, String, String)>) -> Seq<DriftEntry> {
    Seq::new(v.len(), |i: int| (v[i].0@, v[i].1@, v[i].2@))
}

fn opt_str_eq(a: &Option<String>, b: &Option<String>) -> (r: bool)
    ensures
        r == (opt_text(*a) == opt_text(*b)),
{
    match (a, b) {
        (Some(x), Some(y)) => text::str_eq(x.as_str(), y.as_str()),
        (None, None) => true,
        _ => false,
    }
}

impl ConfigSnapshot {
    /// The fields that changed from `self` to `other`, each as
    /// `(field_name, old_value, new_value)`.
    pub fn diff(&self, other: &Self) -> (r: Vec<(&'static str, String, String)>)
        ensures
            drift_view(r@) == diff_spec(*self, *other),
    {
        let mut diffs: Vec<(&'static str, String, String)> = Vec::new();
        let ghost e1 = entry_if(
            self.features_json@ != other.features_json@,
            ("features"@, self.features_json@, other.features_json@),
        );
        let ghost e2 = entry_if(
            opt_text(self.lineage_id) != opt_text(other.lineage_id),
            ("lineage_id"@, option_debug_text(opt_text(self.lineage_id)), option_debug_text(opt_text(other.lineage_id))),
        );
        let ghost e3 = entry_if(
            self.topology_configured != other.topology_configured,
            ("topology_configured"@, bool_text(self.topology_configured), bool_text(other.topology_configured)),
        );
        let ghost e4 = entry_if(
            self.threshold_fingerprint@ != other.threshold_fingerprint@,
            ("thresholds"@, self.threshold_fingerprint@, other.threshold_fingerprint@),
        );
        if !text::str_eq(self.features_json.as_str(), other.features_json.as_str()) {
            diffs.push(("features", self.features_json.clone(), other.features_json.clone()));
        }
        assert(drift_view(diffs@) =~= e1);
        if !opt_str_eq(&self.lineage_id, &other.lineage_id) {
            let ghost before = diffs@;
            diffs.push(("lineage_id", debug_option_string(&self.lineage_id), debug_option_string(&other.lineage_id)));
            assert(drift_view(diffs@) =~= drift_view(before).push(drift_view(diffs@).last()));
        }
        assert(drift_view(diffs@) =~= e1 + e2);
        if self.topology_configured != other.topology_configured {
            let ghost before = diffs@;
            diffs.push(("topology_configured", bool_to_string(self.topology_configured), bool_to_string(other.topology_configured)));
            assert(drift_view(diffs@) =~= drift_view(before).push(drift_view(diffs@).last()));
        }
        assert(drift_view(diffs@) =~= e1 + e2 + e3);
        if !text::str_eq(self.threshold_fingerprint.as_str(), other.threshold_fingerprint.as_str()) {
            let ghost before = diffs@;
            diffs.push(("thresholds", self.threshold_fingerprint.clone(), other.threshold_fingerprint.clone()));
            assert(drift_view(diffs@) =~= drift_view(before).push(drift_view(diffs@).last()));
        }
        assert(drift_view(diffs@) =~= e1 + e2 + e3 + e4);
        diffs
    }
}

/// A snapshot never differs from itself: comparing a snapshot with itself
/// reports no drift.
pub proof fn lemma_diff_self_empty(a: ConfigSnapshot)
    ensures
        diff_spec(a, a).len() == 0,
{
}

/// Drift is reported symmetrically: the fields that changed from `a` to `b`
/// are the fields that changed from `b` to `a`, with old and new swapped.
pub proof fn lemma_diff_symmetric(a: ConfigSnapshot, b: ConfigSnapshot)
    ensures
        diff_spec(b, a).len() == diff_spec(a, b).len(),
        forall|i: int|
            0 <= i < diff_spec(a, b).len() ==> (#[trigger] diff_spec(b, a)[i]).0 == diff_spec(a, b)[i].0
                && diff_spec(b, a)[i].1 == diff_spec(a, b)[i].2 && diff_spec(b, a)[i].2
                == diff_spec(a, b)[i].1,
{
}

/// Whether two snapshots hold the same configuration, field by field.
pub open spec fn same_config(a: ConfigSnapshot, b: ConfigSnapshot) -> bool {
    &&& a.features_json@ == b.features_json@
    &&& opt_text(a.lineage_id) == opt_text(b.lineage_id)
    &&& a.topology_configured == b.topology_configured
    &&& a.threshold_fingerprint@ == b.threshold_fingerprint@
}

/// The name of `name` as a one-element list when `changed`, else nothing.
pub open spec fn name_if(changed: bool, name: Seq<char>) -> Seq<Seq<char>> {
    if changed {
        seq![name]
    } else {
        Seq::empty()
    }
}

/// The names of the fields that differ between two snapshots, in the order
/// features, lineage ID, topology, thresholds.
pub open spec fn changed_fields(a: ConfigSnapshot, b: ConfigSnapshot) -> Seq<Seq<char>> {
    name_if(a.features_json@ != b.features_json@, "features"@) + name_if(
        opt_text(a.lineage_id) != opt_text(b.lineage_id),
        "lineage_id"@,
    ) + name_if(a.topology_configured != b.topology_configured, "topology_configured"@) + name_if(
        a.threshold_fingerprint@ != b.threshold_fingerprint@,
        "thresholds"@,
    )
}

/// No drift is reported exactly when the two snapshots hold the same
/// configuration; and the reported fields are exactly those that differ,
/// each named once, in the order features, lineage ID, topology, thresholds.
pub proof fn lemma_diff_empty_iff_same(a: ConfigSnapshot, b: ConfigSnapshot)
    ensures
        diff_spec(a, b).len() == 0 <==> same_config(a, b),
        diff_spec(a, b).map_values(|e: DriftEntry| e.0) == changed_fields(a, b),
{
    let e1 = entry_if(a.features_json@ != b.features_json@, ("features"@, a.features_json@, b.features_json@));
    let e2 = entry_if(
        opt_text(a.lineage_id) != opt_text(b.lineage_id),
        ("lineage_id"@, option_debug_text(opt_text(a.lineage_id)), option_debug_text(opt_text(b.lineage_id))),
    );
    let e3 = entry_if(
        a.topology_configured != b.topology_configured,
        ("topology_configured"@, bool_text(a.topology_configured), bool_text(b.topology_configured)),
    );
    let e4 = entry_if(
        a.threshold_fingerprint@ != b.threshold_fingerprint@,
        ("thresholds"@, a.threshold_fingerprint@, b.threshold_fingerprint@),
    );
    assert(diff_spec(a, b) == e1 + e2 + e3 + e4);
    assert(diff_spec(a, b).len() == e1.len() + e2.len() + e3.len() + e4.len());
    let g = |e: DriftEntry| e.0;
    assert((e1 + e2 + e3 + e4).map_values(g) =~= e1.map_values(g) + e2.map_values(g) + e3.map_values(g)
        + e4.map_values(g));
    assert(e1.map_values(g) =~= name_if(a.features_json@ != b.features_json@, "features"@));
    assert(e2.map_values(g) =~= name_if(opt_text(a.lineage_id) != opt_text(b.lineage_id), "lineage_id"@));
    assert(e3.map_values(g) =~= name_if(a.topology_configured != b.topology_configured, "topology_configured"@));
    assert(e4.map_values(g) =~= name_if(a.threshold_fingerprint@ != b.threshold_fingerprint@, "thresholds"@));
}

} // verus!
