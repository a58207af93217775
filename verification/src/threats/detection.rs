//! The integer decisions of threat detection: which accessed ports are
//! sensitive, when they amount to a port scan, and how severe a topology
//! violation or a configuration drift is.

use crate::text;
use crate::threats::types::Severity;
use vstd::prelude::*;

verus! {

/// The accessed ports that are on the sensitive list, in access order.
pub open spec fn sensitive_ports_spec(ports: Seq<u16>, sensitive: Seq<u16>) -> Seq<u16> {
    ports.filter(|p: u16| sensitive.contains(p))
}

fn contains_port(list: &[u16], p: u16) -> (r: bool)
    ensures
        r == list@.contains(p),
{
    let mut i: usize = 0;
    while i < list.len()
        invariant
            i <= list@.len(),
            forall|j: int| 0 <= j < i ==> list@[j] != p,
        decreases list@.len() - i,
    {
        if list[i] == p {
            return true;
        }
        i = i + 1;
    }
    false
}

/// The accessed ports that are on the sensitive list, in access order
/// (repeats kept).
pub fn sensitive_ports_accessed(ports: &[u16], sensitive: &[u16]) -> (r: Vec<u16>)
    ensures
        r@ == sensitive_ports_spec(ports@, sensitive@),
{
    let mut r: Vec<u16> = Vec::new();
    let mut i: usize = 0;
    while i < ports.len()
        invariant
            i <= ports@.len(),
            r@ == sensitive_ports_spec(ports@.take(i as int), sensitive@),
        decreases ports@.len() - i,
    {
        let p = ports[i];
        proof {
            assert(ports@.take(i + 1).drop_last() =~= ports@.take(i as int));
            reveal(Seq::filter);
        }
        if contains_port(sensitive, p) {
            r.push(p);
        }
        i = i + 1;
    }
    assert(ports@.take(ports@.len() as int) =~= ports@);
    r
}

/// Access to two or more sensitive ports in one observation suggests a
/// port scan.
pub fn is_port_scan(suspicious: &[u16]) -> (r: bool)
    ensures
        r == (suspicious@.len() >= 2),
{
    suspicious.len() >= 2
}

/// The severity of a topology violation: `High` when layers were bypassed,
/// `Medium` when the path was merely out of order.
pub fn topology_violation_severity(bypassed_layers: &[u8]) -> (r: Severity)
    ensures
        r == (if bypassed_layers@.len() == 0 {
            Severity::Medium
        } else {
            Severity::High
        }),
{
    if bypassed_layers.len() == 0 {
        Severity::Medium
    } else {
        Severity::High
    }
}

/// The severity of a configuration drift: `High` for the feature flags and
/// the lineage binding, `Medium` for any other component.
pub fn drift_severity(component: &str) -> (r: Severity)
    ensures
        r == (if component@ == "features"@ || component@ == "lineage_id"@ {
            Severity::High
        } else {
            Severity::Medium
        }),
{
    if text::str_eq(component, "features") || text::str_eq(component, "lineage_id") {
        Severity::High
    } else {
        Severity::Medium
    }
}

} // verus!
