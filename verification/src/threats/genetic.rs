//! Lineage and topology verification defaults.

use super::types::PathValidation;
use crate::error::SkunkBatError;
use crate::text;
use vstd::prelude::*;

verus! {

/// The message every local lineage query fails with.
pub open spec fn no_authority_message() -> Seq<char> {
    "no lineage authority available (local-only mode)"@
}

/// Local-only lineage verifier (no external authority).
///
/// Every query fails: the conservative default when no capability provider
/// is discovered at runtime. Callers treat the error as "inconclusive"
/// (degraded mode) rather than "denied".
pub struct LocalLineageVerifier;

impl LocalLineageVerifier {
    /// Whether a peer is part of the genetic family: always a
    /// lineage-verification error here.
    pub fn is_family(&self, peer_id: &str) -> (r: Result<bool, SkunkBatError>)
        ensures
            r matches Err(SkunkBatError::LineageVerification(m)) && m@ == no_authority_message(),
    {
        Err(SkunkBatError::LineageVerification(
            text::owned("no lineage authority available (local-only mode)"),
        ))
    }

    /// The lineage chain of a peer: always a lineage-verification error here.
    pub fn get_lineage(&self, peer_id: &str) -> (r: Result<Option<String>, SkunkBatError>)
        ensures
            r matches Err(SkunkBatError::LineageVerification(m)) && m@ == no_authority_message(),
    {
        Err(SkunkBatError::LineageVerification(
            text::owned("no lineage authority available (local-only mode)"),
        ))
    }
}

/// The layers of `expected` that do not occur anywhere in `actual`, in the
/// order of `expected`.
pub open spec fn bypassed(expected: Seq<u8>, actual: Seq<u8>) -> Seq<u8> {
    expected.filter(|layer: u8| !actual.contains(layer))
}

/// Layer-based topology validator.
///
/// Validates that connections traverse layers in the expected sequence,
/// detecting layer-hopping and security boundary bypasses.
pub struct LayerTopologyValidator {
    expected_path: Vec<u8>,
}

impl LayerTopologyValidator {
    /// The expected layer traversal path.
    pub closed spec fn spec_expected(&self) -> Seq<u8> {
        self.expected_path@
    }

    /// Create a new topology validator with expected layer traversal path.
    pub fn new(expected_path: Vec<u8>) -> (v: Self)
        ensures
            v.spec_expected() == expected_path@,
    {
        LayerTopologyValidator { expected_path }
    }

    /// The expected path for a connection.
    pub fn expected_path(&self) -> (r: Vec<u8>)
        ensures
            r@ == self.spec_expected(),
    {
        self.expected_path.clone()
    }

    /// Validate a connection path: valid exactly when it equals the expected
    /// path; the bypassed layers are the expected layers it never visits.
    pub fn validate_path(&self, actual_path: &[u8]) -> (r: PathValidation)
        ensures
            r.is_valid == (actual_path@ == self.spec_expected()),
            r.expected_path@ == self.spec_expected(),
            r.actual_path@ == actual_path@,
            r.bypassed_layers@ == bypassed(self.spec_expected(), actual_path@),
    {
        let is_valid = bytes_eq(actual_path, self.expected_path.as_slice());
        let ghost pred = |layer: u8| !actual_path@.contains(layer);
        let mut bypassed_layers: Vec<u8> = Vec::new();
        let n = self.expected_path.len();
        let mut i: usize = 0;
        while i < n
            invariant
                n == self.expected_path@.len(),
                i <= n,
                pred == (|layer: u8| !actual_path@.contains(layer)),
                bypassed_layers@ == self.expected_path@.take(i as int).filter(pred),
            decreases n - i,
        {
            let layer = self.expected_path[i];
            proof {
                assert(self.expected_path@.take(i + 1) =~= self.expected_path@.take(i as int).push(
                    layer,
                ));
                self.expected_path@.take(i as int).lemma_filter_push(layer, pred);
            }
            if !bytes_contain(actual_path, layer) {
                bypassed_layers.push(layer);
            }
            i = i + 1;
        }
        assert(self.expected_path@.take(n as int) =~= self.expected_path@);
        PathValidation {
            is_valid,
            expected_path: self.expected_path.clone(),
            actual_path: slice_to_vec(actual_path),
            bypassed_layers,
        }
    }
}

/// Element-wise equality of two byte slices.
fn bytes_eq(a: &[u8], b: &[u8]) -> (r: bool)
    ensures
        r == (a@ == b@),
{
    if a.len() != b.len() {
        return false;
    }
    let mut i: usize = 0;
    while i < a.len()
        invariant
            a@.len() == b@.len(),
            i <= a@.len(),
            forall|j: int| 0 <= j < i ==> a@[j] == b@[j],
        decreases a@.len() - i,
    {
        if a[i] != b[i] {
            return false;
        }
        i = i + 1;
    }
    assert(a@ =~= b@);
    true
}

/// Whether `x` occurs in `s`.
fn bytes_contain(s: &[u8], x: u8) -> (r: bool)
    ensures
        r == s@.contains(x),
{
    let mut i: usize = 0;
    while i < s.len()
        invariant
            i <= s@.len(),
            forall|j: int| 0 <= j < i ==> s@[j] != x,
        decreases s@.len() - i,
    {
        if s[i] == x {
            return true;
        }
        i = i + 1;
    }
    false
}

/// A vector holding the bytes of `s`.
fn slice_to_vec(s: &[u8]) -> (r: Vec<u8>)
    ensures
        r@ == s@,
{
    let mut r: Vec<u8> = Vec::new();
    let mut i: usize = 0;
    while i < s.len()
        invariant
            i <= s@.len(),
            r@ == s@.take(i as int),
        decreases s@.len() - i,
    {
        r.push(s[i]);
        i = i + 1;
        assert(r@ =~= s@.take(i as int));
    }
    assert(s@.take(s@.len() as int) =~= s@);
    r
}

} // verus!
