//! skunkBat feature configuration and the parsing of its environment values.
//!
//! The detection thresholds are floating-point values and stay with the
//! process that owns them; what the library holds is the feature switches
//! and the pure parsing of the values read from the environment.

use crate::text;
use vstd::prelude::*;

verus! {

/// Feature flags for skunkBat capabilities.
#[derive(Clone, Copy, Debug, PartialEq, Eq, Structural)]
pub struct FeatureFlags {
    /// Enable reconnaissance features.
    pub reconnaissance: bool,
    /// Enable threat detection.
    pub threat_detection: bool,
    /// Enable automated defense.
    pub auto_defense: bool,
    /// Enable observability.
    pub observability: bool,
}

impl Default for FeatureFlags {
    /// Every capability is enabled.
    fn default() -> (r: Self)
        ensures
            r.reconnaissance,
            r.threat_detection,
            r.auto_defense,
            r.observability,
    {
        FeatureFlags {
            reconnaissance: true,
            threat_detection: true,
            auto_defense: true,
            observability: true,
        }
    }
}

/// The layer bytes of a list of trimmed pieces: each piece that parses as a
/// `u8` contributes its value, in order; the others are skipped.
pub open spec fn layer_bytes(pieces: Seq<Seq<char>>) -> Seq<u8>
    decreases pieces.len(),
{
    if pieces.len() == 0 {
        Seq::empty()
    } else {
        let rest = layer_bytes(pieces.drop_last());
        match text::parse_u8_spec(pieces.last()) {
            Some(b) => rest.push(b),
            None => rest,
        }
    }
}

/// The expected topology path given as comma-separated layer bytes: the
/// bytes of the pieces that parse, or `None` when none does.
pub open spec fn topology_path_spec(value: Seq<char>) -> Option<Seq<u8>> {
    let bytes = layer_bytes(text::split_trim_spec(value, ','));
    if bytes.len() == 0 {
        None
    } else {
        Some(bytes)
    }
}

/// Parses the expected topology path (`1,2,3`): each comma-separated piece
/// is trimmed and parsed as a byte, pieces that do not parse are skipped,
/// and a value with no byte at all gives `None`.
pub fn parse_topology_path(value: &str) -> (r: Option<Vec<u8>>)
    ensures
        match topology_path_spec(value@) {
            Some(b) => r is Some && r->Some_0@ == b,
            None => r is None,
        },
{
    let pieces = text::split_trimmed(value, ',');
    let mut bytes: Vec<u8> = Vec::new();
    let mut i: usize = 0;
    while i < pieces.len()
        invariant
            i <= pieces.len(),
            text::texts(pieces@) == text::split_trim_spec(value@, ','),
            bytes@ == layer_bytes(text::texts(pieces@).take(i as int)),
        decreases pieces.len() - i,
    {
        let ghost t = text::texts(pieces@);
        proof {
            assert(t.take(i + 1).drop_last() =~= t.take(i as int));
            assert(t.take(i + 1).last() == pieces@[i as int]@);
        }
        match text::parse_u8(pieces[i].as_str()) {
            Some(b) => bytes.push(b),
            None => {},
        }
        i = i + 1;
    }
    proof {
        assert(text::texts(pieces@).take(pieces.len() as int) =~= text::texts(pieces@));
    }
    if bytes.len() == 0 {
        None
    } else {
        Some(bytes)
    }
}

/// The lineage identifier from its environment value: set only when the
/// value is present and not empty.
pub fn lineage_id_from(value: Option<&str>) -> (r: Option<String>)
    ensures
        match value {
            Some(v) => if v@.len() > 0 {
                r is Some && r->Some_0@ == v@
            } else {
                r is None
            },
            None => r is None,
        },
{
    match value {
        Some(v) => {
            if v.unicode_len() > 0 {
                Some(text::owned(v))
            } else {
                None
            }
        },
        None => None,
    }
}

/// The data directory from its environment value, `./data` when unset.
pub fn data_dir_from(value: Option<&str>) -> (r: String)
    ensures
        r@ == match value {
            Some(v) => v@,
            None => "./data"@,
        },
{
    match value {
        Some(v) => text::owned(v),
        None => text::owned("./data"),
    }
}

} // verus!
