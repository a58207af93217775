//! Data carried by the binary RPC protocol, and the naming of its socket.
//!
//! The binary protocol's socket sits beside the JSON-RPC socket: the same
//! directory, the JSON-RPC file stem followed by `.tarpc.sock`.

use crate::text;
use vstd::prelude::*;

verus! {

/// Health check response.
#[derive(Debug)]
pub struct TarpcHealthResponse {
    /// Whether the primal is alive.
    pub alive: bool,
    /// Whether it is ready to serve domain requests.
    pub ready: bool,
    /// Primal name.
    pub primal: String,
    /// Version string.
    pub version: String,
    /// Lifecycle state.
    pub state: String,
}

/// Capability descriptor.
#[derive(Debug)]
pub struct TarpcCapability {
    /// Capability domain (e.g. "security", "health").
    pub domain: String,
    /// Methods within this domain.
    pub methods: Vec<String>,
}

/// Identity response.
#[derive(Debug)]
pub struct TarpcIdentityResponse {
    /// Primal identifier.
    pub primal: String,
    /// Version.
    pub version: String,
    /// Primary domain.
    pub domain: String,
    /// License.
    pub license: String,
    /// Supported protocols.
    pub protocols: Vec<String>,
}

/// Security metrics snapshot.
#[derive(Debug, Clone, Copy)]
pub struct TarpcSecurityMetrics {
    /// Number of threats detected lifetime.
    pub threats_detected: u64,
    /// Number of threats mitigated.
    pub threats_mitigated: u64,
    /// Number of scans performed.
    pub scans_performed: u64,
    /// Number of active quarantines.
    pub quarantined_count: usize,
    /// Alerts fired.
    pub alerts_fired: u64,
}

/// Defense status snapshot.
#[derive(Debug, Clone, Copy)]
pub struct TarpcDefenseStatus {
    /// Whether auto-defense is enabled.
    pub enabled: bool,
    /// Whether auto-response is active.
    pub auto_response: bool,
    /// Number of quarantined sources.
    pub quarantined_count: usize,
}

/// What `Path::file_stem` returns for a path given as text: the final
/// component without its extension, `None` when there is no file name.
pub uninterp spec fn file_stem_of(path: Seq<char>) -> Option<Seq<char>>;

/// What `Path::parent` returns for a path given as text: the path without
/// its final component, `None` for a root or an empty path.
pub uninterp spec fn parent_of(path: Seq<char>) -> Option<Seq<char>>;

/// What `Path::join` returns for a base path and a relative name, as text.
pub uninterp spec fn joined(base: Seq<char>, name: Seq<char>) -> Seq<char>;

/// Calls `Path::file_stem` on the path and converts the stem to text; the
/// contract names the result `file_stem_of(path)`. A stem of a path that
/// was itself text is text, so the conversion loses nothing.
#[verifier::external_body]
fn path_file_stem(path: &str) -> (r: Option<String>)
    ensures
        match r {
            Some(s) => file_stem_of(path@) == Some(s@),
            None => file_stem_of(path@) is None,
        },
{
    match std::path::Path::new(path).file_stem() {
        Some(s) => Some(s.to_string_lossy().into_owned()),
        None => None,
    }
}

/// Calls `Path::parent` on the path and converts the parent to text; the
/// contract names the result `parent_of(path)`.
#[verifier::external_body]
fn path_parent(path: &str) -> (r: Option<String>)
    ensures
        match r {
            Some(s) => parent_of(path@) == Some(s@),
            None => parent_of(path@) is None,
        },
{
    match std::path::Path::new(path).parent() {
        Some(p) => Some(p.to_string_lossy().into_owned()),
        None => None,
    }
}

/// Calls `Path::join` on the base path with the name and converts the
/// result to text; the contract names the result `joined(base, name)`.
#[verifier::external_body]
fn path_join(base: &str, name: &str) -> (r: String)
    ensures
        r@ == joined(base@, name@),
{
    std::path::Path::new(base).join(name).to_string_lossy().into_owned()
}

/// The binary-protocol socket file name for a JSON-RPC file stem.
pub open spec fn tarpc_file_name(stem: Seq<char>) -> Seq<char> {
    stem + ".tarpc.sock"@
}

/// The binary-protocol socket path for a JSON-RPC socket path, from the
/// path's stem (`skunkbat` when it has none) and its parent directory.
pub open spec fn tarpc_socket_spec(
    stem: Option<Seq<char>>,
    parent: Option<Seq<char>>,
) -> Seq<char> {
    let name = tarpc_file_name(
        match stem {
            Some(s) => s,
            None => "skunkbat"@,
        },
    );
    match parent {
        Some(p) => if p.len() == 0 {
            name
        } else {
            joined(p, name)
        },
        None => name,
    }
}

/// Derives the binary-protocol socket path from the JSON-RPC socket path:
/// `skunkbat.sock` gives `skunkbat.tarpc.sock`, `skunkbat-{family}.sock`
/// gives `skunkbat-{family}.tarpc.sock`, in the same directory.
pub fn tarpc_socket_from_jsonrpc(jsonrpc_path: &str) -> (r: String)
    ensures
        r@ == tarpc_socket_spec(file_stem_of(jsonrpc_path@), parent_of(jsonrpc_path@)),
{
    let stem = match path_file_stem(jsonrpc_path) {
        Some(s) => s,
        None => text::owned("skunkbat"),
    };
    let filename = text::concat2(stem.as_str(), ".tarpc.sock");
    match path_parent(jsonrpc_path) {
        Some(p) => {
            if p.unicode_len() == 0 {
                filename
            } else {
                path_join(p.as_str(), filename.as_str())
            }
        },
        None => filename,
    }
}

} // verus!
