//! Transport endpoints and the JSON-RPC client's configuration.
//!
//! Endpoints come from the environment (JSON transport descriptions,
//! `host:port` strings, or capability sockets under the socket directory).
//! The library parses and resolves them; the calls themselves run outside.

use crate::clock;
use crate::text;
use std::time::Duration;
use vstd::prelude::*;

verus! {

/// Default integration RPC timeout in milliseconds.
pub const DEFAULT_INTEGRATION_TIMEOUT_MS: u64 = 5000;

/// Structured transport endpoint.
#[derive(Debug, Clone, PartialEq, Eq)]
pub enum TransportEndpoint {
    /// Unix Domain Socket — local primal on same host (fastest path).
    Uds {
        /// Filesystem path to the socket.
        path: String,
    },
    /// TCP — direct network connection (cross-host or container).
    Tcp {
        /// Host address (IPv4, IPv6, or hostname).
        host: String,
        /// TCP port number.
        port: u16,
    },
    /// Mesh relay — primal reachable via a mesh network.
    MeshRelay {
        /// Peer identifier.
        peer_id: String,
        /// Capability domain being requested.
        capability: String,
    },
}

/// A copy of an endpoint.
pub fn clone_endpoint(e: &TransportEndpoint) -> (r: TransportEndpoint)
    ensures
        r == *e,
{
    match e {
        TransportEndpoint::Uds { path } => TransportEndpoint::Uds { path: path.clone() },
        TransportEndpoint::Tcp { host, port } => TransportEndpoint::Tcp { host: host.clone(), port: *port },
        TransportEndpoint::MeshRelay { peer_id, capability } => TransportEndpoint::MeshRelay {
            peer_id: peer_id.clone(),
            capability: capability.clone(),
        },
    }
}

/// IPC RPC call failure.
#[derive(Debug, Clone, PartialEq, Eq)]
pub enum RpcError {
    /// Network or I/O failure (connection refused, write error).
    Io(String),
    /// Server returned a JSON-RPC error response.
    Server {
        /// JSON-RPC error code.
        code: i32,
        /// Human-readable error message.
        message: String,
    },
    /// Response could not be parsed.
    Parse(String),
    /// Call timed out.
    Timeout(String),
}

impl RpcError {
    /// The display text of the error.
    pub open spec fn spec_message(&self) -> Seq<char> {
        match self {
            RpcError::Io(m) => "io: "@ + m@,
            RpcError::Server { code, message } => "rpc "@ + text::signed_decimal(*code as int) + ": "@
                + message@,
            RpcError::Parse(m) => "parse: "@ + m@,
            RpcError::Timeout(m) => "timeout: "@ + m@,
        }
    }

    /// The display text of the error.
    pub fn message(&self) -> (r: String)
        ensures
            r@ == self.spec_message(),
    {
        match self {
            RpcError::Io(m) => text::concat2("io: ", m.as_str()),
            RpcError::Server { code, message } => {
                let mut r = text::owned("rpc ");
                text::push_i32_decimal(&mut r, *code);
                r.append(": ");
                r.append(message.as_str());
                r
            },
            RpcError::Parse(m) => text::concat2("parse: ", m.as_str()),
            RpcError::Timeout(m) => text::concat2("timeout: ", m.as_str()),
        }
    }
}

/// The integration timeout: the value of `SKUNKBAT_INTEGRATION_TIMEOUT_MS`
/// when set to a number, the default otherwise.
pub open spec fn timeout_from_spec(env_value: Option<Seq<char>>, default_ms: u64) -> u64 {
    match env_value {
        Some(v) => match text::parse_u64_spec(v) {
            Some(n) => n,
            None => default_ms,
        },
        None => default_ms,
    }
}

/// The integration timeout from the value of
/// `SKUNKBAT_INTEGRATION_TIMEOUT_MS` (if set): its number, or the default
/// when unset or not a number.
pub fn timeout_from_env_value(env_value: Option<&str>, default_ms: u64) -> (r: u64)
    ensures
        r == timeout_from_spec(
            match env_value {
                Some(v) => Some(v@),
                None => None,
            },
            default_ms,
        ),
{
    match env_value {
        Some(v) => match text::parse_u64(v) {
            Some(n) => n,
            None => default_ms,
        },
        None => default_ms,
    }
}

/// The socket directory: `BIOMEOS_SOCKET_DIR` when set; else
/// `$XDG_RUNTIME_DIR/biomeos`; else `/run/user/{uid}/biomeos`.
pub open spec fn socket_dir_spec(biomeos_dir: Option<Seq<char>>, xdg_runtime_dir: Option<Seq<char>>, uid: u32) -> Seq<char> {
    match biomeos_dir {
        Some(d) => d,
        None => match xdg_runtime_dir {
            Some(x) => x + "/biomeos"@,
            None => "/run/user/"@ + text::decimal(uid as nat) + "/biomeos"@,
        },
    }
}

/// The socket directory from the values of `BIOMEOS_SOCKET_DIR` and
/// `XDG_RUNTIME_DIR` (when set) and the user's uid.
pub fn socket_dir_from(biomeos_dir: Option<&str>, xdg_runtime_dir: Option<&str>, uid: u32) -> (r: String)
    ensures
        r@ == socket_dir_spec(
            match biomeos_dir {
                Some(d) => Some(d@),
                None => None,
            },
            match xdg_runtime_dir {
                Some(x) => Some(x@),
                None => None,
            },
            uid,
        ),
{
    match biomeos_dir {
        Some(d) => text::owned(d),
        None => match xdg_runtime_dir {
            Some(x) => text::concat2(x, "/biomeos"),
            None => {
                let mut r = text::owned("/run/user/");
                text::push_decimal(&mut r, uid as u64);
                r.append("/biomeos");
                r
            },
        },
    }
}

/// The UDS path of a capability-domain socket under the socket directory,
/// e.g. `/run/user/1000/biomeos/discovery.sock`.
pub fn capability_socket(dir: &str, capability: &str) -> (r: String)
    ensures
        r@ == dir@ + "/"@ + capability@ + ".sock"@,
{
    text::concat4(dir, "/", capability, ".sock")
}

/// The text after an `http://` or `https://` scheme, if any.
pub open spec fn strip_scheme(s: Seq<char>) -> Seq<char> {
    if text::has_prefix(s, "http://"@) {
        s.skip(7)
    } else if text::has_prefix(s, "https://"@) {
        s.skip(8)
    } else {
        s
    }
}

/// What `parse_tcp_host_port` yields for `addr`: after an optional scheme,
/// split at the last `:`; the part after it must parse as a port, and the
/// host is the part before it without enclosing brackets.
pub open spec fn parse_tcp_spec(addr: Seq<char>) -> Option<(Seq<char>, u16)> {
    let st = strip_scheme(addr);
    if st.len() == 0 {
        None
    } else {
        match text::last_index_of(st, ':') {
            None => None,
            Some(i) => match text::parse_u16_spec(st.skip(i + 1)) {
                None => None,
                Some(port) => Some(
                    (text::trim_end_char(text::trim_start_char(st.take(i), '['), ']'), port),
                ),
            },
        }
    }
}

/// The last occurrence of `c` in `a`, then `c`, then text without `c`, is
/// the `c` placed between them.
proof fn lemma_last_index_between(a: Seq<char>, c: char, b: Seq<char>)
    requires
        !b.contains(c),
    ensures
        text::last_index_of(a.push(c) + b, c) == Some(a.len() as int),
    decreases b.len(),
{
    let s = a.push(c) + b;
    if b.len() == 0 {
        assert(s =~= a.push(c));
    } else {
        assert(s.last() == b.last());
        assert(b.last() != c) by {
            if b.last() == c {
                assert(b.contains(c));
            }
        }
        assert(s.drop_last() =~= a.push(c) + b.drop_last());
        assert(!b.drop_last().contains(c)) by {
            if b.drop_last().contains(c) {
                let j = choose|j: int| 0 <= j < b.drop_last().len() && b.drop_last()[j] == c;
                assert(b[j] == c);
            }
        }
        lemma_last_index_between(a, c, b.drop_last());
    }
}

/// A port text that parses holds no `:`.
proof fn lemma_port_text_has_no_colon(ps: Seq<char>)
    requires
        text::parse_u16_spec(ps) is Some,
    ensures
        !ps.contains(':'),
{
    let d = text::unsigned_digits(ps);
    if ps.contains(':') {
        let j = choose|j: int| 0 <= j < ps.len() && ps[j] == ':';
        if ps.len() > 0 && ps[0] == '+' {
            assert(j != 0);
            assert(d[j - 1] == ps[j]);
            assert(text::is_digit(d[j - 1]));
        } else {
            assert(d[j] == ps[j]);
            assert(text::is_digit(d[j]));
        }
    }
}

/// A TCP address written with a scheme parses to the same endpoint as
/// without it: for a host `h` holding no `:` and a port text that parses as
/// `p`, `https://h:port` and `http://h:port` both give the host `h` (without
/// enclosing brackets) and the port `p`.
pub proof fn lemma_scheme_is_stripped(h: Seq<char>, ps: Seq<char>)
    requires
        !h.contains(':'),
        text::parse_u16_spec(ps) is Some,
    ensures
        parse_tcp_spec("https://"@ + h + ":"@ + ps) == Some(
            (text::trim_end_char(text::trim_start_char(h, '['), ']'), text::parse_u16_spec(ps)->0),
        ),
        parse_tcp_spec("http://"@ + h + ":"@ + ps) == Some(
            (text::trim_end_char(text::trim_start_char(h, '['), ']'), text::parse_u16_spec(ps)->0),
        ),
        !text::has_prefix(h, "http"@) ==> parse_tcp_spec(h + ":"@ + ps) == parse_tcp_spec(
            "https://"@ + h + ":"@ + ps,
        ),
{
    reveal_strlit("https://");
    reveal_strlit("http://");
    reveal_strlit(":");
    lemma_port_text_has_no_colon(ps);
    let t = h.push(':') + ps;
    assert(":"@ =~= seq![':']);
    lemma_last_index_between(h, ':', ps);
    assert(t.take(h.len() as int) =~= h);
    assert(t.skip(h.len() as int + 1) =~= ps);
    let s1 = "https://"@ + h + ":"@ + ps;
    assert(s1 =~= "https://"@ + t);
    assert(s1[4] == 's');
    assert(!text::has_prefix(s1, "http://"@)) by {
        if text::has_prefix(s1, "http://"@) {
            assert(s1.subrange(0, 7)[4] == "http://"@[4]);
        }
    }
    assert(s1.subrange(0, 8) =~= "https://"@);
    assert(s1.skip(8) =~= t);
    let s2 = "http://"@ + h + ":"@ + ps;
    assert(s2 =~= "http://"@ + t);
    assert(s2.subrange(0, 7) =~= "http://"@);
    assert(s2.skip(7) =~= t);
    if !text::has_prefix(h, "http"@) {
        reveal_strlit("http");
        assert(h + ":"@ + ps =~= t);
        assert(!text::has_prefix(t, "http://"@)) by {
            if text::has_prefix(t, "http://"@) {
                assert(t.subrange(0, 7) == "http://"@);
                let n = h.len() as int;
                if n < 4 {
                    assert(t[n] == ':');
                    assert(t.subrange(0, 7)[n] == t[n]);
                } else if n == 4 {
                    assert(h =~= "http"@) by {
                        assert forall|k: int| 0 <= k < 4 implies h[k] == "http"@[k] by {
                            assert(t.subrange(0, 7)[k] == t[k]);
                        }
                    }
                    assert(h.subrange(0, 4) =~= h);
                } else {
                    assert(t[4] == h[4]);
                    assert(t.subrange(0, 7)[4] == t[4]);
                    assert(h.contains(':'));
                }
            }
        }
        assert(!text::has_prefix(t, "https://"@)) by {
            if text::has_prefix(t, "https://"@) {
                assert(t.subrange(0, 8) == "https://"@);
                let n = h.len() as int;
                if n < 5 {
                    assert(t[n] == ':');
                    assert(t.subrange(0, 8)[n] == t[n]);
                } else if n == 5 {
                    assert(h.subrange(0, 4) =~= "http"@) by {
                        assert forall|k: int| 0 <= k < 4 implies h[k] == "http"@[k] by {
                            assert(t.subrange(0, 8)[k] == t[k]);
                        }
                    }
                } else {
                    assert(t[5] == h[5]);
                    assert(t.subrange(0, 8)[5] == t[5]);
                    assert(h.contains(':'));
                }
            }
        }
    }
}

/// Whether an endpoint is the TCP endpoint `(host, port)` described by `spec`.
pub open spec fn is_tcp_of(r: Option<TransportEndpoint>, spec: Option<(Seq<char>, u16)>) -> bool {
    match spec {
        None => r is None,
        Some((h, p)) => r matches Some(TransportEndpoint::Tcp { host, port }) && host@ == h && port == p,
    }
}

/// Parse a `host:port` string into a TCP endpoint. Accepts `host:port`,
/// `http://host:port` and `https://host:port`; `None` when the string is
/// empty or has no valid port.
pub fn parse_tcp_host_port(addr: &str) -> (r: Option<TransportEndpoint>)
    ensures
        is_tcp_of(r, parse_tcp_spec(addr@)),
{
    let stripped = if text::starts_with(addr, "http://") {
        proof {
            reveal_strlit("http://");
        }
        text::skip_chars(addr, 7)
    } else if text::starts_with(addr, "https://") {
        proof {
            reveal_strlit("https://");
        }
        text::skip_chars(addr, 8)
    } else {
        addr
    };
    assert(stripped@ == strip_scheme(addr@));
    if stripped.unicode_len() == 0 {
        return None;
    }
    match text::find_last_char(stripped, ':') {
        None => None,
        Some(i) => {
            proof {
                lemma_last_index_in_range(stripped@, ':');
            }
            let port_text = text::skip_chars(stripped, i + 1);
            match text::parse_u16(port_text) {
                None => None,
                Some(port) => {
                    let host_part = text::take_chars(stripped, i);
                    let host = text::trim_end_matches_char(
                        text::trim_start_matches_char(host_part, '['),
                        ']',
                    );
                    Some(TransportEndpoint::Tcp { host: text::owned(host), port })
                },
            }
        },
    }
}

/// The last index of a character lies within the text.
proof fn lemma_last_index_in_range(s: Seq<char>, c: char)
    ensures
        text::last_index_of(s, c) matches Some(i) ==> 0 <= i < s.len(),
    decreases s.len(),
{
    if s.len() > 0 && s.last() != c {
        lemma_last_index_in_range(s.drop_last(), c);
    }
}

/// `s` with every trailing occurrence of `suffix` removed.
pub open spec fn trim_end_seq(s: Seq<char>, suffix: Seq<char>) -> Seq<char>
    decreases s.len(),
{
    if suffix.len() > 0 && suffix.len() <= s.len() && s.skip(s.len() - suffix.len()) == suffix {
        trim_end_seq(s.take(s.len() - suffix.len()), suffix)
    } else {
        s
    }
}

/// The name of the JSON transport variable that goes with an endpoint
/// variable: its name without trailing `_ENDPOINT`s, then `_TRANSPORT`
/// (`LINEAGE_ENDPOINT` gives `LINEAGE_TRANSPORT`).
pub fn transport_env_name(endpoint_env: &str) -> (r: String)
    ensures
        r@ == trim_end_seq(endpoint_env@, "_ENDPOINT"@) + "_TRANSPORT"@,
{
    proof {
        reveal_strlit("_ENDPOINT");
    }
    let mut end: usize = endpoint_env.unicode_len();
    assert(endpoint_env@.take(end as int) =~= endpoint_env@);
    while end >= 9 && text::str_eq(
        text::skip_chars(text::take_chars(endpoint_env, end), end - 9),
        "_ENDPOINT",
    )
        invariant
            end <= endpoint_env@.len(),
            trim_end_seq(endpoint_env@, "_ENDPOINT"@) == trim_end_seq(endpoint_env@.take(end as int), "_ENDPOINT"@),
            "_ENDPOINT"@.len() == 9,
        decreases end,
    {
        let ghost t = endpoint_env@.take(end as int);
        assert(t.take(end - 9) =~= endpoint_env@.take(end - 9));
        end = end - 9;
    }
    proof {
        let t = endpoint_env@.take(end as int);
        if end >= 9 {
            assert(!(t.skip(t.len() - 9) == "_ENDPOINT"@));
        }
    }
    text::concat2(text::take_chars(endpoint_env, end), "_TRANSPORT")
}

/// How to reach an endpoint: a socket path, or a TCP address `host:port`.
#[derive(Debug, Clone, PartialEq, Eq)]
pub enum DialTarget {
    /// Connect to the Unix socket at this path.
    Unix(String),
    /// Connect over TCP to this `host:port` address.
    Tcp(String),
}

/// Where a call to `endpoint` goes: UDS paths and TCP addresses are dialed;
/// a mesh relay is not supported and fails with an I/O error naming the
/// peer and the capability.
pub fn dial_target(endpoint: &TransportEndpoint) -> (r: Result<DialTarget, RpcError>)
    ensures
        endpoint matches TransportEndpoint::Uds { path } ==> r matches Ok(DialTarget::Unix(p)) && p@
            == path@,
        endpoint matches TransportEndpoint::Tcp { host, port } ==> r matches Ok(DialTarget::Tcp(a))
            && a@ == host@ + ":"@ + text::decimal(*port as nat),
        endpoint matches TransportEndpoint::MeshRelay { peer_id, capability } ==> r matches Err(
            RpcError::Io(m),
        ) && m@ == "mesh_relay transport not yet implemented (peer="@ + peer_id@ + ", cap="@
            + capability@ + ")"@,
{
    match endpoint {
        TransportEndpoint::Uds { path } => Ok(DialTarget::Unix(path.clone())),
        TransportEndpoint::Tcp { host, port } => {
            let mut a = text::concat2(host.as_str(), ":");
            text::push_decimal(&mut a, *port as u64);
            Ok(DialTarget::Tcp(a))
        },
        TransportEndpoint::MeshRelay { peer_id, capability } => {
            let mut m = text::concat2("mesh_relay transport not yet implemented (peer=", peer_id.as_str());
            m.append(", cap=");
            m.append(capability.as_str());
            m.append(")");
            Err(RpcError::Io(m))
        },
    }
}

/// Shared transport configuration for capability-based integration clients.
#[derive(Clone, Debug)]
pub struct CapabilityClient {
    resolved: Option<TransportEndpoint>,
    timeout_ms: u64,
    btsp_enabled: bool,
}

impl CapabilityClient {
    /// The resolved endpoint.
    pub closed spec fn spec_resolved(&self) -> Option<TransportEndpoint> {
        self.resolved
    }

    /// The request timeout in milliseconds.
    pub closed spec fn spec_timeout_ms(&self) -> u64 {
        self.timeout_ms
    }

    /// Whether BTSP handshake is enabled.
    pub closed spec fn spec_btsp(&self) -> bool {
        self.btsp_enabled
    }

    /// Create with an explicit TCP endpoint (`host:port`, optionally with an
    /// `http://` or `https://` scheme). BTSP starts disabled.
    pub fn new(endpoint: &str, timeout_ms: u64) -> (c: Self)
        ensures
            is_tcp_of(c.spec_resolved(), parse_tcp_spec(endpoint@)),
            c.spec_timeout_ms() == timeout_ms,
            !c.spec_btsp(),
    {
        CapabilityClient { resolved: parse_tcp_host_port(endpoint), timeout_ms, btsp_enabled: false }
    }

    /// Create from what the environment holds: the parsed JSON transport
    /// description (if any), the endpoint variable's value (if set), the
    /// capability socket path and whether it exists, and the timeout
    /// variable's value (if set).
    pub fn from_env_values(
        transport: Option<TransportEndpoint>,
        tcp_env: Option<&str>,
        uds_path: &str,
        uds_exists: bool,
        timeout_env: Option<&str>,
        default_timeout_ms: u64,
    ) -> (c: Self)
        ensures
            transport is Some ==> c.spec_resolved() == transport,
            transport is None && (tcp_env matches Some(a) && a@.len() > 0) ==> is_tcp_of(
                c.spec_resolved(),
                parse_tcp_spec(tcp_env->0@),
            ),
            transport is None && !(tcp_env matches Some(a) && a@.len() > 0) ==> (if uds_exists {
                c.spec_resolved() matches Some(TransportEndpoint::Uds { path }) && path@ == uds_path@
            } else {
                c.spec_resolved() is None
            }),
            c.spec_timeout_ms() == timeout_from_spec(
                match timeout_env {
                    Some(v) => Some(v@),
                    None => None,
                },
                default_timeout_ms,
            ),
            !c.spec_btsp(),
    {
        let resolved = match transport {
            Some(t) => Some(t),
            None => match tcp_env {
                Some(addr) if addr.unicode_len() > 0 => parse_tcp_host_port(addr),
                _ => if uds_exists {
                    Some(TransportEndpoint::Uds { path: text::owned(uds_path) })
                } else {
                    None
                },
            },
        };
        CapabilityClient {
            resolved,
            timeout_ms: timeout_from_env_value(timeout_env, default_timeout_ms),
            btsp_enabled: false,
        }
    }

    /// Override the request timeout.
    pub fn with_timeout(self, timeout_ms: u64) -> (c: Self)
        ensures
            c.spec_timeout_ms() == timeout_ms,
            c.spec_resolved() == self.spec_resolved(),
            c.spec_btsp() == self.spec_btsp(),
    {
        let mut c = self;
        c.timeout_ms = timeout_ms;
        c
    }

    /// Explicitly enable or disable the BTSP handshake.
    pub fn with_btsp(self, enabled: bool) -> (c: Self)
        ensures
            c.spec_btsp() == enabled,
            c.spec_resolved() == self.spec_resolved(),
            c.spec_timeout_ms() == self.spec_timeout_ms(),
    {
        let mut c = self;
        c.btsp_enabled = enabled;
        c
    }

    /// Whether BTSP handshake is enabled on this client.
    pub fn btsp_enabled(&self) -> (r: bool)
        ensures
            r == self.spec_btsp(),
    {
        self.btsp_enabled
    }

    /// The resolved transport endpoint (if any).
    pub fn resolved(&self) -> (r: Option<&TransportEndpoint>)
        ensures
            match r {
                Some(e) => self.spec_resolved() == Some(*e),
                None => self.spec_resolved() is None,
            },
    {
        self.resolved.as_ref()
    }

    /// A text summary of the endpoint for logging: `host:port`, the socket
    /// path, `mesh:<peer>`, or empty when unresolved.
    pub fn endpoint(&self) -> (r: String)
        ensures
            self.spec_resolved() is None ==> r@.len() == 0,
            self.spec_resolved() matches Some(TransportEndpoint::Tcp { host, port }) ==> r@ == host@
                + ":"@ + text::decimal(port as nat),
            self.spec_resolved() matches Some(TransportEndpoint::Uds { path }) ==> r@ == path@,
            self.spec_resolved() matches Some(TransportEndpoint::MeshRelay { peer_id, capability })
                ==> r@ == "mesh:"@ + peer_id@,
    {
        match &self.resolved {
            Some(TransportEndpoint::Tcp { host, port }) => {
                let mut r = text::concat2(host.as_str(), ":");
                text::push_decimal(&mut r, *port as u64);
                r
            },
            Some(TransportEndpoint::Uds { path }) => path.clone(),
            Some(TransportEndpoint::MeshRelay { peer_id, .. }) => text::concat2("mesh:", peer_id.as_str()),
            None => String::new(),
        }
    }

    /// The TCP endpoint as `host:port` (if resolved to TCP).
    pub fn tcp_endpoint(&self) -> (r: Option<String>)
        ensures
            self.spec_resolved() matches Some(TransportEndpoint::Tcp { host, port }) ==> r matches Some(
                a,
            ) && a@ == host@ + ":"@ + text::decimal(port as nat),
            !(self.spec_resolved() matches Some(TransportEndpoint::Tcp { .. })) ==> r is None,
    {
        match &self.resolved {
            Some(TransportEndpoint::Tcp { host, port }) => {
                let mut r = text::concat2(host.as_str(), ":");
                text::push_decimal(&mut r, *port as u64);
                Some(r)
            },
            _ => None,
        }
    }

    /// The UDS path (if resolved to UDS).
    pub fn uds_path(&self) -> (r: Option<&str>)
        ensures
            self.spec_resolved() matches Some(TransportEndpoint::Uds { path }) ==> r matches Some(p)
                && p@ == path@,
            !(self.spec_resolved() matches Some(TransportEndpoint::Uds { .. })) ==> r is None,
    {
        match &self.resolved {
            Some(TransportEndpoint::Uds { path }) => Some(path.as_str()),
            _ => None,
        }
    }

    /// The configured timeout in milliseconds.
    pub fn timeout_ms(&self) -> (r: u64)
        ensures
            r == self.spec_timeout_ms(),
    {
        self.timeout_ms
    }

    /// The configured timeout as a `Duration` (of `timeout_ms` milliseconds).
    pub fn timeout(&self) -> (d: Duration)
        ensures
            d == clock::duration_of_millis(self.spec_timeout_ms()),
    {
        clock::duration_from_millis(self.timeout_ms)
    }

    /// The endpoint a call goes to: the resolved one, or an I/O error "no
    /// transport endpoint resolved".
    pub fn call_target(&self) -> (r: Result<&TransportEndpoint, RpcError>)
        ensures
            match r {
                Ok(e) => self.spec_resolved() == Some(*e),
                Err(e) => self.spec_resolved() is None && (e matches RpcError::Io(m) && m@
                    == "no transport endpoint resolved"@),
            },
    {
        match &self.resolved {
            Some(e) => Ok(e),
            None => Err(RpcError::Io(text::owned("no transport endpoint resolved"))),
        }
    }
}

} // verus!
