//! Capability-based primal discovery through whatever primal announces the
//! `discovery` capability at runtime.
//!
//! The discovery client holds the transport configuration; its calls run
//! outside the library and their replies come back here. A discovery
//! provider that cannot be reached is not an error: the primal keeps its
//! self-knowledge and finds no one else.

use crate::error::SkunkBatError;
use crate::integrations::beardog::resolved_from_env;
use crate::integrations::rpc::{CapabilityClient, RpcError, TransportEndpoint, DEFAULT_INTEGRATION_TIMEOUT_MS, is_tcp_of, parse_tcp_spec, timeout_from_spec};
use crate::primal_foundation::types::Timestamp;
use crate::reconnaissance::{Node, NodeStatus, capabilities_spec, capability_names, opt_view};
use crate::text;
use vstd::prelude::*;

verus! {

/// Discovery client for capability-based primal lookup.
#[derive(Clone, Debug)]
pub struct DiscoveryClient {
    transport: CapabilityClient,
}

/// Discovered primal from the capability registry.
#[derive(Debug)]
pub struct DiscoveredPrimal {
    /// Unique service identifier.
    pub service_id: String,
    /// Advertised capabilities.
    pub capabilities: Vec<String>,
    /// Connection endpoint.
    pub endpoint: String,
    /// Service version.
    pub version: String,
}

impl DiscoveryClient {
    /// The transport configuration.
    pub closed spec fn client(&self) -> CapabilityClient {
        self.transport
    }

    /// A discovery client targeting a TCP endpoint, with the given request
    /// timeout.
    pub fn new(endpoint: &str, timeout_ms: u64) -> (r: Self)
        ensures
            is_tcp_of(r.client().spec_resolved(), parse_tcp_spec(endpoint@)),
            r.client().spec_timeout_ms() == timeout_ms,
            !r.client().spec_btsp(),
    {
        DiscoveryClient { transport: CapabilityClient::new(endpoint, timeout_ms) }
    }

    /// A discovery client from what the environment holds: the discovery
    /// transport description, the `DISCOVERY_ENDPOINT` value, the
    /// capability socket path and whether it exists, and the timeout value.
    pub fn from_env(
        transport: Option<TransportEndpoint>,
        tcp_env: Option<&str>,
        uds_path: &str,
        uds_exists: bool,
        timeout_env: Option<&str>,
    ) -> (r: Self)
        ensures
            resolved_from_env(r.client(), transport, tcp_env, uds_path, uds_exists, timeout_env),
    {
        DiscoveryClient {
            transport: CapabilityClient::from_env_values(
                transport,
                tcp_env,
                uds_path,
                uds_exists,
                timeout_env,
                DEFAULT_INTEGRATION_TIMEOUT_MS,
            ),
        }
    }

    /// The same client with another request timeout.
    pub fn with_timeout(self, timeout_ms: u64) -> (r: Self)
        ensures
            r.client().spec_timeout_ms() == timeout_ms,
            r.client().spec_resolved() == self.client().spec_resolved(),
            r.client().spec_btsp() == self.client().spec_btsp(),
    {
        DiscoveryClient { transport: self.transport.with_timeout(timeout_ms) }
    }

    /// A text summary of the endpoint: `host:port`, the socket path,
    /// `mesh:<peer>`, or empty when unresolved.
    pub fn endpoint(&self) -> (r: String)
        ensures
            self.client().spec_resolved() is None ==> r@.len() == 0,
            self.client().spec_resolved() matches Some(TransportEndpoint::Tcp { host, port }) ==> r@
                == host@ + ":"@ + text::decimal(port as nat),
            self.client().spec_resolved() matches Some(TransportEndpoint::Uds { path }) ==> r@ == path@,
            self.client().spec_resolved() matches Some(TransportEndpoint::MeshRelay { peer_id, capability })
                ==> r@ == "mesh:"@ + peer_id@,
    {
        self.transport.endpoint()
    }

    /// The TCP endpoint as `host:port`, only when resolved to TCP.
    pub fn tcp_endpoint(&self) -> (r: Option<String>)
        ensures
            self.client().spec_resolved() matches Some(TransportEndpoint::Tcp { host, port }) ==> r matches Some(
                a,
            ) && a@ == host@ + ":"@ + text::decimal(port as nat),
            !(self.client().spec_resolved() matches Some(TransportEndpoint::Tcp { .. })) ==> r is None,
    {
        self.transport.tcp_endpoint()
    }

    /// The transport configuration the calls use.
    pub fn transport(&self) -> (r: &CapabilityClient)
        ensures
            *r == self.client(),
    {
        &self.transport
    }

    /// The primals a discovery listing names, from its reply: the parsed
    /// list; a reply that does not parse is the integration error
    /// `parse: {reason}`; an unreachable provider gives the empty list
    /// (standalone mode).
    pub fn listing_outcome(reply: Result<Result<Vec<DiscoveredPrimal>, String>, RpcError>) -> (r: Result<Vec<DiscoveredPrimal>, SkunkBatError>)
        ensures
            match reply {
                Ok(Ok(v)) => r matches Ok(w) && w@ == v@,
                Ok(Err(m)) => r matches Err(SkunkBatError::Integration(t)) && t@ == "parse: "@ + m@,
                Err(_) => r matches Ok(w) && w@.len() == 0,
            },
    {
        match reply {
            Ok(Ok(v)) => Ok(v),
            Ok(Err(m)) => Err(SkunkBatError::Integration(text::concat2("parse: ", m.as_str()))),
            Err(_) => Ok(Vec::new()),
        }
    }

    /// Whether a directory entry is probed as a local primal's socket: its
    /// extension is `sock` and it is not a symbolic link.
    pub fn is_probe_candidate(extension: Option<&str>, is_symlink: bool) -> (r: bool)
        ensures
            r == ((extension matches Some(e) && e@ == "sock"@) && !is_symlink),
    {
        match extension {
            Some(e) => text::str_eq(e, "sock") && !is_symlink,
            None => false,
        }
    }

    /// The primal a local socket answered `capabilities.list` for: its
    /// `primal` name (`unknown` when absent), its `version` (`0.0.0` when
    /// absent), the capability types it provides, reached at the socket path.
    pub fn local_primal(
        socket_path: &str,
        primal: Option<&str>,
        version: Option<&str>,
        capabilities: Vec<String>,
    ) -> (r: DiscoveredPrimal)
        ensures
            r.service_id@ == (match primal {
                Some(p) => p@,
                None => "unknown"@,
            }),
            r.version@ == (match version {
                Some(v) => v@,
                None => "0.0.0"@,
            }),
            r.capabilities@ == capabilities@,
            r.endpoint@ == socket_path@,
    {
        DiscoveredPrimal {
            service_id: match primal {
                Some(p) => text::owned(p),
                None => text::owned("unknown"),
            },
            capabilities,
            endpoint: text::owned(socket_path),
            version: match version {
                Some(v) => text::owned(v),
                None => text::owned("0.0.0"),
            },
        }
    }
}

/// Capability-based primal discovery backed by an external registry: always
/// knows itself, discovers the others at runtime.
pub struct CapabilityPrimalDiscovery {
    client: DiscoveryClient,
    self_id: String,
}

/// A node converted from a registry entry: its identity, endpoint and
/// capabilities, of type `primal`, healthy, seen.
pub open spec fn node_of(n: Node, p: DiscoveredPrimal) -> bool {
    &&& n.id@ == p.service_id@
    &&& n.address@ == p.endpoint@
    &&& n.node_type@ == "primal"@
    &&& n.status == NodeStatus::Healthy
    &&& n.capabilities@ == p.capabilities@
    &&& n.last_seen is Some
}

/// The self-knowledge node of a discovery with identity `self_id`.
pub open spec fn is_self_node(n: Node, self_id: Seq<char>) -> bool {
    &&& n.id@ == self_id
    &&& n.address@ == "local"@
    &&& n.node_type@ == crate::PRIMAL_NAME@
    &&& n.status == NodeStatus::Healthy
    &&& text::texts(n.capabilities@) == capabilities_spec()
    &&& n.last_seen is Some
}

impl CapabilityPrimalDiscovery {
    /// The discovery client.
    pub closed spec fn spec_client(&self) -> DiscoveryClient {
        self.client
    }

    /// The identity of this primal.
    pub closed spec fn spec_self_id(&self) -> Seq<char> {
        self.self_id@
    }

    /// A discovery with the given client and own identity.
    pub fn new(client: DiscoveryClient, self_id: String) -> (r: Self)
        ensures
            r.spec_client() == client,
            r.spec_self_id() == self_id@,
    {
        CapabilityPrimalDiscovery { client, self_id }
    }

    /// The discovery client.
    pub fn client(&self) -> (r: &DiscoveryClient)
        ensures
            *r == self.spec_client(),
    {
        &self.client
    }

    /// Registry entries as nodes, in order: each keeps its identity,
    /// endpoint and capabilities, is of type `primal`, healthy, seen now.
    pub fn convert_to_nodes(discovered: Vec<DiscoveredPrimal>) -> (r: Vec<Node>)
        ensures
            r@.len() == discovered@.len(),
            forall|i: int| 0 <= i < r@.len() ==> node_of(#[trigger] r@[i], discovered@[i]),
    {
        let mut r: Vec<Node> = Vec::new();
        let mut i: usize = 0;
        while i < discovered.len()
            invariant
                i <= discovered@.len(),
                r@.len() == i,
                forall|j: int| 0 <= j < i ==> node_of(#[trigger] r@[j], discovered@[j]),
            decreases discovered@.len() - i,
        {
            let p = &discovered[i];
            let n = Node {
                id: p.service_id.clone(),
                address: p.endpoint.clone(),
                node_type: text::owned("primal"),
                status: NodeStatus::Healthy,
                capabilities: text::clone_strings(&p.capabilities),
                last_seen: Some(Timestamp::now()),
            };
            r.push(n);
            i = i + 1;
        }
        r
    }

    /// The self-knowledge node: own identity, address `local`, this primal's
    /// name and capabilities, healthy, seen now.
    pub fn create_self_node(&self) -> (r: Node)
        ensures
            is_self_node(r, self.spec_self_id()),
    {
        Node {
            id: self.self_id.clone(),
            address: text::owned("local"),
            node_type: text::owned(crate::PRIMAL_NAME),
            status: NodeStatus::Healthy,
            capabilities: capability_names(),
            last_seen: Some(Timestamp::now()),
        }
    }

    /// The nodes a full discovery yields: the self node first, then the
    /// discovered primals; when the listing failed, the self node alone.
    pub fn assemble_all(&self, listing: Result<Vec<DiscoveredPrimal>, SkunkBatError>) -> (r: Vec<Node>)
        ensures
            r@.len() >= 1,
            is_self_node(r@[0], self.spec_self_id()),
            match listing {
                Ok(v) => r@.len() == 1 + v@.len() && forall|i: int|
                    0 <= i < v@.len() ==> node_of(#[trigger] r@[i + 1], v@[i]),
                Err(_) => r@.len() == 1,
            },
    {
        let mut nodes: Vec<Node> = Vec::new();
        nodes.push(self.create_self_node());
        match listing {
            Ok(v) => {
                let ghost dv = v@;
                let mut others = Self::convert_to_nodes(v);
                let ghost ov = others@;
                nodes.append(&mut others);
                assert forall|i: int| 0 <= i < dv.len() implies node_of(#[trigger] nodes@[i + 1], dv[i]) by {
                    assert(nodes@[i + 1] == ov[i]);
                }
            },
            Err(_) => {},
        }
        nodes
    }

    /// The nodes a discovery by capability yields: the discovered primals
    /// as nodes, or the listing's error.
    pub fn by_capability_outcome(listing: Result<Vec<DiscoveredPrimal>, SkunkBatError>) -> (r: Result<Vec<Node>, SkunkBatError>)
        ensures
            match listing {
                Ok(v) => r matches Ok(w) && w@.len() == v@.len() && forall|i: int|
                    0 <= i < v@.len() ==> node_of(#[trigger] w@[i], v@[i]),
                Err(e) => r == Err::<Vec<Node>, SkunkBatError>(e),
            },
    {
        match listing {
            Ok(v) => Ok(Self::convert_to_nodes(v)),
            Err(e) => Err(e),
        }
    }
}

} // verus!
