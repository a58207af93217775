//! Reconnaissance: the network model, self-knowledge discovery and the
//! reconnaissance engine.
//!
//! A primal starts with self-knowledge only. Its own node is built from the
//! identity and address given to the process (or their fallbacks); other
//! primals are discovered at runtime by the process around the library.

use crate::config::FeatureFlags;
use crate::error::SkunkBatError;
use crate::primal_foundation::types::Timestamp;
use crate::text;
use vstd::prelude::*;

verus! {

/// Node status.
#[derive(Debug, Clone, Copy, PartialEq, Eq, Structural)]
pub enum NodeStatus {
    /// Node is healthy.
    Healthy,
    /// Node is degraded.
    Degraded,
    /// Node is unhealthy.
    Unhealthy,
    /// Node is unknown.
    Unknown,
}

/// Connection status.
#[derive(Debug, Clone, Copy, PartialEq, Eq, Structural)]
pub enum ConnectionStatus {
    /// Connection is active.
    Active,
    /// Connection is idle.
    Idle,
    /// Connection is closed.
    Closed,
}

/// Network node.
#[derive(Debug)]
pub struct Node {
    /// Node identifier.
    pub id: String,
    /// Node address.
    pub address: String,
    /// Node type (primal name).
    pub node_type: String,
    /// Node status.
    pub status: NodeStatus,
    /// Node capabilities.
    pub capabilities: Vec<String>,
    /// Last seen timestamp.
    pub last_seen: Option<Timestamp>,
}

/// Network connection.
#[derive(Debug)]
pub struct Connection {
    /// Source node.
    pub from: String,
    /// Destination node.
    pub to: String,
    /// Connection type/protocol.
    pub protocol: String,
    /// Connection status.
    pub status: ConnectionStatus,
}

/// Network scanning scope.
#[derive(Debug)]
pub struct NetworkScope {
    /// Networks explicitly owned by the user.
    pub owned_networks: Vec<String>,
    /// Systems the user manages.
    pub managed_systems: Vec<String>,
    /// Explicitly excluded systems (privacy zones).
    pub excluded: Vec<String>,
}

/// Network scan results.
#[derive(Debug)]
pub struct NetworkScan {
    /// Discovered nodes.
    pub nodes: Vec<Node>,
    /// Network topology.
    pub topology: Vec<Connection>,
    /// When the scan was performed.
    pub scan_time: Option<Timestamp>,
    /// Scan scope.
    pub scope: NetworkScope,
}

/// The owned networks named by their environment value: the comma-separated
/// pieces, trimmed; none when the value is unset.
pub open spec fn owned_networks_spec(value: Option<Seq<char>>) -> Seq<Seq<char>> {
    match value {
        Some(v) => text::split_trim_spec(v, ','),
        None => Seq::empty(),
    }
}

impl NetworkScope {
    /// The owned networks from the environment value that lists them
    /// (comma-separated); none when it is unset (zero-knowledge default).
    pub fn discover_owned_networks(value: Option<&str>) -> (r: Vec<String>)
        ensures
            text::texts(r@) == owned_networks_spec(
                match value {
                    Some(v) => Some(v@),
                    None => None,
                },
            ),
    {
        match value {
            Some(v) => text::split_trimmed(v, ','),
            None => {
                let r: Vec<String> = Vec::new();
                assert(text::texts(r@) =~= Seq::<Seq<char>>::empty());
                r
            },
        }
    }

    /// The scope whose owned networks come from the environment value that
    /// lists them, with no managed or excluded systems.
    pub fn from_owned_networks(value: Option<&str>) -> (r: Self)
        ensures
            text::texts(r.owned_networks@) == owned_networks_spec(
                match value {
                    Some(v) => Some(v@),
                    None => None,
                },
            ),
            r.managed_systems@.len() == 0,
            r.excluded@.len() == 0,
    {
        NetworkScope {
            owned_networks: Self::discover_owned_networks(value),
            managed_systems: Vec::new(),
            excluded: Vec::new(),
        }
    }

    /// A copy of the scope.
    pub fn duplicate(&self) -> (r: Self)
        ensures
            r.owned_networks@ == self.owned_networks@,
            r.managed_systems@ == self.managed_systems@,
            r.excluded@ == self.excluded@,
    {
        NetworkScope {
            owned_networks: text::clone_strings(&self.owned_networks),
            managed_systems: text::clone_strings(&self.managed_systems),
            excluded: text::clone_strings(&self.excluded),
        }
    }
}

impl Default for NetworkScope {
    /// The scope with no owned network set: every list empty.
    fn default() -> (r: Self)
        ensures
            r.owned_networks@.len() == 0,
            r.managed_systems@.len() == 0,
            r.excluded@.len() == 0,
    {
        NetworkScope { owned_networks: Vec::new(), managed_systems: Vec::new(), excluded: Vec::new() }
    }
}

impl Default for NetworkScan {
    /// The empty scan: no nodes, no topology, no scan time, the empty scope.
    fn default() -> (r: Self)
        ensures
            r.nodes@.len() == 0,
            r.topology@.len() == 0,
            r.scan_time is None,
            r.scope.owned_networks@.len() == 0,
            r.scope.managed_systems@.len() == 0,
            r.scope.excluded@.len() == 0,
    {
        NetworkScan {
            nodes: Vec::new(),
            topology: Vec::new(),
            scan_time: None,
            scope: NetworkScope::default(),
        }
    }
}

/// The capabilities this primal advertises for runtime discovery.
pub open spec fn capabilities_spec() -> Seq<Seq<char>> {
    seq!["reconnaissance"@, "threat-detection"@, "defense"@, "observability"@]
}

/// The capabilities this primal advertises, as owned strings.
pub fn capability_names() -> (r: Vec<String>)
    ensures
        text::texts(r@) == capabilities_spec(),
{
    let mut r: Vec<String> = Vec::new();
    r.push(text::owned("reconnaissance"));
    r.push(text::owned("threat-detection"));
    r.push(text::owned("defense"));
    r.push(text::owned("observability"));
    assert(text::texts(r@) =~= capabilities_spec());
    r
}

/// Local-only discovery: self-knowledge until others are discovered.
pub struct LocalDiscovery;

/// The identity of this primal: the identity given to the process, or
/// `skunkbat-{pid}-{seconds since the epoch}` when none is given.
pub open spec fn self_id_spec(id_env: Option<Seq<char>>, pid: u32, now_secs: u64) -> Seq<char> {
    match id_env {
        Some(v) => v,
        None => "skunkbat-"@ + text::decimal(pid as nat) + "-"@ + text::decimal(now_secs as nat),
    }
}

/// The address of this primal: the address given to the process, or the
/// loopback address when none is given.
pub open spec fn self_address_spec(address_env: Option<Seq<char>>) -> Seq<char> {
    match address_env {
        Some(v) => v,
        None => "127.0.0.1"@,
    }
}

/// The view of an optional string argument.
pub open spec fn opt_view(v: Option<&str>) -> Option<Seq<char>> {
    match v {
        Some(s) => Some(s@),
        None => None,
    }
}

impl LocalDiscovery {
    /// Own identity: the configured identity, else one built from the
    /// process id and the current second.
    pub fn discover_self_id(id_env: Option<&str>, pid: u32, now_secs: u64) -> (r: String)
        ensures
            r@ == self_id_spec(opt_view(id_env), pid, now_secs),
    {
        match id_env {
            Some(v) => text::owned(v),
            None => {
                let mut s = text::owned("skunkbat-");
                text::push_decimal(&mut s, pid as u64);
                s.append("-");
                text::push_decimal(&mut s, now_secs);
                proof {
                    reveal_strlit("skunkbat-");
                    reveal_strlit("-");
                }
                s
            },
        }
    }

    /// Own network address: the configured address, else loopback.
    pub fn discover_self_address(address_env: Option<&str>) -> (r: String)
        ensures
            r@ == self_address_spec(opt_view(address_env)),
    {
        match address_env {
            Some(v) => text::owned(v),
            None => text::owned("127.0.0.1"),
        }
    }

    /// The self-knowledge node: own identity and address, this primal's
    /// name and capabilities, healthy, last seen at `now`.
    pub fn local_node(id_env: Option<&str>, address_env: Option<&str>, pid: u32, now: Timestamp) -> (r: Node)
        ensures
            r.id@ == self_id_spec(opt_view(id_env), pid, now.secs),
            r.address@ == self_address_spec(opt_view(address_env)),
            r.node_type@ == crate::PRIMAL_NAME@,
            r.status == NodeStatus::Healthy,
            text::texts(r.capabilities@) == capabilities_spec(),
            r.last_seen == Some(now),
    {
        Node {
            id: Self::discover_self_id(id_env, pid, now.secs),
            address: Self::discover_self_address(address_env),
            node_type: text::owned(crate::PRIMAL_NAME),
            status: NodeStatus::Healthy,
            capabilities: capability_names(),
            last_seen: Some(now),
        }
    }
}

/// Topology mapper for local-only scenarios: it knows no connections.
pub struct SimpleTopologyMapper;

impl SimpleTopologyMapper {
    /// Maps connections between nodes: none are known locally.
    pub fn map_connections(&self, nodes: &[Node]) -> (r: Vec<Connection>)
        ensures
            r@.len() == 0,
    {
        Vec::new()
    }
}

/// Reconnaissance engine: holds whether reconnaissance is enabled, the
/// scanning scope and the discovered asset registry.
pub struct ReconnaissanceEngine {
    enabled: bool,
    scope: NetworkScope,
    discovered_assets: Vec<Node>,
}

impl ReconnaissanceEngine {
    /// Whether reconnaissance is enabled.
    pub closed spec fn spec_enabled(&self) -> bool {
        self.enabled
    }

    /// The scanning scope.
    pub closed spec fn spec_scope(&self) -> &NetworkScope {
        &self.scope
    }

    /// The discovered assets.
    pub closed spec fn assets(&self) -> Seq<Node> {
        self.discovered_assets@
    }

    /// An engine enabled by the reconnaissance feature flag, with the given
    /// scope and no discovered asset.
    pub fn new(features: &FeatureFlags, scope: NetworkScope) -> (r: Self)
        ensures
            r.spec_enabled() == features.reconnaissance,
            r.spec_scope() == scope,
            r.assets().len() == 0,
    {
        ReconnaissanceEngine { enabled: features.reconnaissance, scope, discovered_assets: Vec::new() }
    }

    /// Starts reconnaissance; always succeeds (a disabled engine stays idle).
    pub fn start(&self) -> (r: Result<(), SkunkBatError>)
        ensures
            r is Ok,
    {
        Ok(())
    }

    /// Stops reconnaissance; always succeeds.
    pub fn stop(&self) -> (r: Result<(), SkunkBatError>)
        ensures
            r is Ok,
    {
        Ok(())
    }

    /// Reconnaissance is healthy exactly when it is enabled.
    pub fn is_healthy(&self) -> (r: bool)
        ensures
            r == self.spec_enabled(),
    {
        self.enabled
    }

    /// The discovered asset registry.
    pub fn discovered_assets(&self) -> (r: &Vec<Node>)
        ensures
            r@ == self.assets(),
    {
        &self.discovered_assets
    }

    /// The result of a scan from the nodes discovered and the connections
    /// mapped between them: the empty scan when reconnaissance is disabled,
    /// else those nodes and connections, scanned at `now`, in this scope.
    pub fn scan_result(&self, nodes: Vec<Node>, topology: Vec<Connection>, now: Timestamp) -> (r: NetworkScan)
        ensures
            !self.spec_enabled() ==> r.nodes@.len() == 0 && r.topology@.len() == 0
                && r.scan_time is None && r.scope.owned_networks@.len() == 0,
            self.spec_enabled() ==> r.nodes@ == nodes@ && r.topology@ == topology@
                && r.scan_time == Some(now)
                && r.scope.owned_networks@ == self.spec_scope().owned_networks@
                && r.scope.managed_systems@ == self.spec_scope().managed_systems@
                && r.scope.excluded@ == self.spec_scope().excluded@,
    {
        if !self.enabled {
            return NetworkScan::default();
        }
        NetworkScan { nodes, topology, scan_time: Some(now), scope: self.scope.duplicate() }
    }
}

} // verus!
