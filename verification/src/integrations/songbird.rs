//! Federation broadcast of threat intelligence through whatever primal
//! announces the `federation` capability at runtime.
//!
//! The client holds the transport configuration, the node identity and
//! whether the provider answered its probe; the calls run outside the
//! library. A provider that cannot be reached leaves the client
//! disconnected: threats are then handled locally without broadcasting.

use crate::error::SkunkBatError;
use crate::integrations::beardog::resolved_from_env;
use crate::integrations::rpc::{CapabilityClient, RpcError, TransportEndpoint, DEFAULT_INTEGRATION_TIMEOUT_MS, is_tcp_of, parse_tcp_spec};
use crate::observability::audit_log::EventSeverity;
use crate::primal_foundation::types::Timestamp;
use crate::reconnaissance::opt_view;
use crate::text;
use vstd::prelude::*;

verus! {

/// Threat intelligence message for federation broadcast.
#[derive(Debug)]
pub struct ThreatIntelligence {
    /// Source node ID.
    pub source_node: String,
    /// Threat being reported.
    pub threat_type: String,
    /// Threat source identifier.
    pub threat_source: String,
    /// Threat severity.
    pub severity: String,
    /// Human-readable description.
    pub description: String,
    /// Detection timestamp.
    pub detected_at: Timestamp,
    /// Optional evidence / context.
    pub evidence: Option<String>,
}

/// Federation client for threat intelligence broadcasting.
#[derive(Clone, Debug)]
pub struct FederationClient {
    transport: CapabilityClient,
    node_id: String,
    connected: bool,
}

/// The node identity of this primal: the configured identity, or the
/// primal's binary name.
pub open spec fn node_id_spec(id_env: Option<Seq<char>>) -> Seq<char> {
    match id_env {
        Some(v) => v,
        None => crate::PRIMAL_ID@,
    }
}

impl FederationClient {
    /// The transport configuration.
    pub closed spec fn client(&self) -> CapabilityClient {
        self.transport
    }

    /// The node identity broadcast with each message.
    pub closed spec fn spec_node_id(&self) -> Seq<char> {
        self.node_id@
    }

    /// Whether the provider answered the connection probe.
    pub closed spec fn spec_connected(&self) -> bool {
        self.connected
    }

    /// A client targeting a TCP endpoint, with the given node identity and
    /// request timeout; not connected yet.
    pub fn new(endpoint: &str, node_id: String, timeout_ms: u64) -> (r: Self)
        ensures
            is_tcp_of(r.client().spec_resolved(), parse_tcp_spec(endpoint@)),
            r.client().spec_timeout_ms() == timeout_ms,
            r.spec_node_id() == node_id@,
            !r.spec_connected(),
    {
        FederationClient { transport: CapabilityClient::new(endpoint, timeout_ms), node_id, connected: false }
    }

    /// A client from what the environment holds: the federation transport
    /// description, the `FEDERATION_ENDPOINT` value, the capability socket
    /// path and whether it exists, the timeout value and the `SKUNKBAT_ID`
    /// value; not connected yet.
    pub fn from_env(
        transport: Option<TransportEndpoint>,
        tcp_env: Option<&str>,
        uds_path: &str,
        uds_exists: bool,
        timeout_env: Option<&str>,
        id_env: Option<&str>,
    ) -> (r: Self)
        ensures
            resolved_from_env(r.client(), transport, tcp_env, uds_path, uds_exists, timeout_env),
            r.spec_node_id() == node_id_spec(opt_view(id_env)),
            !r.spec_connected(),
    {
        let node_id = match id_env {
            Some(v) => text::owned(v),
            None => text::owned(crate::PRIMAL_ID),
        };
        FederationClient {
            transport: CapabilityClient::from_env_values(
                transport,
                tcp_env,
                uds_path,
                uds_exists,
                timeout_env,
                DEFAULT_INTEGRATION_TIMEOUT_MS,
            ),
            node_id,
            connected: false,
        }
    }

    /// A text summary of the endpoint for logging (empty if unresolved).
    pub fn endpoint(&self) -> (r: String)
        ensures
            self.client().spec_resolved() is None ==> r@.len() == 0,
            self.client().spec_resolved() matches Some(TransportEndpoint::Tcp { host, port }) ==> r@
                == host@ + ":"@ + text::decimal(port as nat),
            self.client().spec_resolved() matches Some(TransportEndpoint::Uds { path }) ==> r@ == path@,
            self.client().spec_resolved() matches Some(TransportEndpoint::MeshRelay { peer_id, capability })
                ==> r@ == "mesh:"@ + peer_id@,
    {
        self.transport.endpoint()
    }

    /// The TCP endpoint as `host:port` (if resolved to TCP).
    pub fn tcp_endpoint(&self) -> (r: Option<String>)
        ensures
            self.client().spec_resolved() matches Some(TransportEndpoint::Tcp { host, port }) ==> r matches Some(
                a,
            ) && a@ == host@ + ":"@ + text::decimal(port as nat),
            !(self.client().spec_resolved() matches Some(TransportEndpoint::Tcp { .. })) ==> r is None,
    {
        self.transport.tcp_endpoint()
    }

    /// The transport configuration the calls use.
    pub fn transport(&self) -> (r: &CapabilityClient)
        ensures
            *r == self.client(),
    {
        &self.transport
    }

    /// The node identity.
    pub fn node_id(&self) -> (r: &str)
        ensures
            r@ == self.spec_node_id(),
    {
        self.node_id.as_str()
    }

    /// Whether the provider answered the connection probe.
    pub fn is_connected(&self) -> (r: bool)
        ensures
            r == self.spec_connected(),
    {
        self.connected
    }

    /// Records the outcome of the `health.liveness` probe: an answer marks
    /// the client connected; an unreachable provider leaves it as it was.
    /// Connecting never fails (graceful degradation).
    pub fn connect(&mut self, probe: Result<(), RpcError>) -> (r: Result<(), SkunkBatError>)
        ensures
            r is Ok,
            final(self).spec_connected() == (old(self).spec_connected() || probe is Ok),
            final(self).client() == old(self).client(),
            final(self).spec_node_id() == old(self).spec_node_id(),
    {
        if probe.is_ok() {
            self.connected = true;
        }
        Ok(())
    }

    /// Whether a broadcast or subscription may be attempted: only when
    /// connected, else the integration error `Not connected to federation
    /// provider`.
    pub fn ensure_connected(&self) -> (r: Result<(), SkunkBatError>)
        ensures
            self.spec_connected() ==> r is Ok,
            !self.spec_connected() ==> (r matches Err(SkunkBatError::Integration(m)) && m@
                == "Not connected to federation provider"@),
    {
        if self.connected {
            Ok(())
        } else {
            Err(SkunkBatError::Integration(text::owned("Not connected to federation provider")))
        }
    }
}

/// The result of a federation call from its reply: success, or the
/// integration error `{what}: {error}`.
pub fn call_outcome(reply: Result<(), RpcError>, what: &str) -> (r: Result<(), SkunkBatError>)
    ensures
        match reply {
            Ok(()) => r is Ok,
            Err(e) => r matches Err(SkunkBatError::Integration(m)) && m@ == what@ + ": "@
                + e.spec_message(),
        },
{
    match reply {
        Ok(()) => Ok(()),
        Err(e) => {
            let m = e.message();
            Err(SkunkBatError::Integration(text::concat3(what, ": ", m.as_str())))
        },
    }
}

/// Federation-backed threat broadcaster.
pub struct FederationThreatBroadcaster {
    client: FederationClient,
}

impl FederationThreatBroadcaster {
    /// The federation client.
    pub closed spec fn spec_client(&self) -> FederationClient {
        self.client
    }

    /// A broadcaster over the given client.
    pub fn new(client: FederationClient) -> (r: Self)
        ensures
            r.spec_client() == client,
    {
        FederationThreatBroadcaster { client }
    }

    /// The federation client.
    pub fn client(&self) -> (r: &FederationClient)
        ensures
            *r == self.spec_client(),
    {
        &self.client
    }

    /// The federation client, for recording its probe.
    pub fn client_mut(&mut self) -> (r: &mut FederationClient)
        ensures
            *r == old(self).spec_client(),
            final(self).spec_client() == *final(r),
    {
        &mut self.client
    }

    /// The intelligence message for a threat: from this node, with the given
    /// type, source, severity and description, detected now, no evidence.
    pub fn create_intel(&self, threat_type: &str, source: &str, severity: &str, description: &str) -> (r: ThreatIntelligence)
        ensures
            r.source_node@ == self.spec_client().spec_node_id(),
            r.threat_type@ == threat_type@,
            r.threat_source@ == source@,
            r.severity@ == severity@,
            r.description@ == description@,
            r.detected_at.wf(),
            r.evidence is None,
    {
        ThreatIntelligence {
            source_node: text::owned(self.client.node_id()),
            threat_type: text::owned(threat_type),
            threat_source: text::owned(source),
            severity: text::owned(severity),
            description: text::owned(description),
            detected_at: Timestamp::now(),
            evidence: None,
        }
    }
}

/// Where the federation cursor ends after a batch of audit events, given as
/// `(seq, severity, is a detected threat)`, and the outcomes of the
/// broadcasts attempted, in order: events below `Warn` are passed over;
/// detected threats at `Warn` or above are broadcast, and the first failed
/// (or unattempted) broadcast stops the batch; other events are passed over.
pub open spec fn federation_cursor_spec(
    cursor: u64,
    events: Seq<(u64, EventSeverity, bool)>,
    outcomes: Seq<bool>,
) -> u64
    decreases events.len(),
{
    if events.len() == 0 {
        cursor
    } else if events[0].1.spec_rank() < EventSeverity::Warn.spec_rank() || !events[0].2 {
        federation_cursor_spec(events[0].0, events.skip(1), outcomes)
    } else if outcomes.len() > 0 && outcomes[0] {
        federation_cursor_spec(events[0].0, events.skip(1), outcomes.skip(1))
    } else {
        cursor
    }
}

/// Whether an audit event is broadcast: a detected threat at `Warn` or above.
pub fn is_broadcast(severity: EventSeverity, is_threat: bool) -> (r: bool)
    ensures
        r == (severity.spec_rank() >= EventSeverity::Warn.spec_rank() && is_threat),
{
    !severity.is_below(&EventSeverity::Warn) && is_threat
}

/// The federation cursor after a batch: see `federation_cursor_spec`.
pub fn federation_cursor(cursor: u64, events: &[(u64, EventSeverity, bool)], outcomes: &[bool]) -> (r: u64)
    ensures
        r == federation_cursor_spec(cursor, events@, outcomes@),
{
    let mut cur = cursor;
    let mut i: usize = 0;
    let mut k: usize = 0;
    assert(events@.skip(0) =~= events@);
    assert(outcomes@.skip(0) =~= outcomes@);
    while i < events.len()
        invariant
            i <= events@.len(),
            k <= outcomes@.len(),
            federation_cursor_spec(cursor, events@, outcomes@) == federation_cursor_spec(
                cur,
                events@.skip(i as int),
                outcomes@.skip(k as int),
            ),
        decreases events@.len() - i,
    {
        let (seq, sev, threat) = events[i];
        proof {
            assert(events@.skip(i as int)[0] == events@[i as int]);
            assert(events@.skip(i as int).skip(1) =~= events@.skip(i + 1));
        }
        if !is_broadcast(sev, threat) {
            cur = seq;
        } else if k < outcomes.len() && outcomes[k] {
            proof {
                assert(outcomes@.skip(k as int)[0] == outcomes@[k as int]);
                assert(outcomes@.skip(k as int).skip(1) =~= outcomes@.skip(k + 1));
            }
            cur = seq;
            k = k + 1;
        } else {
            proof {
                if k < outcomes@.len() {
                    assert(outcomes@.skip(k as int)[0] == outcomes@[k as int]);
                }
            }
            return cur;
        }
        i = i + 1;
    }
    cur
}

/// Where the federation loop stands within a batch: the cursor so far, and
/// whether a broadcast of this batch has failed (after which nothing more is
/// broadcast or passed over until the next poll).
#[derive(Debug, Clone, Copy, PartialEq, Eq, Structural)]
pub struct FederationPass {
    /// The sequence number the loop has handled up to.
    pub cursor: u64,
    /// Whether a broadcast of this batch failed.
    pub halted: bool,
}

/// The pass after one event of the batch, given the outcome of its
/// broadcast when one was made: a halted pass stays as it is; an event that
/// is not broadcast is passed over; a successful broadcast moves the cursor
/// to the event; a failed (or missing) broadcast halts the pass where it is.
pub open spec fn pass_step(
    p: FederationPass,
    seq: u64,
    severity: EventSeverity,
    is_threat: bool,
    outcome: Option<bool>,
) -> FederationPass {
    if p.halted {
        p
    } else if !(severity.spec_rank() >= EventSeverity::Warn.spec_rank() && is_threat) {
        FederationPass { cursor: seq, halted: false }
    } else if outcome == Some(true) {
        FederationPass { cursor: seq, halted: false }
    } else {
        FederationPass { cursor: p.cursor, halted: true }
    }
}

/// The pass after a whole batch, each broadcast taking the next outcome in
/// order.
pub open spec fn pass_steps(
    p: FederationPass,
    events: Seq<(u64, EventSeverity, bool)>,
    outcomes: Seq<bool>,
) -> FederationPass
    decreases events.len(),
{
    if events.len() == 0 || p.halted {
        p
    } else if events[0].1.spec_rank() >= EventSeverity::Warn.spec_rank() && events[0].2 {
        if outcomes.len() > 0 {
            pass_steps(
                pass_step(p, events[0].0, events[0].1, events[0].2, Some(outcomes[0])),
                events.skip(1),
                outcomes.skip(1),
            )
        } else {
            pass_step(p, events[0].0, events[0].1, events[0].2, None)
        }
    } else {
        pass_steps(pass_step(p, events[0].0, events[0].1, events[0].2, None), events.skip(1), outcomes)
    }
}

impl FederationPass {
    /// A pass starting at `cursor`.
    pub fn start(cursor: u64) -> (r: Self)
        ensures
            r.cursor == cursor,
            !r.halted,
    {
        FederationPass { cursor, halted: false }
    }

    /// Whether the loop broadcasts this event now: while the pass has not
    /// halted, a detected threat at `Warn` or above.
    pub fn wants(&self, severity: EventSeverity, is_threat: bool) -> (r: bool)
        ensures
            r == (!self.halted && severity.spec_rank() >= EventSeverity::Warn.spec_rank() && is_threat),
    {
        !self.halted && is_broadcast(severity, is_threat)
    }

    /// The pass after the event `seq`, given its broadcast's outcome when
    /// one was made (see `pass_step`).
    pub fn record(self, seq: u64, severity: EventSeverity, is_threat: bool, outcome: Option<bool>) -> (r: Self)
        ensures
            r == pass_step(self, seq, severity, is_threat, outcome),
    {
        if self.halted {
            self
        } else if !is_broadcast(severity, is_threat) {
            FederationPass { cursor: seq, halted: false }
        } else {
            match outcome {
                Some(true) => FederationPass { cursor: seq, halted: false },
                _ => FederationPass { cursor: self.cursor, halted: true },
            }
        }
    }
}

/// Stepping through a batch event by event ends at the cursor
/// `federation_cursor_spec` gives for that batch and those outcomes.
pub proof fn lemma_pass_steps_cursor(cursor: u64, events: Seq<(u64, EventSeverity, bool)>, outcomes: Seq<bool>)
    ensures
        pass_steps(FederationPass { cursor, halted: false }, events, outcomes).cursor
            == federation_cursor_spec(cursor, events, outcomes),
    decreases events.len(),
{
    if events.len() > 0 {
        let e = events[0];
        if e.1.spec_rank() >= EventSeverity::Warn.spec_rank() && e.2 {
            if outcomes.len() > 0 {
                if outcomes[0] {
                    lemma_pass_steps_cursor(e.0, events.skip(1), outcomes.skip(1));
                } else {
                    let h = FederationPass { cursor, halted: true };
                    assert(pass_steps(h, events.skip(1), outcomes.skip(1)) == h);
                }
            }
        } else {
            lemma_pass_steps_cursor(e.0, events.skip(1), outcomes);
        }
    }
}

/// A failed broadcast holds the federation cursor, so the threat is
/// broadcast again on the next poll.
pub proof fn lemma_failed_broadcast_retried(cursor: u64, events: Seq<(u64, EventSeverity, bool)>)
    requires
        events.len() > 0,
        events[0].1.spec_rank() >= EventSeverity::Warn.spec_rank(),
        events[0].2,
    ensures
        federation_cursor_spec(cursor, events, seq![false]) == cursor,
{
}

} // verus!
