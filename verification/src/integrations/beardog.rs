//! Genetic lineage verification through whatever primal announces the
//! `lineage-verification` capability at runtime.
//!
//! The verifier holds the transport configuration; the JSON-RPC calls run
//! outside the library, and their replies come back here to be turned into
//! answers. An unreachable provider is an integration error, so callers can
//! degrade conservatively.

use crate::error::SkunkBatError;
use crate::integrations::rpc::{CapabilityClient, RpcError, TransportEndpoint, DEFAULT_INTEGRATION_TIMEOUT_MS, is_tcp_of, parse_tcp_spec, timeout_from_spec};
use crate::reconnaissance::opt_view;
use crate::text;
use vstd::prelude::*;

verus! {

/// How a capability client is resolved from what the environment holds: a
/// transport description wins; else a non-empty TCP endpoint value, parsed;
/// else the capability socket, when it exists; else nothing. The timeout is
/// the timeout value's number, or the default. BTSP starts disabled.
pub open spec fn resolved_from_env(
    c: CapabilityClient,
    transport: Option<TransportEndpoint>,
    tcp_env: Option<&str>,
    uds_path: &str,
    uds_exists: bool,
    timeout_env: Option<&str>,
) -> bool {
    &&& transport is Some ==> c.spec_resolved() == transport
    &&& transport is None && (tcp_env matches Some(a) && a@.len() > 0) ==> is_tcp_of(
        c.spec_resolved(),
        parse_tcp_spec(tcp_env->0@),
    )
    &&& transport is None && !(tcp_env matches Some(a) && a@.len() > 0) ==> (if uds_exists {
        c.spec_resolved() matches Some(TransportEndpoint::Uds { path }) && path@ == uds_path@
    } else {
        c.spec_resolved() is None
    })
    &&& c.spec_timeout_ms() == timeout_from_spec(opt_view(timeout_env), DEFAULT_INTEGRATION_TIMEOUT_MS)
    &&& !c.spec_btsp()
}

/// Remote lineage verifier backed by a runtime-discovered capability
/// provider (`lineage.verify` and `lineage.list`).
#[derive(Clone, Debug)]
pub struct RemoteLineageVerifier {
    transport: CapabilityClient,
}

impl RemoteLineageVerifier {
    /// The transport configuration.
    pub closed spec fn client(&self) -> CapabilityClient {
        self.transport
    }

    /// A verifier targeting a TCP endpoint (`host:port`, optionally with an
    /// HTTP scheme), with the given request timeout.
    pub fn new(endpoint: &str, timeout_ms: u64) -> (r: Self)
        ensures
            is_tcp_of(r.client().spec_resolved(), parse_tcp_spec(endpoint@)),
            r.client().spec_timeout_ms() == timeout_ms,
            !r.client().spec_btsp(),
    {
        RemoteLineageVerifier { transport: CapabilityClient::new(endpoint, timeout_ms) }
    }

    /// A verifier from what the environment holds: the lineage transport
    /// description, the `LINEAGE_ENDPOINT` value, the capability socket
    /// path and whether it exists, and the timeout value.
    pub fn from_env(
        transport: Option<TransportEndpoint>,
        tcp_env: Option<&str>,
        uds_path: &str,
        uds_exists: bool,
        timeout_env: Option<&str>,
    ) -> (r: Self)
        ensures
            resolved_from_env(r.client(), transport, tcp_env, uds_path, uds_exists, timeout_env),
    {
        RemoteLineageVerifier {
            transport: CapabilityClient::from_env_values(
                transport,
                tcp_env,
                uds_path,
                uds_exists,
                timeout_env,
                DEFAULT_INTEGRATION_TIMEOUT_MS,
            ),
        }
    }

    /// The same verifier with another request timeout.
    pub fn with_timeout(self, timeout_ms: u64) -> (r: Self)
        ensures
            r.client().spec_timeout_ms() == timeout_ms,
            r.client().spec_resolved() == self.client().spec_resolved(),
            r.client().spec_btsp() == self.client().spec_btsp(),
    {
        RemoteLineageVerifier { transport: self.transport.with_timeout(timeout_ms) }
    }

    /// The TCP endpoint as `host:port` (if resolved to TCP).
    pub fn tcp_endpoint(&self) -> (r: Option<String>)
        ensures
            self.client().spec_resolved() matches Some(TransportEndpoint::Tcp { host, port }) ==> r matches Some(
                a,
            ) && a@ == host@ + ":"@ + text::decimal(port as nat),
            !(self.client().spec_resolved() matches Some(TransportEndpoint::Tcp { .. })) ==> r is None,
    {
        self.transport.tcp_endpoint()
    }

    /// The transport configuration the calls use.
    pub fn transport(&self) -> (r: &CapabilityClient)
        ensures
            *r == self.client(),
    {
        &self.transport
    }

    /// The answer to `lineage.verify` from its reply: the reply's
    /// `is_family` flag (not family when absent or not a boolean); an
    /// unreachable provider is the integration error
    /// `lineage provider unreachable: {error}`.
    pub fn family_outcome(reply: Result<Option<bool>, RpcError>) -> (r: Result<bool, SkunkBatError>)
        ensures
            match reply {
                Ok(Some(b)) => r == Ok::<bool, SkunkBatError>(b),
                Ok(None) => r == Ok::<bool, SkunkBatError>(false),
                Err(e) => r matches Err(SkunkBatError::Integration(m)) && m@
                    == "lineage provider unreachable: "@ + e.spec_message(),
            },
    {
        match reply {
            Ok(Some(b)) => Ok(b),
            Ok(None) => Ok(false),
            Err(e) => {
                let m = e.message();
                Err(SkunkBatError::Integration(text::concat2("lineage provider unreachable: ", m.as_str())))
            },
        }
    }

    /// The answer to `lineage.list` from its reply: the reply's `lineage`
    /// text, if it has one; an unreachable provider is the integration
    /// error `lineage query unavailable: {error}`.
    pub fn lineage_outcome(reply: Result<Option<String>, RpcError>) -> (r: Result<Option<String>, SkunkBatError>)
        ensures
            match reply {
                Ok(l) => r == Ok::<Option<String>, SkunkBatError>(l),
                Err(e) => r matches Err(SkunkBatError::Integration(m)) && m@
                    == "lineage query unavailable: "@ + e.spec_message(),
            },
    {
        match reply {
            Ok(l) => Ok(l),
            Err(e) => {
                let m = e.message();
                Err(SkunkBatError::Integration(text::concat2("lineage query unavailable: ", m.as_str())))
            },
        }
    }
}

} // verus!
