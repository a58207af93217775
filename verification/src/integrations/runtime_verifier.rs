//! The lineage verifier chosen at startup: a remote capability provider when
//! one is configured or discoverable, the conservative local default
//! otherwise.

use crate::integrations::beardog::{RemoteLineageVerifier, resolved_from_env};
use crate::integrations::rpc::TransportEndpoint;
use crate::threats::genetic::LocalLineageVerifier;
use vstd::prelude::*;

verus! {

/// Lineage verifier selected at runtime.
pub enum RuntimeVerifier {
    /// Conservative local default: denies all unknown peers.
    Local(LocalLineageVerifier),
    /// Capability-discovered remote provider.
    Remote(RemoteLineageVerifier),
}

impl RuntimeVerifier {
    /// Selects the verifier from what the environment holds: the remote
    /// provider when `LINEAGE_ENDPOINT` is set to a non-empty value or the
    /// `lineage-verification` socket exists, the local default otherwise.
    pub fn from_env(
        transport: Option<TransportEndpoint>,
        tcp_env: Option<&str>,
        uds_path: &str,
        uds_exists: bool,
        timeout_env: Option<&str>,
    ) -> (r: Self)
        ensures
            (r is Remote) == ((tcp_env matches Some(a) && a@.len() > 0) || uds_exists),
            r matches RuntimeVerifier::Remote(v) ==> resolved_from_env(
                v.client(),
                transport,
                tcp_env,
                uds_path,
                uds_exists,
                timeout_env,
            ),
    {
        let has_tcp = match tcp_env {
            Some(v) => v.unicode_len() > 0,
            None => false,
        };
        if has_tcp || uds_exists {
            RuntimeVerifier::Remote(RemoteLineageVerifier::from_env(transport, tcp_env, uds_path, uds_exists, timeout_env))
        } else {
            RuntimeVerifier::Local(LocalLineageVerifier)
        }
    }
}

} // verus!
