//! Common configuration that all primals share.

use crate::clock;
use std::hash::{DefaultHasher, Hash, Hasher};
use crate::text;
use vstd::prelude::*;

verus! {

/// Common configuration that all primals share.
#[derive(Clone, Debug)]
pub struct CommonConfig {
    /// Primal name.
    pub name: String,
    /// Primal instance ID (unique per deployment).
    pub instance_id: String,
    /// Log level.
    pub log_level: String,
    /// Data directory.
    pub data_dir: String,
    /// Listen address.
    pub listen_addr: String,
    /// Listen port (0 = OS assigns ephemeral port).
    pub listen_port: u16,
    /// Identity service endpoint (discovered at runtime).
    pub identity_service_endpoint: Option<String>,
    /// Discovery service endpoint (discovered at runtime).
    pub discovery_service_endpoint: Option<String>,
}

/// Whether `id` has the shape of an instance identifier: 32 lowercase
/// hexadecimal characters.
pub open spec fn is_instance_id(id: Seq<char>) -> bool {
    id.len() == 32 && forall|i: int| 0 <= i < 32 ==> text::is_hex_digit(#[trigger] id[i])
}

impl Default for CommonConfig {
    /// The defaults: name `primal`, a fresh instance identifier (made for
    /// process identifier 0: a process replaces it with
    /// `new_instance_id(pid)` for its own identifier), log level `info`, data in `./data`, listening on `0.0.0.0` with an ephemeral
    /// port, and no identity or discovery endpoint.
    fn default() -> (c: Self)
        ensures
            c.name@ == "primal"@,
            is_instance_id(c.instance_id@),
            c.log_level@ == "info"@,
            c.data_dir@ == "./data"@,
            c.listen_addr@ == "0.0.0.0"@,
            c.listen_port == 0,
            c.identity_service_endpoint is None,
            c.discovery_service_endpoint is None,
    {
        CommonConfig {
            name: text::owned("primal"),
            instance_id: new_instance_id(0),
            log_level: text::owned("info"),
            data_dir: text::owned("./data"),
            listen_addr: text::owned("0.0.0.0"),
            listen_port: 0,
            identity_service_endpoint: None,
            discovery_service_endpoint: None,
        }
    }
}

/// Calls `Duration::as_nanos`: the whole duration in nanoseconds.
#[verifier::external_body]
fn duration_nanos(d: &std::time::Duration) -> u128 {
    d.as_nanos()
}

/// Calls `Hash::hash` for `u128` on a `DefaultHasher`: it feeds the value to
/// the hasher. std leaves the hasher's algorithm unspecified, so nothing is
/// claimed of the hasher's state afterwards.
#[verifier::external_body]
fn feed_u128(h: &mut DefaultHasher, x: u128) {
    x.hash(h);
}

/// Calls `Hash::hash` for `u32` on a `DefaultHasher`; as for `feed_u128`,
/// nothing is claimed of the hasher's state afterwards.
#[verifier::external_body]
fn feed_u32(h: &mut DefaultHasher, x: u32) {
    x.hash(h);
}

/// A 64-bit hash of a time in nanoseconds and a process identifier.
fn hash_time_and_pid(nanos: u128, pid: u32) -> u64 {
    let mut h = DefaultHasher::new();
    feed_u128(&mut h, nanos);
    feed_u32(&mut h, pid);
    h.finish()
}

/// A fresh instance identifier for the process `pid`: two 64-bit hashes of
/// the current time in nanoseconds (and of that time plus one), each hashed
/// together with `pid`, rendered as 32 lowercase hexadecimal characters.
pub fn new_instance_id(pid: u32) -> (id: String)
    ensures
        is_instance_id(id@),
{
    let nanos: u128 = match clock::since_unix_epoch(clock::system_now()) {
        Some(d) => duration_nanos(&d),
        None => 0,
    };
    let h1 = hash_time_and_pid(nanos, pid);
    let h2 = hash_time_and_pid(nanos.wrapping_add(1), pid);
    let mut id = String::new();
    text::push_hex_fixed(&mut id, h1, 16);
    text::push_hex_fixed(&mut id, h2, 16);
    proof {
        text::lemma_hex_fixed_shape(h1 as nat, 16);
        text::lemma_hex_fixed_shape(h2 as nat, 16);
        let a = text::hex_fixed(h1 as nat, 16);
        let b = text::hex_fixed(h2 as nat, 16);
        assert(id@ =~= a + b);
        assert forall|i: int| 0 <= i < 32 implies text::is_hex_digit(#[trigger] id@[i]) by {
            if i < 16 {
                assert(id@[i] == a[i]);
            } else {
                assert(id@[i] == b[i - 16]);
            }
        }
    }
    id
}

} // verus!
