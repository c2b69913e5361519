//! User-facing metric types.
//!
//! Only the ping type is modelled here: it is the one metric type the
//! sequencing core itself handles (registration and submission are routed
//! through the pre-init queue).

use vstd::prelude::*;

verus! {

/// A ping: a batch of telemetry measurements submitted as one logical unit
/// for upload. Registering or submitting one is deferred through the
/// pre-init queue like every other mutating call.
#[derive(Debug, PartialEq, Eq)]
pub struct PingType {
    /// The name under which the ping is registered and submitted.
    pub name: String,
    /// Whether pings of this type carry the client identifier.
    pub include_client_id: bool,
    /// Whether pings of this type are submitted even when no data was
    /// recorded for them.
    pub send_if_empty: bool,
}

impl PingType {
    /// Creates a new ping type with the given name and flags.
    pub fn new(name: &str, include_client_id: bool, send_if_empty: bool) -> (ping: PingType)
        ensures
            ping.name@ == name@,
            ping.include_client_id == include_client_id,
            ping.send_if_empty == send_if_empty,
    {
        PingType { name: name.to_owned(), include_client_id, send_if_empty }
    }
}

impl Clone for PingType {
    /// An exact copy: the clone carries the same name and flags.
    fn clone(&self) -> (r: Self)
        ensures
            r == *self,
    {
        PingType {
            name: self.name.clone(),
            include_client_id: self.include_client_id,
            send_if_empty: self.send_if_empty,
        }
    }
}

} // verus!
