//! The gateway's view of a configured network endpoint.
//!
//! Configuration names three endpoints: the listening address and the two
//! upstream destinations. The daemon only ever reads three things from such
//! an address: its scheme (only the stream transport `tcp` is supported),
//! its host and its port. An [`Endpoint`] holds exactly those as plain
//! values; whatever syntax the configuration layer accepts is resolved into
//! one before the core sees it.

use vstd::prelude::*;

verus! {

use crate::Error;

/// One network endpoint as the gateway reads it from configuration:
/// a transport scheme, an optional host and an optional port.
#[derive(Debug, Clone)]
pub struct Endpoint {
    /// The transport scheme, e.g. `tcp`.
    pub scheme: String,
    /// The host, when the address names one.
    pub host: Option<String>,
    /// The port, when the address names one.
    pub port: Option<u16>,
}

impl Endpoint {
    /// The endpoint names the one transport the gateway supports.
    pub open spec fn is_tcp(&self) -> bool {
        self.scheme@ == "tcp"@
    }

    /// The endpoint names both a host and a port.
    pub open spec fn has_host_port(&self) -> bool {
        self.host is Some && self.port is Some
    }

    /// Build a `tcp` endpoint from a host and a port.
    pub fn new_tcp(host: String, port: u16) -> (r: Endpoint)
        ensures
            r.is_tcp(),
            r.host == Some(host),
            r.port == Some(port),
    {
        Endpoint { scheme: String::from_str("tcp"), host: Some(host), port: Some(port) }
    }

    /// Whether the endpoint names the supported transport; the daemon
    /// reports any other scheme and proceeds regardless.
    pub fn is_tcp_scheme(&self) -> (b: bool)
        ensures
            b == self.is_tcp(),
    {
        let tcp = String::from_str("tcp");
        self.scheme == tcp
    }

    /// The host and port of the endpoint, as binding and connecting need
    /// them; an endpoint lacking either is rejected as an invalid address.
    pub fn host_port(&self) -> (r: Result<(String, u16), Error>)
        ensures
            r is Ok <==> self.has_host_port(),
            r matches Ok(hp) ==> hp.0 == self.host->0 && hp.1 == self.port->0,
            r is Err ==> r->Err_0 == Error::InvalidUrl,
    {
        match (&self.host, self.port) {
            (Some(h), Some(p)) => Ok((h.clone(), p)),
            _ => Err(Error::InvalidUrl),
        }
    }

    /// The host and port of a `tcp` endpoint. An endpoint with any other
    /// scheme is rejected, as is one lacking a host or a port: a relay
    /// session may only be built toward a complete `tcp` destination.
    pub fn tcp_host_port(&self) -> (r: Result<(String, u16), Error>)
        ensures
            r is Ok <==> self.is_tcp() && self.has_host_port(),
            r matches Ok(hp) ==> hp.0 == self.host->0 && hp.1 == self.port->0,
            r is Err ==> r->Err_0 == Error::InvalidUrl,
    {
        let tcp = String::from_str("tcp");
        if self.scheme == tcp {
            self.host_port()
        } else {
            Err(Error::InvalidUrl)
        }
    }
}

} // verus!
