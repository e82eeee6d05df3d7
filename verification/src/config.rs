//! The gateway's configuration model.
//!
//! Configuration names the listening endpoint, the per-client admission
//! capacity, and the two upstream services: the default (game-protocol)
//! destination and the web destination. Reading and writing the
//! configuration file is the surrounding application's business; the core
//! works on this plain model and supplies the default values used when no
//! usable file exists.

use vstd::prelude::*;

verus! {

use crate::endpoint::Endpoint;

/// The whole gateway configuration.
#[derive(Debug, Clone)]
pub struct AppConfig {
    /// Where the gateway listens for inbound connections.
    pub listen: Endpoint,
    /// Per-source-IP concurrent-connection capacity; zero disables the cap.
    pub ip_limit: usize,
    /// The two upstream destinations.
    pub services: AppConfigService,
}

/// The two upstream services a connection can be relayed to.
#[derive(Debug, Clone)]
pub struct AppConfigService {
    /// The default destination, for traffic not recognized as web-like.
    pub minecraft: AppConfigServiceMinecraft,
    /// The destination for web-like traffic.
    pub http: AppConfigServiceHttp,
}

/// The default (game-protocol) upstream.
#[derive(Debug, Clone)]
pub struct AppConfigServiceMinecraft {
    /// Where unrecognized traffic is relayed to.
    pub dest: Endpoint,
}

/// The web upstream.
#[derive(Debug, Clone)]
pub struct AppConfigServiceHttp {
    /// Where web-like traffic is relayed to.
    pub dest: Endpoint,
    /// How web traffic is handled.
    pub mode: AppConfigServiceHttpMode,
}

/// How the web service treats its traffic.
#[derive(Debug, Clone, PartialEq, Eq, Structural)]
pub enum AppConfigServiceHttpMode {
    /// Relay the bytes to the web destination unmodified.
    Proxy,
    /// Answer with a redirect instead of relaying.
    Redirect,
}

impl Default for AppConfigServiceHttpMode {
    /// Web traffic is proxied unless configured otherwise.
    fn default() -> (r: AppConfigServiceHttpMode)
        ensures
            r == AppConfigServiceHttpMode::Proxy,
    {
        AppConfigServiceHttpMode::Proxy
    }
}

impl Default for AppConfigServiceMinecraft {
    /// The default destination out of the box: `tcp://127.0.0.1:11451`.
    fn default() -> (r: AppConfigServiceMinecraft)
        ensures
            r.dest.is_tcp(),
            r.dest.host matches Some(h) && h@ == "127.0.0.1"@,
            r.dest.port == Some(11451u16),
    {
        AppConfigServiceMinecraft {
            dest: Endpoint::new_tcp(String::from_str("127.0.0.1"), 11451),
        }
    }
}

impl Default for AppConfigServiceHttp {
    /// The web destination out of the box: `tcp://127.0.0.1:8080`,
    /// proxied.
    fn default() -> (r: AppConfigServiceHttp)
        ensures
            r.dest.is_tcp(),
            r.dest.host matches Some(h) && h@ == "127.0.0.1"@,
            r.dest.port == Some(8080u16),
            r.mode == AppConfigServiceHttpMode::Proxy,
    {
        AppConfigServiceHttp {
            dest: Endpoint::new_tcp(String::from_str("127.0.0.1"), 8080),
            mode: AppConfigServiceHttpMode::Proxy,
        }
    }
}

impl Default for AppConfigService {
    /// Both services at their out-of-the-box destinations.
    fn default() -> (r: AppConfigService)
        ensures
            r.minecraft.dest.is_tcp(),
            r.minecraft.dest.port == Some(11451u16),
            r.http.dest.is_tcp(),
            r.http.dest.port == Some(8080u16),
            r.http.mode == AppConfigServiceHttpMode::Proxy,
    {
        AppConfigService {
            minecraft: AppConfigServiceMinecraft::default(),
            http: AppConfigServiceHttp::default(),
        }
    }
}

impl Default for AppConfig {
    /// The configuration used when none can be read: listen on
    /// `tcp://0.0.0.0:25565` with a per-client capacity of 64 and both
    /// services at their out-of-the-box destinations.
    fn default() -> (r: AppConfig)
        ensures
            r.listen.is_tcp(),
            r.listen.host matches Some(h) && h@ == "0.0.0.0"@,
            r.listen.port == Some(25565u16),
            r.ip_limit == 64,
            r.services.minecraft.dest.port == Some(11451u16),
            r.services.http.dest.port == Some(8080u16),
    {
        AppConfig {
            listen: Endpoint::new_tcp(String::from_str("0.0.0.0"), 25565),
            ip_limit: 64,
            services: AppConfigService::default(),
        }
    }
}

} // verus!
