//! The gateway daemon's per-connection decisions.
//!
//! The accept loop itself is plain socket plumbing; everything it decides
//! lives here. For each accepted connection the daemon walks the phases
//! `Accepted → Admitted → Detecting → Dispatched → Relaying → Closed`,
//! with an early exit to `Closed` from every intermediate phase on any
//! refusal, error or end-of-stream. [`advance`] is that state machine;
//! [`admit_connection`] is the admission gate at its first step, and
//! [`route_destination`] the binary dispatch decision at its middle.

use vstd::prelude::*;

verus! {

use crate::classify::{spec_is_web_like, ClassifyError, ProtocolKind};
use crate::config::{AppConfig, AppConfigService};
use crate::endpoint::Endpoint;
use crate::limiter::{Limiter, LimiterGuard};

/// The application state the daemon runs on.
#[derive(Debug, Clone)]
pub struct AppState {
    /// The loaded configuration.
    pub config: AppConfig,
}

/// The gateway daemon: configuration plus the admission limiter derived
/// from it.
pub struct AppDaemon {
    /// The state the daemon was started with.
    pub app_state: AppState,
    /// The per-client admission limiter, with the configured capacity.
    pub connection_limiter: Limiter,
}

impl AppDaemon {
    /// Build a daemon whose limiter carries the configured per-client
    /// capacity and starts with no admitted connections.
    pub fn new(state: AppState) -> (r: AppDaemon)
        ensures
            r.app_state == state,
            r.connection_limiter.wf(),
            r.connection_limiter.capacity() == state.config.ip_limit,
            r.connection_limiter.counts() == crate::limiter::empty_counts(),
    {
        let ip_limit = state.config.ip_limit;
        AppDaemon { app_state: state, connection_limiter: Limiter::new(ip_limit) }
    }
}

/// The outcome of the admission gate for one accepted connection.
pub enum Admission {
    /// Limiting is disabled; the connection proceeds without a permit.
    Unlimited,
    /// The connection is admitted and holds this permit until its
    /// handling ends.
    Permitted(LimiterGuard),
    /// The client is at capacity; the connection is dropped at once.
    Refused,
}

impl Admission {
    /// An admitted connection proceeds; a refused one is dropped.
    pub open spec fn proceeds(&self) -> bool {
        !(*self is Refused)
    }
}

/// The admission gate: with limiting disabled every connection proceeds,
/// untracked; with limiting enabled the connection proceeds exactly when
/// the client's count is below capacity, and then holds a permit.
pub fn admit_connection(limiter: &mut Limiter, client_ip: String) -> (r: Admission)
    requires
        old(limiter).wf(),
    ensures
        final(limiter).wf(),
        final(limiter).capacity() == old(limiter).capacity(),
        old(limiter).capacity() == 0 ==> r is Unlimited && final(limiter).counts() == old(limiter).counts(),
        old(limiter).capacity() > 0 ==> (r is Permitted <==> old(limiter).acquire_allowed(client_ip@)),
        r matches Admission::Permitted(g) ==> g.key_view() == client_ip@ && final(limiter).counts()
            == old(limiter).counts().insert(client_ip@, (old(limiter).count_of(client_ip@) + 1) as usize),
        r is Refused ==> final(limiter).counts() == old(limiter).counts(),
        r.proceeds() <==> old(limiter).acquire_allowed(client_ip@),
{
    if limiter.is_limit_enabled() {
        match limiter.try_acquire(client_ip) {
            Some(guard) => Admission::Permitted(guard),
            None => Admission::Refused,
        }
    } else {
        Admission::Unlimited
    }
}

/// Pick the upstream for a classified connection: a recognized protocol
/// routes to the web service, everything else falls open to the default
/// service.
pub fn route_destination<'a>(
    services: &'a AppConfigService,
    classification: &Result<Option<ProtocolKind>, ClassifyError>,
) -> (d: &'a Endpoint)
    ensures
        spec_is_web_like(*classification) ==> d == &services.http.dest,
        !spec_is_web_like(*classification) ==> d == &services.minecraft.dest,
{
    if crate::classify::is_web_like(classification) {
        &services.http.dest
    } else {
        &services.minecraft.dest
    }
}

/// The phases one accepted connection walks through.
#[derive(Debug, Clone, Copy, PartialEq, Eq, Structural)]
pub enum ConnPhase {
    /// The connection was accepted and awaits the admission gate.
    Accepted,
    /// The admission gate let the connection through.
    Admitted,
    /// The single detection read succeeded and brought bytes.
    Detecting,
    /// The prefix was classified and an upstream chosen.
    Dispatched,
    /// Upstream connected, prefix replayed, both copy directions running.
    Relaying,
    /// The connection's handling is over and its resources are released.
    Closed,
}

/// What happened at the current phase of one connection.
#[derive(Debug, Clone, Copy, PartialEq, Eq, Structural)]
pub enum ConnEvent {
    /// The admission gate decided.
    Admission {
        /// Whether the connection may proceed.
        admitted: bool,
    },
    /// The single detection read returned.
    Detection {
        /// Whether the read succeeded.
        ok: bool,
        /// How many bytes the one read brought; zero is immediate
        /// end-of-stream.
        bytes_read: usize,
    },
    /// The classifier reported and a destination was chosen.
    Classified,
    /// Upstream connect and prefix replay both finished.
    RelayReady {
        /// Whether connect and replay both succeeded.
        ok: bool,
    },
    /// Either copy direction completed or failed.
    DirectionFinished,
}

/// The connection lifecycle: each phase advances to the next on its
/// expected successful event; every refusal, failure, immediate
/// end-of-stream or unexpected event closes the connection.
pub open spec fn spec_advance(p: ConnPhase, e: ConnEvent) -> ConnPhase {
    match (p, e) {
        (ConnPhase::Accepted, ConnEvent::Admission { admitted }) => if admitted {
            ConnPhase::Admitted
        } else {
            ConnPhase::Closed
        },
        (ConnPhase::Admitted, ConnEvent::Detection { ok, bytes_read }) => if ok && bytes_read > 0 {
            ConnPhase::Detecting
        } else {
            ConnPhase::Closed
        },
        (ConnPhase::Detecting, ConnEvent::Classified) => ConnPhase::Dispatched,
        (ConnPhase::Dispatched, ConnEvent::RelayReady { ok }) => if ok {
            ConnPhase::Relaying
        } else {
            ConnPhase::Closed
        },
        (ConnPhase::Relaying, ConnEvent::DirectionFinished) => ConnPhase::Closed,
        _ => ConnPhase::Closed,
    }
}

/// Advance one connection's phase on an event; see [`spec_advance`].
pub fn advance(p: ConnPhase, e: ConnEvent) -> (r: ConnPhase)
    ensures
        r == spec_advance(p, e),
{
    match (p, e) {
        (ConnPhase::Accepted, ConnEvent::Admission { admitted }) => {
            if admitted {
                ConnPhase::Admitted
            } else {
                ConnPhase::Closed
            }
        },
        (ConnPhase::Admitted, ConnEvent::Detection { ok, bytes_read }) => {
            if ok && bytes_read > 0 {
                ConnPhase::Detecting
            } else {
                ConnPhase::Closed
            }
        },
        (ConnPhase::Detecting, ConnEvent::Classified) => ConnPhase::Dispatched,
        (ConnPhase::Dispatched, ConnEvent::RelayReady { ok }) => {
            if ok {
                ConnPhase::Relaying
            } else {
                ConnPhase::Closed
            }
        },
        (ConnPhase::Relaying, ConnEvent::DirectionFinished) => ConnPhase::Closed,
        _ => ConnPhase::Closed,
    }
}

/// Where a phase stands in the lifecycle order.
pub open spec fn phase_index(p: ConnPhase) -> int {
    match p {
        ConnPhase::Accepted => 0,
        ConnPhase::Admitted => 1,
        ConnPhase::Detecting => 2,
        ConnPhase::Dispatched => 3,
        ConnPhase::Relaying => 4,
        ConnPhase::Closed => 5,
    }
}

/// Ordering of the stages: a connection either moves to the directly
/// following phase or closes — detection strictly precedes dispatch,
/// dispatch strictly precedes relaying, and nothing is ever retried.
pub proof fn lemma_advance_ordered(p: ConnPhase, e: ConnEvent)
    ensures
        spec_advance(p, e) == ConnPhase::Closed || phase_index(spec_advance(p, e)) == phase_index(
            p,
        ) + 1,
{
}

/// A closed connection stays closed: no event revives it.
pub proof fn lemma_closed_is_final(e: ConnEvent)
    ensures
        spec_advance(ConnPhase::Closed, e) == ConnPhase::Closed,
{
}

/// Session termination: as soon as either copy direction ends — success
/// or failure — the whole session is torn down.
pub proof fn lemma_either_direction_closes()
    ensures
        spec_advance(ConnPhase::Relaying, ConnEvent::DirectionFinished) == ConnPhase::Closed,
{
}

} // verus!
