//! The relay session's byte accounting.
//!
//! One detection read consumes the first bytes of a fresh connection; the
//! chosen upstream must nevertheless see a byte-faithful stream. So the
//! session replays exactly the consumed bytes before the copy phase moves
//! the rest, and the model here states that the two halves splice back
//! into the client's original stream with no gap and no duplication. The
//! socket work itself — connecting, copying, closing — is the surrounding
//! application's; the core prepares the session and accounts for every
//! byte.

use vstd::prelude::*;

verus! {

use vstd::string::StringExecFns;

use crate::endpoint::Endpoint;
use crate::Error;

/// How many bytes the single detection read may bring.
pub const DETECTION_BUFFER_LEN: usize = 256;

/// The fixed-capacity buffer filled by the single best-effort detection
/// read, together with how many bytes that read actually brought.
pub struct DetectionPrefix {
    buffer: Vec<u8>,
    len: usize,
}

impl DetectionPrefix {
    /// The buffer keeps its fixed capacity and the read count never
    /// exceeds it.
    pub closed spec fn wf(&self) -> bool {
        self.buffer@.len() == DETECTION_BUFFER_LEN && self.len <= DETECTION_BUFFER_LEN
    }

    /// The bytes the detection read actually consumed from the client.
    pub closed spec fn consumed(&self) -> Seq<u8> {
        self.buffer@.subrange(0, self.len as int)
    }

    /// The whole zero-padded buffer, as classification sees it.
    pub closed spec fn padded(&self) -> Seq<u8> {
        self.buffer@
    }

    /// How many bytes the single read brought.
    pub closed spec fn spec_len(&self) -> usize {
        self.len
    }

    /// Record the outcome of the one detection read: the filled buffer
    /// and the count of bytes that actually arrived.
    pub fn new(buffer: Vec<u8>, bytes_read: usize) -> (r: DetectionPrefix)
        requires
            buffer@.len() == DETECTION_BUFFER_LEN,
            bytes_read <= DETECTION_BUFFER_LEN,
        ensures
            r.wf(),
            r.padded() == buffer@,
            r.spec_len() == bytes_read,
            r.consumed() == buffer@.subrange(0, bytes_read as int),
    {
        DetectionPrefix { buffer, len: bytes_read }
    }

    /// The whole buffer, handed to classification: the detector sees the
    /// fixed-size buffer as filled by the read, trailing zeros included.
    pub fn classify_bytes(&self) -> (r: &Vec<u8>)
        ensures
            r@ == self.padded(),
    {
        &self.buffer
    }

    /// The exact bytes the detection read consumed, in their original
    /// order: what the session owes the upstream before the copy phase.
    pub fn replay_bytes(&self) -> (r: Vec<u8>)
        requires
            self.wf(),
        ensures
            r@ == self.consumed(),
    {
        let mut out: Vec<u8> = Vec::new();
        let mut i: usize = 0;
        while i < self.len
            invariant
                self.wf(),
                i <= self.len,
                out@ == self.buffer@.subrange(0, i as int),
            decreases self.len - i,
        {
            out.push(self.buffer[i]);
            proof {
                assert(out@ =~= self.buffer@.subrange(0, i + 1));
            }
            i += 1;
        }
        out
    }
}

/// What the upstream receives over one session: the replayed detection
/// prefix followed by whatever the copy phase moves.
pub open spec fn upstream_stream(replayed: Seq<u8>, copied: Seq<u8>) -> Seq<u8> {
    replayed + copied
}

/// Round-trip: when the replayed prefix is exactly the first `n` bytes of
/// the client's stream and the copy phase delivers the remainder, the
/// upstream receives the client's bytes in their original order, with no
/// duplication and no gap — the replay/copy boundary is seamless.
pub proof fn lemma_replay_seamless(sent: Seq<u8>, n: int)
    requires
        0 <= n <= sent.len(),
    ensures
        upstream_stream(sent.subrange(0, n), sent.subrange(n, sent.len() as int)) == sent,
{
    assert(sent.subrange(0, n) + sent.subrange(n, sent.len() as int) =~= sent);
}

/// Relies on `uuid::Uuid::new_v4` and its display form: the identifier
/// is drawn at random, so nothing is promised of the result.
#[verifier::external_body]
fn fresh_session_id() -> (r: String) {
    uuid::Uuid::new_v4().to_string()
}

/// One prepared relay session: its diagnostic identifier and the bytes
/// it owes the upstream before the copy phase. The paired sockets live
/// with the application code that drives the copy.
#[derive(Debug)]
pub struct RelaySession {
    /// The fresh identifier for diagnostics.
    pub id: String,
    /// The consumed detection bytes, owed to the upstream first.
    pub prefix: Vec<u8>,
}

impl RelaySession {
    /// Prepare a session toward `dest`: a session may only be built
    /// toward a complete `tcp` destination, and carries the consumed
    /// detection bytes for replay. Returns the session with the host and
    /// port to connect to, or the address error.
    pub fn prepare(prefix: &DetectionPrefix, dest: &Endpoint) -> (r: Result<
        (RelaySession, (String, u16)),
        Error,
    >)
        requires
            prefix.wf(),
        ensures
            r is Ok <==> dest.is_tcp() && dest.has_host_port(),
            r matches Ok(p) ==> p.0.prefix@ == prefix.consumed() && p.1.0 == dest.host->0
                && p.1.1 == dest.port->0,
            r is Err ==> r->Err_0 == Error::InvalidUrl,
    {
        match dest.tcp_host_port() {
            Ok(hp) => Ok((RelaySession { id: fresh_session_id(), prefix: prefix.replay_bytes() }, hp)),
            Err(e) => Err(e),
        }
    }

    /// The human-readable session descriptor, built from the identifier
    /// and the two socket addresses when they are available; an
    /// unavailable address reads as the placeholder instead of failing.
    pub fn descriptor(&self, from_addr: Option<String>, to_addr: Option<String>) -> (r: String)
        ensures
            r@ == spec_descriptor(
                self.id@,
                spec_endpoint_label(from_addr),
                spec_endpoint_label(to_addr),
            ),
    {
        let from_label = endpoint_label(from_addr);
        let to_label = endpoint_label(to_addr);
        let r = String::from_str("TcpRelay[id=").concat(self.id.as_str()).concat(
            ", from=",
        ).concat(from_label.as_str()).concat(", to=").concat(to_label.as_str()).concat("]");
        proof {
            assert(r@ =~= spec_descriptor(
                self.id@,
                spec_endpoint_label(from_addr),
                spec_endpoint_label(to_addr),
            ));
        }
        r
    }
}

/// What the descriptor reads for an endpoint address that may be gone.
pub open spec fn spec_endpoint_label(a: Option<String>) -> Seq<char> {
    match a {
        Some(s) => s@,
        None => "unknown"@,
    }
}

/// The descriptor's exact shape.
pub open spec fn spec_descriptor(id: Seq<char>, from: Seq<char>, to: Seq<char>) -> Seq<char> {
    "TcpRelay[id="@ + id + ", from="@ + from + ", to="@ + to + "]"@
}

/// An address label: the address itself when it is known, a placeholder
/// when it is not.
pub fn endpoint_label(a: Option<String>) -> (r: String)
    ensures
        r@ == spec_endpoint_label(a),
{
    match a {
        Some(s) => s,
        None => String::from_str("unknown"),
    }
}

} // verus!
