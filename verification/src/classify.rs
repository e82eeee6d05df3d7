//! The protocol-classification contract.
//!
//! The gateway does not implement protocol recognition itself: it hands the
//! detection prefix of a fresh connection to an external detector cascade
//! configured for the web family (HTTP, TLS, QUIC) and consumes nothing but
//! the outcome. A recognized web-family protocol routes the connection to
//! the web destination; an unrecognized prefix, an indeterminate one, or a
//! detector error all fall open to the default destination.

use vstd::prelude::*;

verus! {

use crate::relay::DetectionPrefix;

/// A protocol family the detector can recognize. The detector is built
/// with the web chain, so a recognized protocol is one of the web family;
/// `Other` stands for any protocol outside it.
#[derive(Debug, Clone, Copy, PartialEq, Eq, Structural)]
pub enum ProtocolKind {
    /// Plain HTTP (1.x request line or the HTTP/2 preface).
    Http,
    /// A TLS record, such as a client hello.
    Tls,
    /// A QUIC long-header packet.
    Quic,
    /// A recognized protocol outside the web family.
    Other,
}

/// Why classification reached no verdict.
#[derive(Debug, Clone, Copy, PartialEq, Eq, Structural)]
pub enum ClassifyError {
    /// The prefix is consistent with a recognizable protocol but too
    /// short to confirm one.
    InsufficientData,
    /// The detector was asked about a protocol it was not built with.
    ProtocolNotEnabled,
}

/// What the web-family detector cascade concludes from a byte prefix.
pub uninterp spec fn web_classification(bytes: Seq<u8>) -> Result<
    Option<ProtocolKind>,
    ClassifyError,
>;

/// Classify a byte prefix with the external web-family detector.
///
/// Relies on `guess::ProtocolChainBuilder` (with the `all_web` chain) and
/// `guess::ProtocolDetector::detect`: the cascade inspects nothing but the
/// given bytes, so its verdict is a pure function of them, and a detector
/// built from the web chain reports only web-family protocols.
#[verifier::external_body]
fn classify_prefix(buf: &[u8]) -> (r: Result<Option<ProtocolKind>, ClassifyError>)
    ensures
        r == web_classification(buf@),
        r matches Ok(Some(k)) ==> k != ProtocolKind::Other,
{
    let detector = guess::ProtocolChainBuilder::new().all_web().build();
    match detector.detect(buf) {
        Ok(Some(guess::Protocol::Http)) => Ok(Some(ProtocolKind::Http)),
        Ok(Some(guess::Protocol::Tls)) => Ok(Some(ProtocolKind::Tls)),
        Ok(Some(guess::Protocol::Quic)) => Ok(Some(ProtocolKind::Quic)),
        Ok(Some(_)) => Ok(Some(ProtocolKind::Other)),
        Ok(None) => Ok(None),
        Err(guess::DetectionError::InsufficientData) => Err(ClassifyError::InsufficientData),
        Err(guess::DetectionError::ProtocolNotEnabled(_)) => Err(ClassifyError::ProtocolNotEnabled),
    }
}

/// Classify one connection's detection prefix: the whole fixed-size
/// buffer, exactly as the single read filled it, goes to the external
/// detector, and its verdict comes back untouched.
pub fn classify_detection(prefix: &DetectionPrefix) -> (r: Result<
    Option<ProtocolKind>,
    ClassifyError,
>)
    ensures
        r == web_classification(prefix.padded()),
        r matches Ok(Some(k)) ==> k != ProtocolKind::Other,
{
    classify_prefix(prefix.classify_bytes().as_slice())
}

/// A classification outcome routes to the web destination exactly when it
/// names a recognized protocol: an unrecognized prefix, an indeterminate
/// one, and a detector error all fall open to the default destination.
pub open spec fn spec_is_web_like(r: Result<Option<ProtocolKind>, ClassifyError>) -> bool {
    r matches Ok(k) && k is Some
}

/// Decide webness of a classification outcome; see [`spec_is_web_like`].
pub fn is_web_like(r: &Result<Option<ProtocolKind>, ClassifyError>) -> (b: bool)
    ensures
        b == spec_is_web_like(*r),
{
    match r {
        Ok(Some(_)) => true,
        _ => false,
    }
}

} // verus!
