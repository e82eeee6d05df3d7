use craft_gate::classify::{classify_detection, is_web_like, ClassifyError, ProtocolKind};
use craft_gate::config::{AppConfig, AppConfigServiceHttpMode};
use craft_gate::dispatch::{advance, route_destination, ConnEvent, ConnPhase};
use craft_gate::endpoint::Endpoint;
use craft_gate::relay::{DetectionPrefix, RelaySession, DETECTION_BUFFER_LEN};
use craft_gate::Error;

/// A detection buffer as the daemon fills it: the given bytes, then
/// trailing zeros up to the fixed capacity.
fn padded_buffer(head: &[u8]) -> Vec<u8> {
    let mut buffer = vec![0u8; DETECTION_BUFFER_LEN];
    buffer[..head.len()].copy_from_slice(head);
    buffer
}

#[test]
fn http_request_line_is_web_like() {
    let head = b"GET / HTTP/1.1\r\nHost: example.com\r\n\r\n";
    let prefix = DetectionPrefix::new(padded_buffer(head), head.len());
    let outcome = classify_detection(&prefix);
    assert_eq!(outcome, Ok(Some(ProtocolKind::Http)));
    assert!(is_web_like(&outcome));
}

#[test]
fn http2_preface_is_web_like() {
    let head = b"PRI * HTTP/2.0\r\n\r\nSM\r\n\r\n";
    let prefix = DetectionPrefix::new(padded_buffer(head), head.len());
    let outcome = classify_detection(&prefix);
    assert_eq!(outcome, Ok(Some(ProtocolKind::Http)));
    assert!(is_web_like(&outcome));
}

#[test]
fn game_handshake_is_not_web_like() {
    let prefix = DetectionPrefix::new(padded_buffer(&[0xFE, 0x01]), 2);
    let outcome = classify_detection(&prefix);
    assert!(!is_web_like(&outcome));
}

#[test]
fn bare_method_prefix_is_indeterminate_and_falls_open() {
    // A request line cut off before its version marker: the detector
    // wants more bytes, and the gateway fails open to the default
    // destination rather than waiting for them.
    let head = b"GET / HTTP";
    let prefix = DetectionPrefix::new(padded_buffer(head), head.len());
    let outcome = classify_detection(&prefix);
    assert_eq!(outcome, Err(ClassifyError::InsufficientData));
    assert!(!is_web_like(&outcome));

    let config = AppConfig::default();
    let dest = route_destination(&config.services, &outcome);
    assert_eq!(dest.port, Some(11451));
}

#[test]
fn web_like_prefix_routes_to_http_destination() {
    let config = AppConfig::default();
    let head = b"GET / HTTP/1.1\r\nHost: example.com\r\n\r\n";
    let prefix = DetectionPrefix::new(padded_buffer(head), head.len());
    let outcome = classify_detection(&prefix);
    let dest = route_destination(&config.services, &outcome);
    assert_eq!(dest.port, Some(8080));
}

#[test]
fn other_prefix_routes_to_default_destination() {
    let config = AppConfig::default();
    let prefix = DetectionPrefix::new(padded_buffer(&[0xFE, 0x01]), 2);
    let outcome = classify_detection(&prefix);
    let dest = route_destination(&config.services, &outcome);
    assert_eq!(dest.port, Some(11451));
}

#[test]
fn replay_bytes_are_exactly_the_consumed_prefix() {
    let head = b"hello upstream";
    let prefix = DetectionPrefix::new(padded_buffer(head), head.len());
    assert_eq!(prefix.replay_bytes(), head.to_vec());
}

#[test]
fn replay_and_copy_splice_seamlessly() {
    // The client's whole stream; detection consumes the first 6 bytes.
    let sent: Vec<u8> = b"abcdefghij".to_vec();
    let n = 6;

    let mut buffer = vec![0u8; DETECTION_BUFFER_LEN];
    buffer[..n].copy_from_slice(&sent[..n]);
    let prefix = DetectionPrefix::new(buffer, n);

    // What the upstream receives: the replayed prefix, then the bytes
    // the copy phase moves.
    let mut received = prefix.replay_bytes();
    received.extend_from_slice(&sent[n..]);
    assert_eq!(received, sent);
}

#[test]
fn classification_sees_the_whole_padded_buffer() {
    let head = b"GET ";
    let prefix = DetectionPrefix::new(padded_buffer(head), head.len());
    let seen = prefix.classify_bytes();
    assert_eq!(seen.len(), DETECTION_BUFFER_LEN);
    assert_eq!(&seen[..4], head);
}

#[test]
fn immediate_eof_abandons_the_connection() {
    let next = advance(ConnPhase::Admitted, ConnEvent::Detection { ok: true, bytes_read: 0 });
    assert_eq!(next, ConnPhase::Closed);
}

#[test]
fn lifecycle_walks_the_phases_in_order() {
    let mut phase = ConnPhase::Accepted;
    phase = advance(phase, ConnEvent::Admission { admitted: true });
    assert_eq!(phase, ConnPhase::Admitted);
    phase = advance(phase, ConnEvent::Detection { ok: true, bytes_read: 10 });
    assert_eq!(phase, ConnPhase::Detecting);
    phase = advance(phase, ConnEvent::Classified);
    assert_eq!(phase, ConnPhase::Dispatched);
    phase = advance(phase, ConnEvent::RelayReady { ok: true });
    assert_eq!(phase, ConnPhase::Relaying);
    phase = advance(phase, ConnEvent::DirectionFinished);
    assert_eq!(phase, ConnPhase::Closed);
}

#[test]
fn either_direction_finishing_closes_the_session() {
    let next = advance(ConnPhase::Relaying, ConnEvent::DirectionFinished);
    assert_eq!(next, ConnPhase::Closed);
    // And a closed connection stays closed.
    let after = advance(ConnPhase::Closed, ConnEvent::DirectionFinished);
    assert_eq!(after, ConnPhase::Closed);
}

#[test]
fn refusal_and_failures_close_early() {
    assert_eq!(
        advance(ConnPhase::Accepted, ConnEvent::Admission { admitted: false }),
        ConnPhase::Closed
    );
    assert_eq!(
        advance(ConnPhase::Admitted, ConnEvent::Detection { ok: false, bytes_read: 0 }),
        ConnPhase::Closed
    );
    assert_eq!(
        advance(ConnPhase::Dispatched, ConnEvent::RelayReady { ok: false }),
        ConnPhase::Closed
    );
}

#[test]
fn endpoint_without_port_is_invalid() {
    let endpoint = Endpoint {
        scheme: "tcp".to_string(),
        host: Some("example.com".to_string()),
        port: None,
    };
    assert_eq!(endpoint.host_port(), Err(Error::InvalidUrl));
}

#[test]
fn endpoint_with_wrong_scheme_is_invalid_for_relay() {
    let endpoint = Endpoint {
        scheme: "udp".to_string(),
        host: Some("example.com".to_string()),
        port: Some(9),
    };
    // Binding only needs host and port…
    assert_eq!(endpoint.host_port(), Ok(("example.com".to_string(), 9)));
    // …but a relay destination must be tcp.
    assert_eq!(endpoint.tcp_host_port(), Err(Error::InvalidUrl));
}

#[test]
fn session_prepares_only_toward_complete_tcp_destinations() {
    let head = b"ping";
    let prefix = DetectionPrefix::new(padded_buffer(head), head.len());

    let dest = Endpoint::new_tcp("127.0.0.1".to_string(), 11451);
    let (session, (host, port)) = RelaySession::prepare(&prefix, &dest).unwrap();
    assert_eq!(session.prefix, head.to_vec());
    assert_eq!(host, "127.0.0.1".to_string());
    assert_eq!(port, 11451);

    let bad = Endpoint { scheme: "tcp".to_string(), host: None, port: Some(1) };
    assert_eq!(RelaySession::prepare(&prefix, &bad).unwrap_err(), Error::InvalidUrl);
}

#[test]
fn descriptor_names_both_endpoints_or_placeholders() {
    let session = RelaySession { id: "abc".to_string(), prefix: Vec::new() };
    assert_eq!(
        session.descriptor(Some("1.2.3.4:5".to_string()), Some("6.7.8.9:10".to_string())),
        "TcpRelay[id=abc, from=1.2.3.4:5, to=6.7.8.9:10]"
    );
    assert_eq!(
        session.descriptor(None, None),
        "TcpRelay[id=abc, from=unknown, to=unknown]"
    );
}

#[test]
fn default_config_matches_the_reference_values() {
    let config = AppConfig::default();
    assert_eq!(config.listen.scheme, "tcp".to_string());
    assert_eq!(config.listen.host, Some("0.0.0.0".to_string()));
    assert_eq!(config.listen.port, Some(25565));
    assert_eq!(config.ip_limit, 64);
    assert_eq!(config.services.minecraft.dest.host, Some("127.0.0.1".to_string()));
    assert_eq!(config.services.minecraft.dest.port, Some(11451));
    assert_eq!(config.services.http.dest.host, Some("127.0.0.1".to_string()));
    assert_eq!(config.services.http.dest.port, Some(8080));
    assert_eq!(config.services.http.mode, AppConfigServiceHttpMode::Proxy);
}
