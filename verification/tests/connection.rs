use q_distributed_db_client::auth::{AuthenticationManager, Credentials};
use q_distributed_db_client::connection::{
    execute_with_timeout, has_feature_among, Connection, DialOutcome, ProtocolType,
};
use q_distributed_db_client::error::DatabaseError;
use q_distributed_db_client::protocol::{MessageCodec, MessageType, ProtocolNegotiation};
use q_distributed_db_client::types::{ConnectionConfig, Feature};

fn connected(node_id: u64) -> Connection<&'static str> {
    Connection::connect("node:7000", node_id, 5000, DialOutcome::Connected("session")).unwrap()
}

#[test]
fn test_timeout_enforcement() {
    for timeout_ms in [10u64, 50, 99] {
        let unfinished: Option<Result<(), DatabaseError>> = None;
        match execute_with_timeout(unfinished, timeout_ms, "test_operation") {
            Err(DatabaseError::TimeoutError { operation, timeout_ms: actual }) => {
                assert_eq!(operation, "test_operation");
                assert_eq!(actual, timeout_ms);
            }
            other => panic!("unexpected: {:?}", other),
        }
    }
    assert_eq!(execute_with_timeout(Some(Ok(5)), 10, "op").unwrap(), 5);
    assert!(matches!(
        execute_with_timeout::<u8>(Some(Err(DatabaseError::InvalidCredentials)), 10, "op"),
        Err(DatabaseError::InvalidCredentials)
    ));
}

#[test]
fn test_protocol_selection_for_every_subset() {
    for mask in 1..8u8 {
        let mut protocols = Vec::new();
        if mask & 1 != 0 {
            protocols.push(ProtocolType::UDP);
        }
        if mask & 2 != 0 {
            protocols.push(ProtocolType::TCP);
        }
        if mask & 4 != 0 {
            protocols.push(ProtocolType::TLS);
        }
        let selected = ProtocolType::select_best(&protocols).unwrap();
        let expected = if mask & 4 != 0 {
            ProtocolType::TLS
        } else if mask & 2 != 0 {
            ProtocolType::TCP
        } else {
            ProtocolType::UDP
        };
        assert_eq!(selected, expected);
    }
}

#[test]
fn test_protocol_intersection_scenarios() {
    let client = vec![ProtocolType::TLS, ProtocolType::TCP];
    let server = vec![ProtocolType::TCP, ProtocolType::UDP];
    assert_eq!(ProtocolNegotiation::select_protocol(&client, &server), Some(ProtocolType::TCP));
    assert_eq!(
        ProtocolNegotiation::select_protocol(&[ProtocolType::TLS], &[ProtocolType::UDP]),
        None
    );
    assert_eq!(ProtocolNegotiation::select_protocol(&[], &[]), None);
    assert_eq!(
        ProtocolNegotiation::new(vec![]).preferred_protocol,
        ProtocolType::TCP
    );
    assert_eq!(
        ProtocolNegotiation::new(vec![ProtocolType::UDP]).preferred_protocol,
        ProtocolType::UDP
    );
}

#[test]
fn test_connect_classifies_dial_outcomes() {
    match Connection::<u8>::connect("h:1", 1, 250, DialOutcome::TimedOut) {
        Err(DatabaseError::ConnectionTimeout { host, timeout_ms }) => {
            assert_eq!(host, "h:1");
            assert_eq!(timeout_ms, 250);
        }
        _ => panic!("expected a timeout"),
    }
    match Connection::<u8>::connect("h:1", 1, 250, DialOutcome::Refused) {
        Err(DatabaseError::ConnectionRefused { host }) => assert_eq!(host, "h:1"),
        _ => panic!("expected a refusal"),
    }
    match Connection::<u8>::connect("h:1", 1, 250, DialOutcome::Failed("no route".to_string())) {
        Err(DatabaseError::NetworkError { details }) => {
            assert_eq!(details, "Failed to connect to h:1: no route")
        }
        _ => panic!("expected a network error"),
    }
    match Connection::<u8>::connect("h:1", 1, 250, DialOutcome::Unconfigured("denied".to_string()))
    {
        Err(DatabaseError::NetworkError { details }) => {
            assert_eq!(details, "Failed to set TCP_NODELAY: denied")
        }
        _ => panic!("expected a network error"),
    }
}

#[test]
fn test_new_connection_state() {
    let connection = connected(4);
    assert_eq!(connection.node_id(), 4);
    assert_eq!(connection.protocol(), ProtocolType::TCP);
    assert!(connection.auth_token().is_none());
    assert!(connection.negotiated_features().is_empty());
    assert!(!connection.compression_enabled());
    assert_eq!(connection.into_session(), "session");

    let config = ConnectionConfig::default().with_compression(true, 2048).with_timeout(9);
    let connection: Connection<u8> =
        Connection::connect_with_config("h:1", 2, &config, DialOutcome::Connected(3)).unwrap();
    assert!(connection.compression_enabled());
    match Connection::<u8>::connect_with_config("h:1", 2, &config, DialOutcome::TimedOut) {
        Err(DatabaseError::ConnectionTimeout { timeout_ms, .. }) => assert_eq!(timeout_ms, 9),
        _ => panic!("expected a timeout"),
    }
}

#[test]
fn test_requests_carry_increasing_sequence_numbers() {
    let mut connection = connected(9);
    for expected in 0..5u64 {
        let request = connection.send_request(MessageType::Data, vec![1, 2], 1_000 + expected as i64);
        assert_eq!(request.sender, 0);
        assert_eq!(request.recipient, 9);
        assert_eq!(request.sequence_number, expected);
        assert_eq!(request.timestamp, 1_000 + expected as i64);
        assert_eq!(request.message_type, MessageType::Data);
        assert_eq!(request.payload, vec![1, 2]);
        assert!(request.verify_checksum());
    }
    assert_eq!(connection.next_sequence_number(), 5);
    assert_eq!(connection.next_sequence_number(), 6);
}

#[test]
fn test_request_reply_or_timeout() {
    let mut connection = connected(1);
    let request = connection.send_request(MessageType::Ping, vec![], 0);
    let reply = Connection::<&str>::send_request_with_timeout(Some(Ok(request)), 100).unwrap();
    assert_eq!(reply.message_type, MessageType::Ping);
    match Connection::<&str>::send_request_with_timeout(None, 100) {
        Err(DatabaseError::TimeoutError { operation, timeout_ms }) => {
            assert_eq!(operation, "send_request");
            assert_eq!(timeout_ms, 100);
        }
        other => panic!("unexpected: {:?}", other),
    }
}

#[test]
fn test_messages_travel_framed() {
    let mut connection = connected(1);
    let request = connection.send_request(MessageType::Data, vec![5; 10], 77);
    let bytes = connection.send_message(&request).unwrap();
    assert_eq!(bytes, MessageCodec::new().encode_with_length(&request).unwrap());
    let received = connection.receive_message(&bytes).unwrap();
    assert_eq!(received.payload, vec![5; 10]);
    assert_eq!(received.sequence_number, 0);
}

#[test]
fn test_authenticated_request_needs_a_live_token() {
    let mut connection = connected(1);
    match connection.send_authenticated_request(MessageType::Data, vec![], 0) {
        Err(DatabaseError::AuthenticationFailed { reason }) => assert_eq!(reason, "No auth token"),
        other => panic!("unexpected: {:?}", other),
    }
    let mut manager = AuthenticationManager::new(Credentials::new("admin", "password"), 1_000);
    connection.authenticate_at(&mut manager, 500).unwrap();
    assert_eq!(connection.auth_token().unwrap().expiration, 1_500);
    let request = connection.send_authenticated_request(MessageType::Data, vec![1], 1_499).unwrap();
    assert_eq!(request.sequence_number, 0);
    match connection.send_authenticated_request(MessageType::Data, vec![1], 1_500) {
        Err(DatabaseError::TokenExpired { expired_at }) => assert_eq!(expired_at, 1_500),
        other => panic!("unexpected: {:?}", other),
    }
    // a refused request uses up no sequence number
    assert_eq!(connection.next_sequence_number(), 1);

    let mut unusable = AuthenticationManager::new(Credentials::with_username("admin"), 1_000);
    let mut other = connected(2);
    assert!(other.authenticate_at(&mut unusable, 0).is_err());
    assert!(other.auth_token().is_none());
}

#[test]
fn test_authenticate_by_the_clock() {
    let mut connection = connected(1);
    let mut manager = AuthenticationManager::new(Credentials::new("admin", "password"), 60_000);
    let before = chrono::Utc::now().timestamp_millis();
    connection.authenticate(&mut manager).unwrap();
    let after = chrono::Utc::now().timestamp_millis();
    let expiration = connection.auth_token().unwrap().expiration;
    assert!(before + 60_000 <= expiration && expiration <= after + 60_000);
    assert_eq!(manager.get_token().unwrap().expiration, expiration);
    assert_eq!(connection.auth_token().unwrap().user_id, 1);
}

#[test]
fn test_feature_negotiation_adopts_the_intersection() {
    let mut connection: Connection<u8> = Connection::connect_with_config(
        "h:1",
        1,
        &ConnectionConfig::default().with_compression(true, 10),
        DialOutcome::Connected(0),
    )
    .unwrap();
    let negotiated = connection.negotiate_features(
        vec![Feature::Compression, Feature::Heartbeat],
        &[Feature::Compression, Feature::Streaming],
    );
    assert_eq!(negotiated, vec![Feature::Compression]);
    assert_eq!(connection.negotiated_features(), &[Feature::Compression]);
    assert!(connection.has_feature(&Feature::Compression));
    assert!(!connection.has_feature(&Feature::Heartbeat));
    assert!(!connection.has_feature(&Feature::Streaming));
    assert!(connection.compression_enabled());

    // compression drops out of the intersection: it is switched off
    let negotiated = connection.negotiate_features(
        vec![Feature::Streaming, Feature::Compression, Feature::Heartbeat],
        &[Feature::Heartbeat, Feature::Streaming],
    );
    assert_eq!(negotiated, vec![Feature::Streaming, Feature::Heartbeat]);
    assert!(!connection.compression_enabled());

    // and it stays off even when it is negotiated later
    connection.negotiate_features(vec![Feature::Compression], &[Feature::Compression]);
    assert!(connection.has_feature(&Feature::Compression));
    assert!(!connection.compression_enabled());

    assert!(connection.negotiate_features(vec![Feature::Heartbeat], &[]).is_empty());
    assert!(has_feature_among(Feature::Heartbeat, &[Feature::Streaming, Feature::Heartbeat]));
}

#[test]
fn test_set_protocol() {
    let mut connection = connected(1);
    connection.set_protocol(ProtocolType::TLS);
    assert_eq!(connection.protocol(), ProtocolType::TLS);
    *connection.session_mut() = "other";
    assert_eq!(connection.into_session(), "other");
}
