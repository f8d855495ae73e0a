use q_distributed_db_client::connection::ProtocolType;
use q_distributed_db_client::error::DatabaseError;
use q_distributed_db_client::protocol::{Message, MessageCodec, MessageType, ProtocolNegotiation};

fn create_test_message() -> Message {
    Message::new(
        1,                     // sender
        2,                     // recipient
        100,                   // sequence_number
        1704067200000,         // timestamp
        MessageType::Data,     // message_type
        vec![1, 2, 3, 4, 5],   // payload
    )
}

#[test]
fn test_message_type_equality() {
    assert_eq!(MessageType::Ping, MessageType::Ping);
    assert_eq!(MessageType::Data, MessageType::Data);
    assert_ne!(MessageType::Ping, MessageType::Pong);
}

#[test]
fn test_message_type_clone() {
    let mt1 = MessageType::Data;
    let mt2 = mt1.clone();
    assert_eq!(mt1, mt2);
}

#[test]
fn test_message_creation() {
    let msg = create_test_message();
    assert_eq!(msg.sender, 1);
    assert_eq!(msg.recipient, 2);
    assert_eq!(msg.sequence_number, 100);
    assert_eq!(msg.timestamp, 1704067200000);
    assert_eq!(msg.message_type, MessageType::Data);
    assert_eq!(msg.payload, vec![1, 2, 3, 4, 5]);
    assert_ne!(msg.checksum, 0);
}

#[test]
fn test_message_checksum_calculation() {
    let msg = create_test_message();
    let calculated = msg.calculate_checksum();
    assert_eq!(msg.checksum, calculated);
}

#[test]
fn test_message_checksum_verification() {
    let msg = create_test_message();
    assert!(msg.verify_checksum());
}

#[test]
fn test_message_checksum_verification_fails_on_corruption() {
    let mut msg = create_test_message();
    msg.checksum = 0; // Corrupt the checksum
    assert!(!msg.verify_checksum());
}

#[test]
fn test_message_checksum_changes_with_payload() {
    let msg1 = Message::new(1, 2, 100, 1704067200000, MessageType::Data, vec![1, 2, 3]);
    let msg2 = Message::new(1, 2, 100, 1704067200000, MessageType::Data, vec![4, 5, 6]);
    assert_ne!(msg1.checksum, msg2.checksum);
}

#[test]
fn test_message_checksum_changes_with_sender() {
    let msg1 = Message::new(1, 2, 100, 1704067200000, MessageType::Data, vec![1, 2, 3]);
    let msg2 = Message::new(3, 2, 100, 1704067200000, MessageType::Data, vec![1, 2, 3]);
    assert_ne!(msg1.checksum, msg2.checksum);
}

#[test]
fn test_codec_creation() {
    let codec = MessageCodec::new();
    assert_eq!(codec.max_message_size, 1024 * 1024);
}

#[test]
fn test_codec_with_custom_max_size() {
    let codec = MessageCodec::with_max_size(512);
    assert_eq!(codec.max_message_size, 512);
}

#[test]
fn test_codec_encode_decode() {
    let codec = MessageCodec::new();
    let msg = create_test_message();
    
    let encoded = codec.encode(&msg).unwrap();
    let decoded = codec.decode(&encoded).unwrap();
    
    assert_eq!(msg.sender, decoded.sender);
    assert_eq!(msg.recipient, decoded.recipient);
    assert_eq!(msg.sequence_number, decoded.sequence_number);
    assert_eq!(msg.timestamp, decoded.timestamp);
    assert_eq!(msg.message_type, decoded.message_type);
    assert_eq!(msg.payload, decoded.payload);
    assert_eq!(msg.checksum, decoded.checksum);
}

#[test]
fn test_codec_encode_with_length() {
    let codec = MessageCodec::new();
    let msg = create_test_message();
    
    let encoded = codec.encode_with_length(&msg).unwrap();
    
    // Check that first 4 bytes are the length
    let length = u32::from_be_bytes([encoded[0], encoded[1], encoded[2], encoded[3]]) as usize;
    assert_eq!(length, encoded.len() - 4);
}

#[test]
fn test_codec_message_too_large() {
    let codec = MessageCodec::with_max_size(10);
    let msg = Message::new(
        1,
        2,
        100,
        1704067200000,
        MessageType::Data,
        vec![0; 100], // Large payload
    );
    
    let result = codec.encode(&msg);
    assert!(result.is_err());
    
    if let Err(DatabaseError::MessageTooLarge { size, max_size }) = result {
        assert!(size > max_size);
        assert_eq!(max_size, 10);
    } else {
        panic!("Expected MessageTooLarge error");
    }
}

#[test]
fn test_codec_decode_rejects_oversized_message() {
    let codec = MessageCodec::with_max_size(10);
    let large_data = vec![0; 100];
    
    let result = codec.decode(&large_data);
    assert!(result.is_err());
    
    if let Err(DatabaseError::MessageTooLarge { size, max_size }) = result {
        assert_eq!(size, 100);
        assert_eq!(max_size, 10);
    } else {
        panic!("Expected MessageTooLarge error");
    }
}

#[test]
fn test_codec_decode_detects_checksum_mismatch() {
    let codec = MessageCodec::new();
    let msg = create_test_message();
    
    // Encode the message
    let mut encoded = codec.encode(&msg).unwrap();
    
    // Corrupt the payload in the encoded data (skip the checksum field)
    if encoded.len() > 10 {
        encoded[10] ^= 0xFF;
    }
    
    // Try to decode - should fail checksum validation
    let result = codec.decode(&encoded);
    assert!(result.is_err());
    
    if let Err(DatabaseError::ChecksumMismatch { expected, actual }) = result {
        assert_ne!(expected, actual);
    } else {
        panic!("Expected ChecksumMismatch error");
    }
}

#[test]
fn test_codec_default() {
    let codec = MessageCodec::default();
    assert_eq!(codec.max_message_size, 1024 * 1024);
}

#[test]
fn test_protocol_negotiation_creation() {
    let protocols = vec![ProtocolType::TCP, ProtocolType::TLS];
    let negotiation = ProtocolNegotiation::new(protocols.clone());

    assert_eq!(negotiation.supported_protocols, protocols);
    assert_eq!(negotiation.preferred_protocol, ProtocolType::TLS);
}

#[test]
fn test_protocol_negotiation_select_protocol() {
    let client = vec![ProtocolType::TCP, ProtocolType::UDP];
    let server = vec![ProtocolType::TCP, ProtocolType::TLS];

    let selected = ProtocolNegotiation::select_protocol(&client, &server);
    assert_eq!(selected, Some(ProtocolType::TCP));
}

#[test]
fn test_protocol_negotiation_select_tls_priority() {
    let client = vec![ProtocolType::TCP, ProtocolType::TLS, ProtocolType::UDP];
    let server = vec![ProtocolType::TCP, ProtocolType::TLS];

    let selected = ProtocolNegotiation::select_protocol(&client, &server);
    assert_eq!(selected, Some(ProtocolType::TLS));
}

#[test]
fn test_protocol_negotiation_no_common_protocol() {
    let client = vec![ProtocolType::TCP];
    let server = vec![ProtocolType::UDP];

    let selected = ProtocolNegotiation::select_protocol(&client, &server);
    assert_eq!(selected, None);
}

#[test]
fn test_protocol_negotiation_empty_lists() {
    let client = vec![];
    let server = vec![ProtocolType::TCP];

    let selected = ProtocolNegotiation::select_protocol(&client, &server);
    assert_eq!(selected, None);
}
