//! The wire message: its fields, its integrity checksum, and its byte
//! layout on the stream behind a four-byte big-endian length prefix.

use crate::connection::ProtocolType;
use crate::error::DatabaseError;
use crate::types::{NodeId, Timestamp};
use vstd::bytes::{
    spec_u32_from_le_bytes, spec_u32_to_le_bytes, spec_u64_from_le_bytes, spec_u64_to_le_bytes,
    u64_to_le_bytes,
};
use vstd::prelude::*;

verus! {

/// The kinds of message that the protocol knows.
#[derive(Debug, Clone, Copy, PartialEq, Eq, Structural)]
pub enum MessageType {
    /// Ping message for connection health check.
    Ping,
    /// Pong response to ping.
    Pong,
    /// Data message containing a query or response payload.
    Data,
    /// Acknowledgment message.
    Ack,
    /// Error message.
    Error,
    /// Heartbeat message for connection keep-alive.
    Heartbeat,
    /// Cluster join notification.
    ClusterJoin,
    /// Cluster leave notification.
    ClusterLeave,
    /// Replication message.
    Replication,
    /// Transaction message.
    Transaction,
}

impl MessageType {
    /// The number that stands for the kind, in the checksum input (as one
    /// byte) and in the encoded body (as four).
    pub open spec fn tag(self) -> u8 {
        match self {
            MessageType::Ping => 0,
            MessageType::Pong => 1,
            MessageType::Data => 2,
            MessageType::Ack => 3,
            MessageType::Error => 4,
            MessageType::Heartbeat => 5,
            MessageType::ClusterJoin => 6,
            MessageType::ClusterLeave => 7,
            MessageType::Replication => 8,
            MessageType::Transaction => 9,
        }
    }

    /// The kind that a number stands for, if any.
    pub open spec fn of_tag(tag: int) -> Option<MessageType> {
        if tag == 0 {
            Some(MessageType::Ping)
        } else if tag == 1 {
            Some(MessageType::Pong)
        } else if tag == 2 {
            Some(MessageType::Data)
        } else if tag == 3 {
            Some(MessageType::Ack)
        } else if tag == 4 {
            Some(MessageType::Error)
        } else if tag == 5 {
            Some(MessageType::Heartbeat)
        } else if tag == 6 {
            Some(MessageType::ClusterJoin)
        } else if tag == 7 {
            Some(MessageType::ClusterLeave)
        } else if tag == 8 {
            Some(MessageType::Replication)
        } else if tag == 9 {
            Some(MessageType::Transaction)
        } else {
            None
        }
    }

    /// The number that stands for this kind on the wire.
    pub fn discriminant(&self) -> (tag: u8)
        ensures
            tag == self.tag(),
    {
        match self {
            MessageType::Ping => 0,
            MessageType::Pong => 1,
            MessageType::Data => 2,
            MessageType::Ack => 3,
            MessageType::Error => 4,
            MessageType::Heartbeat => 5,
            MessageType::ClusterJoin => 6,
            MessageType::ClusterLeave => 7,
            MessageType::Replication => 8,
            MessageType::Transaction => 9,
        }
    }

    /// The kind that `tag` stands for on the wire, or `None` if it stands
    /// for none.
    pub fn from_discriminant(tag: u32) -> (kind: Option<MessageType>)
        ensures
            kind == MessageType::of_tag(tag as int),
    {
        if tag == 0 {
            Some(MessageType::Ping)
        } else if tag == 1 {
            Some(MessageType::Pong)
        } else if tag == 2 {
            Some(MessageType::Data)
        } else if tag == 3 {
            Some(MessageType::Ack)
        } else if tag == 4 {
            Some(MessageType::Error)
        } else if tag == 5 {
            Some(MessageType::Heartbeat)
        } else if tag == 6 {
            Some(MessageType::ClusterJoin)
        } else if tag == 7 {
            Some(MessageType::ClusterLeave)
        } else if tag == 8 {
            Some(MessageType::Replication)
        } else if tag == 9 {
            Some(MessageType::Transaction)
        } else {
            None
        }
    }
}

/// The 64 bits of a timestamp, read as an unsigned number (two's
/// complement).
pub open spec fn timestamp_bits(timestamp: Timestamp) -> u64 {
    if timestamp >= 0 {
        timestamp as u64
    } else {
        (timestamp + 0x1_0000_0000_0000_0000) as u64
    }
}

/// The timestamp whose 64 bits are `bits`.
pub open spec fn timestamp_of_bits(bits: u64) -> Timestamp {
    if bits < 0x8000_0000_0000_0000 {
        bits as i64
    } else {
        (bits - 0x1_0000_0000_0000_0000) as i64
    }
}

/// The CRC-32 checksum (IEEE polynomial) of a byte string.
pub uninterp spec fn crc32_ieee(bytes: Seq<u8>) -> u32;

/// Computes the CRC-32 of `bytes` with `crc32fast::hash`. The checksum is a
/// function of the bytes alone; the contract names it and claims nothing
/// else of it.
#[verifier::external_body]
fn crc32(bytes: &[u8]) -> (checksum: u32)
    ensures
        checksum == crc32_ieee(bytes@),
{
    crc32fast::hash(bytes)
}

/// A message as a mathematical value.
pub struct MessageView {
    /// Sender node identifier.
    pub sender: NodeId,
    /// Recipient node identifier.
    pub recipient: NodeId,
    /// Sequence number for ordering.
    pub sequence_number: u64,
    /// Message timestamp.
    pub timestamp: Timestamp,
    /// Kind of message.
    pub message_type: MessageType,
    /// Message payload.
    pub payload: Seq<u8>,
    /// Checksum that the message carries.
    pub checksum: u32,
}

impl MessageView {
    /// The bytes that the checksum is computed over: sender, recipient,
    /// sequence number and timestamp as eight little-endian bytes each, one
    /// byte for the kind, then the payload. The checksum field itself is not
    /// part of it.
    pub open spec fn checksum_input(self) -> Seq<u8> {
        spec_u64_to_le_bytes(self.sender) + spec_u64_to_le_bytes(self.recipient)
            + spec_u64_to_le_bytes(self.sequence_number) + spec_u64_to_le_bytes(
            timestamp_bits(self.timestamp),
        ) + seq![self.message_type.tag()] + self.payload
    }

    /// The checksum that the fields call for.
    pub open spec fn expected_checksum(self) -> u32 {
        crc32_ieee(self.checksum_input())
    }

    /// Whether the carried checksum is the one that the fields call for.
    pub open spec fn intact(self) -> bool {
        self.checksum == self.expected_checksum()
    }
}

/// A single protocol frame.
#[derive(Debug, Clone)]
pub struct Message {
    /// Sender node identifier.
    pub sender: NodeId,
    /// Recipient node identifier.
    pub recipient: NodeId,
    /// Sequence number for ordering.
    pub sequence_number: u64,
    /// Message timestamp.
    pub timestamp: Timestamp,
    /// Kind of message.
    pub message_type: MessageType,
    /// Message payload.
    pub payload: Vec<u8>,
    /// CRC-32 checksum for integrity validation.
    pub checksum: u32,
}

impl View for Message {
    type V = MessageView;

    open spec fn view(&self) -> MessageView {
        MessageView {
            sender: self.sender,
            recipient: self.recipient,
            sequence_number: self.sequence_number,
            timestamp: self.timestamp,
            message_type: self.message_type,
            payload: self.payload@,
            checksum: self.checksum,
        }
    }
}

/// Appends `bytes` to `out`.
fn append_bytes(out: &mut Vec<u8>, bytes: &[u8])
    ensures
        final(out)@ == old(out)@ + bytes@,
{
    out.extend_from_slice(bytes);
    assert(out@ =~= old(out)@ + bytes@);
}

/// The 64 bits of `timestamp` as an unsigned number.
pub fn timestamp_to_bits(timestamp: Timestamp) -> (bits: u64)
    ensures
        bits == timestamp_bits(timestamp),
{
    if timestamp >= 0 {
        timestamp as u64
    } else {
        ((timestamp - i64::MIN) as u64) + 0x8000_0000_0000_0000u64
    }
}

impl Message {
    /// Creates a message with the given fields; its checksum is the one
    /// that the fields call for.
    pub fn new(
        sender: NodeId,
        recipient: NodeId,
        sequence_number: u64,
        timestamp: Timestamp,
        message_type: MessageType,
        payload: Vec<u8>,
    ) -> (message: Self)
        ensures
            message.sender == sender,
            message.recipient == recipient,
            message.sequence_number == sequence_number,
            message.timestamp == timestamp,
            message.message_type == message_type,
            message.payload == payload,
            message@.intact(),
    {
        let mut message = Message {
            sender,
            recipient,
            sequence_number,
            timestamp,
            message_type,
            payload,
            checksum: 0,
        };
        let checksum = message.calculate_checksum();
        message.checksum = checksum;
        message
    }

    /// Computes the checksum that the fields call for, whatever checksum
    /// the message carries.
    pub fn calculate_checksum(&self) -> (checksum: u32)
        ensures
            checksum == self@.expected_checksum(),
    {
        let mut input: Vec<u8> = Vec::new();
        let sender = u64_to_le_bytes(self.sender);
        append_bytes(&mut input, sender.as_slice());
        let recipient = u64_to_le_bytes(self.recipient);
        append_bytes(&mut input, recipient.as_slice());
        let sequence_number = u64_to_le_bytes(self.sequence_number);
        append_bytes(&mut input, sequence_number.as_slice());
        let timestamp = u64_to_le_bytes(timestamp_to_bits(self.timestamp));
        append_bytes(&mut input, timestamp.as_slice());
        input.push(self.message_type.discriminant());
        append_bytes(&mut input, self.payload.as_slice());
        assert(input@ =~= self@.checksum_input());
        crc32(input.as_slice())
    }

    /// Tells whether the carried checksum is the one that the fields call
    /// for.
    pub fn verify_checksum(&self) -> (intact: bool)
        ensures
            intact == self@.intact(),
    {
        let calculated = self.calculate_checksum();
        self.checksum == calculated
    }
}

/// The four bytes of `value`, most significant first.
pub open spec fn be32(value: u32) -> Seq<u8> {
    seq![
        (value / 0x100_0000) as u8,
        ((value / 0x1_0000) % 0x100) as u8,
        ((value / 0x100) % 0x100) as u8,
        (value % 0x100) as u8,
    ]
}

/// The number that four bytes stand for, most significant first.
pub open spec fn be32_value(bytes: Seq<u8>) -> int
    recommends
        bytes.len() == 4,
{
    bytes[0] * 0x100_0000 + bytes[1] * 0x1_0000 + bytes[2] * 0x100 + bytes[3]
}

/// The fields of an encoded body before the kind is interpreted: sender,
/// recipient, sequence number, timestamp, kind, payload, checksum.
pub type RawFields = (u64, u64, u64, i64, u32, Seq<u8>, u32);

/// The encoded body of a message with the given fields: sender, recipient,
/// sequence number and timestamp as eight little-endian bytes each; the kind
/// as four little-endian bytes; the payload's length as eight little-endian
/// bytes, then the payload; the checksum as four little-endian bytes.
pub open spec fn fields_layout(fields: RawFields) -> Seq<u8> {
    spec_u64_to_le_bytes(fields.0) + spec_u64_to_le_bytes(fields.1) + spec_u64_to_le_bytes(
        fields.2,
    ) + spec_u64_to_le_bytes(timestamp_bits(fields.3)) + spec_u32_to_le_bytes(fields.4)
        + spec_u64_to_le_bytes(fields.5.len() as u64) + fields.5 + spec_u32_to_le_bytes(fields.6)
}

/// Reads the fields back from the front of `bytes`. `None` where the bytes
/// end before the last field does; bytes after the last field are ignored.
pub open spec fn parse_fields(bytes: Seq<u8>) -> Option<RawFields> {
    if bytes.len() < 44 {
        None
    } else {
        let payload_len = spec_u64_from_le_bytes(bytes.subrange(36, 44)) as int;
        if bytes.len() < 48 + payload_len {
            None
        } else {
            Some(
                (
                    spec_u64_from_le_bytes(bytes.subrange(0, 8)),
                    spec_u64_from_le_bytes(bytes.subrange(8, 16)),
                    spec_u64_from_le_bytes(bytes.subrange(16, 24)),
                    timestamp_of_bits(spec_u64_from_le_bytes(bytes.subrange(24, 32))),
                    spec_u32_from_le_bytes(bytes.subrange(32, 36)),
                    bytes.subrange(44, 44 + payload_len),
                    spec_u32_from_le_bytes(bytes.subrange(44 + payload_len, 48 + payload_len)),
                ),
            )
        }
    }
}

/// The encoded body of a message with the given fields.
pub open spec fn message_layout(
    sender: u64,
    recipient: u64,
    sequence_number: u64,
    timestamp: i64,
    kind: u32,
    payload: Seq<u8>,
    checksum: u32,
) -> Seq<u8> {
    fields_layout((sender, recipient, sequence_number, timestamp, kind, payload, checksum))
}

/// The fields of a decoded body as mathematical values.
pub open spec fn fields_view(fields: (u64, u64, u64, i64, u32, Vec<u8>, u32)) -> RawFields {
    (fields.0, fields.1, fields.2, fields.3, fields.4, fields.5@, fields.6)
}

/// Serialises the fields with `bincode::serialize`, as a tuple. With the
/// configuration that this function of bincode uses (fixed-width integers,
/// little endian, no size limit) the result is the layout stated above: each
/// integer by its bytes, the byte vector behind its length as a `u64`, and
/// nothing between or around the elements of a tuple. It cannot fail here:
/// no limit is set, the sequence knows its length, and the writer is a
/// vector.
#[verifier::external_body]
fn bincode_serialize(
    sender: u64,
    recipient: u64,
    sequence_number: u64,
    timestamp: i64,
    kind: u32,
    payload: &Vec<u8>,
    checksum: u32,
) -> (encoded: Result<Vec<u8>, String>)
    ensures
        encoded is Ok,
        encoded->Ok_0@ == message_layout(
            sender,
            recipient,
            sequence_number,
            timestamp,
            kind,
            payload@,
            checksum,
        ),
{
    bincode::serialize(&(sender, recipient, sequence_number, timestamp, kind, payload, checksum))
        .map_err(|e| e.to_string())
}

/// Deserialises the fields with `bincode::deserialize`, as a tuple. It reads
/// what `bincode_serialize` writes, fails where the input ends before the
/// last field does, and accepts bytes after it. The error is handed back as
/// its text.
#[verifier::external_body]
fn bincode_deserialize(bytes: &[u8]) -> (decoded: Result<
    (u64, u64, u64, i64, u32, Vec<u8>, u32),
    String,
>)
    ensures
        decoded is Ok ==> parse_fields(bytes@) == Some(fields_view(decoded->Ok_0)),
        decoded is Err ==> parse_fields(bytes@) is None,
{
    bincode::deserialize::<(u64, u64, u64, i64, u32, Vec<u8>, u32)>(bytes).map_err(
        |e| e.to_string(),
    )
}

impl MessageView {
    /// The fields as they stand in the encoded body, the kind as its number.
    pub open spec fn raw_fields(self) -> RawFields {
        (
            self.sender,
            self.recipient,
            self.sequence_number,
            self.timestamp,
            self.message_type.tag() as u32,
            self.payload,
            self.checksum,
        )
    }

    /// The encoded body of the message.
    pub open spec fn wire_body(self) -> Seq<u8> {
        fields_layout(self.raw_fields())
    }

    /// The message with the given fields, if the number of the kind stands
    /// for one.
    pub open spec fn of_raw_fields(fields: RawFields) -> Option<MessageView> {
        match MessageType::of_tag(fields.4 as int) {
            Some(message_type) => Some(
                MessageView {
                    sender: fields.0,
                    recipient: fields.1,
                    sequence_number: fields.2,
                    timestamp: fields.3,
                    message_type,
                    payload: fields.5,
                    checksum: fields.6,
                },
            ),
            None => None,
        }
    }

    /// The message that an encoded body holds, if it holds one.
    pub open spec fn parse_body(bytes: Seq<u8>) -> Option<MessageView> {
        match parse_fields(bytes) {
            Some(fields) => MessageView::of_raw_fields(fields),
            None => None,
        }
    }
}

/// A body behind its length prefix: the length in four bytes, most
/// significant first, then the body. Only a body of up to 2^32 - 1 bytes
/// has a frame.
pub open spec fn frame(body: Seq<u8>) -> Seq<u8>
    recommends
        body.len() <= u32::MAX,
{
    be32(body.len() as u32) + body
}

/// What reading makes of the front of a stream, before the body is decoded.
pub enum ReadOutcome {
    /// The stream ends before the length prefix does.
    HeaderMissing,
    /// The prefix declares a length over the maximum.
    Oversized {
        /// The length that the prefix declares.
        declared: int,
    },
    /// The stream ends before the declared length does.
    BodyMissing,
    /// The bytes of the body.
    Body(Seq<u8>),
}

/// What decoding makes of a byte string.
pub enum DecodeOutcome {
    /// The bytes hold this message, and its checksum is intact.
    Accepted(MessageView),
    /// The input is longer than the codec admits.
    TooLarge,
    /// The bytes hold no message.
    Malformed,
    /// The bytes hold a message whose checksum is not the expected one.
    Corrupt {
        /// The checksum that the fields call for.
        expected: u32,
        /// The checksum that the message carries.
        actual: u32,
    },
}

/// Encodes and decodes messages, and refuses those over a maximum size.
#[derive(Debug, Clone, Copy)]
pub struct MessageCodec {
    /// Maximum allowed message size in bytes.
    pub max_message_size: usize,
}

/// The text that every report of a failed deserialisation begins with.
pub open spec fn deserialize_failure_prefix() -> Seq<char> {
    "Failed to deserialize message: "@
}

impl MessageCodec {
    /// The encoded body of `message`, or `None` where it is longer than the
    /// codec admits.
    pub open spec fn encode_outcome(self, message: MessageView) -> Option<Seq<u8>> {
        if message.wire_body().len() > self.max_message_size {
            None
        } else {
            Some(message.wire_body())
        }
    }

    /// What decoding makes of `bytes`: the size is checked first, then the
    /// layout, then the checksum.
    pub open spec fn decode_outcome(self, bytes: Seq<u8>) -> DecodeOutcome {
        if bytes.len() > self.max_message_size {
            DecodeOutcome::TooLarge
        } else {
            match MessageView::parse_body(bytes) {
                None => DecodeOutcome::Malformed,
                Some(message) => if message.intact() {
                    DecodeOutcome::Accepted(message)
                } else {
                    DecodeOutcome::Corrupt {
                        expected: message.expected_checksum(),
                        actual: message.checksum,
                    }
                },
            }
        }
    }

    /// Creates a codec with the default maximum message size of 1 MiB.
    pub fn new() -> (codec: Self)
        ensures
            codec.max_message_size == 1024 * 1024,
    {
        MessageCodec { max_message_size: 1024 * 1024 }
    }

    /// Creates a codec with the given maximum message size.
    pub fn with_max_size(max_message_size: usize) -> (codec: Self)
        ensures
            codec.max_message_size == max_message_size,
    {
        MessageCodec { max_message_size }
    }

    /// Encodes a message. Fails with `MessageTooLarge` exactly when the
    /// encoded body is longer than the maximum; never returns more bytes
    /// than the maximum.
    pub fn encode(&self, message: &Message) -> (encoded: Result<Vec<u8>, DatabaseError>)
        ensures
            match encoded {
                Ok(bytes) => self.encode_outcome(message@) == Some(bytes@) && bytes@.len()
                    <= self.max_message_size,
                Err(error) => error matches DatabaseError::MessageTooLarge { size, max_size }
                    && size == message@.wire_body().len() && max_size == self.max_message_size
                    && self.encode_outcome(message@) is None,
            },
    {
        let serialized = bincode_serialize(
            message.sender,
            message.recipient,
            message.sequence_number,
            message.timestamp,
            message.message_type.discriminant() as u32,
            &message.payload,
            message.checksum,
        );
        match serialized {
            Ok(bytes) => {
                if bytes.len() > self.max_message_size {
                    Err(
                        DatabaseError::MessageTooLarge {
                            size: bytes.len(),
                            max_size: self.max_message_size,
                        },
                    )
                } else {
                    Ok(bytes)
                }
            },
            Err(reason) => {
                let mut text = String::from_str("Failed to serialize message: ");
                text.append(reason.as_str());
                Err(DatabaseError::SerializationError { message: text })
            },
        }
    }

    /// Whether `result` is what decoding `bytes` returns: the message where
    /// one is accepted, and otherwise the error that tells why none is.
    pub open spec fn decoded_as(self, bytes: Seq<u8>, result: Result<Message, DatabaseError>) -> bool {
        match result {
            Ok(message) => self.decode_outcome(bytes) == DecodeOutcome::Accepted(message@),
            Err(error) => match self.decode_outcome(bytes) {
                DecodeOutcome::Accepted(_) => false,
                DecodeOutcome::TooLarge => error matches DatabaseError::MessageTooLarge {
                    size,
                    max_size,
                } && size == bytes.len() && max_size == self.max_message_size,
                DecodeOutcome::Malformed => error matches DatabaseError::SerializationError {
                    message,
                } && deserialize_failure_prefix().is_prefix_of(message@),
                DecodeOutcome::Corrupt { expected, actual } => error
                    matches DatabaseError::ChecksumMismatch { expected: e, actual: a } && e
                    == expected && a == actual,
            },
        }
    }

    /// Decodes a message and verifies its checksum. Input longer than the
    /// maximum is refused before it is parsed; a message whose checksum is
    /// not the expected one is never returned.
    pub fn decode(&self, data: &[u8]) -> (decoded: Result<Message, DatabaseError>)
        ensures
            self.decoded_as(data@, decoded),
    {
        if data.len() > self.max_message_size {
            return Err(
                DatabaseError::MessageTooLarge {
                    size: data.len(),
                    max_size: self.max_message_size,
                },
            );
        }
        match bincode_deserialize(data) {
            Err(reason) => {
                let mut text = String::from_str("Failed to deserialize message: ");
                text.append(reason.as_str());
                Err(DatabaseError::SerializationError { message: text })
            },
            Ok(fields) => {
                let (sender, recipient, sequence_number, timestamp, kind, payload, checksum) =
                    fields;
                match MessageType::from_discriminant(kind) {
                    None => {
                        let mut text = String::from_str("Failed to deserialize message: ");
                        text.append("unknown message type ");
                        crate::text::push_decimal(&mut text, kind as u64);
                        Err(DatabaseError::SerializationError { message: text })
                    },
                    Some(message_type) => {
                        let message = Message {
                            sender,
                            recipient,
                            sequence_number,
                            timestamp,
                            message_type,
                            payload,
                            checksum,
                        };
                        let expected = message.calculate_checksum();
                        if message.checksum != expected {
                            Err(
                                DatabaseError::ChecksumMismatch {
                                    expected,
                                    actual: message.checksum,
                                },
                            )
                        } else {
                            Ok(message)
                        }
                    },
                }
            },
        }
    }

    /// The longest body that can be framed: the maximum message size, and
    /// no more than a four-byte prefix can state.
    pub open spec fn frame_limit(self) -> usize {
        if self.max_message_size > 0xFFFF_FFFF {
            0xFFFF_FFFF
        } else {
            self.max_message_size
        }
    }

    /// What stands on the stream for `message`: the frame of its body, or
    /// `None` where the body is longer than can be framed.
    pub open spec fn frame_outcome(self, message: MessageView) -> Option<Seq<u8>> {
        if message.wire_body().len() > self.frame_limit() {
            None
        } else {
            Some(frame(message.wire_body()))
        }
    }

    /// What reading makes of the front of a stream.
    pub open spec fn read_outcome(self, input: Seq<u8>) -> ReadOutcome {
        if input.len() < 4 {
            ReadOutcome::HeaderMissing
        } else {
            let declared = be32_value(input.subrange(0, 4));
            if declared > self.max_message_size {
                ReadOutcome::Oversized { declared }
            } else if input.len() < 4 + declared {
                ReadOutcome::BodyMissing
            } else {
                ReadOutcome::Body(input.subrange(4, 4 + declared))
            }
        }
    }

    /// Encodes a message behind its four-byte big-endian length prefix,
    /// which states the exact length of the body. Fails with
    /// `MessageTooLarge` exactly when the body is longer than the maximum or
    /// than the prefix can state.
    pub fn encode_with_length(&self, message: &Message) -> (framed: Result<
        Vec<u8>,
        DatabaseError,
    >)
        ensures
            match framed {
                Ok(bytes) => self.frame_outcome(message@) == Some(bytes@),
                Err(error) => error matches DatabaseError::MessageTooLarge { size, max_size }
                    && size == message@.wire_body().len() && max_size == self.frame_limit()
                    && self.frame_outcome(message@) is None,
            },
    {
        let limit: usize = if self.max_message_size > 0xFFFF_FFFF {
            0xFFFF_FFFF
        } else {
            self.max_message_size
        };
        match self.encode(message) {
            Ok(encoded) => {
                if encoded.len() > limit {
                    return Err(
                        DatabaseError::MessageTooLarge { size: encoded.len(), max_size: limit },
                    );
                }
                let length: u32 = encoded.len() as u32;
                let mut framed: Vec<u8> = Vec::new();
                framed.push((length / 0x100_0000) as u8);
                framed.push(((length / 0x1_0000) % 0x100) as u8);
                framed.push(((length / 0x100) % 0x100) as u8);
                framed.push((length % 0x100) as u8);
                append_bytes(&mut framed, encoded.as_slice());
                assert(framed@ =~= frame(encoded@));
                Ok(framed)
            },
            Err(DatabaseError::MessageTooLarge { size, max_size }) => Err(
                DatabaseError::MessageTooLarge { size, max_size: limit },
            ),
            Err(error) => Err(error),
        }
    }

    /// Reads the length that a prefix declares, and refuses one over the
    /// maximum, so that no buffer is made for a body that will be refused.
    pub fn frame_length(&self, prefix: &[u8; 4]) -> (length: Result<usize, DatabaseError>)
        ensures
            match length {
                Ok(declared) => declared == be32_value(prefix@) && declared
                    <= self.max_message_size,
                Err(error) => error matches DatabaseError::MessageTooLarge { size, max_size }
                    && size == be32_value(prefix@) && max_size == self.max_message_size && size
                    > self.max_message_size,
            },
    {
        let declared: u32 = (prefix[0] as u32) * 0x100_0000 + (prefix[1] as u32) * 0x1_0000 + (
        prefix[2] as u32) * 0x100 + (prefix[3] as u32);
        let declared: usize = declared as usize;
        if declared > self.max_message_size {
            Err(DatabaseError::MessageTooLarge { size: declared, max_size: self.max_message_size })
        } else {
            Ok(declared)
        }
    }

    /// Whether `result` is what reading a message from the front of `input`
    /// returns.
    pub open spec fn read_as(self, input: Seq<u8>, result: Result<Message, DatabaseError>) -> bool {
        match self.read_outcome(input) {
            ReadOutcome::HeaderMissing => result matches Err(
                DatabaseError::NetworkError { details },
            ) && details@ == "Failed to read message length: unexpected end of input"@,
            ReadOutcome::Oversized { declared } => result matches Err(
                DatabaseError::MessageTooLarge { size, max_size },
            ) && size == declared && max_size == self.max_message_size,
            ReadOutcome::BodyMissing => result matches Err(
                DatabaseError::NetworkError { details },
            ) && details@ == "Failed to read message data: unexpected end of input"@,
            ReadOutcome::Body(body) => self.decoded_as(body, result),
        }
    }

    /// Reads one message from the front of `input`: the length prefix, then
    /// as many bytes as it declares, decoded as `decode` does. A declared
    /// length over the maximum is refused before the body is looked at.
    pub fn read_message(&self, input: &[u8]) -> (message: Result<Message, DatabaseError>)
        ensures
            self.read_as(input@, message),
    {
        if input.len() < 4 {
            return Err(
                DatabaseError::NetworkError {
                    details: String::from_str(
                        "Failed to read message length: unexpected end of input",
                    ),
                },
            );
        }
        let prefix: [u8; 4] = [input[0], input[1], input[2], input[3]];
        assert(prefix@ =~= input@.subrange(0, 4));
        match self.frame_length(&prefix) {
            Err(error) => Err(error),
            Ok(declared) => {
                if input.len() - 4 < declared {
                    return Err(
                        DatabaseError::NetworkError {
                            details: String::from_str(
                                "Failed to read message data: unexpected end of input",
                            ),
                        },
                    );
                }
                let body = vstd::slice::slice_subrange(input, 4, 4 + declared);
                self.decode(body)
            },
        }
    }

    /// Writes one message to the end of `out`: the length prefix, then the
    /// encoded body. Where the message is refused, `out` is left as it was.
    pub fn write_message(&self, out: &mut Vec<u8>, message: &Message) -> (written: Result<
        (),
        DatabaseError,
    >)
        ensures
            match written {
                Ok(_) => self.frame_outcome(message@) is Some && final(out)@ == old(out)@
                    + self.frame_outcome(message@).unwrap(),
                Err(error) => error matches DatabaseError::MessageTooLarge { size, max_size }
                    && size == message@.wire_body().len() && max_size == self.frame_limit()
                    && self.frame_outcome(message@) is None && final(out)@ == old(out)@,
            },
    {
        match self.encode_with_length(message) {
            Ok(framed) => {
                append_bytes(out, framed.as_slice());
                Ok(())
            },
            Err(error) => Err(error),
        }
    }
}

impl Default for MessageCodec {
    fn default() -> (codec: Self)
        ensures
            codec.max_message_size == 1024 * 1024,
    {
        MessageCodec::new()
    }
}

/// The protocols that a client supports, and the one it prefers.
#[derive(Debug, Clone)]
pub struct ProtocolNegotiation {
    /// Protocols supported by the client.
    pub supported_protocols: Vec<ProtocolType>,
    /// Preferred protocol: the best of the supported ones.
    pub preferred_protocol: ProtocolType,
}

impl ProtocolNegotiation {
    /// Creates a negotiation for the given protocols. The preferred
    /// protocol is the best of them, and TCP where there is none.
    pub fn new(supported_protocols: Vec<ProtocolType>) -> (negotiation: Self)
        ensures
            negotiation.supported_protocols == supported_protocols,
            negotiation.preferred_protocol == match ProtocolType::best_of(supported_protocols@) {
                Some(best) => best,
                None => ProtocolType::TCP,
            },
    {
        let preferred_protocol = match ProtocolType::select_best(supported_protocols.as_slice()) {
            Some(best) => best,
            None => ProtocolType::TCP,
        };
        ProtocolNegotiation { supported_protocols, preferred_protocol }
    }

    /// Selects the protocol of highest priority that both client and server
    /// support, or `None` where they share none.
    pub fn select_protocol(client_protocols: &[ProtocolType], server_protocols: &[ProtocolType]) -> (selected:
        Option<ProtocolType>)
        ensures
            selected == ProtocolType::best_common(client_protocols@, server_protocols@),
    {
        if ProtocolType::is_among(ProtocolType::TLS, client_protocols) && ProtocolType::is_among(
            ProtocolType::TLS,
            server_protocols,
        ) {
            Some(ProtocolType::TLS)
        } else if ProtocolType::is_among(ProtocolType::TCP, client_protocols)
            && ProtocolType::is_among(ProtocolType::TCP, server_protocols) {
            Some(ProtocolType::TCP)
        } else if ProtocolType::is_among(ProtocolType::UDP, client_protocols)
            && ProtocolType::is_among(ProtocolType::UDP, server_protocols) {
            Some(ProtocolType::UDP)
        } else {
            None
        }
    }
}

/// The frame of a body begins with the exact length of the body, in four
/// bytes, and goes on with the body.
pub proof fn lemma_prefix_states_body_length(body: Seq<u8>)
    requires
        body.len() <= u32::MAX,
    ensures
        frame(body).len() == 4 + body.len(),
        be32_value(frame(body).subrange(0, 4)) == body.len(),
        frame(body).subrange(4, frame(body).len() as int) == body,
{
    let length = body.len() as u32;
    assert(frame(body).subrange(0, 4) =~= be32(length));
    assert(frame(body).subrange(4, frame(body).len() as int) =~= body);
}

/// For every message that is encoded with its length, the four-byte prefix
/// equals the exact byte length of the body that follows, and that body is
/// the encoded message.
pub proof fn lemma_prefix_is_exact(codec: MessageCodec, message: MessageView)
    requires
        codec.frame_outcome(message) is Some,
    ensures
        ({
            let framed = codec.frame_outcome(message).unwrap();
            &&& framed.len() >= 4
            &&& be32_value(framed.subrange(0, 4)) == framed.len() - 4
            &&& framed.subrange(4, framed.len() as int) == message.wire_body()
            &&& framed.len() - 4 <= codec.max_message_size
        }),
{
    lemma_prefix_states_body_length(message.wire_body());
}

/// Reading what writing gave returns the message: a frame is read back as
/// its body, and the body decodes to the message.
pub proof fn lemma_read_inverts_write(codec: MessageCodec, message: MessageView, rest: Seq<u8>)
    requires
        message.payload.len() <= usize::MAX,
        message.intact(),
        codec.frame_outcome(message) is Some,
    ensures
        codec.read_outcome(codec.frame_outcome(message).unwrap() + rest) == ReadOutcome::Body(
            message.wire_body(),
        ),
        codec.decode_outcome(message.wire_body()) == DecodeOutcome::Accepted(message),
{
    let body = message.wire_body();
    lemma_prefix_states_body_length(body);
    lemma_decode_inverts_encode(codec, message);
    let input = frame(body) + rest;
    assert(input.subrange(0, 4) =~= frame(body).subrange(0, 4));
    assert(input.subrange(4, 4 + body.len() as int) =~= body);
}

/// Reading an encoded body back gives the fields that were encoded, also
/// where other bytes follow the body.
pub proof fn lemma_parse_inverts_layout(fields: RawFields, rest: Seq<u8>)
    requires
        fields.5.len() <= u64::MAX,
    ensures
        fields_layout(fields).len() == 48 + fields.5.len(),
        parse_fields(fields_layout(fields) + rest) == Some(fields),
{
    vstd::bytes::lemma_auto_spec_u64_to_from_le_bytes();
    vstd::bytes::lemma_auto_spec_u32_to_from_le_bytes();
    let body = fields_layout(fields);
    let bytes = body + rest;
    let n = fields.5.len() as int;
    assert(body.len() == 48 + n);
    assert(bytes.subrange(0, 8) =~= spec_u64_to_le_bytes(fields.0));
    assert(bytes.subrange(8, 16) =~= spec_u64_to_le_bytes(fields.1));
    assert(bytes.subrange(16, 24) =~= spec_u64_to_le_bytes(fields.2));
    assert(bytes.subrange(24, 32) =~= spec_u64_to_le_bytes(timestamp_bits(fields.3)));
    assert(bytes.subrange(32, 36) =~= spec_u32_to_le_bytes(fields.4));
    assert(bytes.subrange(36, 44) =~= spec_u64_to_le_bytes(fields.5.len() as u64));
    assert(bytes.subrange(44, 44 + n) =~= fields.5);
    assert(bytes.subrange(44 + n, 48 + n) =~= spec_u32_to_le_bytes(fields.6));
    assert(timestamp_of_bits(timestamp_bits(fields.3)) == fields.3);
}

/// Bytes that hold fields begin with the layout of those fields.
pub proof fn lemma_layout_inverts_parse(bytes: Seq<u8>)
    requires
        parse_fields(bytes) is Some,
    ensures
        fields_layout(parse_fields(bytes).unwrap()).len() <= bytes.len(),
        fields_layout(parse_fields(bytes).unwrap()) == bytes.subrange(
            0,
            48 + parse_fields(bytes).unwrap().5.len() as int,
        ),
{
    vstd::bytes::lemma_auto_spec_u64_to_from_le_bytes();
    vstd::bytes::lemma_auto_spec_u32_to_from_le_bytes();
    let fields = parse_fields(bytes).unwrap();
    let n = fields.5.len() as int;
    assert(n == spec_u64_from_le_bytes(bytes.subrange(36, 44)));
    let bits = spec_u64_from_le_bytes(bytes.subrange(24, 32));
    assert(timestamp_bits(timestamp_of_bits(bits)) == bits);
    assert(spec_u64_to_le_bytes(fields.0) == bytes.subrange(0, 8));
    assert(spec_u64_to_le_bytes(fields.1) == bytes.subrange(8, 16));
    assert(spec_u64_to_le_bytes(fields.2) == bytes.subrange(16, 24));
    assert(spec_u64_to_le_bytes(timestamp_bits(fields.3)) == bytes.subrange(24, 32));
    assert(spec_u32_to_le_bytes(fields.4) == bytes.subrange(32, 36));
    assert(spec_u64_to_le_bytes(n as u64) == bytes.subrange(36, 44));
    assert(spec_u32_to_le_bytes(fields.6) == bytes.subrange(44 + n, 48 + n));
    assert(fields_layout(fields) =~= bytes.subrange(0, 48 + n));
}

/// A kind is found again from its number.
pub proof fn lemma_tag_identifies_kind(kind: MessageType)
    ensures
        MessageType::of_tag(kind.tag() as int) == Some(kind),
{
}

/// The body of a message holds that message.
pub proof fn lemma_parse_inverts_body(message: MessageView)
    requires
        message.payload.len() <= usize::MAX,
    ensures
        message.wire_body().len() == 48 + message.payload.len(),
        MessageView::parse_body(message.wire_body()) == Some(message),
{
    lemma_parse_inverts_layout(message.raw_fields(), Seq::empty());
    assert(message.wire_body() + Seq::<u8>::empty() =~= message.wire_body());
    lemma_tag_identifies_kind(message.message_type);
}

/// Round trip: decoding what encoding gave returns the message, with every
/// field as it was. It holds of every message whose checksum is intact (as
/// `Message::new` makes it) and whose body the codec admits.
pub proof fn lemma_decode_inverts_encode(codec: MessageCodec, message: MessageView)
    requires
        message.payload.len() <= usize::MAX,
        message.intact(),
        codec.encode_outcome(message) is Some,
    ensures
        codec.decode_outcome(codec.encode_outcome(message).unwrap()) == DecodeOutcome::Accepted(
            message,
        ),
{
    lemma_parse_inverts_body(message);
}

/// Decoding never accepts a message whose checksum is not the one that its
/// fields call for.
pub proof fn lemma_accepted_is_intact(codec: MessageCodec, bytes: Seq<u8>)
    ensures
        codec.decode_outcome(bytes) matches DecodeOutcome::Accepted(message) ==> message.intact(),
{
}

/// Damage to the checksum is always detected: where any byte of the
/// checksum field of an encoded message has changed, decoding reports a
/// checksum mismatch.
pub proof fn lemma_checksum_damage_detected(
    codec: MessageCodec,
    message: MessageView,
    index: int,
    byte: u8,
)
    requires
        message.payload.len() <= usize::MAX,
        message.intact(),
        codec.encode_outcome(message) is Some,
        message.wire_body().len() - 4 <= index < message.wire_body().len(),
        byte != message.wire_body()[index],
    ensures
        codec.decode_outcome(message.wire_body().update(index, byte)) is Corrupt,
{
    vstd::bytes::lemma_auto_spec_u64_to_from_le_bytes();
    vstd::bytes::lemma_auto_spec_u32_to_from_le_bytes();
    lemma_parse_inverts_body(message);
    let body = message.wire_body();
    let damaged = body.update(index, byte);
    let n = message.payload.len() as int;
    assert(damaged.subrange(0, 8) =~= body.subrange(0, 8));
    assert(damaged.subrange(8, 16) =~= body.subrange(8, 16));
    assert(damaged.subrange(16, 24) =~= body.subrange(16, 24));
    assert(damaged.subrange(24, 32) =~= body.subrange(24, 32));
    assert(damaged.subrange(32, 36) =~= body.subrange(32, 36));
    assert(damaged.subrange(36, 44) =~= body.subrange(36, 44));
    assert(body.subrange(36, 44) =~= spec_u64_to_le_bytes(n as u64)) by {
        lemma_layout_inverts_parse(body);
    }
    assert(damaged.subrange(44, 44 + n) =~= body.subrange(44, 44 + n));
    let before = body.subrange(44 + n, 48 + n);
    let after = damaged.subrange(44 + n, 48 + n);
    assert(after[index - (44 + n)] != before[index - (44 + n)]);
    let damaged_message = MessageView::parse_body(damaged).unwrap();
    assert(damaged_message.checksum == spec_u32_from_le_bytes(after));
    assert(message.checksum == spec_u32_from_le_bytes(before));
    assert(spec_u32_to_le_bytes(spec_u32_from_le_bytes(after)) == after);
    assert(spec_u32_to_le_bytes(spec_u32_from_le_bytes(before)) == before);
    assert(damaged_message.checksum_input() == message.checksum_input());
}

/// Damage is never taken for what was sent: where any byte of an encoded
/// message has changed, decoding does not return the message that was
/// encoded. (Whether it returns another message rests on the checksum.)
pub proof fn lemma_damage_never_restores(
    codec: MessageCodec,
    message: MessageView,
    index: int,
    byte: u8,
)
    requires
        message.payload.len() <= usize::MAX,
        0 <= index < message.wire_body().len(),
        byte != message.wire_body()[index],
    ensures
        codec.decode_outcome(message.wire_body().update(index, byte)) != DecodeOutcome::Accepted(
            message,
        ),
{
    lemma_parse_inverts_body(message);
    let body = message.wire_body();
    let damaged = body.update(index, byte);
    if MessageView::parse_body(damaged) == Some(message) {
        lemma_layout_inverts_parse(damaged);
        let fields = parse_fields(damaged).unwrap();
        lemma_tag_identifies_kind(message.message_type);
        assert(fields.4 == message.message_type.tag() as u32) by {
            assert(MessageType::of_tag(fields.4 as int) == Some(message.message_type));
        }
        assert(fields == message.raw_fields());
        assert(damaged.subrange(0, 48 + message.payload.len() as int) =~= damaged);
        assert(damaged[index] == body[index]);
    }
}

/// Messages with the same checksum input have the same fields, the
/// checksum apart.
pub proof fn lemma_checksum_input_tells_fields(first: MessageView, second: MessageView)
    requires
        first.checksum_input() == second.checksum_input(),
    ensures
        first.sender == second.sender,
        first.recipient == second.recipient,
        first.sequence_number == second.sequence_number,
        first.timestamp == second.timestamp,
        first.message_type == second.message_type,
        first.payload == second.payload,
{
    vstd::bytes::lemma_auto_spec_u64_to_from_le_bytes();
    let a = first.checksum_input();
    let b = second.checksum_input();
    assert(a.subrange(0, 8) =~= spec_u64_to_le_bytes(first.sender));
    assert(b.subrange(0, 8) =~= spec_u64_to_le_bytes(second.sender));
    assert(a.subrange(8, 16) =~= spec_u64_to_le_bytes(first.recipient));
    assert(b.subrange(8, 16) =~= spec_u64_to_le_bytes(second.recipient));
    assert(a.subrange(16, 24) =~= spec_u64_to_le_bytes(first.sequence_number));
    assert(b.subrange(16, 24) =~= spec_u64_to_le_bytes(second.sequence_number));
    assert(a.subrange(24, 32) =~= spec_u64_to_le_bytes(timestamp_bits(first.timestamp)));
    assert(b.subrange(24, 32) =~= spec_u64_to_le_bytes(timestamp_bits(second.timestamp)));
    assert(timestamp_of_bits(timestamp_bits(first.timestamp)) == first.timestamp);
    assert(timestamp_of_bits(timestamp_bits(second.timestamp)) == second.timestamp);
    assert(a[32] == first.message_type.tag());
    assert(b[32] == second.message_type.tag());
    lemma_tag_identifies_kind(first.message_type);
    lemma_tag_identifies_kind(second.message_type);
    assert(a.subrange(33, a.len() as int) =~= first.payload);
    assert(b.subrange(33, b.len() as int) =~= second.payload);
}

/// What is left to the checksum: damage to any byte outside the length
/// field and the checksum field goes undetected only on a collision of
/// CRC-32, that is, where the damaged fields make a checksum input other
/// than the sent one, of the same length, with the same CRC-32.
pub proof fn lemma_undetected_damage_is_collision(
    codec: MessageCodec,
    message: MessageView,
    index: int,
    byte: u8,
)
    requires
        message.payload.len() <= usize::MAX,
        message.intact(),
        0 <= index < 36 || 44 <= index < 44 + message.payload.len(),
        byte != message.wire_body()[index],
    ensures
        codec.decode_outcome(message.wire_body().update(index, byte)) matches DecodeOutcome::Accepted(
            other,
        ) ==> {
            &&& other.checksum_input() != message.checksum_input()
            &&& other.checksum_input().len() == message.checksum_input().len()
            &&& crc32_ieee(other.checksum_input()) == crc32_ieee(message.checksum_input())
        },
{
    vstd::bytes::lemma_auto_spec_u64_to_from_le_bytes();
    vstd::bytes::lemma_auto_spec_u32_to_from_le_bytes();
    lemma_parse_inverts_body(message);
    let body = message.wire_body();
    let damaged = body.update(index, byte);
    let n = message.payload.len() as int;
    if codec.decode_outcome(damaged) is Accepted {
        let other = codec.decode_outcome(damaged)->Accepted_0;
        assert(damaged.subrange(36, 44) =~= body.subrange(36, 44));
        assert(other.payload.len() == n);
        assert(damaged.subrange(44 + n, 48 + n) =~= body.subrange(44 + n, 48 + n));
        assert(other.checksum == message.checksum);
        lemma_damage_never_restores(codec, message, index, byte);
        if other.checksum_input() == message.checksum_input() {
            lemma_checksum_input_tells_fields(other, message);
            assert(other == message);
        }
        assert(other.checksum_input().len() == 33 + n);
        assert(message.checksum_input().len() == 33 + n);
    }
}

/// A changed length field is accepted only as a shorter message: one that
/// ends before the sent one does and whose own checksum, read from where it
/// ends, is the one that its fields call for.
pub proof fn lemma_damaged_length_shortens(
    codec: MessageCodec,
    message: MessageView,
    index: int,
    byte: u8,
)
    requires
        message.payload.len() <= usize::MAX,
        36 <= index < 44,
        byte != message.wire_body()[index],
    ensures
        codec.decode_outcome(message.wire_body().update(index, byte)) matches DecodeOutcome::Accepted(
            other,
        ) ==> other.payload.len() < message.payload.len() && other.intact(),
{
    vstd::bytes::lemma_auto_spec_u64_to_from_le_bytes();
    lemma_parse_inverts_body(message);
    let body = message.wire_body();
    let damaged = body.update(index, byte);
    let n = message.payload.len() as int;
    if codec.decode_outcome(damaged) is Accepted {
        let other = codec.decode_outcome(damaged)->Accepted_0;
        let before = body.subrange(36, 44);
        let after = damaged.subrange(36, 44);
        assert(after[index - 36] != before[index - 36]);
        lemma_layout_inverts_parse(body);
        assert(before == spec_u64_to_le_bytes(n as u64));
        assert(spec_u64_to_le_bytes(spec_u64_from_le_bytes(after)) == after);
        assert(other.payload.len() == spec_u64_from_le_bytes(after));
        assert(other.payload.len() != n);
    }
}

} // verus!
