//! The messages that the driver receives and the events that it hands out.
//!
//! A message travels as a sequence of bytes. A request starts with one byte that
//! tells its kind; a deadline follows it as sixteen little-endian bytes. Bytes that
//! are left over make the message malformed.

use crate::codec::encode_u128;
use crate::codec::le_bytes;
use crate::codec::le_value;
use crate::codec::lemma_u128_round_trip;
use crate::codec::read_u128_le;
use crate::interface::InterfaceHash;
use vstd::prelude::*;

verus! {

/// Identifier that the host gives to a message that expects an answer. The driver
/// hands it back with the answer and never looks inside.
#[derive(Clone, Copy, Debug, PartialEq, Eq, Structural)]
pub struct MessageId(pub u64);

/// Identifier of a process.
#[derive(Clone, Copy, Debug, PartialEq, Eq, Structural)]
pub struct Pid(pub u64);

/// A message in its encoded form.
#[derive(Clone, Debug, PartialEq, Eq)]
pub struct EncodedMessage(pub Vec<u8>);

impl View for EncodedMessage {
    type V = Seq<u8>;

    open spec fn view(&self) -> Seq<u8> {
        self.0@
    }
}

/// Request on the monotonic-time interface.
#[derive(Clone, Copy, Debug, PartialEq, Eq, Structural)]
pub enum TimeMessage {
    /// Asks for the value of the monotonic clock. Answered with a `u128`.
    GetMonotonic,
    /// Asks for an answer once the monotonic clock has reached this value.
    /// Answered with nothing.
    WaitMonotonic(u128),
}

/// Request on the system-time interface.
#[derive(Clone, Copy, Debug, PartialEq, Eq, Structural)]
pub enum SystemTimeMessage {
    /// Asks for the nanoseconds since the Unix epoch. Answered with a `u128`.
    GetSystem,
}

/// A decoded request of either interface.
#[derive(Clone, Copy, Debug, PartialEq, Eq, Structural)]
pub enum Message {
    Time(TimeMessage),
    SystemTime(SystemTimeMessage),
}

/// What the driver answers a request with. Every answer is a success.
#[derive(Clone, Copy, Debug, PartialEq, Eq, Structural)]
pub enum Reply {
    /// The empty answer, which tells that a wait is over.
    Unit,
    /// A clock value in nanoseconds.
    Nanoseconds(u128),
}

/// What the driver asks its host to do.
#[derive(Clone, Copy, Debug, PartialEq, Eq)]
pub enum NativeProgramEvent {
    /// Send to the registration interface the message that registers `register`.
    /// No answer is expected.
    Emit { register: InterfaceHash },
    /// Answer the message `message_id`.
    Answer { message_id: MessageId, answer: Reply },
}

/// Kind byte of the message that registers an interface.
pub const TAG_REGISTER: u8 = 0u8;

/// Kind byte of `TimeMessage::GetMonotonic`.
pub const TAG_GET_MONOTONIC: u8 = 0u8;

/// Kind byte of `TimeMessage::WaitMonotonic`.
pub const TAG_WAIT_MONOTONIC: u8 = 1u8;

/// Kind byte of `SystemTimeMessage::GetSystem`.
pub const TAG_GET_SYSTEM: u8 = 0u8;

/// The request of the monotonic-time interface that `bytes` encode, if any.
pub open spec fn decode_time_spec(bytes: Seq<u8>) -> Option<TimeMessage> {
    if bytes.len() == 1 && bytes[0] == TAG_GET_MONOTONIC {
        Some(TimeMessage::GetMonotonic)
    } else if bytes.len() == 17 && bytes[0] == TAG_WAIT_MONOTONIC {
        Some(TimeMessage::WaitMonotonic(le_value(bytes.subrange(1, 17)) as u128))
    } else {
        None
    }
}

/// The request of the system-time interface that `bytes` encode, if any.
pub open spec fn decode_system_time_spec(bytes: Seq<u8>) -> Option<SystemTimeMessage> {
    if bytes.len() == 1 && bytes[0] == TAG_GET_SYSTEM {
        Some(SystemTimeMessage::GetSystem)
    } else {
        None
    }
}

/// The bytes that encode a request of the monotonic-time interface.
pub open spec fn encode_time_spec(message: TimeMessage) -> Seq<u8> {
    match message {
        TimeMessage::GetMonotonic => seq![TAG_GET_MONOTONIC],
        TimeMessage::WaitMonotonic(deadline) => seq![TAG_WAIT_MONOTONIC].add(
            le_bytes(deadline as nat, 16),
        ),
    }
}

/// The bytes that encode a request of the system-time interface.
pub open spec fn encode_system_time_spec(message: SystemTimeMessage) -> Seq<u8> {
    match message {
        SystemTimeMessage::GetSystem => seq![TAG_GET_SYSTEM],
    }
}

/// The bytes that encode the message that registers `interface`: the kind byte
/// and the 32 bytes of the hash.
pub open spec fn encode_register_spec(interface: InterfaceHash) -> Seq<u8> {
    seq![TAG_REGISTER].add(interface.hash@)
}

/// The bytes that travel with an event: the registration message, or the answer.
pub open spec fn payload_spec(event: NativeProgramEvent) -> Seq<u8> {
    match event {
        NativeProgramEvent::Emit { register } => encode_register_spec(register),
        NativeProgramEvent::Answer { answer, .. } => encode_reply_spec(answer),
    }
}

/// The bytes that encode an answer.
pub open spec fn encode_reply_spec(reply: Reply) -> Seq<u8> {
    match reply {
        Reply::Unit => Seq::empty(),
        Reply::Nanoseconds(nanos) => le_bytes(nanos as nat, 16),
    }
}

impl TimeMessage {
    /// Decodes a request of the monotonic-time interface. Fails on any sequence of
    /// bytes that is not exactly the encoding of a request.
    pub fn decode(message: &EncodedMessage) -> (decoded: Result<TimeMessage, ()>)
        ensures
            decoded.ok() == decode_time_spec(message@),
    {
        let bytes = &message.0;
        if bytes.len() == 1 && bytes[0] == TAG_GET_MONOTONIC {
            Ok(TimeMessage::GetMonotonic)
        } else if bytes.len() == 17 && bytes[0] == TAG_WAIT_MONOTONIC {
            let deadline: u128 = read_u128_le(bytes, 1);
            Ok(TimeMessage::WaitMonotonic(deadline))
        } else {
            Err(())
        }
    }

    /// Encodes the request.
    pub fn encode(&self) -> (message: EncodedMessage)
        ensures
            message@ == encode_time_spec(*self),
    {
        match self {
            TimeMessage::GetMonotonic => {
                let mut bytes: Vec<u8> = Vec::new();
                bytes.push(TAG_GET_MONOTONIC);
                assert(bytes@ =~= seq![TAG_GET_MONOTONIC]);
                EncodedMessage(bytes)
            },
            TimeMessage::WaitMonotonic(deadline) => {
                let mut bytes: Vec<u8> = Vec::new();
                bytes.push(TAG_WAIT_MONOTONIC);
                let mut digits: Vec<u8> = encode_u128(*deadline);
                let ghost tail = digits@;
                bytes.append(&mut digits);
                assert(bytes@ =~= seq![TAG_WAIT_MONOTONIC].add(tail));
                EncodedMessage(bytes)
            },
        }
    }
}

impl SystemTimeMessage {
    /// Decodes a request of the system-time interface. Fails on any sequence of
    /// bytes that is not exactly the encoding of a request.
    pub fn decode(message: &EncodedMessage) -> (decoded: Result<SystemTimeMessage, ()>)
        ensures
            decoded.ok() == decode_system_time_spec(message@),
    {
        let bytes = &message.0;
        if bytes.len() == 1 && bytes[0] == TAG_GET_SYSTEM {
            Ok(SystemTimeMessage::GetSystem)
        } else {
            Err(())
        }
    }

    /// Encodes the request.
    pub fn encode(&self) -> (message: EncodedMessage)
        ensures
            message@ == encode_system_time_spec(*self),
    {
        let mut bytes: Vec<u8> = Vec::new();
        bytes.push(TAG_GET_SYSTEM);
        assert(bytes@ =~= seq![TAG_GET_SYSTEM]);
        EncodedMessage(bytes)
    }
}

impl Reply {
    /// Encodes the answer: nothing for the empty answer, sixteen little-endian
    /// bytes for a clock value.
    pub fn encode(&self) -> (message: EncodedMessage)
        ensures
            message@ == encode_reply_spec(*self),
    {
        match self {
            Reply::Unit => EncodedMessage(Vec::new()),
            Reply::Nanoseconds(nanos) => EncodedMessage(encode_u128(*nanos)),
        }
    }
}

/// Encodes the message that registers `interface`.
pub fn encode_register(interface: &InterfaceHash) -> (message: EncodedMessage)
    ensures
        message@ == encode_register_spec(*interface),
{
    let mut bytes: Vec<u8> = Vec::new();
    bytes.push(TAG_REGISTER);
    let mut i: usize = 0;
    while i < 32
        invariant
            i <= 32,
            bytes@ == seq![TAG_REGISTER].add(interface.hash@.subrange(0, i as int)),
        decreases 32 - i,
    {
        bytes.push(interface.hash[i]);
        i = i + 1;
        assert(bytes@ =~= seq![TAG_REGISTER].add(interface.hash@.subrange(0, i as int)));
    }
    assert(interface.hash@.subrange(0, 32) =~= interface.hash@);
    EncodedMessage(bytes)
}

impl NativeProgramEvent {
    /// The bytes that travel with the event: the registration message for the
    /// registration interface, or the answer for the message that is answered.
    pub fn payload(&self) -> (message: EncodedMessage)
        ensures
            message@ == payload_spec(*self),
    {
        match self {
            NativeProgramEvent::Emit { register } => encode_register(register),
            NativeProgramEvent::Answer { answer, .. } => answer.encode(),
        }
    }
}

/// Decoding the encoding of a request of the monotonic-time interface gives the
/// request back.
pub proof fn lemma_time_message_round_trip(message: TimeMessage)
    ensures
        decode_time_spec(encode_time_spec(message)) == Some(message),
{
    match message {
        TimeMessage::GetMonotonic => {},
        TimeMessage::WaitMonotonic(deadline) => {
            let digits = le_bytes(deadline as nat, 16);
            let bytes = encode_time_spec(message);
            lemma_u128_round_trip(deadline);
            assert(bytes.subrange(1, 17) =~= digits);
        },
    }
}

/// Decoding the encoding of a request of the system-time interface gives the
/// request back.
pub proof fn lemma_system_time_message_round_trip(message: SystemTimeMessage)
    ensures
        decode_system_time_spec(encode_system_time_spec(message)) == Some(message),
{
}

/// The value of a clock answer is recovered exactly from its encoding, and the
/// encoding of the empty answer is empty.
pub proof fn lemma_reply_round_trip(nanos: u128)
    ensures
        encode_reply_spec(Reply::Nanoseconds(nanos)).len() == 16,
        le_value(encode_reply_spec(Reply::Nanoseconds(nanos))) == nanos,
        encode_reply_spec(Reply::Unit).len() == 0,
{
    lemma_u128_round_trip(nanos);
}

} // verus!
