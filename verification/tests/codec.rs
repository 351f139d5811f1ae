use hosted_time::codec::encode_u128;
use hosted_time::codec::read_u128_le;
use hosted_time::message::EncodedMessage;
use hosted_time::message::Reply;
use hosted_time::message::SystemTimeMessage;
use hosted_time::message::TimeMessage;

#[test]
fn encode_u128_is_little_endian() {
    assert_eq!(encode_u128(0), vec![0u8; 16]);
    assert_eq!(
        encode_u128(1),
        vec![1u8, 0, 0, 0, 0, 0, 0, 0, 0, 0, 0, 0, 0, 0, 0, 0]
    );
    assert_eq!(
        encode_u128(0x0102_0304_0506_0708_090a_0b0c_0d0e_0f10),
        vec![
            0x10u8, 0x0f, 0x0e, 0x0d, 0x0c, 0x0b, 0x0a, 0x09, 0x08, 0x07, 0x06, 0x05, 0x04, 0x03,
            0x02, 0x01
        ]
    );
    assert_eq!(encode_u128(u128::MAX), vec![0xffu8; 16]);
}

#[test]
fn encode_u128_agrees_with_std() {
    for value in [0u128, 255, 256, 1_000_000_000, u64::MAX as u128 + 1, u128::MAX - 1] {
        assert_eq!(encode_u128(value), value.to_le_bytes().to_vec());
    }
}

#[test]
fn read_u128_le_reads_at_offset() {
    let mut bytes = vec![0xaau8, 0xbb];
    bytes.extend_from_slice(&0x1234_5678_9abc_def0_0fed_cba9_8765_4321u128.to_le_bytes());
    bytes.push(0xcc);
    assert_eq!(read_u128_le(&bytes, 2), 0x1234_5678_9abc_def0_0fed_cba9_8765_4321u128);
    assert_eq!(read_u128_le(&vec![0xffu8; 16], 0), u128::MAX);
    assert_eq!(read_u128_le(&vec![0u8; 16], 0), 0);
}

#[test]
fn u128_round_trip() {
    for value in [0u128, 1, 255, 256, 65_535, 50_000_000, u128::MAX] {
        assert_eq!(read_u128_le(&encode_u128(value), 0), value);
    }
}

#[test]
fn decode_get_monotonic() {
    assert_eq!(
        TimeMessage::decode(&EncodedMessage(vec![0])),
        Ok(TimeMessage::GetMonotonic)
    );
}

#[test]
fn decode_wait_monotonic() {
    let mut bytes = vec![1u8];
    bytes.extend_from_slice(&50_000_000u128.to_le_bytes());
    assert_eq!(
        TimeMessage::decode(&EncodedMessage(bytes)),
        Ok(TimeMessage::WaitMonotonic(50_000_000))
    );
    let mut bytes = vec![1u8];
    bytes.extend_from_slice(&u128::MAX.to_le_bytes());
    assert_eq!(
        TimeMessage::decode(&EncodedMessage(bytes)),
        Ok(TimeMessage::WaitMonotonic(u128::MAX))
    );
}

#[test]
fn decode_time_rejects_malformed() {
    assert_eq!(TimeMessage::decode(&EncodedMessage(vec![])), Err(()));
    assert_eq!(TimeMessage::decode(&EncodedMessage(vec![2])), Err(()));
    assert_eq!(TimeMessage::decode(&EncodedMessage(vec![0xff])), Err(()));
    // Bytes left over behind a request.
    assert_eq!(TimeMessage::decode(&EncodedMessage(vec![0, 0])), Err(()));
    // A wait without its deadline, and with a deadline cut short.
    assert_eq!(TimeMessage::decode(&EncodedMessage(vec![1])), Err(()));
    assert_eq!(TimeMessage::decode(&EncodedMessage(vec![1; 16])), Err(()));
    // A deadline with one byte too many.
    assert_eq!(TimeMessage::decode(&EncodedMessage(vec![1; 18])), Err(()));
    // The right length under the wrong kind.
    assert_eq!(TimeMessage::decode(&EncodedMessage(vec![0; 17])), Err(()));
}

#[test]
fn decode_get_system() {
    assert_eq!(
        SystemTimeMessage::decode(&EncodedMessage(vec![0])),
        Ok(SystemTimeMessage::GetSystem)
    );
}

#[test]
fn decode_system_time_rejects_malformed() {
    assert_eq!(SystemTimeMessage::decode(&EncodedMessage(vec![])), Err(()));
    assert_eq!(SystemTimeMessage::decode(&EncodedMessage(vec![1])), Err(()));
    assert_eq!(SystemTimeMessage::decode(&EncodedMessage(vec![0, 0])), Err(()));
    let mut bytes = vec![1u8];
    bytes.extend_from_slice(&7u128.to_le_bytes());
    assert_eq!(SystemTimeMessage::decode(&EncodedMessage(bytes)), Err(()));
}

#[test]
fn time_message_round_trip() {
    for message in [
        TimeMessage::GetMonotonic,
        TimeMessage::WaitMonotonic(0),
        TimeMessage::WaitMonotonic(50_000_000),
        TimeMessage::WaitMonotonic(u128::MAX),
    ] {
        assert_eq!(TimeMessage::decode(&message.encode()), Ok(message));
    }
    assert_eq!(TimeMessage::GetMonotonic.encode(), EncodedMessage(vec![0]));
    assert_eq!(
        TimeMessage::WaitMonotonic(0x0201).encode(),
        EncodedMessage(vec![1, 1, 2, 0, 0, 0, 0, 0, 0, 0, 0, 0, 0, 0, 0, 0, 0])
    );
}

#[test]
fn system_time_message_round_trip() {
    assert_eq!(SystemTimeMessage::GetSystem.encode(), EncodedMessage(vec![0]));
    assert_eq!(
        SystemTimeMessage::decode(&SystemTimeMessage::GetSystem.encode()),
        Ok(SystemTimeMessage::GetSystem)
    );
}

#[test]
fn reply_encoding() {
    assert_eq!(Reply::Unit.encode(), EncodedMessage(vec![]));
    assert_eq!(
        Reply::Nanoseconds(1_000_000_500).encode(),
        EncodedMessage(1_000_000_500u128.to_le_bytes().to_vec())
    );
    assert_eq!(Reply::Nanoseconds(0).encode(), EncodedMessage(vec![0; 16]));
}
