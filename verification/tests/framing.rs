use btc_handshake::constants::{
    DEVNET_CHAIN_MAGIC_BYTES, PROTOCOL_VERSION, REGTEST_CHAIN_MAGIC_BYTES, SERVICES, START_HEIGHT,
    USER_AGENT,
};
use btc_handshake::error::Error;
use btc_handshake::message_builder::BTCMessageBuilder;

#[test]
fn test_frame_roundtrip_nonempty_payload() {
    let builder = BTCMessageBuilder::default();
    let payload = vec![1u8, 2, 3, 4, 5];

    let frame = builder.build("version", &payload).unwrap();
    assert_eq!(frame.len(), 24 + payload.len());

    let (command, decoded) = builder.decode(&frame[0..24], &frame[24..]).unwrap();
    assert_eq!(command, "version");
    assert_eq!(decoded, payload);
}

#[test]
fn test_frame_roundtrip_empty_payload() {
    let builder = BTCMessageBuilder::default();

    let frame = builder.build("verack", &vec![]).unwrap();
    assert_eq!(frame.len(), 24);

    let (command, decoded) = builder.decode(&frame[0..24], &frame[24..]).unwrap();
    assert_eq!(command, "verack");
    assert!(decoded.is_empty());
}

#[test]
fn test_empty_command_frame_layout() {
    let builder = BTCMessageBuilder::default();

    let frame = builder.build("command", &vec![]).unwrap();

    assert_eq!(frame.len(), 24);
    assert_eq!(&frame[0..4], REGTEST_CHAIN_MAGIC_BYTES);
    assert_eq!(&frame[4..11], "command".as_bytes());
    assert_eq!(&frame[11..16], &[0u8, 0, 0, 0, 0]);
    assert_eq!(&frame[16..20], &[0u8, 0, 0, 0]);
    assert_eq!(&frame[20..24], &[0x5d, 0xf6, 0xe0, 0xe2]);
}

#[test]
fn test_decode_wrong_magic() {
    let mut sender = BTCMessageBuilder::default();
    sender.set_magic_bytes(DEVNET_CHAIN_MAGIC_BYTES);
    let receiver = BTCMessageBuilder::default();

    let payload = vec![7u8, 8, 9];
    let frame = sender.build("version", &payload).unwrap();

    let result = receiver.decode(&frame[0..24], &frame[24..]);
    assert_eq!(result.unwrap_err(), Error::InvalidMagic);
}

#[test]
fn test_decode_detects_any_flipped_payload_byte() {
    let builder = BTCMessageBuilder::default();
    let payload = vec![0xaau8, 0x00, 0x55, 0xff, 0x10];

    let frame = builder.build("version", &payload).unwrap();

    for i in 0..payload.len() {
        let mut corrupted = frame[24..].to_vec();
        corrupted[i] ^= 0x01;
        let result = builder.decode(&frame[0..24], &corrupted);
        assert_eq!(result.unwrap_err(), Error::InvalidChecksum);
    }
}

#[test]
fn test_build_rejects_long_command_boundary() {
    let builder = BTCMessageBuilder::default();

    assert!(builder.build("exactlytwelv", &vec![]).is_ok());
    assert_eq!(
        builder.build("thirteenchars", &vec![]).unwrap_err(),
        Error::CommandTooLong
    );
}

#[test]
fn test_parse_too_short_boundary() {
    let builder = BTCMessageBuilder::default();

    assert_eq!(
        builder.parse_message_payload(&vec![]).unwrap_err(),
        Error::PayloadTooShort
    );
    assert_eq!(
        builder.parse_message_payload(&vec![0u8; 84]).unwrap_err(),
        Error::PayloadTooShort
    );
    // 85 bytes pass the length gate, but an empty user agent still needs a
    // start height and relay flag behind it, so the payload is malformed.
    assert_eq!(
        builder.parse_message_payload(&vec![0u8; 85]).unwrap_err(),
        Error::MalformedVersionPayload
    );
    assert!(builder.parse_message_payload(&vec![0u8; 86]).is_ok());
}

#[test]
fn test_parse_malformed_user_agent_length() {
    let builder = BTCMessageBuilder::default();

    let mut payload = vec![0u8; 100];
    // the declared user agent would run past the end of the payload
    payload[80] = 200;
    assert_eq!(
        builder.parse_message_payload(&payload).unwrap_err(),
        Error::MalformedVersionPayload
    );
}

#[test]
fn test_version_payload_roundtrip_all_fields() {
    let builder = BTCMessageBuilder::default();

    let payload = builder.version_with_timestamp(1_700_000_000);
    let message = builder.parse_message_payload(&payload).unwrap();

    assert_eq!(message.version, PROTOCOL_VERSION);
    assert_eq!(message.services, SERVICES);
    assert_eq!(message.timestamp, 1_700_000_000);
    assert_eq!(message.addr_recv_services, 0);
    assert_eq!(message.addr_recv_port, 0);
    assert_eq!(message.addr_trans_services, 0);
    assert_eq!(message.addr_trans_port, 0);
    assert_eq!(message.nonce, 0);
    assert_eq!(message.user_agent_bytes as usize, USER_AGENT.len());
    assert_eq!(message.user_agent, USER_AGENT);
    assert_eq!(message.start_height, START_HEIGHT);
    assert!(message.relay);
}

#[test]
fn test_verack_payload_is_empty() {
    let builder = BTCMessageBuilder::default();
    assert!(builder.verack().unwrap().is_empty());
}
