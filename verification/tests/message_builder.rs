use btc_handshake::constants::{
    DEVNET_CHAIN_MAGIC_BYTES, PROTOCOL_VERSION, REGTEST_CHAIN_MAGIC_BYTES, SERVICES, USER_AGENT,
};
use btc_handshake::message_builder::BTCMessageBuilder;

#[test]
fn test_build_empty_message() {
    let data_processor = BTCMessageBuilder::default();

    let result = data_processor.build("command", &vec![]);

    assert!(result.is_ok());

    assert_eq!(result.unwrap().len(), 24);
}

#[test]
fn test_empty_message_regtest_magic_bytes() {
    let data_processor = BTCMessageBuilder::default();

    let command = "command";

    let result = data_processor.build(command, &vec![]);

    let bytes = &result.unwrap()[0..4];

    assert_eq!(bytes, REGTEST_CHAIN_MAGIC_BYTES);
}

#[test]
fn test_empty_message_devnet_magic_bytes() {
    let mut data_processor = BTCMessageBuilder::default();

    data_processor.set_magic_bytes(DEVNET_CHAIN_MAGIC_BYTES);

    let command = "command";

    let result = data_processor.build(command, &vec![]);

    assert!(result.is_ok());

    let bytes = &result.unwrap()[0..4];

    assert_eq!(bytes, DEVNET_CHAIN_MAGIC_BYTES);
}

#[test]
fn test_empty_message_command() {
    let data_processor = BTCMessageBuilder::default();

    let command = "command";

    let result = data_processor.build(command, &vec![]);

    let mut read_command = String::from_utf8_lossy(&result.unwrap()[4..16]).to_string();

    read_command.replace_range(command.len().., "");

    assert_eq!(read_command, command);
}

#[test]
fn test_empty_message_command_len() {
    let data_processor = BTCMessageBuilder::default();

    let command = "commandthatiswaytoolong";

    let result = data_processor.build(command, &vec![]);

    assert!(result.is_err());
}

#[test]
fn test_empty_message_payload_len() {
    let data_processor = BTCMessageBuilder::default();

    let command = "command";

    let result = data_processor.build(command, &vec![]).unwrap();

    let payload_size = u32::from_le_bytes([result[16], result[17], result[18], result[19]]);

    assert_eq!(payload_size, 0);
}

#[test]
fn test_empty_message_payload_hash() {
    let data_processor = BTCMessageBuilder::default();

    let command = "command";

    let result = data_processor.build(command, &vec![]).unwrap();

    // this is the expected value for an empty payload hash
    assert_eq!(&result[20..], &[0x5d, 0xf6, 0xe0, 0xe2]);
}

#[test]
fn test_version_message_build() {
    let data_processor = BTCMessageBuilder::default();

    let result = data_processor.version();

    assert!(result.is_ok());
}

#[test]
fn test_version_message_parse() {
    let data_processor = BTCMessageBuilder::default();

    let result = data_processor.version().unwrap();

    let version_message = data_processor.parse_message_payload(&result);

    assert!(version_message.is_ok());

    let version_message = version_message.unwrap();

    assert_eq!(version_message.user_agent, USER_AGENT);
    assert_eq!(version_message.version, PROTOCOL_VERSION);
    assert_eq!(version_message.services, SERVICES);
}
