use btc_handshake::constants::{DEVNET_CHAIN_MAGIC_BYTES, PROTOCOL_VERSION, REGTEST_CHAIN_MAGIC_BYTES};
use btc_handshake::error::Error;
use btc_handshake::handshaker::{HandshakeState, Handshaker};
use btc_handshake::message_builder::BTCMessageBuilder;

// A fake peer on the same network: produces the frames a conformant node
// would send back during a handshake.
fn peer_version_frame(magic: [u8; 4]) -> Vec<u8> {
    let mut peer = BTCMessageBuilder::default();
    peer.set_magic_bytes(magic);
    let payload = peer.version_with_timestamp(1_700_000_000);
    peer.build("version", &payload).unwrap()
}

fn peer_verack_frame(magic: [u8; 4]) -> Vec<u8> {
    let mut peer = BTCMessageBuilder::default();
    peer.set_magic_bytes(magic);
    peer.build("verack", &vec![]).unwrap()
}

#[test]
fn test_handshake_completes_against_conformant_peer() {
    let regtest = REGTEST_CHAIN_MAGIC_BYTES;
    let mut handshaker = Handshaker::init(BTCMessageBuilder::default());
    assert_eq!(handshaker.state, HandshakeState::Idle);

    handshaker.on_connected();
    assert_eq!(handshaker.state, HandshakeState::Connected);

    let version_frame = handshaker.send_version().unwrap();
    assert_eq!(handshaker.state, HandshakeState::VersionSent);
    assert_eq!(&version_frame[0..4], regtest);
    assert_eq!(&version_frame[4..11], "version".as_bytes());

    let peer_version = peer_version_frame(regtest);
    let message = handshaker
        .on_version_message(&peer_version[0..24], &peer_version[24..])
        .unwrap();
    assert_eq!(handshaker.state, HandshakeState::PeerVersionReceived);
    assert_eq!(message.version, PROTOCOL_VERSION);
    assert!(message.relay);

    let verack_frame = handshaker.send_verack();
    assert_eq!(handshaker.state, HandshakeState::VerackSent);
    assert_eq!(verack_frame.len(), 24);
    assert_eq!(&verack_frame[4..10], "verack".as_bytes());

    let peer_verack = peer_verack_frame(regtest);
    handshaker
        .on_verack_message(&peer_verack[0..24], &peer_verack[24..])
        .unwrap();
    assert_eq!(handshaker.state, HandshakeState::Complete);
}

#[test]
fn test_handshake_aborts_on_wrong_magic_before_verack() {
    let mut handshaker = Handshaker::init(BTCMessageBuilder::default());
    handshaker.on_connected();
    let _version_frame = handshaker.send_version().unwrap();

    // the peer answers with a frame from a different network
    let peer_version = peer_version_frame(DEVNET_CHAIN_MAGIC_BYTES);

    let mut verack_sent = false;
    match handshaker.on_version_message(&peer_version[0..24], &peer_version[24..]) {
        Ok(_) => {
            let _ = handshaker.send_verack();
            verack_sent = true;
        }
        Err(e) => {
            assert_eq!(e, Error::InvalidMagic);
        }
    }

    assert!(!verack_sent);
    assert_eq!(handshaker.state, HandshakeState::Failed);
}

#[test]
fn test_handshake_aborts_on_corrupt_peer_version() {
    let regtest = REGTEST_CHAIN_MAGIC_BYTES;
    let mut handshaker = Handshaker::init(BTCMessageBuilder::default());
    handshaker.on_connected();
    let _version_frame = handshaker.send_version().unwrap();

    let peer_version = peer_version_frame(regtest);
    let mut corrupted = peer_version[24..].to_vec();
    corrupted[10] ^= 0x80;

    let result = handshaker.on_version_message(&peer_version[0..24], &corrupted);
    assert_eq!(result.unwrap_err(), Error::InvalidChecksum);
    assert_eq!(handshaker.state, HandshakeState::Failed);
}

#[test]
fn test_transport_failure_abandons_handshake() {
    let mut handshaker = Handshaker::init(BTCMessageBuilder::default());
    handshaker.on_connected();
    handshaker.on_transport_failure();
    assert_eq!(handshaker.state, HandshakeState::Failed);
}

#[test]
fn test_declared_payload_len_reads_header() {
    let builder = BTCMessageBuilder::default();
    let payload = vec![9u8; 300];
    let frame = builder.build("version", &payload).unwrap();
    assert_eq!(BTCMessageBuilder::declared_payload_len(&frame[0..24]), 300);
}
