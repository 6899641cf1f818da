//! Process-wide protocol configuration: protocol version, advertised
//! services, user agent, start height, and the known network magic values.

use vstd::prelude::*;

verus! {

pub const PROTOCOL_VERSION: i32 = 70015;

pub const USER_AGENT: &'static str = "/Bitcoin_Handshake/";

pub const START_HEIGHT: i32 = 0;

pub const SERVICES: u64 = 1;

pub const REGTEST_CHAIN_MAGIC_BYTES: [u8; 4] = [0xfa, 0xbf, 0xb5, 0xda];

pub const DEVNET_CHAIN_MAGIC_BYTES: [u8; 4] = [0x0b, 0x11, 0x09, 0x07];

} // verus!
