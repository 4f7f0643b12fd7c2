//! The counter block of the AES-CTR encryption of SRT payloads.
use vstd::prelude::*;

verus! {

/// The counter state of one packet: the block counter within the packet, the packet index and
/// ten zero bytes.
#[derive(Clone, Debug)]
pub struct Counter {
    pub block_counter: u16,
    pub packet_index: u32,
    pub zeroed: [u8; 10],
}

/// A 128-bit nonce.
#[derive(Clone)]
pub struct Nonce(pub u128);

} // verus!
