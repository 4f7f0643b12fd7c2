//! State shared by the whole server: the source of handshake cookies, and socket ids.
use vstd::prelude::*;
use rand::RngCore;
use vstd::std_specs::cmp::PartialEqSpecImpl;
use vstd::std_specs::convert::FromSpecImpl;

verus! {

/// A random `u32` from the operating system, or none when the operating system fails to
/// deliver random bytes.
///
/// Calls `RngCore::try_fill_bytes` on `rand::rngs::OsRng` with four bytes, which reports a
/// failure of the operating system's generator as an error; the bytes are read as a
/// little-endian `u32`. Nothing is promised of the value, nor of whether it succeeds.
#[verifier::external_body]
fn os_random_u32() -> Option<u32> {
    let mut bytes = [0u8; 4];
    match rand::rngs::OsRng.try_fill_bytes(&mut bytes) {
        Ok(()) => Some(u32::from_le_bytes(bytes)),
        Err(_) => None,
    }
}

/// The handshake cookie made from the random word `bits`: its upper 31 bits.
pub fn cookie_from_bits(bits: u32) -> (c: u32)
    ensures
        c == bits >> 1u32,
        c <= 0x7fff_ffff,
{
    assert(bits >> 1u32 <= 0x7fff_ffffu32) by (bit_vector);
    bits >> 1u32
}

/// A random handshake cookie: the cookie made from a random word of the operating system, or
/// none when the operating system fails to deliver random bytes.
pub fn random() -> (r: Option<u32>)
    ensures
        r is None || exists|bits: u32| r == Some(bits >> 1u32),
        r matches Some(v) ==> v <= 0x7fff_ffff,
{
    match os_random_u32() {
        Some(bits) => Some(cookie_from_bits(bits)),
        None => None,
    }
}

/// The id of an SRT socket.
#[derive(Copy, Clone, Debug, PartialEq, Eq, Structural, Hash)]
pub struct SocketId(pub u32);

impl PartialEq<u32> for SocketId {
    fn eq(&self, other: &u32) -> (r: bool) {
        self.0 == *other
    }
}

impl PartialEqSpecImpl<u32> for SocketId {
    open spec fn obeys_eq_spec() -> bool {
        true
    }

    open spec fn eq_spec(&self, other: &u32) -> bool {
        self.0 == *other
    }
}

impl From<u32> for SocketId {
    fn from(src: u32) -> (r: Self) {
        Self(src)
    }
}

impl FromSpecImpl<u32> for SocketId {
    open spec fn obeys_from_spec() -> bool {
        true
    }

    open spec fn from_spec(src: u32) -> Self {
        SocketId(src)
    }
}

} // verus!
