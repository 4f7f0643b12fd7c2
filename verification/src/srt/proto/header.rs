//! Headers of the control packets, each tied to its control type.
use vstd::prelude::*;
use crate::srt::{ControlPacketType, Error, Header, PacketType};

verus! {

/// The control packet header of type `typ`: the first bit set, the control type in bits 1 to
/// 15, all other bits zero.
pub open spec fn spec_control_header(typ: ControlPacketType) -> Header {
    Header {
        seg0: (0x8000_0000u32 | ((typ.spec_to_u16() as u32) << 16u32)) as u32,
        seg1: 0,
        timestamp: 0,
        destination_socket_id: 0,
    }
}

/// A control packet header with the given control type and all other fields zero.
pub fn control_header(typ: ControlPacketType) -> (h: Header)
    ensures
        h == spec_control_header(typ),
        is_control_of(h, typ),
{
    let v = typ.to_u16() as u32;
    proof {
        ControlPacketType::lemma_u16_roundtrip(typ);
    }
    let w = 0x8000_0000u32 | (v << 16u32);
    assert(v <= 0x7fff ==> (0x8000_0000u32 | (v << 16u32)) >> 31u32 != 0u32 && ((0x8000_0000u32
        | (v << 16u32)) >> 16u32) & 0x7fffu32 == v) by (bit_vector);
    Header { seg0: w, seg1: 0, timestamp: 0, destination_socket_id: 0 }
}

/// The header is a control header of type `typ`.
pub open spec fn is_control_of(h: Header, typ: ControlPacketType) -> bool {
    h.spec_packet_type() == PacketType::Control && h.spec_control_type() == Some(typ)
}

/// The result of checking that a header is a control header of type `typ`.
pub open spec fn check_control(h: Header, typ: ControlPacketType) -> Result<Header, Error> {
    if h.spec_packet_type() == PacketType::Data {
        Err(Error::InvalidPacketType(0))
    } else if h.spec_control_type() != Some(typ) {
        Err(Error::InvalidControlType(typ.spec_to_u16()))
    } else {
        Ok(h)
    }
}

/// Checks that `header` is a control header of type `typ`; its control type must be a known
/// one.
fn try_control(header: Header, typ: ControlPacketType) -> (r: Result<Header, Error>)
    requires
        header.spec_packet_type() == PacketType::Control ==> header.spec_control_type() is Some,
    ensures
        r == check_control(header, typ),
{
    let ctrl = header.as_control()?;
    if ctrl.control_type() != typ {
        Err(Error::InvalidControlType(typ.to_u16()))
    } else {
        Ok(header)
    }
}

/// The header of a handshake packet.
#[derive(Copy, Clone, Debug)]
pub struct HandshakeHeader(pub Header);

/// Header for the keep-alive packet.
#[derive(Copy, Clone, Debug)]
pub struct KeepaliveHeader(pub Header);

/// The header of an acknowledgement packet.
#[derive(Copy, Clone, Debug)]
pub struct AckHeader(pub Header);

/// The header of a negative acknowledgement packet.
#[derive(Copy, Clone, Debug)]
pub struct NakHeader(pub Header);

/// The header of a shutdown packet.
#[derive(Copy, Clone, Debug)]
pub struct ShutdownHeader(pub Header);

/// The header of an acknowledgement of an acknowledgement.
#[derive(Copy, Clone, Debug)]
pub struct AckAckHeader(pub Header);

/// The header of a drop request packet.
#[derive(Copy, Clone, Debug)]
pub struct DropRequestHeader(pub Header);

impl HandshakeHeader {
    /// A control header of the handshake type.
    pub fn default() -> (h: Self)
        ensures
            h.0 == spec_control_header(ControlPacketType::Handshake),
            is_control_of(h.0, ControlPacketType::Handshake),
    {
        Self(control_header(ControlPacketType::Handshake))
    }

    /// Accepts a control header of the handshake type.
    pub fn try_from(header: Header) -> (r: Result<Self, Error>)
        requires
            header.spec_packet_type() == PacketType::Control ==> header.spec_control_type() is Some,
        ensures
            match r {
                Ok(h) => check_control(header, ControlPacketType::Handshake) == Ok::<Header, Error>(h.0),
                Err(e) => check_control(header, ControlPacketType::Handshake) == Err::<Header, Error>(e),
            },
    {
        let h = try_control(header, ControlPacketType::Handshake)?;
        Ok(Self(h))
    }
}

impl KeepaliveHeader {
    /// A control header of the keep-alive type.
    pub fn default() -> (h: Self)
        ensures
            h.0 == spec_control_header(ControlPacketType::Keepalive),
            is_control_of(h.0, ControlPacketType::Keepalive),
    {
        Self(control_header(ControlPacketType::Keepalive))
    }

    /// Accepts a control header of the keep-alive type.
    pub fn try_from(header: Header) -> (r: Result<Self, Error>)
        requires
            header.spec_packet_type() == PacketType::Control ==> header.spec_control_type() is Some,
        ensures
            match r {
                Ok(h) => check_control(header, ControlPacketType::Keepalive) == Ok::<Header, Error>(h.0),
                Err(e) => check_control(header, ControlPacketType::Keepalive) == Err::<Header, Error>(e),
            },
    {
        let h = try_control(header, ControlPacketType::Keepalive)?;
        Ok(Self(h))
    }
}

impl AckHeader {
    /// A control header of the acknowledgement type.
    pub fn default() -> (h: Self)
        ensures
            h.0 == spec_control_header(ControlPacketType::Ack),
            is_control_of(h.0, ControlPacketType::Ack),
    {
        Self(control_header(ControlPacketType::Ack))
    }

    /// Accepts a control header of the acknowledgement type.
    pub fn try_from(header: Header) -> (r: Result<Self, Error>)
        requires
            header.spec_packet_type() == PacketType::Control ==> header.spec_control_type() is Some,
        ensures
            match r {
                Ok(h) => check_control(header, ControlPacketType::Ack) == Ok::<Header, Error>(h.0),
                Err(e) => check_control(header, ControlPacketType::Ack) == Err::<Header, Error>(e),
            },
    {
        let h = try_control(header, ControlPacketType::Ack)?;
        Ok(Self(h))
    }
}

impl NakHeader {
    /// A control header of the negative acknowledgement type.
    pub fn default() -> (h: Self)
        ensures
            h.0 == spec_control_header(ControlPacketType::Nak),
            is_control_of(h.0, ControlPacketType::Nak),
    {
        Self(control_header(ControlPacketType::Nak))
    }

    /// Accepts a control header of the negative acknowledgement type.
    pub fn try_from(header: Header) -> (r: Result<Self, Error>)
        requires
            header.spec_packet_type() == PacketType::Control ==> header.spec_control_type() is Some,
        ensures
            match r {
                Ok(h) => check_control(header, ControlPacketType::Nak) == Ok::<Header, Error>(h.0),
                Err(e) => check_control(header, ControlPacketType::Nak) == Err::<Header, Error>(e),
            },
    {
        let h = try_control(header, ControlPacketType::Nak)?;
        Ok(Self(h))
    }
}

impl ShutdownHeader {
    /// A control header of the shutdown type.
    pub fn default() -> (h: Self)
        ensures
            h.0 == spec_control_header(ControlPacketType::Shutdown),
            is_control_of(h.0, ControlPacketType::Shutdown),
    {
        Self(control_header(ControlPacketType::Shutdown))
    }

    /// Accepts a control header of the shutdown type.
    pub fn try_from(header: Header) -> (r: Result<Self, Error>)
        requires
            header.spec_packet_type() == PacketType::Control ==> header.spec_control_type() is Some,
        ensures
            match r {
                Ok(h) => check_control(header, ControlPacketType::Shutdown) == Ok::<Header, Error>(h.0),
                Err(e) => check_control(header, ControlPacketType::Shutdown) == Err::<Header, Error>(e),
            },
    {
        let h = try_control(header, ControlPacketType::Shutdown)?;
        Ok(Self(h))
    }
}

impl AckAckHeader {
    /// A control header of the ACKACK type.
    pub fn default() -> (h: Self)
        ensures
            h.0 == spec_control_header(ControlPacketType::AckAck),
            is_control_of(h.0, ControlPacketType::AckAck),
    {
        Self(control_header(ControlPacketType::AckAck))
    }

    /// Accepts a control header of the ACKACK type.
    pub fn try_from(header: Header) -> (r: Result<Self, Error>)
        requires
            header.spec_packet_type() == PacketType::Control ==> header.spec_control_type() is Some,
        ensures
            match r {
                Ok(h) => check_control(header, ControlPacketType::AckAck) == Ok::<Header, Error>(h.0),
                Err(e) => check_control(header, ControlPacketType::AckAck) == Err::<Header, Error>(e),
            },
    {
        let h = try_control(header, ControlPacketType::AckAck)?;
        Ok(Self(h))
    }
}

impl DropRequestHeader {
    /// A control header of the drop request type.
    pub fn default() -> (h: Self)
        ensures
            h.0 == spec_control_header(ControlPacketType::DropReq),
            is_control_of(h.0, ControlPacketType::DropReq),
    {
        Self(control_header(ControlPacketType::DropReq))
    }

    /// Accepts a control header of the drop request type.
    pub fn try_from(header: Header) -> (r: Result<Self, Error>)
        requires
            header.spec_packet_type() == PacketType::Control ==> header.spec_control_type() is Some,
        ensures
            match r {
                Ok(h) => check_control(header, ControlPacketType::DropReq) == Ok::<Header, Error>(h.0),
                Err(e) => check_control(header, ControlPacketType::DropReq) == Err::<Header, Error>(e),
            },
    {
        let h = try_control(header, ControlPacketType::DropReq)?;
        Ok(Self(h))
    }
}

} // verus!
