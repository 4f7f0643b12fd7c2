//! The handshake packet and its wire format.
use vstd::prelude::*;
use crate::codec::{be16, be32, be128, u16_at, u32_at, u128_at, put_u16, put_u32, put_u128,
    get_u16, get_u32, get_u128, lemma_u16_roundtrip, lemma_u32_roundtrip, lemma_u128_roundtrip};
use super::{Error, Header, control_bits, header_at, header_bytes, lemma_header_roundtrip, Packet, ControlPacketType, PacketType};
use super::extension::{ExtensionField, Extensions, ExtensionView, extensions_bytes,
    spec_decode_extensions, decodable_extensions, lemma_extensions_roundtrip};

verus! {

/// The handshake message types.
#[derive(Copy, Clone, Debug, PartialEq, Eq, Structural, Hash)]
pub enum HandshakeType {
    Induction,
    Wavehand,
    Conclusion,
    Agreement,
    Done,
    /// The listener rejects the caller as a rogue peer (rejection reason 4, sent as 1004).
    /// A listener only sends it, so decoding does not accept it.
    RejectRogue,
}

impl HandshakeType {
    /// The wire value of each handshake type.
    pub open spec fn spec_value(self) -> u32 {
        match self {
            HandshakeType::Done => 0xFFFFFFFD,
            HandshakeType::Agreement => 0xFFFFFFFE,
            HandshakeType::Conclusion => 0xFFFFFFFF,
            HandshakeType::Wavehand => 0x00000000,
            HandshakeType::Induction => 0x00000001,
            HandshakeType::RejectRogue => 1004,
        }
    }

    /// The handshake type with wire value `v`, if there is one.
    pub open spec fn spec_from_value(v: u32) -> Option<HandshakeType> {
        if v == 0xFFFFFFFD {
            Some(HandshakeType::Done)
        } else if v == 0xFFFFFFFE {
            Some(HandshakeType::Agreement)
        } else if v == 0xFFFFFFFF {
            Some(HandshakeType::Conclusion)
        } else if v == 0 {
            Some(HandshakeType::Wavehand)
        } else if v == 1 {
            Some(HandshakeType::Induction)
        } else {
            None
        }
    }

    /// The default handshake type.
    pub fn default() -> (t: Self)
        ensures
            t == HandshakeType::Induction,
    {
        HandshakeType::Induction
    }

    /// Appends the four bytes of the wire value to `buf`.
    pub fn encode(&self, buf: &mut Vec<u8>)
        ensures
            final(buf)@ == old(buf)@ + be32(self.spec_value()),
    {
        let val: u32 = match self {
            Self::Done => 0xFFFFFFFD,
            Self::Agreement => 0xFFFFFFFE,
            Self::Conclusion => 0xFFFFFFFF,
            Self::Wavehand => 0x00000000,
            Self::Induction => 0x00000001,
            Self::RejectRogue => 1004,
        };
        put_u32(buf, val);
    }

    /// Decodes a handshake type at `pos`; at least four bytes must remain.
    pub fn decode_at(buf: &[u8], pos: usize) -> (r: Result<Self, Error>)
        requires
            pos + 4 <= buf@.len(),
        ensures
            r == spec_decode_handshake_type(u32_at(buf@, pos as int)),
    {
        let v = get_u32(buf, pos);
        match v {
            0xFFFFFFFD => Ok(Self::Done),
            0xFFFFFFFE => Ok(Self::Agreement),
            0xFFFFFFFF => Ok(Self::Conclusion),
            0x00000000 => Ok(Self::Wavehand),
            0x00000001 => Ok(Self::Induction),
            val => Err(Error::InvalidHandshakeType(val)),
        }
    }

    /// Converting a handshake type that a caller sends to its wire value and back gives the
    /// handshake type.
    pub proof fn lemma_value_roundtrip(t: HandshakeType)
        requires
            t != HandshakeType::RejectRogue,
        ensures
            Self::spec_from_value(t.spec_value()) == Some(t),
    {
    }
}

/// The result of decoding the handshake type value `v`.
pub open spec fn spec_decode_handshake_type(v: u32) -> Result<HandshakeType, Error> {
    match HandshakeType::spec_from_value(v) {
        Some(t) => Ok(t),
        None => Err(Error::InvalidHandshakeType(v)),
    }
}

/// Block cipher family and key size.
#[derive(Copy, Clone, Debug, PartialEq, Eq, Structural)]
pub enum EncryptionField {
    /// No encryption.
    NoEncryption,
    AES128,
    AES192,
    AES256,
}

/// A handshake control packet.
#[derive(Debug)]
pub struct HandshakePacket {
    pub header: Header,
    /// A base protocol version number. Currently used values are 4 and 5.
    pub version: u32,
    /// Block cipher family and key size.
    pub encryption_field: u16,
    /// Message specific extension related to the handshake type field.
    pub extension_field: ExtensionField,
    /// The sequence number of the very first data packet to be sent.
    pub initial_packet_sequence_number: u32,
    /// Typically 1500, the default Maximum Transmission Unit (MTU) size for Ethernet.
    pub maximum_transmission_unit_size: u32,
    /// The maximum number of data packets allowed to be "in flight".
    pub maximum_flow_window_size: u32,
    /// The handshake packet type.
    pub handshake_type: HandshakeType,
    /// The ID of the source SRT socket from which a handshake packet is issued.
    pub srt_socket_id: u32,
    /// Randomized value for processing a handshake.
    pub syn_cookie: u32,
    /// IPv4 or IPv6 address of the packet's sender.
    pub peer_ip_address: u128,
    pub extensions: Extensions,
}

/// The mathematical value of a handshake packet.
pub ghost struct HandshakeView {
    pub header: Header,
    pub version: u32,
    pub encryption_field: u16,
    pub extension_field: u16,
    pub initial_packet_sequence_number: u32,
    pub maximum_transmission_unit_size: u32,
    pub maximum_flow_window_size: u32,
    pub handshake_type: HandshakeType,
    pub srt_socket_id: u32,
    pub syn_cookie: u32,
    pub peer_ip_address: u128,
    pub extensions: Seq<ExtensionView>,
}

impl View for HandshakePacket {
    type V = HandshakeView;

    open spec fn view(&self) -> HandshakeView {
        HandshakeView {
            header: self.header,
            version: self.version,
            encryption_field: self.encryption_field,
            extension_field: self.extension_field.0,
            initial_packet_sequence_number: self.initial_packet_sequence_number,
            maximum_transmission_unit_size: self.maximum_transmission_unit_size,
            maximum_flow_window_size: self.maximum_flow_window_size,
            handshake_type: self.handshake_type,
            srt_socket_id: self.srt_socket_id,
            syn_cookie: self.syn_cookie,
            peer_ip_address: self.peer_ip_address,
            extensions: self.extensions@,
        }
    }
}

/// The bytes of a handshake packet after its header.
pub open spec fn handshake_body_bytes(p: HandshakeView) -> Seq<u8> {
    be32(p.version) + be16(p.encryption_field) + be16(p.extension_field) + be32(
        p.initial_packet_sequence_number,
    ) + be32(p.maximum_transmission_unit_size) + be32(p.maximum_flow_window_size) + be32(
        p.handshake_type.spec_value(),
    ) + be32(p.srt_socket_id) + be32(p.syn_cookie) + be128(p.peer_ip_address) + extensions_bytes(
        p.extensions,
    )
}

/// The bytes of a handshake packet: header, then body.
pub open spec fn handshake_bytes(p: HandshakeView) -> Seq<u8> {
    header_bytes(p.header) + handshake_body_bytes(p)
}

/// The handshake type of the fields that start at `o` is not cut short: reading a handshake
/// type from fewer than four bytes panics, so decoding requires this.
pub open spec fn handshake_type_not_cut(s: Seq<u8>, o: int) -> bool {
    !(o + 20 <= s.len() < o + 24)
}

/// The result of decoding the handshake fields that start at `o` in `s`, with the given
/// header.
pub open spec fn spec_decode_handshake_fields(s: Seq<u8>, o: int, header: Header) -> Result<HandshakeView, Error> {
    if s.len() < o + 20 {
        Err(Error::UnexpectedEof)
    } else {
        match spec_decode_handshake_type(u32_at(s, o + 20)) {
            Err(e) => Err(e),
            Ok(t) => if s.len() < o + 48 {
                Err(Error::UnexpectedEof)
            } else {
                match spec_decode_extensions(s.skip(o + 48)) {
                    Err(e) => Err(e),
                    Ok(es) => Ok(
                        HandshakeView {
                            header,
                            version: u32_at(s, o),
                            encryption_field: u16_at(s, o + 4),
                            extension_field: u16_at(s, o + 6),
                            initial_packet_sequence_number: u32_at(s, o + 8),
                            maximum_transmission_unit_size: u32_at(s, o + 12),
                            maximum_flow_window_size: u32_at(s, o + 16),
                            handshake_type: t,
                            srt_socket_id: u32_at(s, o + 24),
                            syn_cookie: u32_at(s, o + 28),
                            peer_ip_address: u128_at(s, o + 32),
                            extensions: es,
                        },
                    ),
                }
            },
        }
    }
}

/// The result of decoding a handshake packet with its header from `s`.
pub open spec fn spec_decode_handshake(s: Seq<u8>) -> Result<HandshakeView, Error> {
    if s.len() < 16 {
        Err(Error::UnexpectedEof)
    } else {
        spec_decode_handshake_fields(s, 16, header_at(s, 0))
    }
}

/// The all-zero header.
pub open spec fn zero_header() -> Header {
    Header { seg0: 0, seg1: 0, timestamp: 0, destination_socket_id: 0 }
}

impl HandshakePacket {
    /// A handshake packet with all fields zero, INDUCTION type and no extensions.
    pub fn default() -> (p: Self)
        ensures
            p@ == (HandshakeView {
                header: zero_header(),
                version: 0,
                encryption_field: 0,
                extension_field: 0,
                initial_packet_sequence_number: 0,
                maximum_transmission_unit_size: 0,
                maximum_flow_window_size: 0,
                handshake_type: HandshakeType::Induction,
                srt_socket_id: 0,
                syn_cookie: 0,
                peer_ip_address: 0,
                extensions: Seq::empty(),
            }),
    {
        let p = HandshakePacket {
            header: Header::default(),
            version: 0,
            encryption_field: 0,
            extension_field: ExtensionField::default(),
            initial_packet_sequence_number: 0,
            maximum_transmission_unit_size: 0,
            maximum_flow_window_size: 0,
            handshake_type: HandshakeType::default(),
            srt_socket_id: 0,
            syn_cookie: 0,
            peer_ip_address: 0,
            extensions: Extensions::default(),
        };
        proof {
            assert(p.extensions@ =~= Seq::<ExtensionView>::empty());
        }
        p
    }

    /// Appends the bytes of the packet after its header to `buf`.
    pub fn encode_body(&self, buf: &mut Vec<u8>)
        ensures
            final(buf)@ == old(buf)@ + handshake_body_bytes(self@),
    {
        put_u32(buf, self.version);
        put_u16(buf, self.encryption_field);
        self.extension_field.encode(buf);
        put_u32(buf, self.initial_packet_sequence_number);
        put_u32(buf, self.maximum_transmission_unit_size);
        put_u32(buf, self.maximum_flow_window_size);
        self.handshake_type.encode(buf);
        put_u32(buf, self.srt_socket_id);
        put_u32(buf, self.syn_cookie);
        put_u128(buf, self.peer_ip_address);
        self.extensions.encode(buf);
        proof {
            assert(final(buf)@ =~= old(buf)@ + handshake_body_bytes(self@));
        }
    }

    /// Appends the bytes of the header and the body to `buf`.
    pub fn encode(&self, buf: &mut Vec<u8>)
        ensures
            final(buf)@ == old(buf)@ + handshake_bytes(self@),
    {
        self.header.encode(buf);
        self.encode_body(buf);
        proof {
            assert(final(buf)@ =~= old(buf)@ + handshake_bytes(self@));
        }
    }

    /// Decodes the handshake fields at `pos` with the given header.
    fn decode_fields(buf: &[u8], pos: usize, header: Header) -> (r: Result<Self, Error>)
        requires
            pos <= buf@.len(),
            handshake_type_not_cut(buf@, pos as int),
        ensures
            match r {
                Ok(p) => spec_decode_handshake_fields(buf@, pos as int, header) == Ok::<
                    HandshakeView,
                    Error,
                >(p@),
                Err(e) => spec_decode_handshake_fields(buf@, pos as int, header) == Err::<
                    HandshakeView,
                    Error,
                >(e),
            },
    {
        let n = buf.len();
        if n - pos < 20 {
            return Err(Error::UnexpectedEof);
        }
        let version = get_u32(buf, pos);
        let encryption_field = get_u16(buf, pos + 4);
        let extension_field = ExtensionField(get_u16(buf, pos + 6));
        let initial_packet_sequence_number = get_u32(buf, pos + 8);
        let maximum_transmission_unit_size = get_u32(buf, pos + 12);
        let maximum_flow_window_size = get_u32(buf, pos + 16);
        let handshake_type = HandshakeType::decode_at(buf, pos + 20)?;
        if n - pos < 48 {
            return Err(Error::UnexpectedEof);
        }
        let srt_socket_id = get_u32(buf, pos + 24);
        let syn_cookie = get_u32(buf, pos + 28);
        let peer_ip_address = get_u128(buf, pos + 32);
        let extensions = Extensions::decode_at(buf, pos + 48)?;
        Ok(HandshakePacket {
            header,
            version,
            encryption_field,
            extension_field,
            initial_packet_sequence_number,
            maximum_transmission_unit_size,
            maximum_flow_window_size,
            handshake_type,
            srt_socket_id,
            syn_cookie,
            peer_ip_address,
            extensions,
        })
    }

    /// Decodes the body of a handshake packet (without header) from `buf`; the header of the
    /// result is zero.
    pub fn decode_body(buf: &[u8]) -> (r: Result<Self, Error>)
        requires
            handshake_type_not_cut(buf@, 0),
        ensures
            match r {
                Ok(p) => spec_decode_handshake_fields(buf@, 0, zero_header()) == Ok::<
                    HandshakeView,
                    Error,
                >(p@),
                Err(e) => spec_decode_handshake_fields(buf@, 0, zero_header()) == Err::<
                    HandshakeView,
                    Error,
                >(e),
            },
    {
        Self::decode_fields(buf, 0, Header::default())
    }

    /// Decodes a handshake packet with its header from `buf`.
    pub fn decode(buf: &[u8]) -> (r: Result<Self, Error>)
        requires
            handshake_type_not_cut(buf@, 16),
        ensures
            match r {
                Ok(p) => spec_decode_handshake(buf@) == Ok::<HandshakeView, Error>(p@),
                Err(e) => spec_decode_handshake(buf@) == Err::<HandshakeView, Error>(e),
            },
    {
        let header = Header::decode(buf)?;
        Self::decode_fields(buf, 16, header)
    }

    /// Converts the handshake into a generic packet whose body holds the encoded fields.
    pub fn upcast(self) -> (p: Packet)
        ensures
            p.header == self.header,
            p.body@ == handshake_body_bytes(self@),
    {
        let mut body = Vec::new();
        self.encode_body(&mut body);
        proof {
            assert(body@ =~= handshake_body_bytes(self@));
        }
        Packet { header: self.header, body }
    }

    /// Converts a generic packet into a handshake: the packet must be a control packet of the
    /// handshake type, and its body must decode.
    pub fn downcast(packet: Packet) -> (r: Result<Self, Error>)
        requires
            packet.header.spec_packet_type() == PacketType::Control && packet.header.spec_control_type()
                == Some(ControlPacketType::Handshake) ==> handshake_type_not_cut(packet.body@, 0),
        ensures
            packet.header.spec_packet_type() == PacketType::Data ==> r == Err::<Self, Error>(
                Error::InvalidPacketType(0),
            ),
            packet.header.spec_packet_type() == PacketType::Control && packet.header.spec_control_type()
                is None ==> r == Err::<Self, Error>(
                Error::InvalidControlType(control_bits(packet.header.seg0) as u16),
            ),
            packet.header.spec_packet_type() == PacketType::Control && packet.header.spec_control_type()
                is Some && packet.header.spec_control_type() != Some(ControlPacketType::Handshake)
                ==> r == Err::<Self, Error>(
                Error::InvalidControlType(packet.header.spec_control_type().unwrap().spec_to_u16()),
            ),
            packet.header.spec_packet_type() == PacketType::Control && packet.header.spec_control_type()
                == Some(ControlPacketType::Handshake) ==> match r {
                Ok(p) => (spec_decode_handshake_fields(packet.body@, 0, zero_header()) matches Ok(v)
                    && p@ == (HandshakeView { header: packet.header, ..v })),
                Err(e) => spec_decode_handshake_fields(packet.body@, 0, zero_header()) == Err::<
                    HandshakeView,
                    Error,
                >(e),
            },
    {
        let header = packet.header.as_control()?;
        let w = packet.header.seg0;
        let bits = (w >> 16u32) & 0x7fffu32;
        let ct = match ControlPacketType::from_u32(bits) {
            Some(ct) => ct,
            None => {
                assert(bits <= 0x7fff) by (bit_vector)
                    requires
                        bits == (w >> 16u32) & 0x7fffu32,
                ;
                return Err(Error::InvalidControlType(bits as u16));
            },
        };
        if ct != ControlPacketType::Handshake {
            return Err(Error::InvalidControlType(ct.to_u16()));
        }
        let mut this = Self::decode_body(packet.body.as_slice())?;
        this.header = header.header;
        Ok(this)
    }
}

/// Decoding the bytes of a handshake packet gives back the packet, when its extensions are
/// decodable (see [`decodable_extensions`]) and it is not a rogue rejection, which decoding
/// refuses; such bytes are never cut short at the handshake type.
#[verifier::spinoff_prover]
#[verifier::rlimit(100)]
pub proof fn lemma_handshake_roundtrip(p: HandshakeView)
    requires
        decodable_extensions(p.extensions),
        p.handshake_type != HandshakeType::RejectRogue,
    ensures
        spec_decode_handshake(handshake_bytes(p)) == Ok::<HandshakeView, Error>(p),
        handshake_type_not_cut(handshake_bytes(p), 16),
{
    let s = handshake_bytes(p);
    let b = handshake_body_bytes(p);
    assert(s.subrange(0, 16) =~= header_bytes(p.header));
    lemma_header_roundtrip(p.header, s, 0);
    assert(s.subrange(16, 20) =~= be32(p.version));
    assert(s.subrange(20, 22) =~= be16(p.encryption_field));
    assert(s.subrange(22, 24) =~= be16(p.extension_field));
    assert(s.subrange(24, 28) =~= be32(p.initial_packet_sequence_number));
    assert(s.subrange(28, 32) =~= be32(p.maximum_transmission_unit_size));
    assert(s.subrange(32, 36) =~= be32(p.maximum_flow_window_size));
    assert(s.subrange(36, 40) =~= be32(p.handshake_type.spec_value()));
    assert(s.subrange(40, 44) =~= be32(p.srt_socket_id));
    assert(s.subrange(44, 48) =~= be32(p.syn_cookie));
    assert(s.subrange(48, 64) =~= be128(p.peer_ip_address));
    assert(s.skip(64) =~= extensions_bytes(p.extensions));
    lemma_u32_roundtrip(p.version, s, 16);
    lemma_u16_roundtrip(p.encryption_field, s, 20);
    lemma_u16_roundtrip(p.extension_field, s, 22);
    lemma_u32_roundtrip(p.initial_packet_sequence_number, s, 24);
    lemma_u32_roundtrip(p.maximum_transmission_unit_size, s, 28);
    lemma_u32_roundtrip(p.maximum_flow_window_size, s, 32);
    lemma_u32_roundtrip(p.handshake_type.spec_value(), s, 36);
    lemma_u32_roundtrip(p.srt_socket_id, s, 40);
    lemma_u32_roundtrip(p.syn_cookie, s, 44);
    lemma_u128_roundtrip(p.peer_ip_address, s, 48);
    HandshakeType::lemma_value_roundtrip(p.handshake_type);
    lemma_extensions_roundtrip(p.extensions);
}

/// Decoding the body that [`HandshakePacket::encode_body`] writes gives back the handshake
/// fields, under whatever header the packet is given, when its extensions are decodable (see
/// [`decodable_extensions`]) and it is not a rogue rejection, which decoding refuses; such a
/// body is never cut short at the handshake type.
#[verifier::spinoff_prover]
#[verifier::rlimit(100)]
pub proof fn lemma_handshake_body_roundtrip(p: HandshakeView, header: Header)
    requires
        decodable_extensions(p.extensions),
        p.handshake_type != HandshakeType::RejectRogue,
    ensures
        spec_decode_handshake_fields(handshake_body_bytes(p), 0, header) == Ok::<HandshakeView, Error>(
            HandshakeView { header, ..p },
        ),
        handshake_type_not_cut(handshake_body_bytes(p), 0),
{
    let s = handshake_body_bytes(p);
    assert(s.subrange(0, 4) =~= be32(p.version));
    assert(s.subrange(4, 6) =~= be16(p.encryption_field));
    assert(s.subrange(6, 8) =~= be16(p.extension_field));
    assert(s.subrange(8, 12) =~= be32(p.initial_packet_sequence_number));
    assert(s.subrange(12, 16) =~= be32(p.maximum_transmission_unit_size));
    assert(s.subrange(16, 20) =~= be32(p.maximum_flow_window_size));
    assert(s.subrange(20, 24) =~= be32(p.handshake_type.spec_value()));
    assert(s.subrange(24, 28) =~= be32(p.srt_socket_id));
    assert(s.subrange(28, 32) =~= be32(p.syn_cookie));
    assert(s.subrange(32, 48) =~= be128(p.peer_ip_address));
    assert(s.skip(48) =~= extensions_bytes(p.extensions));
    lemma_u32_roundtrip(p.version, s, 0);
    lemma_u16_roundtrip(p.encryption_field, s, 4);
    lemma_u16_roundtrip(p.extension_field, s, 6);
    lemma_u32_roundtrip(p.initial_packet_sequence_number, s, 8);
    lemma_u32_roundtrip(p.maximum_transmission_unit_size, s, 12);
    lemma_u32_roundtrip(p.maximum_flow_window_size, s, 16);
    lemma_u32_roundtrip(p.handshake_type.spec_value(), s, 20);
    lemma_u32_roundtrip(p.srt_socket_id, s, 24);
    lemma_u32_roundtrip(p.syn_cookie, s, 28);
    lemma_u128_roundtrip(p.peer_ip_address, s, 32);
    HandshakeType::lemma_value_roundtrip(p.handshake_type);
    lemma_extensions_roundtrip(p.extensions);
}

} // verus!
