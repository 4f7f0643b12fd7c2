//! Handshake extensions: their types, contents and wire format.
use vstd::prelude::*;
use vstd::utf8::{valid_utf8, decode_utf8, encode_utf8};
use crate::codec::{be16, be32, u16_at, u32_at, put_u16, put_u32, get_u16, get_u32,
    lemma_u16_roundtrip, lemma_u32_roundtrip};
use super::{Error, copy_range};
use vstd::std_specs::convert::FromSpecImpl;
use vstd::string::StringExecFns;

verus! {

/// The type of a handshake extension.
#[derive(Copy, Clone, Debug, PartialEq, Eq, Structural, Hash)]
pub enum ExtensionType {
    HsReq,
    HsRsp,
    KmReq,
    KmRsp,
    Sid,
    Congestion,
    Filter,
    Group,
}

impl ExtensionType {
    /// The wire value of each extension type.
    pub open spec fn spec_to_u16(self) -> u16 {
        match self {
            ExtensionType::HsReq => 1,
            ExtensionType::HsRsp => 2,
            ExtensionType::KmReq => 3,
            ExtensionType::KmRsp => 4,
            ExtensionType::Sid => 5,
            ExtensionType::Congestion => 6,
            ExtensionType::Filter => 7,
            ExtensionType::Group => 8,
        }
    }

    /// The extension type with wire value `n`, if there is one.
    pub open spec fn spec_from_u16(n: u16) -> Option<ExtensionType> {
        if n == 1 {
            Some(ExtensionType::HsReq)
        } else if n == 2 {
            Some(ExtensionType::HsRsp)
        } else if n == 3 {
            Some(ExtensionType::KmReq)
        } else if n == 4 {
            Some(ExtensionType::KmRsp)
        } else if n == 5 {
            Some(ExtensionType::Sid)
        } else if n == 6 {
            Some(ExtensionType::Congestion)
        } else if n == 7 {
            Some(ExtensionType::Filter)
        } else if n == 8 {
            Some(ExtensionType::Group)
        } else {
            None
        }
    }

    /// The default extension type.
    pub fn default() -> (t: Self)
        ensures
            t == ExtensionType::HsReq,
    {
        ExtensionType::HsReq
    }

    /// Returns the wire value of the extension type.
    pub fn to_u16(&self) -> (n: u16)
        ensures
            n == self.spec_to_u16(),
    {
        match self {
            Self::HsReq => 1,
            Self::HsRsp => 2,
            Self::KmReq => 3,
            Self::KmRsp => 4,
            Self::Sid => 5,
            Self::Congestion => 6,
            Self::Filter => 7,
            Self::Group => 8,
        }
    }

    /// Returns the extension type with wire value `n`, or `None` for an unknown value.
    pub fn from_u16(n: u16) -> (r: Option<Self>)
        ensures
            r == Self::spec_from_u16(n),
    {
        match n {
            1 => Some(Self::HsReq),
            2 => Some(Self::HsRsp),
            3 => Some(Self::KmReq),
            4 => Some(Self::KmRsp),
            5 => Some(Self::Sid),
            6 => Some(Self::Congestion),
            7 => Some(Self::Filter),
            8 => Some(Self::Group),
            _ => None,
        }
    }

    /// Appends the two bytes of the wire value to `buf`.
    pub fn encode(&self, buf: &mut Vec<u8>)
        ensures
            final(buf)@ == old(buf)@ + be16(self.spec_to_u16()),
    {
        put_u16(buf, self.to_u16());
    }

    /// Converting an extension type to its wire value and back gives the extension type.
    pub proof fn lemma_u16_roundtrip(t: ExtensionType)
        ensures
            Self::spec_from_u16(t.spec_to_u16()) == Some(t),
    {
    }

    /// A wire value that names an extension type is the wire value of that extension type.
    pub proof fn lemma_from_u16_exact(n: u16)
        ensures
            Self::spec_from_u16(n) matches Some(t) ==> t.spec_to_u16() == n,
    {
    }
}

/// Decodes an extension type at `pos`: fails at the end of the input and for unknown values.
pub fn decode_extension_type(buf: &[u8], pos: usize) -> (r: Result<ExtensionType, Error>)
    ensures
        r == spec_decode_extension_type(buf@, pos as int),
{
    let n = buf.len();
    if pos > n || n - pos < 2 {
        return Err(Error::UnexpectedEof);
    }
    let v = get_u16(buf, pos);
    match ExtensionType::from_u16(v) {
        Some(t) => Ok(t),
        None => Err(Error::InvalidExtensionType(v)),
    }
}

/// The result of decoding an extension type at `pos`.
pub open spec fn spec_decode_extension_type(s: Seq<u8>, pos: int) -> Result<ExtensionType, Error> {
    if pos + 2 > s.len() {
        Err(Error::UnexpectedEof)
    } else {
        match ExtensionType::spec_from_u16(u16_at(s, pos)) {
            Some(t) => Ok(t),
            None => Err(Error::InvalidExtensionType(u16_at(s, pos))),
        }
    }
}

/// The content of the HSREQ and HSRSP extensions.
#[derive(Copy, Clone, Debug, PartialEq, Eq, Structural)]
pub struct HandshakeExtensionMessage {
    pub srt_version: u32,
    pub srt_flags: u32,
    pub receiver_tsbpd_delay: u16,
    pub sender_tsbpd_delay: u16,
}

/// The twelve bytes of a handshake extension message.
pub open spec fn message_bytes(m: HandshakeExtensionMessage) -> Seq<u8> {
    be32(m.srt_version) + be32(m.srt_flags) + be16(m.receiver_tsbpd_delay) + be16(
        m.sender_tsbpd_delay,
    )
}

/// The handshake extension message encoded at `pos`.
pub open spec fn message_at(s: Seq<u8>, pos: int) -> HandshakeExtensionMessage {
    HandshakeExtensionMessage {
        srt_version: u32_at(s, pos),
        srt_flags: u32_at(s, pos + 4),
        receiver_tsbpd_delay: u16_at(s, pos + 8),
        sender_tsbpd_delay: u16_at(s, pos + 10),
    }
}

impl HandshakeExtensionMessage {
    // Flags of the `srt_flags` field.
    pub const TSBPDSND: u32 = 1;
    pub const TSBPDRCV: u32 = 2;
    pub const CRYPT: u32 = 4;
    pub const TLPKTDROP: u32 = 8;
    pub const PERIODICNAK: u32 = 16;
    pub const REXMITFLG: u32 = 32;
    pub const STREAM: u32 = 64;
    pub const PACKET_FILTER: u32 = 128;

    /// A message with all fields zero.
    pub fn default() -> (m: Self)
        ensures
            m == (HandshakeExtensionMessage {
                srt_version: 0,
                srt_flags: 0,
                receiver_tsbpd_delay: 0,
                sender_tsbpd_delay: 0,
            }),
    {
        HandshakeExtensionMessage {
            srt_version: 0,
            srt_flags: 0,
            receiver_tsbpd_delay: 0,
            sender_tsbpd_delay: 0,
        }
    }

    /// Appends the twelve bytes of the message to `buf`.
    pub fn encode(&self, buf: &mut Vec<u8>)
        ensures
            final(buf)@ == old(buf)@ + message_bytes(*self),
    {
        put_u32(buf, self.srt_version);
        put_u32(buf, self.srt_flags);
        put_u16(buf, self.receiver_tsbpd_delay);
        put_u16(buf, self.sender_tsbpd_delay);
        proof {
            assert(final(buf)@ =~= old(buf)@ + message_bytes(*self));
        }
    }

    /// Decodes a message at `pos`; fails when fewer than twelve bytes remain.
    pub fn decode_at(buf: &[u8], pos: usize) -> (r: Result<Self, Error>)
        ensures
            pos + 12 <= buf@.len() ==> r == Ok::<Self, Error>(message_at(buf@, pos as int)),
            pos + 12 > buf@.len() ==> r == Err::<Self, Error>(Error::UnexpectedEof),
    {
        let n = buf.len();
        if pos > n || n - pos < 12 {
            return Err(Error::UnexpectedEof);
        }
        Ok(HandshakeExtensionMessage {
            srt_version: get_u32(buf, pos),
            srt_flags: get_u32(buf, pos + 4),
            receiver_tsbpd_delay: get_u16(buf, pos + 8),
            sender_tsbpd_delay: get_u16(buf, pos + 10),
        })
    }
}

/// Reading back the bytes of a handshake extension message gives the message.
pub proof fn lemma_message_roundtrip(m: HandshakeExtensionMessage, s: Seq<u8>, pos: int)
    requires
        0 <= pos,
        pos + 12 <= s.len(),
        s.subrange(pos, pos + 12) == message_bytes(m),
    ensures
        message_at(s, pos) == m,
{
    assert(s.subrange(pos, pos + 4) =~= message_bytes(m).subrange(0, 4));
    assert(s.subrange(pos + 4, pos + 8) =~= message_bytes(m).subrange(4, 8));
    assert(s.subrange(pos + 8, pos + 10) =~= message_bytes(m).subrange(8, 10));
    assert(s.subrange(pos + 10, pos + 12) =~= message_bytes(m).subrange(10, 12));
    assert(message_bytes(m).subrange(0, 4) =~= be32(m.srt_version));
    assert(message_bytes(m).subrange(4, 8) =~= be32(m.srt_flags));
    assert(message_bytes(m).subrange(8, 10) =~= be16(m.receiver_tsbpd_delay));
    assert(message_bytes(m).subrange(10, 12) =~= be16(m.sender_tsbpd_delay));
    lemma_u32_roundtrip(m.srt_version, s, pos);
    lemma_u32_roundtrip(m.srt_flags, s, pos + 4);
    lemma_u16_roundtrip(m.receiver_tsbpd_delay, s, pos + 8);
    lemma_u16_roundtrip(m.sender_tsbpd_delay, s, pos + 10);
}

/// The key material extension; it carries no content.
#[derive(Copy, Clone, Debug, PartialEq, Eq, Structural)]
pub struct KeyMaterialExtension {}

impl KeyMaterialExtension {
    /// Encodes nothing.
    pub fn encode(&self, buf: &mut Vec<u8>)
        ensures
            final(buf)@ == old(buf)@,
    {
    }

    /// Decodes the empty content; this never fails.
    pub fn decode(buf: &[u8]) -> (r: Result<Self, Error>)
        ensures
            r == Ok::<Self, Error>(KeyMaterialExtension {}),
    {
        Ok(KeyMaterialExtension {})
    }
}

/// The stream id extension: a UTF-8 string.
#[derive(Debug)]
pub struct StreamIdExtension {
    pub content: String,
}

/// Converts bytes into a string, if they are valid UTF-8.
///
/// Calls `String::from_utf8`. The contract claims that it succeeds exactly on valid UTF-8 and
/// that the string's characters are the ones the bytes encode.
#[verifier::external_body]
fn string_from_utf8(bytes: Vec<u8>) -> (r: Option<String>)
    ensures
        r is Some <==> valid_utf8(bytes@),
        r matches Some(s) ==> s@ == decode_utf8(bytes@),
{
    String::from_utf8(bytes).ok()
}

/// Copies a string.
pub fn clone_string(s: &String) -> (r: String)
    ensures
        r@ == s@,
{
    s.clone()
}

impl StreamIdExtension {
    /// A stream id with the empty string.
    pub fn default() -> (e: Self)
        ensures
            e.content@ == Seq::<char>::empty(),
    {
        StreamIdExtension { content: String::new() }
    }

    /// Appends the UTF-8 bytes of the content to `buf`.
    pub fn encode(&self, buf: &mut Vec<u8>)
        ensures
            final(buf)@ == old(buf)@ + encode_utf8(self.content@),
    {
        let bytes = self.content.as_str().as_bytes();
        let mut i: usize = 0;
        let ghost start = buf@;
        while i < bytes.len()
            invariant
                i <= bytes@.len(),
                bytes@ == encode_utf8(self.content@),
                buf@ == start + bytes@.subrange(0, i as int),
            decreases bytes@.len() - i,
        {
            buf.push(bytes[i]);
            i = i + 1;
            proof {
                assert(buf@ =~= start + bytes@.subrange(0, i as int));
            }
        }
        proof {
            assert(bytes@.subrange(0, bytes@.len() as int) =~= bytes@);
        }
    }

    /// Decodes the rest of the input from `pos` as the content; fails when it is not UTF-8.
    pub fn decode_at(buf: &[u8], pos: usize) -> (r: Result<Self, Error>)
        requires
            pos <= buf@.len(),
        ensures
            valid_utf8(buf@.skip(pos as int)) ==> (r matches Ok(e) && e.content@ == decode_utf8(
                buf@.skip(pos as int),
            )),
            !valid_utf8(buf@.skip(pos as int)) ==> (r matches Err(e) && e == Error::FromUtf8Error),
    {
        let bytes = copy_range(buf, pos, buf.len());
        proof {
            assert(bytes@ =~= buf@.skip(pos as int));
        }
        match string_from_utf8(bytes) {
            Some(content) => Ok(Self { content }),
            None => Err(Error::FromUtf8Error),
        }
    }
}

/// The field of a handshake that tells which extensions follow.
#[derive(Copy, Clone, Debug, PartialEq, Eq, Structural, Hash)]
pub struct ExtensionField(pub u16);

impl ExtensionField {
    /// The value of the field in the INDUCTION phase.
    pub const INDUCTION: u16 = 2;
    /// The srt magic `0x4A17` for the CONCLUSION phase.
    pub const SRT_MAGIC: u16 = 0x4A17;
    /// The HSREQ bit.
    pub const HSREQ: u16 = 1;
    /// The KMREQ bit.
    pub const KMREQ: u16 = 2;
    /// The CONFIG bit.
    pub const CONFIG: u16 = 4;

    /// The zero field.
    pub fn default() -> (f: Self)
        ensures
            f.0 == 0,
    {
        ExtensionField(0)
    }

    /// Returns `true` for the SRT magic value.
    pub fn is_magic(&self) -> (b: bool)
        ensures
            b == (self.0 == 0x4A17),
    {
        self.0 == 0x4A17
    }

    /// Returns `true` when the HSREQ bit is set.
    pub fn hsreq(&self) -> (b: bool)
        ensures
            b == (self.0 & 1u16 != 0),
    {
        self.0 & 1u16 != 0
    }

    /// Returns `true` when the KMREQ bit is set.
    pub fn kmreg(&self) -> (b: bool)
        ensures
            b == (self.0 & 2u16 != 0),
    {
        self.0 & 2u16 != 0
    }

    /// Returns `true` when the CONFIG bit is set.
    pub fn config(&self) -> (b: bool)
        ensures
            b == (self.0 & 4u16 != 0),
    {
        self.0 & 4u16 != 0
    }

    /// The debug text of the field: the flags it sets, as in
    /// `ExtensionField { HSREQ, KMREQ, CONFIG }`.
    pub fn describe(&self) -> (s: String)
        ensures
            s@ == "ExtensionField { "@ + (if self.0 & 1u16 != 0 { "HSREQ, "@ } else { ""@ }) + (
            if self.0 & 2u16 != 0 { "KMREQ, "@ } else { ""@ }) + (if self.0 & 4u16 != 0 {
                "CONFIG"@
            } else {
                ""@
            }) + " }"@,
    {
        let hsreq = if self.hsreq() { "HSREQ, " } else { "" };
        let kmreq = if self.kmreg() { "KMREQ, " } else { "" };
        let config = if self.config() { "CONFIG" } else { "" };
        let mut s = String::from_str("ExtensionField { ");
        s.append(hsreq);
        s.append(kmreq);
        s.append(config);
        s.append(" }");
        s
    }

    /// Appends the two bytes of the field to `buf`.
    pub fn encode(&self, buf: &mut Vec<u8>)
        ensures
            final(buf)@ == old(buf)@ + be16(self.0),
    {
        put_u16(buf, self.0);
    }

    /// Decodes the field at `pos`; fails when fewer than two bytes remain.
    pub fn decode_at(buf: &[u8], pos: usize) -> (r: Result<Self, Error>)
        ensures
            pos + 2 <= buf@.len() ==> r == Ok::<Self, Error>(ExtensionField(u16_at(buf@, pos as int))),
            pos + 2 > buf@.len() ==> r == Err::<Self, Error>(Error::UnexpectedEof),
    {
        let n = buf.len();
        if pos > n || n - pos < 2 {
            return Err(Error::UnexpectedEof);
        }
        Ok(ExtensionField(get_u16(buf, pos)))
    }
}

/// The content of a handshake extension.
#[derive(Debug)]
pub enum ExtensionContent {
    Handshake(HandshakeExtensionMessage),
    KeyMaterial(KeyMaterialExtension),
    StreamId(StreamIdExtension),
    /// Unimplemented in current standart.
    Group(()),
}

/// The mathematical value of an extension content.
pub ghost enum ContentView {
    Handshake(HandshakeExtensionMessage),
    KeyMaterial,
    StreamId(Seq<char>),
    Group,
}

impl View for ExtensionContent {
    type V = ContentView;

    open spec fn view(&self) -> ContentView {
        match self {
            ExtensionContent::Handshake(m) => ContentView::Handshake(*m),
            ExtensionContent::KeyMaterial(_) => ContentView::KeyMaterial,
            ExtensionContent::StreamId(s) => ContentView::StreamId(s.content@),
            ExtensionContent::Group(_) => ContentView::Group,
        }
    }
}

/// The bytes of an extension content.
pub open spec fn content_bytes(c: ContentView) -> Seq<u8> {
    match c {
        ContentView::Handshake(m) => message_bytes(m),
        ContentView::KeyMaterial => Seq::empty(),
        ContentView::StreamId(s) => encode_utf8(s),
        ContentView::Group => Seq::empty(),
    }
}

/// The length in four-byte groups that [`ExtensionContent::len`] computes for a stream id of
/// `n` bytes.
pub open spec fn stream_id_groups(n: int) -> int {
    if n % 3 == 0 {
        n
    } else if n % 3 == 1 {
        n + 2
    } else {
        n + 3
    }
}

impl ExtensionContent {
    /// The length of the content as this crate counts it: 3 for a handshake message, 0 for key
    /// material and groups, and for a stream id of `n` bytes `n` rounded as
    /// [`stream_id_groups`] says.
    pub fn len(&self) -> (n: u32)
        requires
            self matches ExtensionContent::StreamId(s) ==> encode_utf8(s.content@).len() + 3
                <= u32::MAX,
        ensures
            self matches ExtensionContent::Handshake(_) ==> n == 3,
            self matches ExtensionContent::KeyMaterial(_) ==> n == 0,
            self matches ExtensionContent::Group(_) ==> n == 0,
            self matches ExtensionContent::StreamId(s) ==> n == stream_id_groups(
                encode_utf8(s.content@).len() as int,
            ),
    {
        match self {
            Self::Handshake(_) => 3,
            Self::KeyMaterial(_) => 0,
            Self::StreamId(ext) => {
                let len = ext.content.as_str().len() as u32;
                if len % 3 == 0 {
                    len
                } else if len % 3 == 1 {
                    len + 2
                } else {
                    len + 3
                }
            },
            Self::Group(_) => 0,
        }
    }

    /// Appends the bytes of the content to `buf`.
    pub fn encode(&self, buf: &mut Vec<u8>)
        ensures
            final(buf)@ == old(buf)@ + content_bytes(self@),
    {
        match self {
            Self::Handshake(ext) => ext.encode(buf),
            Self::KeyMaterial(ext) => ext.encode(buf),
            Self::StreamId(ext) => ext.encode(buf),
            Self::Group(_) => {
                proof {
                    assert(final(buf)@ =~= old(buf)@ + content_bytes(self@));
                }
            },
        }
    }
}

impl From<HandshakeExtensionMessage> for ExtensionContent {
    fn from(src: HandshakeExtensionMessage) -> (r: Self) {
        Self::Handshake(src)
    }
}

impl FromSpecImpl<HandshakeExtensionMessage> for ExtensionContent {
    open spec fn obeys_from_spec() -> bool {
        true
    }

    open spec fn from_spec(src: HandshakeExtensionMessage) -> Self {
        ExtensionContent::Handshake(src)
    }
}

/// A handshake extension: its type, its length and its content.
#[derive(Debug)]
pub struct HandshakeExtension {
    pub extension_type: ExtensionType,
    /// Length of the content in four-byte groups.
    pub extension_length: u16,
    pub extension_content: ExtensionContent,
}

/// The mathematical value of a handshake extension.
pub ghost struct ExtensionView {
    pub extension_type: ExtensionType,
    pub extension_length: u16,
    pub content: ContentView,
}

impl View for HandshakeExtension {
    type V = ExtensionView;

    open spec fn view(&self) -> ExtensionView {
        ExtensionView {
            extension_type: self.extension_type,
            extension_length: self.extension_length,
            content: self.extension_content@,
        }
    }
}

/// The bytes of a handshake extension: type, length, content.
pub open spec fn extension_bytes(e: ExtensionView) -> Seq<u8> {
    be16(e.extension_type.spec_to_u16()) + be16(e.extension_length) + content_bytes(e.content)
}

/// The result of decoding one handshake extension from the start of `s`: the extension and
/// the number of bytes it took.
pub open spec fn spec_decode_extension(s: Seq<u8>) -> Result<(ExtensionView, int), Error> {
    match spec_decode_extension_type(s, 0) {
        Err(e) => Err(e),
        Ok(t) => if s.len() < 4 {
            Err(Error::UnexpectedEof)
        } else {
            let len = u16_at(s, 2);
            match t {
                ExtensionType::HsReq | ExtensionType::HsRsp => if s.len() < 16 {
                    Err(Error::UnexpectedEof)
                } else {
                    Ok(
                        (
                            ExtensionView {
                                extension_type: t,
                                extension_length: len,
                                content: ContentView::Handshake(message_at(s, 4)),
                            },
                            16,
                        ),
                    )
                },
                ExtensionType::Sid => if valid_utf8(s.skip(4)) {
                    Ok(
                        (
                            ExtensionView {
                                extension_type: t,
                                extension_length: len,
                                content: ContentView::StreamId(decode_utf8(s.skip(4))),
                            },
                            s.len() as int,
                        ),
                    )
                } else {
                    Err(Error::FromUtf8Error)
                },
                _ => Err(Error::UnsupportedExtension(t)),
            }
        },
    }
}

impl HandshakeExtension {
    /// Appends type, length and content to `buf`.
    pub fn encode(&self, buf: &mut Vec<u8>)
        ensures
            final(buf)@ == old(buf)@ + extension_bytes(self@),
    {
        self.extension_type.encode(buf);
        put_u16(buf, self.extension_length);
        self.extension_content.encode(buf);
        proof {
            assert(final(buf)@ =~= old(buf)@ + extension_bytes(self@));
        }
    }

    /// Decodes one extension at `pos`; returns it with the position after it.
    pub fn decode_at(buf: &[u8], pos: usize) -> (r: Result<(Self, usize), Error>)
        requires
            pos <= buf@.len(),
        ensures
            match r {
                Ok((e, end)) => spec_decode_extension(buf@.skip(pos as int)) == Ok::<
                    (ExtensionView, int),
                    Error,
                >((e@, end - pos)) && pos < end <= buf@.len(),
                Err(err) => spec_decode_extension(buf@.skip(pos as int)) == Err::<
                    (ExtensionView, int),
                    Error,
                >(err),
            },
    {
        let ghost s = buf@.skip(pos as int);
        let extension_type = decode_extension_type(buf, pos)?;
        proof {
            assert(s.len() >= 2);
            assert(u16_at(s, 0) == u16_at(buf@, pos as int));
        }
        let n = buf.len();
        if n - pos < 4 {
            return Err(Error::UnexpectedEof);
        }
        let extension_length = get_u16(buf, pos + 2);
        proof {
            assert(u16_at(s, 2) == u16_at(buf@, pos + 2));
        }
        match extension_type {
            ExtensionType::HsReq | ExtensionType::HsRsp => {
                let m = HandshakeExtensionMessage::decode_at(buf, pos + 4)?;
                proof {
                    assert(message_at(s, 4) == message_at(buf@, pos + 4));
                }
                Ok(
                    (
                        HandshakeExtension {
                            extension_type,
                            extension_length,
                            extension_content: ExtensionContent::Handshake(m),
                        },
                        pos + 16,
                    ),
                )
            },
            ExtensionType::Sid => {
                proof {
                    assert(s.skip(4) =~= buf@.skip(pos + 4));
                }
                let sid = StreamIdExtension::decode_at(buf, pos + 4)?;
                Ok(
                    (
                        HandshakeExtension {
                            extension_type,
                            extension_length,
                            extension_content: ExtensionContent::StreamId(sid),
                        },
                        n,
                    ),
                )
            },
            _ => Err(Error::UnsupportedExtension(extension_type)),
        }
    }
}

/// A list of handshake extensions.
#[derive(Debug)]
pub struct Extensions(pub Vec<HandshakeExtension>);

/// The bytes of a list of extensions: the extensions one after the other.
pub open spec fn extensions_bytes(es: Seq<ExtensionView>) -> Seq<u8>
    decreases es.len(),
{
    if es.len() == 0 {
        Seq::empty()
    } else {
        extension_bytes(es[0]) + extensions_bytes(es.drop_first())
    }
}

/// Prefixes the extensions `es` to the result `r` of decoding the rest.
pub open spec fn prepend_extensions(es: Seq<ExtensionView>, r: Result<Seq<ExtensionView>, Error>) -> Result<Seq<ExtensionView>, Error> {
    match r {
        Ok(rest) => Ok(es + rest),
        Err(e) => Err(e),
    }
}

/// The result of decoding a list of extensions from `s`: extensions are decoded one after the
/// other until one hits the end of the input; any other error fails the whole list.
pub open spec fn spec_decode_extensions(s: Seq<u8>) -> Result<Seq<ExtensionView>, Error>
    decreases s.len(),
{
    match spec_decode_extension(s) {
        Ok((e, n)) => if 0 < n <= s.len() {
            prepend_extensions(seq![e], spec_decode_extensions(s.skip(n)))
        } else {
            Err(Error::UnexpectedEof)
        },
        Err(Error::UnexpectedEof) => Ok(Seq::empty()),
        Err(e) => Err(e),
    }
}

/// The index of the first extension of `s` that is a handshake request carrying a handshake
/// message, or the length of `s`.
pub open spec fn first_hsreq(s: Seq<ExtensionView>) -> int
    decreases s.len(),
{
    if s.len() == 0 {
        0
    } else if is_hsreq(s[0]) {
        0
    } else {
        1 + first_hsreq(s.drop_first())
    }
}

/// The index of the first extension of `s` that is a stream id extension carrying a stream
/// id, or the length of `s`.
pub open spec fn first_stream_id(s: Seq<ExtensionView>) -> int
    decreases s.len(),
{
    if s.len() == 0 {
        0
    } else if is_stream_id(s[0]) {
        0
    } else {
        1 + first_stream_id(s.drop_first())
    }
}

/// The index of the first HSREQ lies within the list, or is its length.
pub proof fn lemma_first_hsreq_bound(s: Seq<ExtensionView>)
    ensures
        0 <= first_hsreq(s) <= s.len(),
    decreases s.len(),
{
    if s.len() > 0 {
        lemma_first_hsreq_bound(s.drop_first());
    }
}

/// The index of the first stream id lies within the list, or is its length.
pub proof fn lemma_first_stream_id_bound(s: Seq<ExtensionView>)
    ensures
        0 <= first_stream_id(s) <= s.len(),
    decreases s.len(),
{
    if s.len() > 0 {
        lemma_first_stream_id_bound(s.drop_first());
    }
}

/// The first index is the index of the first match.
pub proof fn lemma_first_hsreq(s: Seq<ExtensionView>, i: int)
    requires
        0 <= i <= s.len(),
        i < s.len() ==> is_hsreq(s[i]),
        forall|j: int| 0 <= j < i ==> !is_hsreq(#[trigger] s[j]),
    ensures
        first_hsreq(s) == i,
    decreases s.len(),
{
    if s.len() > 0 && i > 0 {
        assert forall|j: int| 0 <= j < i - 1 implies !is_hsreq(#[trigger] s.drop_first()[j]) by {
            assert(s.drop_first()[j] == s[j + 1]);
        }
        lemma_first_hsreq(s.drop_first(), i - 1);
    }
}

/// The first index is the index of the first match.
pub proof fn lemma_first_stream_id(s: Seq<ExtensionView>, i: int)
    requires
        0 <= i <= s.len(),
        i < s.len() ==> is_stream_id(s[i]),
        forall|j: int| 0 <= j < i ==> !is_stream_id(#[trigger] s[j]),
    ensures
        first_stream_id(s) == i,
    decreases s.len(),
{
    if s.len() > 0 && i > 0 {
        assert forall|j: int| 0 <= j < i - 1 implies !is_stream_id(#[trigger] s.drop_first()[j]) by {
            assert(s.drop_first()[j] == s[j + 1]);
        }
        lemma_first_stream_id(s.drop_first(), i - 1);
    }
}

/// The extension is a handshake request carrying a handshake message.
pub open spec fn is_hsreq(e: ExtensionView) -> bool {
    e.extension_type == ExtensionType::HsReq && e.content is Handshake
}

/// The extension is a stream id extension carrying a stream id.
pub open spec fn is_stream_id(e: ExtensionView) -> bool {
    e.extension_type == ExtensionType::Sid && e.content is StreamId
}

impl View for Extensions {
    type V = Seq<ExtensionView>;

    open spec fn view(&self) -> Seq<ExtensionView> {
        self.0@.map_values(|e: HandshakeExtension| e@)
    }
}

impl Extensions {
    /// No extensions.
    pub fn default() -> (e: Self)
        ensures
            e.0@.len() == 0,
    {
        Extensions(Vec::new())
    }

    /// Returns the message of the first extension that carries a handshake message.
    pub fn hsreq(&self) -> (r: Option<HandshakeExtensionMessage>)
        ensures
            r is None ==> forall|i: int|
                0 <= i < self.0@.len() ==> (#[trigger] self.0@[i]).extension_content !is Handshake,
            r matches Some(m) ==> exists|i: int|
                0 <= i < self.0@.len() && (#[trigger] self.0@[i]).extension_content
                    == ExtensionContent::Handshake(m) && forall|j: int|
                    0 <= j < i ==> (#[trigger] self.0@[j]).extension_content !is Handshake,
    {
        let mut index: usize = 0;
        while index < self.0.len()
            invariant
                index <= self.0@.len(),
                forall|j: int| 0 <= j < index ==> (#[trigger] self.0@[j]).extension_content !is Handshake,
            decreases self.0@.len() - index,
        {
            if let ExtensionContent::Handshake(ext) = &self.0[index].extension_content {
                return Some(*ext);
            }
            index += 1;
        }
        None
    }

    /// Removes the first HSREQ extension that carries a handshake message and returns the
    /// message; leaves the list unchanged when there is none.
    pub fn remove_hsreq(&mut self) -> (r: Option<HandshakeExtensionMessage>)
        ensures
            first_hsreq(old(self)@) == old(self)@.len() ==> r is None && final(self)@ == old(self)@,
            first_hsreq(old(self)@) < old(self)@.len() ==> r == Some(
                old(self)@[first_hsreq(old(self)@)].content->Handshake_0,
            ) && final(self)@ == old(self)@.remove(first_hsreq(old(self)@)),
    {
        let mut index: usize = 0;
        while index < self.0.len()
            invariant
                index <= self.0@.len(),
                self.0@ == old(self).0@,
                forall|j: int| 0 <= j < index ==> !is_hsreq(#[trigger] self@[j]),
            decreases self.0@.len() - index,
        {
            let found = match &self.0[index].extension_content {
                ExtensionContent::Handshake(ext) => if self.0[index].extension_type == ExtensionType::HsReq {
                    Some(*ext)
                } else {
                    None
                },
                _ => None,
            };
            proof {
                assert(self@[index as int] == self.0@[index as int]@);
            }
            if let Some(ext) = found {
                proof {
                    lemma_first_hsreq(self@, index as int);
                }
                self.0.remove(index);
                proof {
                    assert(self@ =~= old(self)@.remove(index as int));
                }
                return Some(ext);
            }
            index += 1;
        }
        proof {
            lemma_first_hsreq(self@, self@.len() as int);
        }
        None
    }

    /// Removes the first SID extension that carries a stream id and returns the stream id;
    /// leaves the list unchanged when there is none.
    pub fn remove_stream_id(&mut self) -> (r: Option<StreamIdExtension>)
        ensures
            first_stream_id(old(self)@) == old(self)@.len() ==> r is None && final(self)@
                == old(self)@,
            first_stream_id(old(self)@) < old(self)@.len() ==> (r matches Some(sid)
                && old(self)@[first_stream_id(old(self)@)].content == ContentView::StreamId(
                sid.content@)) && final(self)@ == old(self)@.remove(first_stream_id(old(self)@)),
    {
        let mut index: usize = 0;
        while index < self.0.len()
            invariant
                index <= self.0@.len(),
                self.0@ == old(self).0@,
                forall|j: int| 0 <= j < index ==> !is_stream_id(#[trigger] self@[j]),
            decreases self.0@.len() - index,
        {
            let hit = self.0[index].extension_type == ExtensionType::Sid && match &self.0[index].extension_content {
                ExtensionContent::StreamId(_) => true,
                _ => false,
            };
            proof {
                assert(self@[index as int] == self.0@[index as int]@);
            }
            if hit {
                proof {
                    lemma_first_stream_id(self@, index as int);
                }
                let ext = self.0.remove(index);
                proof {
                    assert(self@ =~= old(self)@.remove(index as int));
                }
                match ext.extension_content {
                    ExtensionContent::StreamId(sid) => {
                        return Some(sid);
                    },
                    _ => {},
                }
            }
            index += 1;
        }
        proof {
            lemma_first_stream_id(self@, self@.len() as int);
        }
        None
    }

    /// Appends the bytes of all extensions to `buf`.
    pub fn encode(&self, buf: &mut Vec<u8>)
        ensures
            final(buf)@ == old(buf)@ + extensions_bytes(self@),
    {
        let mut i: usize = 0;
        let ghost start = buf@;
        proof {
            assert(self@.skip(0) =~= self@);
        }
        while i < self.0.len()
            invariant
                i <= self.0@.len(),
                buf@ + extensions_bytes(self@.skip(i as int)) == start + extensions_bytes(self@),
            decreases self.0@.len() - i,
        {
            let ghost before = buf@;
            self.0[i].encode(buf);
            proof {
                assert(self@.skip(i as int)[0] == self.0@[i as int]@);
                assert(self@.skip(i as int).drop_first() =~= self@.skip(i + 1));
                assert(buf@ + extensions_bytes(self@.skip(i + 1)) =~= before + extensions_bytes(
                    self@.skip(i as int),
                ));
            }
            i = i + 1;
        }
        proof {
            assert(self@.skip(i as int) =~= Seq::<ExtensionView>::empty());
            assert(buf@ =~= start + extensions_bytes(self@));
        }
    }

    /// Decodes extensions from `pos` to the end of the input.
    pub fn decode_at(buf: &[u8], pos: usize) -> (r: Result<Self, Error>)
        requires
            pos <= buf@.len(),
        ensures
            match r {
                Ok(es) => spec_decode_extensions(buf@.skip(pos as int)) == Ok::<
                    Seq<ExtensionView>,
                    Error,
                >(es@),
                Err(err) => spec_decode_extensions(buf@.skip(pos as int)) == Err::<
                    Seq<ExtensionView>,
                    Error,
                >(err),
            },
    {
        let mut extensions: Vec<HandshakeExtension> = Vec::new();
        let mut p = pos;
        loop
            invariant
                pos <= p <= buf@.len(),
                spec_decode_extensions(buf@.skip(pos as int)) == prepend_extensions(
                    extensions@.map_values(|e: HandshakeExtension| e@),
                    spec_decode_extensions(buf@.skip(p as int)),
                ),
            decreases buf@.len() - p,
        {
            let ghost s = buf@.skip(p as int);
            match HandshakeExtension::decode_at(buf, p) {
                Ok((ext, end)) => {
                    let ghost before = extensions@.map_values(|e: HandshakeExtension| e@);
                    proof {
                        assert(s.skip(end - p) =~= buf@.skip(end as int));
                    }
                    extensions.push(ext);
                    proof {
                        assert(extensions@.map_values(|e: HandshakeExtension| e@) =~= before + seq![ext@]);
                        assert(before + seq![ext@] + Seq::<ExtensionView>::empty() =~= before + seq![ext@]);
                        match spec_decode_extensions(buf@.skip(end as int)) {
                            Ok(rest) => {
                                assert(before + (seq![ext@] + rest) =~= before + seq![ext@] + rest);
                            },
                            Err(_) => {},
                        }
                    }
                    p = end;
                },
                Err(Error::UnexpectedEof) => {
                    proof {
                        assert(extensions@.map_values(|e: HandshakeExtension| e@) + Seq::<ExtensionView>::empty()
                            =~= extensions@.map_values(|e: HandshakeExtension| e@));
                    }
                    return Ok(Self(extensions));
                },
                Err(err) => {
                    return Err(err);
                },
            }
        }
    }
}


/// An extension that decoding gives back: a handshake request or response with a handshake
/// message, or a stream id extension with a stream id.
pub open spec fn decodable_extension(e: ExtensionView) -> bool {
    match e.extension_type {
        ExtensionType::HsReq | ExtensionType::HsRsp => e.content is Handshake,
        ExtensionType::Sid => e.content is StreamId,
        _ => false,
    }
}

/// A list of extensions that decoding gives back: each extension is decodable, and a stream
/// id, whose content runs to the end of the input, comes last.
pub open spec fn decodable_extensions(es: Seq<ExtensionView>) -> bool {
    forall|i: int|
        0 <= i < es.len() ==> decodable_extension(#[trigger] es[i]) && (es[i].extension_type
            == ExtensionType::Sid ==> i == es.len() - 1)
}

/// Decoding the bytes of a decodable extension, followed by more bytes, gives the extension
/// and the number of its bytes; a stream id takes the rest of the input, so nothing may follow
/// it.
pub proof fn lemma_extension_roundtrip(e: ExtensionView, rest: Seq<u8>)
    requires
        decodable_extension(e),
        e.extension_type == ExtensionType::Sid ==> rest.len() == 0,
    ensures
        spec_decode_extension(extension_bytes(e) + rest) == Ok::<(ExtensionView, int), Error>(
            (e, extension_bytes(e).len() as int),
        ),
        extension_bytes(e).len() >= 4,
{
    let s = extension_bytes(e) + rest;
    let t = e.extension_type;
    assert(s.subrange(0, 2) =~= be16(t.spec_to_u16()));
    assert(s.subrange(2, 4) =~= be16(e.extension_length));
    lemma_u16_roundtrip(t.spec_to_u16(), s, 0);
    lemma_u16_roundtrip(e.extension_length, s, 2);
    ExtensionType::lemma_u16_roundtrip(t);
    match e.content {
        ContentView::Handshake(m) => {
            assert(s.subrange(4, 16) =~= message_bytes(m));
            lemma_message_roundtrip(m, s, 4);
        },
        ContentView::StreamId(c) => {
            assert(s.skip(4) =~= encode_utf8(c));
            vstd::utf8::encode_utf8_valid_utf8(c);
            vstd::utf8::encode_utf8_decode_utf8(c);
        },
        _ => {},
    }
}

/// Decoding the bytes of a decodable list of extensions gives back the list.
pub proof fn lemma_extensions_roundtrip(es: Seq<ExtensionView>)
    requires
        decodable_extensions(es),
    ensures
        spec_decode_extensions(extensions_bytes(es)) == Ok::<Seq<ExtensionView>, Error>(es),
    decreases es.len(),
{
    if es.len() == 0 {
        assert(extensions_bytes(es) =~= Seq::<u8>::empty());
        assert(spec_decode_extension_type(Seq::<u8>::empty(), 0) == Err::<ExtensionType, Error>(
            Error::UnexpectedEof,
        ));
        assert(spec_decode_extension(Seq::<u8>::empty()) == Err::<(ExtensionView, int), Error>(
            Error::UnexpectedEof,
        ));
        assert(es =~= Seq::<ExtensionView>::empty());
    } else {
        let e = es[0];
        let tail = es.drop_first();
        assert(decodable_extension(es[0]));
        assert(decodable_extensions(tail)) by {
            assert forall|i: int| 0 <= i < tail.len() implies decodable_extension(#[trigger] tail[i])
                && (tail[i].extension_type == ExtensionType::Sid ==> i == tail.len() - 1) by {
                assert(tail[i] == es[i + 1]);
            }
        }
        let rest = extensions_bytes(tail);
        if e.extension_type == ExtensionType::Sid {
            assert(es.len() == 1);
            assert(tail.len() == 0);
            assert(rest =~= Seq::<u8>::empty());
        }
        lemma_extension_roundtrip(e, rest);
        let s = extensions_bytes(es);
        let n = extension_bytes(e).len() as int;
        assert(s == extension_bytes(e) + rest);
        assert(s.skip(n) =~= rest);
        lemma_extensions_roundtrip(tail);
        assert(n > 0 && n <= s.len());
        assert(spec_decode_extension(s) == Ok::<(ExtensionView, int), Error>((e, n)));
        assert(spec_decode_extensions(s.skip(n)) == Ok::<Seq<ExtensionView>, Error>(tail));
        assert(seq![e] + tail =~= es);
    }
}

} // verus!
