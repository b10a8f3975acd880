//! Header records, their sizes on the wire, and the link-layer types.
use vstd::prelude::*;
use crate::text::{hex_colon, hex_word, push_hex_colon, push_hex_word};
use crate::wire::{
    be16_at, be16_bytes, be32_at, be32_bytes, high_nibble, lemma_be16_of_bytes,
    lemma_be16_to_bytes, lemma_be32_of_bytes, lemma_be32_to_bytes, low_nibble, read_be16,
    read_be32, read_high_nibble, read_low_nibble,
};

verus! {

/// Bytes of an Ethernet header.
pub const ETHERNET_HDR_LEN: usize = 14;

/// Bytes of an IPv4 header without options.
pub const IPV4_HDR_LEN: usize = 20;

/// Bytes of an IPv6 header without extension headers.
pub const IPV6_HDR_LEN: usize = 40;

/// Bytes of a TCP header without options.
pub const TCP_HDR_LEN: usize = 20;

/// Least number of bytes of a TCP segment carried over IPv4.
pub const MIN_V4: usize = IPV4_HDR_LEN + TCP_HDR_LEN;

/// Least number of bytes of a TCP segment carried over IPv6.
pub const MIN_V6: usize = IPV6_HDR_LEN + TCP_HDR_LEN;

/// The protocol number of TCP in an IPv4 protocol field or an IPv6 next-header field.
pub const PROTOCOL_TCP: u8 = 6;

/// Why a frame could not be decoded.
#[derive(Clone, Copy, Debug, PartialEq, Eq, Structural)]
pub enum DecodeError {
    /// Fewer bytes remain at the position read than the header there needs.
    TooShort,
    /// The version nibble at the network-layer offset is neither 4 nor 6.
    UnknownIpVersion,
    /// The scan for the network-layer offset tried every candidate and accepted none.
    NoIpFound,
}

impl DecodeError {
    /// The error in words.
    pub open spec fn spec_message(self) -> Seq<char> {
        match self {
            DecodeError::TooShort => "Packet too short"@,
            DecodeError::UnknownIpVersion => "Unknown IP version"@,
            DecodeError::NoIpFound => "No IP packet found"@,
        }
    }

    /// The error in words, for a log or a terminal.
    pub fn message(&self) -> (r: String)
        ensures
            r@ == self.spec_message(),
    {
        match self {
            DecodeError::TooShort => String::from_str("Packet too short"),
            DecodeError::UnknownIpVersion => String::from_str("Unknown IP version"),
            DecodeError::NoIpFound => String::from_str("No IP packet found"),
        }
    }
}

/// The version of the IP header that a frame carries.
#[derive(Clone, Copy, Debug, PartialEq, Eq, Structural)]
pub enum IpAddr {
    V4,
    V6,
}

/// The framing that precedes the network-layer header of a captured frame.
#[derive(Clone, Copy, Debug, PartialEq, Eq, Structural)]
pub enum LinkType {
    /// BSD loopback encapsulation.
    Null,
    Ethernet,
    Ppp,
    PppHdlc,
    PppEther,
    Raw,
    Ieee802_11,
    /// OpenBSD loopback encapsulation.
    Loop,
    /// Linux cooked capture, version 1.
    LinuxSll,
    Pflog,
    /// Linux cooked capture, version 2.
    LinuxSll2,
    /// A link-layer type code that names none of the others.
    Unknown,
}

impl LinkType {
    /// The link-layer type that a capture source reports under `code`.
    pub open spec fn of_code(code: u16) -> LinkType {
        match code {
            0 => LinkType::Null,
            1 => LinkType::Ethernet,
            9 => LinkType::Ppp,
            50 => LinkType::PppHdlc,
            51 => LinkType::PppEther,
            101 => LinkType::Raw,
            105 => LinkType::Ieee802_11,
            108 => LinkType::Loop,
            113 => LinkType::LinuxSll,
            117 => LinkType::Pflog,
            276 => LinkType::LinuxSll2,
            _ => LinkType::Unknown,
        }
    }

    /// The code under which a capture source reports this link-layer type, or
    /// `None` for `Unknown`.
    pub open spec fn spec_code(self) -> Option<u16> {
        match self {
            LinkType::Null => Some(0u16),
            LinkType::Ethernet => Some(1u16),
            LinkType::Ppp => Some(9u16),
            LinkType::PppHdlc => Some(50u16),
            LinkType::PppEther => Some(51u16),
            LinkType::Raw => Some(101u16),
            LinkType::Ieee802_11 => Some(105u16),
            LinkType::Loop => Some(108u16),
            LinkType::LinuxSll => Some(113u16),
            LinkType::Pflog => Some(117u16),
            LinkType::LinuxSll2 => Some(276u16),
            LinkType::Unknown => None,
        }
    }

    /// Looks up the code of this link-layer type. `LinkType::from` takes the code
    /// back to the type.
    #[verifier::when_used_as_spec(spec_code)]
    pub fn code(self) -> (r: Option<u16>)
        ensures
            r == self.spec_code(),
            r matches Some(c) ==> LinkType::of_code(c) == self,
            r is None <==> self == LinkType::Unknown,
    {
        match self {
            LinkType::Null => Some(0),
            LinkType::Ethernet => Some(1),
            LinkType::Ppp => Some(9),
            LinkType::PppHdlc => Some(50),
            LinkType::PppEther => Some(51),
            LinkType::Raw => Some(101),
            LinkType::Ieee802_11 => Some(105),
            LinkType::Loop => Some(108),
            LinkType::LinuxSll => Some(113),
            LinkType::Pflog => Some(117),
            LinkType::LinuxSll2 => Some(276),
            LinkType::Unknown => None,
        }
    }

    /// The number of bytes that this framing puts before the network-layer header,
    /// or `None` for `Unknown`.
    pub open spec fn spec_header_len(self) -> Option<usize> {
        match self {
            LinkType::Raw => Some(0usize),
            LinkType::Null | LinkType::Ppp => Some(4usize),
            LinkType::Loop | LinkType::PppHdlc | LinkType::PppEther => Some(8usize),
            LinkType::Ethernet => Some(14usize),
            LinkType::LinuxSll => Some(16usize),
            LinkType::LinuxSll2 => Some(20usize),
            LinkType::Pflog => Some(28usize),
            LinkType::Ieee802_11 => Some(32usize),
            LinkType::Unknown => None,
        }
    }

    /// Looks up the fixed length of this framing's header.
    #[verifier::when_used_as_spec(spec_header_len)]
    pub fn header_len(self) -> (r: Option<usize>)
        ensures
            r == self.spec_header_len(),
    {
        match self {
            LinkType::Raw => Some(0),
            LinkType::Null | LinkType::Ppp => Some(4),
            LinkType::Loop | LinkType::PppHdlc | LinkType::PppEther => Some(8),
            LinkType::Ethernet => Some(ETHERNET_HDR_LEN),
            LinkType::LinuxSll => Some(16),
            LinkType::LinuxSll2 => Some(20),
            LinkType::Pflog => Some(28),
            LinkType::Ieee802_11 => Some(32),
            LinkType::Unknown => None,
        }
    }
}

/// Codes and link-layer types stand for each other, but for `Unknown`: a type's
/// code names that type, and a code that names a known type is that type's code.
pub proof fn lemma_code_round_trip(t: LinkType, code: u16)
    ensures
        t.spec_code() matches Some(c) ==> LinkType::of_code(c) == t,
        t.spec_code() is None <==> t == LinkType::Unknown,
        LinkType::of_code(code) != LinkType::Unknown ==> LinkType::of_code(code).spec_code()
            == Some(code),
{
}

impl vstd::std_specs::convert::FromSpecImpl<u16> for LinkType {
    open spec fn obeys_from_spec() -> bool {
        true
    }

    open spec fn from_spec(value: u16) -> LinkType {
        LinkType::of_code(value)
    }
}

impl From<u16> for LinkType {
    /// Resolves a link-layer type code; a code that is not in the table gives `Unknown`.
    fn from(value: u16) -> (r: LinkType) {
        match value {
            0 => LinkType::Null,
            1 => LinkType::Ethernet,
            9 => LinkType::Ppp,
            50 => LinkType::PppHdlc,
            51 => LinkType::PppEther,
            101 => LinkType::Raw,
            105 => LinkType::Ieee802_11,
            108 => LinkType::Loop,
            113 => LinkType::LinuxSll,
            117 => LinkType::Pflog,
            276 => LinkType::LinuxSll2,
            _ => LinkType::Unknown,
        }
    }
}

/// The bytes `at .. at + len` of a frame, where a header of `len` bytes is read.
pub open spec fn header_bytes(data: Seq<u8>, at: int, len: int) -> Seq<u8> {
    data.subrange(at, at + len)
}

/// An IPv4 header without options, as it stands in the first twenty bytes of a datagram.
#[derive(Clone, Copy, Debug, PartialEq, Eq)]
pub struct IPV4Header {
    /// The version in the upper four bits, and in the lower four the header's
    /// length in 32-bit words (5 where there are no options).
    pub version_ihl: u8,
    /// The differentiated services code point in the upper six bits, the explicit
    /// congestion notification in the lower two.
    pub tos_ecn: u8,
    /// Bytes of the whole datagram, header included.
    pub total_length: u16,
    pub id: u16,
    /// The flags in the upper three bits, the fragment offset in the lower thirteen.
    pub flags_foffset: u16,
    pub time_to_live: u8,
    /// The number of the protocol carried, `PROTOCOL_TCP` for TCP.
    pub protocol: u8,
    pub checksum: u16,
    pub source_ip: [u8; 4],
    pub destination_ip: [u8; 4],
}

impl IPV4Header {
    /// The header that the bytes `b[0] .. b[19]` spell, multi-byte fields most
    /// significant byte first.
    pub open spec fn from_wire(b: Seq<u8>) -> IPV4Header {
        IPV4Header {
            version_ihl: b[0],
            tos_ecn: b[1],
            total_length: be16_at(b, 2),
            id: be16_at(b, 4),
            flags_foffset: be16_at(b, 6),
            time_to_live: b[8],
            protocol: b[9],
            checksum: be16_at(b, 10),
            source_ip: [b[12], b[13], b[14], b[15]],
            destination_ip: [b[16], b[17], b[18], b[19]],
        }
    }

    /// The twenty bytes that spell this header on the wire.
    pub open spec fn wire(self) -> Seq<u8> {
        seq![self.version_ihl, self.tos_ecn]
            + be16_bytes(self.total_length)
            + be16_bytes(self.id)
            + be16_bytes(self.flags_foffset)
            + seq![self.time_to_live, self.protocol]
            + be16_bytes(self.checksum)
            + self.source_ip@
            + self.destination_ip@
    }

    /// The record and its wire image stand for each other: the image has
    /// `IPV4_HDR_LEN` bytes, reading it gives the record back, and the image of
    /// what was read from `b` is the first `IPV4_HDR_LEN` bytes of `b`.
    pub proof fn lemma_wire_round_trip(self, b: Seq<u8>)
        ensures
            self.wire().len() == IPV4_HDR_LEN,
            IPV4Header::from_wire(self.wire()) == self,
            b.len() >= IPV4_HDR_LEN ==> IPV4Header::from_wire(b).wire() == header_bytes(
                b,
                0,
                IPV4_HDR_LEN as int,
            ),
    {
        lemma_be16_of_bytes(self.total_length);
        lemma_be16_of_bytes(self.id);
        lemma_be16_of_bytes(self.flags_foffset);
        lemma_be16_of_bytes(self.checksum);
        let back = IPV4Header::from_wire(self.wire());
        assert(back.source_ip =~= self.source_ip);
        assert(back.destination_ip =~= self.destination_ip);
        if b.len() >= IPV4_HDR_LEN {
            lemma_be16_to_bytes(b[2], b[3]);
            lemma_be16_to_bytes(b[4], b[5]);
            lemma_be16_to_bytes(b[6], b[7]);
            lemma_be16_to_bytes(b[10], b[11]);
        }
    }

    /// The IP version, the upper four bits of `version_ihl`.
    pub open spec fn spec_version(&self) -> u8 {
        high_nibble(self.version_ihl)
    }

    /// The header's length in 32-bit words, the lower four bits of `version_ihl`.
    pub open spec fn spec_ihl(&self) -> u8 {
        low_nibble(self.version_ihl)
    }

    /// The differentiated services code point, the upper six bits of `tos_ecn`.
    pub open spec fn spec_dscp(&self) -> u8 {
        (self.tos_ecn as int / 4) as u8
    }

    /// The explicit congestion notification, the lower two bits of `tos_ecn`.
    pub open spec fn spec_ecn(&self) -> u8 {
        (self.tos_ecn as int % 4) as u8
    }

    /// The three flag bits, the upper three bits of `flags_foffset`.
    pub open spec fn spec_flags(&self) -> u8 {
        (self.flags_foffset as int / 0x2000) as u8
    }

    /// The fragment offset in units of eight bytes, the lower thirteen bits of
    /// `flags_foffset`.
    pub open spec fn spec_fragment_offset(&self) -> u16 {
        (self.flags_foffset as int % 0x2000) as u16
    }

    /// The IP version, the upper four bits of `version_ihl`.
    #[verifier::when_used_as_spec(spec_version)]
    pub fn version(&self) -> (r: u8)
        ensures
            r == self.spec_version(),
            r < 16,
    {
        read_high_nibble(self.version_ihl)
    }

    /// The header's length in 32-bit words, the lower four bits of `version_ihl`.
    #[verifier::when_used_as_spec(spec_ihl)]
    pub fn ihl(&self) -> (r: u8)
        ensures
            r == self.spec_ihl(),
            r < 16,
    {
        read_low_nibble(self.version_ihl)
    }

    /// The differentiated services code point, the upper six bits of `tos_ecn`.
    #[verifier::when_used_as_spec(spec_dscp)]
    pub fn dscp(&self) -> (r: u8)
        ensures
            r == self.spec_dscp(),
            r < 64,
    {
        let x: u8 = self.tos_ecn;
        assert(x >> 2 == x / 4) by (bit_vector);
        x >> 2
    }

    /// The explicit congestion notification, the lower two bits of `tos_ecn`.
    #[verifier::when_used_as_spec(spec_ecn)]
    pub fn ecn(&self) -> (r: u8)
        ensures
            r == self.spec_ecn(),
            r < 4,
    {
        let x: u8 = self.tos_ecn;
        assert(x & 0x03 == x % 4) by (bit_vector);
        x & 0x03
    }

    /// The three flag bits, the upper three bits of `flags_foffset`.
    #[verifier::when_used_as_spec(spec_flags)]
    pub fn flags(&self) -> (r: u8)
        ensures
            r == self.spec_flags(),
            r < 8,
    {
        let x: u16 = self.flags_foffset;
        assert(x >> 13 == x / 0x2000) by (bit_vector);
        (x >> 13) as u8
    }

    /// The fragment offset in units of eight bytes, the lower thirteen bits of
    /// `flags_foffset`.
    #[verifier::when_used_as_spec(spec_fragment_offset)]
    pub fn fragment_offset(&self) -> (r: u16)
        ensures
            r == self.spec_fragment_offset(),
            r < 0x2000,
    {
        let x: u16 = self.flags_foffset;
        assert(x & 0x1fff == x % 0x2000) by (bit_vector);
        x & 0x1fff
    }

    /// Reads the header that starts at `bytes[at]`, or reports `TooShort` where
    /// fewer than `IPV4_HDR_LEN` bytes stand there.
    pub fn decode(bytes: &[u8], at: usize) -> (r: Result<IPV4Header, DecodeError>)
        ensures
            r is Ok <==> at + IPV4_HDR_LEN <= bytes.len(),
            r matches Ok(h) ==> h == IPV4Header::from_wire(
                header_bytes(bytes@, at as int, IPV4_HDR_LEN as int),
            ),
            r matches Err(e) ==> e == DecodeError::TooShort,
    {
        if bytes.len() < IPV4_HDR_LEN || at > bytes.len() - IPV4_HDR_LEN {
            return Err(DecodeError::TooShort);
        }
        Ok(
            IPV4Header {
                version_ihl: bytes[at],
                tos_ecn: bytes[at + 1],
                total_length: read_be16(bytes, at + 2),
                id: read_be16(bytes, at + 4),
                flags_foffset: read_be16(bytes, at + 6),
                time_to_live: bytes[at + 8],
                protocol: bytes[at + 9],
                checksum: read_be16(bytes, at + 10),
                source_ip: [bytes[at + 12], bytes[at + 13], bytes[at + 14], bytes[at + 15]],
                destination_ip: [bytes[at + 16], bytes[at + 17], bytes[at + 18], bytes[at + 19]],
            },
        )
    }
}

/// An IPv6 header without extension headers, as it stands in the first forty bytes
/// of a datagram.
#[derive(Clone, Copy, Debug, PartialEq, Eq)]
pub struct IPV6Header {
    /// The version in the upper four bits, then eight bits of traffic class, then
    /// twenty bits of flow label.
    pub ver_tos_ecn_flow: u32,
    /// Bytes that follow the header.
    pub payload_length: u16,
    /// The number of the protocol carried, `PROTOCOL_TCP` for TCP.
    pub next_header: u8,
    /// The hop limit.
    pub time_to_live: u8,
    pub source_ip: [u8; 16],
    pub destination_ip: [u8; 16],
}

impl IPV6Header {
    /// The header that the bytes `b[0] .. b[39]` spell, multi-byte fields most
    /// significant byte first.
    pub open spec fn from_wire(b: Seq<u8>) -> IPV6Header {
        IPV6Header {
            ver_tos_ecn_flow: be32_at(b, 0),
            payload_length: be16_at(b, 4),
            next_header: b[6],
            time_to_live: b[7],
            source_ip: [
                b[8],
                b[9],
                b[10],
                b[11],
                b[12],
                b[13],
                b[14],
                b[15],
                b[16],
                b[17],
                b[18],
                b[19],
                b[20],
                b[21],
                b[22],
                b[23],
            ],
            destination_ip: [
                b[24],
                b[25],
                b[26],
                b[27],
                b[28],
                b[29],
                b[30],
                b[31],
                b[32],
                b[33],
                b[34],
                b[35],
                b[36],
                b[37],
                b[38],
                b[39],
            ],
        }
    }

    /// The forty bytes that spell this header on the wire.
    pub open spec fn wire(self) -> Seq<u8> {
        be32_bytes(self.ver_tos_ecn_flow)
            + be16_bytes(self.payload_length)
            + seq![self.next_header, self.time_to_live]
            + self.source_ip@
            + self.destination_ip@
    }

    /// The record and its wire image stand for each other: the image has
    /// `IPV6_HDR_LEN` bytes, reading it gives the record back, and the image of
    /// what was read from `b` is the first `IPV6_HDR_LEN` bytes of `b`.
    pub proof fn lemma_wire_round_trip(self, b: Seq<u8>)
        ensures
            self.wire().len() == IPV6_HDR_LEN,
            IPV6Header::from_wire(self.wire()) == self,
            b.len() >= IPV6_HDR_LEN ==> IPV6Header::from_wire(b).wire() == header_bytes(
                b,
                0,
                IPV6_HDR_LEN as int,
            ),
    {
        lemma_be16_of_bytes(self.payload_length);
        lemma_be32_of_bytes(self.ver_tos_ecn_flow);
        let back = IPV6Header::from_wire(self.wire());
        assert(back.source_ip =~= self.source_ip);
        assert(back.destination_ip =~= self.destination_ip);
        if b.len() >= IPV6_HDR_LEN {
            lemma_be16_to_bytes(b[4], b[5]);
            lemma_be32_to_bytes(b[0], b[1], b[2], b[3]);
        }
    }

    /// The IP version, the upper four bits of `ver_tos_ecn_flow`.
    pub open spec fn spec_version(&self) -> u8 {
        (self.ver_tos_ecn_flow as int / 0x1000_0000) as u8
    }

    /// The traffic class, the eight bits of `ver_tos_ecn_flow` below the version.
    pub open spec fn spec_traffic_class(&self) -> u8 {
        (self.ver_tos_ecn_flow as int / 0x10_0000 % 0x100) as u8
    }

    /// The flow label, the lower twenty bits of `ver_tos_ecn_flow`.
    pub open spec fn spec_flow_label(&self) -> u32 {
        (self.ver_tos_ecn_flow as int % 0x10_0000) as u32
    }

    /// The IP version, the upper four bits of `ver_tos_ecn_flow`.
    #[verifier::when_used_as_spec(spec_version)]
    pub fn version(&self) -> (r: u8)
        ensures
            r == self.spec_version(),
            r < 16,
    {
        let x: u32 = self.ver_tos_ecn_flow;
        assert(x >> 28 == x / 0x1000_0000) by (bit_vector);
        (x >> 28) as u8
    }

    /// The traffic class, the eight bits of `ver_tos_ecn_flow` below the version.
    #[verifier::when_used_as_spec(spec_traffic_class)]
    pub fn traffic_class(&self) -> (r: u8)
        ensures
            r == self.spec_traffic_class(),
    {
        let x: u32 = self.ver_tos_ecn_flow;
        assert((x >> 20) & 0xff == x / 0x10_0000 % 0x100) by (bit_vector);
        ((x >> 20) & 0xff) as u8
    }

    /// The flow label, the lower twenty bits of `ver_tos_ecn_flow`.
    #[verifier::when_used_as_spec(spec_flow_label)]
    pub fn flow_label(&self) -> (r: u32)
        ensures
            r == self.spec_flow_label(),
            r < 0x10_0000,
    {
        let x: u32 = self.ver_tos_ecn_flow;
        assert(x & 0x000f_ffff == x % 0x10_0000) by (bit_vector);
        x & 0x000f_ffff
    }

    /// Reads the header that starts at `bytes[at]`, or reports `TooShort` where
    /// fewer than `IPV6_HDR_LEN` bytes stand there.
    pub fn decode(bytes: &[u8], at: usize) -> (r: Result<IPV6Header, DecodeError>)
        ensures
            r is Ok <==> at + IPV6_HDR_LEN <= bytes.len(),
            r matches Ok(h) ==> h == IPV6Header::from_wire(
                header_bytes(bytes@, at as int, IPV6_HDR_LEN as int),
            ),
            r matches Err(e) ==> e == DecodeError::TooShort,
    {
        if bytes.len() < IPV6_HDR_LEN || at > bytes.len() - IPV6_HDR_LEN {
            return Err(DecodeError::TooShort);
        }
        Ok(
            IPV6Header {
                ver_tos_ecn_flow: read_be32(bytes, at),
                payload_length: read_be16(bytes, at + 4),
                next_header: bytes[at + 6],
                time_to_live: bytes[at + 7],
                source_ip: [
                    bytes[at + 8],
                    bytes[at + 9],
                    bytes[at + 10],
                    bytes[at + 11],
                    bytes[at + 12],
                    bytes[at + 13],
                    bytes[at + 14],
                    bytes[at + 15],
                    bytes[at + 16],
                    bytes[at + 17],
                    bytes[at + 18],
                    bytes[at + 19],
                    bytes[at + 20],
                    bytes[at + 21],
                    bytes[at + 22],
                    bytes[at + 23],
                ],
                destination_ip: [
                    bytes[at + 24],
                    bytes[at + 25],
                    bytes[at + 26],
                    bytes[at + 27],
                    bytes[at + 28],
                    bytes[at + 29],
                    bytes[at + 30],
                    bytes[at + 31],
                    bytes[at + 32],
                    bytes[at + 33],
                    bytes[at + 34],
                    bytes[at + 35],
                    bytes[at + 36],
                    bytes[at + 37],
                    bytes[at + 38],
                    bytes[at + 39],
                ],
            },
        )
    }
}

/// The IP header of a frame, of either version.
#[derive(Clone, Copy, Debug, PartialEq, Eq)]
pub enum IpHeader {
    V4(IPV4Header),
    V6(IPV6Header),
}

/// An Ethernet header, as it stands in the first fourteen bytes of an Ethernet frame.
#[derive(Clone, Copy, Debug, PartialEq, Eq)]
pub struct EthernetHeader {
    pub destination: [u8; 6],
    pub source: [u8; 6],
    /// The number of the protocol carried, 0x0800 for IPv4 and 0x86dd for IPv6.
    pub ether_type: u16,
}

impl EthernetHeader {
    /// The header that the bytes `b[0] .. b[13]` spell, the ether-type most
    /// significant byte first.
    pub open spec fn from_wire(b: Seq<u8>) -> EthernetHeader {
        EthernetHeader {
            destination: [b[0], b[1], b[2], b[3], b[4], b[5]],
            source: [b[6], b[7], b[8], b[9], b[10], b[11]],
            ether_type: be16_at(b, 12),
        }
    }

    /// The fourteen bytes that spell this header on the wire.
    pub open spec fn wire(self) -> Seq<u8> {
        self.destination@ + self.source@ + be16_bytes(self.ether_type)
    }

    /// The record and its wire image stand for each other: the image has
    /// `ETHERNET_HDR_LEN` bytes, reading it gives the record back, and the image
    /// of what was read from `b` is the first `ETHERNET_HDR_LEN` bytes of `b`.
    pub proof fn lemma_wire_round_trip(self, b: Seq<u8>)
        ensures
            self.wire().len() == ETHERNET_HDR_LEN,
            EthernetHeader::from_wire(self.wire()) == self,
            b.len() >= ETHERNET_HDR_LEN ==> EthernetHeader::from_wire(b).wire() == header_bytes(
                b,
                0,
                ETHERNET_HDR_LEN as int,
            ),
    {
        lemma_be16_of_bytes(self.ether_type);
        let back = EthernetHeader::from_wire(self.wire());
        assert(back.destination =~= self.destination);
        assert(back.source =~= self.source);
        if b.len() >= ETHERNET_HDR_LEN {
            lemma_be16_to_bytes(b[12], b[13]);
        }
    }

    /// The header in three lines: both addresses as six colon-separated
    /// hexadecimal bytes, and the ether-type as four hexadecimal digits.
    pub open spec fn text(self) -> Seq<char> {
        "Destination: "@
            + hex_colon(self.destination@)
            + "\nSource: "@
            + hex_colon(self.source@)
            + "\nEtherType: "@
            + hex_word(self.ether_type)
    }

    /// Writes the header out in three lines, for a log or a terminal.
    pub fn to_text(&self) -> (r: String)
        ensures
            r@ == self.text(),
    {
        let mut out = String::from_str("Destination: ");
        push_hex_colon(&mut out, self.destination.as_slice());
        out.append("\nSource: ");
        push_hex_colon(&mut out, self.source.as_slice());
        out.append("\nEtherType: ");
        push_hex_word(&mut out, self.ether_type);
        out
    }

    /// Reads the header that starts at `bytes[at]`, or reports `TooShort` where
    /// fewer than `ETHERNET_HDR_LEN` bytes stand there.
    pub fn decode(bytes: &[u8], at: usize) -> (r: Result<EthernetHeader, DecodeError>)
        ensures
            r is Ok <==> at + ETHERNET_HDR_LEN <= bytes.len(),
            r matches Ok(h) ==> h == EthernetHeader::from_wire(
                header_bytes(bytes@, at as int, ETHERNET_HDR_LEN as int),
            ),
            r matches Err(e) ==> e == DecodeError::TooShort,
    {
        if bytes.len() < ETHERNET_HDR_LEN || at > bytes.len() - ETHERNET_HDR_LEN {
            return Err(DecodeError::TooShort);
        }
        Ok(
            EthernetHeader {
                destination: [
                    bytes[at],
                    bytes[at + 1],
                    bytes[at + 2],
                    bytes[at + 3],
                    bytes[at + 4],
                    bytes[at + 5],
                ],
                source: [
                    bytes[at + 6],
                    bytes[at + 7],
                    bytes[at + 8],
                    bytes[at + 9],
                    bytes[at + 10],
                    bytes[at + 11],
                ],
                ether_type: read_be16(bytes, at + 12),
            },
        )
    }
}

/// A TCP header without options, as it stands in the first twenty bytes of a segment.
#[derive(Clone, Copy, Debug, PartialEq, Eq)]
pub struct TCPHeader {
    pub source_port: u16,
    pub destination_port: u16,
    pub sequence_number: u32,
    pub acknowledgment_number: u32,
    /// The header's length in 32-bit words in the upper four bits; the lower four
    /// are reserved.
    pub data_offset_reserved: u8,
    pub flags: u8,
    pub window_size: u16,
    pub checksum: u16,
    pub urgent_pointer: u16,
}

impl TCPHeader {
    /// The header that the bytes `b[0] .. b[19]` spell, multi-byte fields most
    /// significant byte first.
    pub open spec fn from_wire(b: Seq<u8>) -> TCPHeader {
        TCPHeader {
            source_port: be16_at(b, 0),
            destination_port: be16_at(b, 2),
            sequence_number: be32_at(b, 4),
            acknowledgment_number: be32_at(b, 8),
            data_offset_reserved: b[12],
            flags: b[13],
            window_size: be16_at(b, 14),
            checksum: be16_at(b, 16),
            urgent_pointer: be16_at(b, 18),
        }
    }

    /// The twenty bytes that spell this header on the wire.
    pub open spec fn wire(self) -> Seq<u8> {
        be16_bytes(self.source_port)
            + be16_bytes(self.destination_port)
            + be32_bytes(self.sequence_number)
            + be32_bytes(self.acknowledgment_number)
            + seq![self.data_offset_reserved, self.flags]
            + be16_bytes(self.window_size)
            + be16_bytes(self.checksum)
            + be16_bytes(self.urgent_pointer)
    }

    /// The record and its wire image stand for each other: the image has
    /// `TCP_HDR_LEN` bytes, reading it gives the record back, and the image of
    /// what was read from `b` is the first `TCP_HDR_LEN` bytes of `b`.
    pub proof fn lemma_wire_round_trip(self, b: Seq<u8>)
        ensures
            self.wire().len() == TCP_HDR_LEN,
            TCPHeader::from_wire(self.wire()) == self,
            b.len() >= TCP_HDR_LEN ==> TCPHeader::from_wire(b).wire() == header_bytes(
                b,
                0,
                TCP_HDR_LEN as int,
            ),
    {
        lemma_be16_of_bytes(self.source_port);
        lemma_be16_of_bytes(self.destination_port);
        lemma_be16_of_bytes(self.window_size);
        lemma_be16_of_bytes(self.checksum);
        lemma_be16_of_bytes(self.urgent_pointer);
        lemma_be32_of_bytes(self.sequence_number);
        lemma_be32_of_bytes(self.acknowledgment_number);
        if b.len() >= TCP_HDR_LEN {
            lemma_be16_to_bytes(b[0], b[1]);
            lemma_be16_to_bytes(b[2], b[3]);
            lemma_be16_to_bytes(b[14], b[15]);
            lemma_be16_to_bytes(b[16], b[17]);
            lemma_be16_to_bytes(b[18], b[19]);
            lemma_be32_to_bytes(b[4], b[5], b[6], b[7]);
            lemma_be32_to_bytes(b[8], b[9], b[10], b[11]);
        }
    }

    /// Reads the header that starts at `bytes[at]`, or reports `TooShort` where
    /// fewer than `TCP_HDR_LEN` bytes stand there.
    pub fn decode(bytes: &[u8], at: usize) -> (r: Result<TCPHeader, DecodeError>)
        ensures
            r is Ok <==> at + TCP_HDR_LEN <= bytes.len(),
            r matches Ok(h) ==> h == TCPHeader::from_wire(
                header_bytes(bytes@, at as int, TCP_HDR_LEN as int),
            ),
            r matches Err(e) ==> e == DecodeError::TooShort,
    {
        if bytes.len() < TCP_HDR_LEN || at > bytes.len() - TCP_HDR_LEN {
            return Err(DecodeError::TooShort);
        }
        Ok(
            TCPHeader {
                source_port: read_be16(bytes, at),
                destination_port: read_be16(bytes, at + 2),
                sequence_number: read_be32(bytes, at + 4),
                acknowledgment_number: read_be32(bytes, at + 8),
                data_offset_reserved: bytes[at + 12],
                flags: bytes[at + 13],
                window_size: read_be16(bytes, at + 14),
                checksum: read_be16(bytes, at + 16),
                urgent_pointer: read_be16(bytes, at + 18),
            },
        )
    }
}

} // verus!
