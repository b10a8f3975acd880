//! The frame decoder: where the network-layer header starts, and the headers read from there.
use vstd::prelude::*;
use crate::types::{
    header_bytes, DecodeError, EthernetHeader, IPV4Header, IPV6Header, IpAddr, IpHeader, LinkType,
    TCPHeader, ETHERNET_HDR_LEN, IPV4_HDR_LEN, IPV6_HDR_LEN, MIN_V4, MIN_V6, PROTOCOL_TCP,
    TCP_HDR_LEN,
};
use crate::wire::{high_nibble, read_high_nibble};

verus! {

/// The offset that a link-layer type hint fixes by itself, if it fixes one.
pub open spec fn hinted_offset(hint: Option<LinkType>) -> Option<usize> {
    match hint {
        Some(t) => t.spec_header_len(),
        None => None,
    }
}

/// The last offset that the scan tries.
pub const LAST_CANDIDATE: usize = IPV6_HDR_LEN - 2;

/// The offsets that the scan tries: every second position from 0 to `LAST_CANDIDATE`.
pub open spec fn is_candidate(c: int) -> bool {
    0 <= c <= LAST_CANDIDATE && c % 2 == 0
}

/// A TCP segment over IPv4 or IPv6 may start at position `c` of `data`: enough bytes
/// remain for the IP and TCP headers of the version that the nibble at `c` names, and
/// that header's protocol field names TCP.
pub open spec fn plausible_at(data: Seq<u8>, c: int) -> bool {
    &&& 0 <= c
    &&& c + MIN_V4 <= data.len()
    &&& {
        ||| high_nibble(data[c]) == 4 && data[c + 9] == PROTOCOL_TCP
        ||| high_nibble(data[c]) == 6 && c + MIN_V6 <= data.len() && data[c + 6] == PROTOCOL_TCP
    }
}

/// `c` is the first candidate at which a TCP segment over IP may start.
pub open spec fn first_plausible(data: Seq<u8>, c: int) -> bool {
    &&& is_candidate(c)
    &&& plausible_at(data, c)
    &&& forall|k: int| is_candidate(k) && k < c ==> !#[trigger] plausible_at(data, k)
}

/// The scan of `data` accepts some candidate.
pub open spec fn scan_succeeds(data: Seq<u8>) -> bool {
    exists|c: int| is_candidate(c) && #[trigger] plausible_at(data, c)
}

/// The error of a scan that accepts no candidate: `TooShort` where the frame ends
/// before the last candidate could hold an IPv4 and a TCP header, `NoIpFound` where
/// every candidate was looked at.
pub open spec fn scan_failure(data: Seq<u8>) -> DecodeError {
    if data.len() < LAST_CANDIDATE + MIN_V4 {
        DecodeError::TooShort
    } else {
        DecodeError::NoIpFound
    }
}

/// The network-layer offset of a frame can be resolved: the hint fixes it, or the
/// scan accepts a candidate.
pub open spec fn resolvable(data: Seq<u8>, hint: Option<LinkType>) -> bool {
    hinted_offset(hint) is Some || scan_succeeds(data)
}

/// `n` is the network-layer offset of a frame `data` captured with `hint`: the
/// table's value where the hint has one, else the first plausible candidate.
pub open spec fn resolves_to(data: Seq<u8>, hint: Option<LinkType>, n: int) -> bool {
    match hinted_offset(hint) {
        Some(k) => n == k,
        None => first_plausible(data, n),
    }
}

/// `n` is an offset that resolution can give for `data` under some hint.
pub open spec fn is_resolved(data: Seq<u8>, n: int) -> bool {
    exists|hint: Option<LinkType>| #[trigger] resolves_to(data, hint, n)
}

/// Bytes of the IP header of the given version.
pub open spec fn ip_header_len(version: IpAddr) -> usize {
    match version {
        IpAddr::V4 => IPV4_HDR_LEN,
        IpAddr::V6 => IPV6_HDR_LEN,
    }
}

/// What a decoder stands for: the bytes of one frame and the offset at which its
/// network-layer header starts.
pub struct FrameView {
    pub data: Seq<u8>,
    pub offset: nat,
}

impl FrameView {
    /// The IP version named by the upper four bits of the byte at the offset.
    pub open spec fn ip_version(self) -> Result<IpAddr, DecodeError> {
        if self.offset >= self.data.len() {
            Err(DecodeError::TooShort)
        } else if high_nibble(self.data[self.offset as int]) == 4 {
            Ok(IpAddr::V4)
        } else if high_nibble(self.data[self.offset as int]) == 6 {
            Ok(IpAddr::V6)
        } else {
            Err(DecodeError::UnknownIpVersion)
        }
    }

    /// The IP header at the offset. It is read only where the frame goes on from
    /// the offset for the IP header and a TCP header after it.
    pub open spec fn ip_header(self) -> Result<IpHeader, DecodeError> {
        match self.ip_version() {
            Ok(IpAddr::V4) => if self.offset + MIN_V4 <= self.data.len() {
                Ok(
                    IpHeader::V4(
                        IPV4Header::from_wire(
                            header_bytes(self.data, self.offset as int, IPV4_HDR_LEN as int),
                        ),
                    ),
                )
            } else {
                Err(DecodeError::TooShort)
            },
            Ok(IpAddr::V6) => if self.offset + MIN_V6 <= self.data.len() {
                Ok(
                    IpHeader::V6(
                        IPV6Header::from_wire(
                            header_bytes(self.data, self.offset as int, IPV6_HDR_LEN as int),
                        ),
                    ),
                )
            } else {
                Err(DecodeError::TooShort)
            },
            Err(e) => Err(e),
        }
    }

    /// The TCP header that follows an IP header of the least length for its
    /// version. Options of IPv4 and extension headers of IPv6 are not skipped.
    pub open spec fn tcp_header(self) -> Result<TCPHeader, DecodeError> {
        match self.ip_version() {
            Ok(version) => {
                let at = self.offset + ip_header_len(version);
                if at + TCP_HDR_LEN <= self.data.len() {
                    Ok(TCPHeader::from_wire(header_bytes(self.data, at, TCP_HDR_LEN as int)))
                } else {
                    Err(DecodeError::TooShort)
                }
            },
            Err(e) => Err(e),
        }
    }

    /// The Ethernet header at the start of the frame, where the offset leaves
    /// room for one.
    pub open spec fn ethernet_header(self) -> Result<EthernetHeader, DecodeError> {
        if self.offset >= ETHERNET_HDR_LEN && self.data.len() >= ETHERNET_HDR_LEN {
            Ok(EthernetHeader::from_wire(header_bytes(self.data, 0, ETHERNET_HDR_LEN as int)))
        } else {
            Err(DecodeError::TooShort)
        }
    }
}

/// A frame together with the offset at which its network-layer header starts.
///
/// The offset is resolved once, when the decoder is made, and every header is
/// read relative to it. Reading changes nothing, so the same request always
/// gives the same answer.
#[derive(Debug)]
pub struct RawPacket<'a> {
    data: &'a [u8],
    offset: usize,
}

impl<'a> View for RawPacket<'a> {
    type V = FrameView;

    closed spec fn view(&self) -> FrameView {
        FrameView { data: self.data@, offset: self.offset as nat }
    }
}

impl<'a> RawPacket<'a> {
    /// The offset came from the table of link-layer types or from a scan of the frame.
    #[verifier::type_invariant]
    spec fn resolved(self) -> bool {
        is_resolved(self.data@, self.offset as int)
    }

    /// Makes a decoder for the frame `data`, captured with the link-layer type
    /// `link_type` where one is known.
    ///
    /// Fails where the hint fixes no offset and the scan of the frame finds none.
    pub fn new(data: &'a [u8], link_type: Option<LinkType>) -> (r: Result<
        RawPacket<'a>,
        DecodeError,
    >)
        ensures
            r is Ok <==> resolvable(data@, link_type),
            r matches Ok(p) ==> p@.data == data@ && resolves_to(
                data@,
                link_type,
                p@.offset as int,
            ),
            r matches Err(e) ==> e == scan_failure(data@),
    {
        match RawPacket::calculate_offset(data, link_type) {
            Ok(offset) => Ok(RawPacket { data, offset }),
            Err(e) => Err(e),
        }
    }

    /// Reads the Ethernet header from the start of the frame. The frame counts as
    /// an Ethernet frame only where the offset is at least `ETHERNET_HDR_LEN`.
    pub fn get_ethernet_header(&self) -> (r: Result<EthernetHeader, DecodeError>)
        ensures
            r == self@.ethernet_header(),
    {
        if self.offset < ETHERNET_HDR_LEN {
            return Err(DecodeError::TooShort);
        }
        EthernetHeader::decode(self.data, 0)
    }

    /// Reads the IP header at the offset, of the version that `ip_version` reports.
    pub fn get_ip_header(&self) -> (r: Result<IpHeader, DecodeError>)
        ensures
            r == self@.ip_header(),
    {
        match self.ip_version() {
            Ok(IpAddr::V4) => {
                if self.data.len() - self.offset < MIN_V4 {
                    return Err(DecodeError::TooShort);
                }
                match IPV4Header::decode(self.data, self.offset) {
                    Ok(ip) => Ok(IpHeader::V4(ip)),
                    Err(e) => Err(e),
                }
            },
            Ok(IpAddr::V6) => {
                if self.data.len() - self.offset < MIN_V6 {
                    return Err(DecodeError::TooShort);
                }
                match IPV6Header::decode(self.data, self.offset) {
                    Ok(ip) => Ok(IpHeader::V6(ip)),
                    Err(e) => Err(e),
                }
            },
            Err(e) => Err(e),
        }
    }

    /// Reads the TCP header that follows the IP header.
    pub fn get_tcp_header(&self) -> (r: Result<TCPHeader, DecodeError>)
        ensures
            r == self@.tcp_header(),
    {
        let ip_version = match self.ip_version() {
            Ok(v) => v,
            Err(e) => {
                return Err(e);
            },
        };
        proof {
            use_type_invariant(self);
        }
        let offset: usize = self.offset + match ip_version {
            IpAddr::V4 => IPV4_HDR_LEN,
            IpAddr::V6 => IPV6_HDR_LEN,
        };
        TCPHeader::decode(self.data, offset)
    }

    /// Reads the IP version from the upper four bits of the byte at the offset.
    pub fn ip_version(&self) -> (r: Result<IpAddr, DecodeError>)
        ensures
            r == self@.ip_version(),
    {
        if self.offset >= self.data.len() {
            return Err(DecodeError::TooShort);
        }
        let ver: u8 = read_high_nibble(self.data[self.offset]);
        match ver {
            4 => Ok(IpAddr::V4),
            6 => Ok(IpAddr::V6),
            _ => Err(DecodeError::UnknownIpVersion),
        }
    }

    /// The network-layer offset, as it was resolved when the decoder was made.
    pub fn get_offset(&self) -> (r: usize)
        ensures
            r == self@.offset,
            is_resolved(self@.data, r as int),
    {
        proof {
            use_type_invariant(self);
        }
        self.offset
    }

    /// Resolves the network-layer offset of `data`.
    ///
    /// A hint that names a known link-layer type decides alone, and the frame is
    /// not looked at. Otherwise the candidates 0, 2, 4, ... up to `LAST_CANDIDATE`
    /// are tried in order and the first plausible one is the offset. The scan
    /// gives up with `TooShort` at the first candidate that leaves fewer than
    /// `MIN_V4` bytes, and with `NoIpFound` after the last candidate.
    pub fn calculate_offset(data: &[u8], link_type: Option<LinkType>) -> (r: Result<
        usize,
        DecodeError,
    >)
        ensures
            r is Ok <==> resolvable(data@, link_type),
            r matches Ok(n) ==> resolves_to(data@, link_type, n as int),
            r matches Err(e) ==> e == scan_failure(data@),
    {
        if let Some(t) = link_type {
            if let Some(n) = t.header_len() {
                return Ok(n);
            }
        }
        let mut c: usize = 0;
        while c <= LAST_CANDIDATE
            invariant
                hinted_offset(link_type) is None,
                c <= LAST_CANDIDATE + 2,
                c % 2 == 0,
                c > 0 ==> c - 2 + MIN_V4 <= data.len(),
                forall|k: int| is_candidate(k) && k < c ==> !#[trigger] plausible_at(data@, k),
            decreases LAST_CANDIDATE + 2 - c,
        {
            if data.len() < MIN_V4 || c > data.len() - MIN_V4 {
                return Err(DecodeError::TooShort);
            }
            let version: u8 = read_high_nibble(data[c]);
            if version == 4 {
                if data[c + 9] == PROTOCOL_TCP {
                    assert(plausible_at(data@, c as int));
                    return Ok(c);
                }
            } else if version == 6 {
                if data.len() - c >= MIN_V6 && data[c + 6] == PROTOCOL_TCP {
                    assert(plausible_at(data@, c as int));
                    return Ok(c);
                }
            }
            c += 2;
        }
        Err(DecodeError::NoIpFound)
    }
}

/// A hint that names a known link-layer type decides the offset alone: whatever
/// the frame holds, it is resolvable, and the table's value is the one offset it
/// resolves to.
pub proof fn lemma_hint_decides_offset(data: Seq<u8>, t: LinkType, n: int)
    requires
        t != LinkType::Unknown,
    ensures
        t.spec_header_len() is Some,
        resolvable(data, Some(t)),
        resolves_to(data, Some(t), n) <==> n == t.spec_header_len().unwrap(),
{
}

/// Without a deciding hint, the offset is a candidate at which the version nibble
/// is 4 or 6 and the protocol field of that version names TCP, with room for both
/// headers; and every candidate before it fails one of these tests.
pub proof fn lemma_scanned_offset_is_tcp_over_ip(data: Seq<u8>, hint: Option<LinkType>, n: int)
    requires
        hinted_offset(hint) is None,
        resolves_to(data, hint, n),
    ensures
        is_candidate(n),
        high_nibble(data[n]) == 4 || high_nibble(data[n]) == 6,
        high_nibble(data[n]) == 4 ==> n + MIN_V4 <= data.len() && data[n + 9] == PROTOCOL_TCP,
        high_nibble(data[n]) == 6 ==> n + MIN_V6 <= data.len() && data[n + 6] == PROTOCOL_TCP,
        forall|k: int| is_candidate(k) && k < n ==> !#[trigger] plausible_at(data, k),
{
}

/// A frame under a hint resolves to at most one offset.
pub proof fn lemma_resolution_is_unique(data: Seq<u8>, hint: Option<LinkType>, n: int, m: int)
    requires
        resolves_to(data, hint, n),
        resolves_to(data, hint, m),
    ensures
        n == m,
{
}

/// The first plausible candidate at or before a plausible one.
proof fn lemma_first_plausible_before(data: Seq<u8>, c: int) -> (n: int)
    requires
        is_candidate(c),
        plausible_at(data, c),
    ensures
        first_plausible(data, n),
        n <= c,
    decreases c,
{
    if exists|k: int| is_candidate(k) && k < c && #[trigger] plausible_at(data, k) {
        let k = choose|k: int| is_candidate(k) && k < c && #[trigger] plausible_at(data, k);
        lemma_first_plausible_before(data, k)
    } else {
        c
    }
}

/// A frame is resolvable exactly where it resolves to some offset.
pub proof fn lemma_resolvable_has_offset(data: Seq<u8>, hint: Option<LinkType>)
    ensures
        resolvable(data, hint) <==> exists|n: int| #[trigger] resolves_to(data, hint, n),
{
    if resolvable(data, hint) {
        match hinted_offset(hint) {
            Some(k) => {
                assert(resolves_to(data, hint, k as int));
            },
            None => {
                let c = choose|c: int| is_candidate(c) && #[trigger] plausible_at(data, c);
                let n = lemma_first_plausible_before(data, c);
                assert(resolves_to(data, hint, n));
            },
        }
    }
    if exists|n: int| #[trigger] resolves_to(data, hint, n) {
        let n = choose|n: int| #[trigger] resolves_to(data, hint, n);
    }
}

/// Every offset that resolution gives lies between 0 and `LAST_CANDIDATE`.
pub proof fn lemma_resolved_offset_is_small(data: Seq<u8>, n: int)
    requires
        is_resolved(data, n),
    ensures
        0 <= n <= LAST_CANDIDATE,
{
}

/// A frame that ends before the header asked for is rejected as `TooShort`, and
/// whatever is decoded lies within the frame.
pub proof fn lemma_short_frame_is_rejected(v: FrameView)
    ensures
        v.data.len() <= v.offset ==> v.ip_version() matches Err(DecodeError::TooShort),
        v.data.len() <= v.offset ==> v.ip_header() matches Err(DecodeError::TooShort),
        v.data.len() <= v.offset ==> v.tcp_header() matches Err(DecodeError::TooShort),
        (v.ip_version() matches Ok(IpAddr::V4)) && v.data.len() < v.offset + MIN_V4
            ==> v.ip_header() matches Err(DecodeError::TooShort),
        (v.ip_version() matches Ok(IpAddr::V6)) && v.data.len() < v.offset + MIN_V6
            ==> v.ip_header() matches Err(DecodeError::TooShort),
        (v.ip_version() matches Ok(IpAddr::V4)) && v.data.len() < v.offset + IPV4_HDR_LEN
            + TCP_HDR_LEN ==> v.tcp_header() matches Err(DecodeError::TooShort),
        (v.ip_version() matches Ok(IpAddr::V6)) && v.data.len() < v.offset + IPV6_HDR_LEN
            + TCP_HDR_LEN ==> v.tcp_header() matches Err(DecodeError::TooShort),
        v.data.len() < ETHERNET_HDR_LEN ==> v.ethernet_header() matches Err(DecodeError::TooShort),
        v.ip_header() matches Ok(IpHeader::V4(_)) ==> v.offset + MIN_V4 <= v.data.len(),
        v.ip_header() matches Ok(IpHeader::V6(_)) ==> v.offset + MIN_V6 <= v.data.len(),
        v.tcp_header() is Ok ==> v.offset + MIN_V4 <= v.data.len(),
        v.ethernet_header() is Ok ==> ETHERNET_HDR_LEN <= v.data.len(),
{
}

/// The IP header that is read is of the version that `ip_version` names, and its
/// own version field says the same. Where no version can be read, neither header
/// is, and the error is the same.
pub proof fn lemma_ip_header_agrees_with_version(v: FrameView)
    ensures
        v.ip_header() matches Ok(IpHeader::V4(ip)) ==> ip.spec_version() == 4,
        v.ip_header() matches Ok(IpHeader::V4(_)) ==> v.ip_version() matches Ok(IpAddr::V4),
        v.ip_header() matches Ok(IpHeader::V6(ip)) ==> ip.spec_version() == 6,
        v.ip_header() matches Ok(IpHeader::V6(_)) ==> v.ip_version() matches Ok(IpAddr::V6),
        v.ip_version() matches Err(e) ==> v.ip_header() matches Err(f) && f == e,
        v.ip_version() matches Err(e) ==> v.tcp_header() matches Err(f) && f == e,
{
}

/// A frame whose offset was found by the scan holds what the scan looked for: its
/// IP header and its TCP header can both be read, and the IP header names TCP as
/// the protocol it carries.
pub proof fn lemma_scanned_frame_decodes(v: FrameView)
    requires
        first_plausible(v.data, v.offset as int),
    ensures
        v.ip_version() is Ok,
        v.ip_header() is Ok,
        v.tcp_header() is Ok,
        v.ip_header() matches Ok(IpHeader::V4(ip)) ==> ip.protocol == PROTOCOL_TCP,
        v.ip_header() matches Ok(IpHeader::V6(ip)) ==> ip.next_header == PROTOCOL_TCP,
{
}

} // verus!
