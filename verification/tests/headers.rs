use frame_decoder::text::{push_hex_byte, push_hex_colon, push_hex_word};
use frame_decoder::types::{DecodeError, EthernetHeader, IPV4Header, IPV6Header, TCPHeader};
use frame_decoder::wire::{read_be16, read_be32, read_high_nibble, read_low_nibble};

fn ipv4_bytes() -> Vec<u8> {
    vec![
        0x45, 0xb9, 0x01, 0x02, 0xab, 0xcd, 0x5f, 0xfe, 0x40, 0x06, 0x12, 0x34, 192, 168, 1, 10,
        10, 0, 0, 7,
    ]
}

fn ipv6_bytes() -> Vec<u8> {
    let mut b: Vec<u8> = vec![0x6a, 0xbc, 0xde, 0xf1, 0x01, 0x2c, 0x06, 0x40];
    for i in 0..16u8 {
        b.push(0x20 + i);
    }
    for i in 0..16u8 {
        b.push(0xe0 + i);
    }
    b
}

fn tcp_bytes() -> Vec<u8> {
    vec![
        0x1f, 0x90, 0xc3, 0x50, 0x01, 0x02, 0x03, 0x04, 0xa1, 0xb2, 0xc3, 0xd4, 0x50, 0x18, 0xff,
        0xfe, 0xbe, 0xef, 0x00, 0x09,
    ]
}

#[test]
fn nibbles_of_a_byte() {
    assert_eq!(read_high_nibble(0x45), 4);
    assert_eq!(read_low_nibble(0x45), 5);
    assert_eq!(read_high_nibble(0xff), 15);
    assert_eq!(read_low_nibble(0xf0), 0);
    assert_eq!(read_high_nibble(0x0f), 0);
}

#[test]
fn big_endian_readers() {
    let b: Vec<u8> = vec![0x00, 0x12, 0x34, 0x56, 0x78, 0xff];
    assert_eq!(read_be16(&b, 1), 0x1234);
    assert_eq!(read_be16(&b, 4), 0x78ff);
    assert_eq!(read_be32(&b, 1), 0x1234_5678);
    assert_eq!(read_be32(&b, 2), 0x3456_78ff);
    let ones: Vec<u8> = vec![0xff, 0xff, 0xff, 0xff];
    assert_eq!(read_be16(&ones, 0), u16::MAX);
    assert_eq!(read_be32(&ones, 0), u32::MAX);
}

#[test]
fn ipv4_fields_are_read_in_network_order() {
    let h = IPV4Header::decode(&ipv4_bytes(), 0).unwrap();
    assert_eq!(h.version_ihl, 0x45);
    assert_eq!(h.tos_ecn, 0xb9);
    assert_eq!(h.total_length, 0x0102);
    assert_eq!(h.id, 0xabcd);
    assert_eq!(h.flags_foffset, 0x5ffe);
    assert_eq!(h.time_to_live, 0x40);
    assert_eq!(h.protocol, 6);
    assert_eq!(h.checksum, 0x1234);
    assert_eq!(h.source_ip, [192, 168, 1, 10]);
    assert_eq!(h.destination_ip, [10, 0, 0, 7]);
}

#[test]
fn ipv4_packed_fields() {
    let h = IPV4Header::decode(&ipv4_bytes(), 0).unwrap();
    assert_eq!(h.version(), 4);
    assert_eq!(h.ihl(), 5);
    assert_eq!(h.dscp(), 0x2e);
    assert_eq!(h.ecn(), 1);
    assert_eq!(h.flags(), 2);
    assert_eq!(h.fragment_offset(), 0x1ffe);
}

#[test]
fn ipv4_is_read_at_a_position() {
    let mut b: Vec<u8> = vec![0xee; 7];
    b.extend(ipv4_bytes());
    b.push(0x77);
    let h = IPV4Header::decode(&b, 7).unwrap();
    assert_eq!(h, IPV4Header::decode(&ipv4_bytes(), 0).unwrap());
    assert_ne!(IPV4Header::decode(&b, 8).unwrap(), h);
}

#[test]
fn ipv4_needs_twenty_bytes() {
    let b = ipv4_bytes();
    assert_eq!(IPV4Header::decode(&b[..19], 0), Err(DecodeError::TooShort));
    assert_eq!(IPV4Header::decode(&b, 1), Err(DecodeError::TooShort));
    assert_eq!(IPV4Header::decode(&b, usize::MAX), Err(DecodeError::TooShort));
    assert_eq!(IPV4Header::decode(&[], 0), Err(DecodeError::TooShort));
}

#[test]
fn ipv6_fields_are_read_in_network_order() {
    let h = IPV6Header::decode(&ipv6_bytes(), 0).unwrap();
    assert_eq!(h.ver_tos_ecn_flow, 0x6abc_def1);
    assert_eq!(h.payload_length, 0x012c);
    assert_eq!(h.next_header, 6);
    assert_eq!(h.time_to_live, 0x40);
    assert_eq!(
        h.source_ip,
        [
            0x20, 0x21, 0x22, 0x23, 0x24, 0x25, 0x26, 0x27, 0x28, 0x29, 0x2a, 0x2b, 0x2c, 0x2d,
            0x2e, 0x2f
        ]
    );
    assert_eq!(
        h.destination_ip,
        [
            0xe0, 0xe1, 0xe2, 0xe3, 0xe4, 0xe5, 0xe6, 0xe7, 0xe8, 0xe9, 0xea, 0xeb, 0xec, 0xed,
            0xee, 0xef
        ]
    );
}

#[test]
fn ipv6_packed_fields() {
    let h = IPV6Header::decode(&ipv6_bytes(), 0).unwrap();
    assert_eq!(h.version(), 6);
    assert_eq!(h.traffic_class(), 0xab);
    assert_eq!(h.flow_label(), 0xc_def1);
}

#[test]
fn ipv6_needs_forty_bytes() {
    let b = ipv6_bytes();
    assert_eq!(b.len(), 40);
    assert_eq!(IPV6Header::decode(&b[..39], 0), Err(DecodeError::TooShort));
    assert_eq!(IPV6Header::decode(&b, 1), Err(DecodeError::TooShort));
    assert!(IPV6Header::decode(&b, 0).is_ok());
}

#[test]
fn tcp_fields_are_read_in_network_order() {
    let h = TCPHeader::decode(&tcp_bytes(), 0).unwrap();
    assert_eq!(h.source_port, 8080);
    assert_eq!(h.destination_port, 50000);
    assert_eq!(h.sequence_number, 0x0102_0304);
    assert_eq!(h.acknowledgment_number, 0xa1b2_c3d4);
    assert_eq!(h.data_offset_reserved, 0x50);
    assert_eq!(h.flags, 0x18);
    assert_eq!(h.window_size, 0xfffe);
    assert_eq!(h.checksum, 0xbeef);
    assert_eq!(h.urgent_pointer, 9);
}

#[test]
fn tcp_needs_twenty_bytes() {
    let b = tcp_bytes();
    assert_eq!(TCPHeader::decode(&b[..19], 0), Err(DecodeError::TooShort));
    assert_eq!(TCPHeader::decode(&b, 1), Err(DecodeError::TooShort));
    assert!(TCPHeader::decode(&b, 0).is_ok());
}

#[test]
fn ethernet_fields_are_read_in_network_order() {
    let b: Vec<u8> = vec![
        0xff, 0xff, 0xff, 0xff, 0xff, 0xff, 0x00, 0x1b, 0x21, 0x3c, 0x9d, 0xf8, 0x86, 0xdd, 0x60,
    ];
    let h = EthernetHeader::decode(&b, 0).unwrap();
    assert_eq!(h.destination, [0xff; 6]);
    assert_eq!(h.source, [0x00, 0x1b, 0x21, 0x3c, 0x9d, 0xf8]);
    assert_eq!(h.ether_type, 0x86dd);
    let shifted = EthernetHeader::decode(&b, 1).unwrap();
    assert_eq!(shifted.ether_type, 0xdd60);
    assert_eq!(EthernetHeader::decode(&b, 2), Err(DecodeError::TooShort));
    assert_eq!(EthernetHeader::decode(&b[..13], 0), Err(DecodeError::TooShort));
}

#[test]
fn ethernet_header_in_words() {
    let h = EthernetHeader {
        destination: [0x00, 0x1b, 0x21, 0x3c, 0x9d, 0xf8],
        source: [0xde, 0xad, 0xbe, 0xef, 0x0a, 0x90],
        ether_type: 0x0800,
    };
    assert_eq!(
        h.to_text(),
        "Destination: 00:1b:21:3c:9d:f8\nSource: de:ad:be:ef:0a:90\nEtherType: 0800"
    );
    let g = EthernetHeader { destination: [0xff; 6], source: [0; 6], ether_type: 0x86dd };
    assert_eq!(
        g.to_text(),
        "Destination: ff:ff:ff:ff:ff:ff\nSource: 00:00:00:00:00:00\nEtherType: 86dd"
    );
}

#[test]
fn hexadecimal_text() {
    let mut s = String::from("x");
    push_hex_byte(&mut s, 0x0a);
    push_hex_byte(&mut s, 0xf7);
    assert_eq!(s, "x0af7");
    let mut w = String::new();
    push_hex_word(&mut w, 0x0001);
    push_hex_word(&mut w, 0xabcd);
    assert_eq!(w, "0001abcd");
    let mut c = String::new();
    push_hex_colon(&mut c, &[]);
    assert_eq!(c, "");
    push_hex_colon(&mut c, &[0x12]);
    assert_eq!(c, "12");
    push_hex_colon(&mut c, &[0x34, 0x56, 0x9f]);
    assert_eq!(c, "1234:56:9f");
}

#[test]
fn every_byte_prints_as_its_two_digits() {
    for b in 0..=255u8 {
        let mut s = String::new();
        push_hex_byte(&mut s, b);
        assert_eq!(s, format!("{:02x}", b));
    }
}
