use frame_decoder::types::{
    DecodeError, LinkType, ETHERNET_HDR_LEN, IPV4_HDR_LEN, IPV6_HDR_LEN, MIN_V4, MIN_V6,
    PROTOCOL_TCP, TCP_HDR_LEN,
};

#[test]
fn header_sizes_match_the_wire_layouts() {
    assert_eq!(ETHERNET_HDR_LEN, 14);
    assert_eq!(IPV4_HDR_LEN, 20);
    assert_eq!(IPV6_HDR_LEN, 40);
    assert_eq!(TCP_HDR_LEN, 20);
    assert_eq!(MIN_V4, 40);
    assert_eq!(MIN_V6, 60);
    assert_eq!(PROTOCOL_TCP, 6);
}

#[test]
fn known_codes_name_their_link_types() {
    assert_eq!(LinkType::from(0u16), LinkType::Null);
    assert_eq!(LinkType::from(1u16), LinkType::Ethernet);
    assert_eq!(LinkType::from(9u16), LinkType::Ppp);
    assert_eq!(LinkType::from(50u16), LinkType::PppHdlc);
    assert_eq!(LinkType::from(51u16), LinkType::PppEther);
    assert_eq!(LinkType::from(101u16), LinkType::Raw);
    assert_eq!(LinkType::from(105u16), LinkType::Ieee802_11);
    assert_eq!(LinkType::from(108u16), LinkType::Loop);
    assert_eq!(LinkType::from(113u16), LinkType::LinuxSll);
    assert_eq!(LinkType::from(117u16), LinkType::Pflog);
    assert_eq!(LinkType::from(276u16), LinkType::LinuxSll2);
}

#[test]
fn unrecognised_codes_are_unknown() {
    assert_eq!(LinkType::from(2u16), LinkType::Unknown);
    assert_eq!(LinkType::from(52u16), LinkType::Unknown);
    assert_eq!(LinkType::from(100u16), LinkType::Unknown);
    assert_eq!(LinkType::from(277u16), LinkType::Unknown);
    assert_eq!(LinkType::from(u16::MAX), LinkType::Unknown);
}

#[test]
fn every_code_is_known_or_unknown_and_round_trips() {
    let mut known: usize = 0;
    let mut code: u16 = 0;
    loop {
        let link = LinkType::from(code);
        match link.code() {
            Some(c) => {
                assert_eq!(c, code);
                known += 1;
            }
            None => assert_eq!(link, LinkType::Unknown),
        }
        if code == u16::MAX {
            break;
        }
        code += 1;
    }
    assert_eq!(known, 11);
}

#[test]
fn codes_of_the_link_types() {
    assert_eq!(LinkType::Null.code(), Some(0));
    assert_eq!(LinkType::Ethernet.code(), Some(1));
    assert_eq!(LinkType::Ppp.code(), Some(9));
    assert_eq!(LinkType::PppHdlc.code(), Some(50));
    assert_eq!(LinkType::PppEther.code(), Some(51));
    assert_eq!(LinkType::Raw.code(), Some(101));
    assert_eq!(LinkType::Ieee802_11.code(), Some(105));
    assert_eq!(LinkType::Loop.code(), Some(108));
    assert_eq!(LinkType::LinuxSll.code(), Some(113));
    assert_eq!(LinkType::Pflog.code(), Some(117));
    assert_eq!(LinkType::LinuxSll2.code(), Some(276));
    assert_eq!(LinkType::Unknown.code(), None);
}

#[test]
fn header_lengths_follow_the_table() {
    assert_eq!(LinkType::Raw.header_len(), Some(0));
    assert_eq!(LinkType::Null.header_len(), Some(4));
    assert_eq!(LinkType::Ppp.header_len(), Some(4));
    assert_eq!(LinkType::Loop.header_len(), Some(8));
    assert_eq!(LinkType::PppHdlc.header_len(), Some(8));
    assert_eq!(LinkType::PppEther.header_len(), Some(8));
    assert_eq!(LinkType::Ethernet.header_len(), Some(14));
    assert_eq!(LinkType::LinuxSll.header_len(), Some(16));
    assert_eq!(LinkType::LinuxSll2.header_len(), Some(20));
    assert_eq!(LinkType::Pflog.header_len(), Some(28));
    assert_eq!(LinkType::Ieee802_11.header_len(), Some(32));
    assert_eq!(LinkType::Unknown.header_len(), None);
}

#[test]
fn errors_have_their_words() {
    assert_eq!(DecodeError::TooShort.message(), "Packet too short");
    assert_eq!(DecodeError::UnknownIpVersion.message(), "Unknown IP version");
    assert_eq!(DecodeError::NoIpFound.message(), "No IP packet found");
}
