use rusty_ping::packet::{
    build_icmp_packet, build_v4_packet, build_v6_packet, parse_reply_header, ECHO_IDENTIFIER,
};
use rusty_ping::checksum::internet_checksum;

use pnet::packet::Packet;
use pnet::packet::icmp::IcmpPacket;
use pnet::packet::icmp::checksum as pnet_icmp_checksum;
use pnet::packet::icmp::echo_request::EchoRequestPacket;
use pnet::packet::ipv4::Ipv4Packet;
use pnet::packet::ipv4::checksum as pnet_ipv4_checksum;
use pnet::packet::ipv6::Ipv6Packet;

#[test]
fn echo_request_bytes_v4_seq_zero() {
    // words: 0x0800, 0x0000, 0x002C, 0x0000 -> sum 0x082C -> checksum 0xF7D3
    let p = build_icmp_packet(0, true);
    assert_eq!(p, vec![8, 0, 0xF7, 0xD3, 0, 44, 0, 0]);
}

#[test]
fn echo_request_bytes_v4_seq_one() {
    let p = build_icmp_packet(1, true);
    assert_eq!(p, vec![8, 0, 0xF7, 0xD2, 0, 44, 0, 1]);
}

#[test]
fn echo_request_bytes_v6_seq_zero() {
    // words: 0x8000, 0x0000, 0x002C, 0x0000 -> sum 0x802C -> checksum 0x7FD3
    let p = build_icmp_packet(0, false);
    assert_eq!(p, vec![128, 0, 0x7F, 0xD3, 0, 44, 0, 0]);
}

#[test]
fn echo_request_checksum_round_trip() {
    // Recomputing the checksum over the final bytes with the checksum
    // field zeroed gives back the stored field, for a spread of
    // sequence numbers.
    for seq in [0u16, 1, 2, 255, 256, 0x1234, 0xFFFF] {
        for is_v4 in [true, false] {
            let p = build_icmp_packet(seq, is_v4);
            let stored = 256 * (p[2] as u32) + p[3] as u32;
            let mut zeroed = p.clone();
            zeroed[2] = 0;
            zeroed[3] = 0;
            assert_eq!(stored, internet_checksum(&zeroed) as u32);
        }
    }
}

#[test]
fn echo_request_checksum_matches_pnet() {
    for seq in [0u16, 7, 300, 0xABCD] {
        let p = build_icmp_packet(seq, true);
        let parsed = IcmpPacket::new(&p).unwrap();
        assert_eq!(pnet_icmp_checksum(&parsed), parsed.get_checksum());
    }
}

#[test]
fn echo_request_fields_match_pnet() {
    let p = build_icmp_packet(0x1234, true);
    let parsed = EchoRequestPacket::new(&p).unwrap();
    assert_eq!(parsed.get_icmp_type().0, 8);
    assert_eq!(parsed.get_icmp_code().0, 0);
    assert_eq!(parsed.get_identifier(), ECHO_IDENTIFIER);
    assert_eq!(parsed.get_sequence_number(), 0x1234);
}

#[test]
fn ipv4_probe_exact_header() {
    // dest 127.0.0.1, ttl 128: header words sum to 0x1444A, folded
    // 0x444B, checksum 0xBBB4.
    let p = build_v4_packet([127, 0, 0, 1], 0, 128);
    assert_eq!(p.len(), 28);
    assert_eq!(
        &p[..20],
        &[
            0x45, 0, 0, 28, 0, 44, 0, 0, 128, 1, 0xBB, 0xB4, 0, 0, 0, 0, 127, 0, 0, 1
        ]
    );
    assert_eq!(&p[20..], &[8, 0, 0xF7, 0xD3, 0, 44, 0, 0]);
}

#[test]
fn ipv4_probe_length_and_checksum_match_pnet() {
    let p = build_v4_packet([8, 8, 8, 8], 5, 64);
    let parsed = Ipv4Packet::new(&p).unwrap();
    assert_eq!(parsed.get_version(), 4);
    assert_eq!(parsed.get_header_length(), 5);
    assert_eq!(parsed.get_total_length() as usize, p.len());
    assert_eq!(parsed.get_total_length(), 28);
    assert_eq!(parsed.get_identification(), 44);
    assert_eq!(parsed.get_ttl(), 64);
    assert_eq!(parsed.get_next_level_protocol().0, 1);
    assert_eq!(parsed.get_destination().octets(), [8, 8, 8, 8]);
    assert_eq!(pnet_ipv4_checksum(&parsed), parsed.get_checksum());
}

#[test]
fn ipv4_probe_payload_is_echo_request() {
    let p = build_v4_packet([1, 2, 3, 4], 9, 32);
    let parsed = Ipv4Packet::new(&p).unwrap();
    let echo = EchoRequestPacket::new(parsed.payload()).unwrap();
    assert_eq!(echo.get_sequence_number(), 9);
    assert_eq!(echo.get_identifier(), 44);
    let icmp = IcmpPacket::new(parsed.payload()).unwrap();
    assert_eq!(pnet_icmp_checksum(&icmp), icmp.get_checksum());
}

#[test]
fn ipv6_probe_fields_match_pnet() {
    let dest = [0, 1, 2, 3, 4, 5, 6, 7, 8, 9, 10, 11, 12, 13, 14, 15];
    let p = build_v6_packet(dest, 3, 77);
    assert_eq!(p.len(), 48);
    let parsed = Ipv6Packet::new(&p).unwrap();
    assert_eq!(parsed.get_version(), 6);
    assert_eq!(parsed.get_payload_length(), 8);
    assert_eq!(parsed.get_next_header().0, 58);
    assert_eq!(parsed.get_hop_limit(), 77);
    assert_eq!(parsed.get_destination().octets(), dest);
    assert_eq!(parsed.payload(), &p[40..]);
    let echo = EchoRequestPacket::new(parsed.payload()).unwrap();
    assert_eq!(echo.get_sequence_number(), 3);
    assert_eq!(p[40], 128);
}

#[test]
fn parse_reply_header_reads_type_and_sequence() {
    let p = build_icmp_packet(0x0203, true);
    let parsed = parse_reply_header(&p);
    assert_eq!(parsed, Some((8, 0x0203)));
}

#[test]
fn parse_reply_header_short_buffer() {
    let short = vec![0u8; 7];
    assert_eq!(parse_reply_header(&short), None);
}

#[test]
fn parse_reply_header_agrees_with_pnet() {
    // A synthetic echo reply: type 0, code 0, some checksum, id, seq.
    let bytes = vec![0u8, 0, 0x12, 0x34, 0, 44, 0x21, 0x43];
    let ours = parse_reply_header(&bytes).unwrap();
    let theirs = pnet::packet::icmp::echo_reply::EchoReplyPacket::new(&bytes).unwrap();
    assert_eq!(ours.0, theirs.get_icmp_type().0);
    assert_eq!(ours.1, theirs.get_sequence_number());
}
