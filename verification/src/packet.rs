//! Wire-format construction of ICMP Echo-Request probes.
//!
//! Every builder returns the packet as a byte vector whose contents
//! are pinned down exactly by a spec-level image of the wire format,
//! so checksum validity and declared-length correctness are proved
//! once and for all over those images.

use vstd::prelude::*;
use vstd::pervasive::VecAdditionalExecFns;
use crate::checksum::{checksum_of, internet_checksum, lemma_checksum_of_bounds};

verus! {

/// The identifier stamped into every Echo-Request this client sends.
pub const ECHO_IDENTIFIER: u16 = 44;

/// The 16-bit big-endian value stored at byte offset `at` of `b`.
pub open spec fn be16_at(b: Seq<u8>, at: int) -> int {
    256 * (b[at] as int) + (b[at + 1] as int)
}

/// An 8-byte ICMP Echo-Request header (type, code, zeroed checksum,
/// identifier, sequence number), before the checksum is filled in.
/// The type is 8 for ICMP and 128 for ICMPv6.
pub open spec fn echo_request_unchecksummed(sequence_number: u16, is_v4: bool) -> Seq<u8> {
    seq![
        (if is_v4 { 8u8 } else { 128u8 }),
        0u8,
        0u8,
        0u8,
        0u8,
        44u8,
        (sequence_number / 256) as u8,
        (sequence_number % 256) as u8,
    ]
}

/// The final Echo-Request bytes: the unchecksummed header with the
/// Internet checksum of those bytes stored big-endian at offset 2.
pub open spec fn echo_request_wire(sequence_number: u16, is_v4: bool) -> Seq<u8> {
    let base = echo_request_unchecksummed(sequence_number, is_v4);
    let ck = checksum_of(base);
    base.update(2, (ck / 256) as u8).update(3, (ck % 256) as u8)
}

/// The ICMP checksum stored at offset 2 matches the checksum
/// recomputed over the same bytes with the checksum field zeroed.
pub open spec fn icmp_checksum_valid(b: Seq<u8>) -> bool {
    be16_at(b, 2) == checksum_of(b.update(2, 0u8).update(3, 0u8))
}

/// A 20-byte IPv4 header for one probe, before its checksum: version 4,
/// header length 5 words, total length 28, identification 44, the given
/// TTL, protocol ICMP, source left zero for the kernel to fill, and the
/// given destination.
pub open spec fn ipv4_header_unchecksummed(dest: Seq<u8>, ttl: u8) -> Seq<u8> {
    seq![
        0x45u8,
        0u8,
        0u8,
        28u8,
        0u8,
        44u8,
        0u8,
        0u8,
        ttl,
        1u8,
        0u8,
        0u8,
        0u8,
        0u8,
        0u8,
        0u8,
        dest[0],
        dest[1],
        dest[2],
        dest[3],
    ]
}

/// The final IPv4 header bytes, with the header checksum stored
/// big-endian at offset 10.
pub open spec fn ipv4_header_wire(dest: Seq<u8>, ttl: u8) -> Seq<u8> {
    let base = ipv4_header_unchecksummed(dest, ttl);
    let ck = checksum_of(base);
    base.update(10, (ck / 256) as u8).update(11, (ck % 256) as u8)
}

/// A complete 28-byte IPv4 probe: header followed by the Echo-Request.
pub open spec fn ipv4_probe_wire(dest: Seq<u8>, sequence_number: u16, ttl: u8) -> Seq<u8> {
    ipv4_header_wire(dest, ttl) + echo_request_wire(sequence_number, true)
}

/// The IPv4 header checksum stored at offset 10 matches the checksum
/// recomputed over the 20 header bytes with the checksum field zeroed.
pub open spec fn ipv4_checksum_valid(b: Seq<u8>) -> bool {
    be16_at(b, 10) == checksum_of(b.subrange(0, 20).update(10, 0u8).update(11, 0u8))
}

/// A 40-byte IPv6 header for one probe: version 6, zero traffic class
/// and flow label, payload length 8, next header ICMPv6, the given hop
/// limit, source left zero, and the given destination. IPv6 carries no
/// header checksum of its own.
pub open spec fn ipv6_header_wire(dest: Seq<u8>, hop_limit: u8) -> Seq<u8> {
    seq![
        0x60u8,
        0u8,
        0u8,
        0u8,
        0u8,
        8u8,
        58u8,
        hop_limit,
        0u8,
        0u8,
        0u8,
        0u8,
        0u8,
        0u8,
        0u8,
        0u8,
        0u8,
        0u8,
        0u8,
        0u8,
        0u8,
        0u8,
        0u8,
        0u8,
        dest[0],
        dest[1],
        dest[2],
        dest[3],
        dest[4],
        dest[5],
        dest[6],
        dest[7],
        dest[8],
        dest[9],
        dest[10],
        dest[11],
        dest[12],
        dest[13],
        dest[14],
        dest[15],
    ]
}

/// A complete 48-byte IPv6 probe: header followed by the ICMPv6
/// Echo-Request (whose checksum here is the plain ICMP checksum; the
/// pseudo-header correction is the transport layer's business).
pub open spec fn ipv6_probe_wire(dest: Seq<u8>, sequence_number: u16, hop_limit: u8) -> Seq<u8> {
    ipv6_header_wire(dest, hop_limit) + echo_request_wire(sequence_number, false)
}

/// The checksum written into every Echo-Request validates against the
/// final bytes of the header.
pub proof fn lemma_echo_request_checksum_valid(sequence_number: u16, is_v4: bool)
    ensures
        echo_request_wire(sequence_number, is_v4).len() == 8,
        icmp_checksum_valid(echo_request_wire(sequence_number, is_v4)),
{
    let base = echo_request_unchecksummed(sequence_number, is_v4);
    let ck = checksum_of(base);
    lemma_checksum_of_bounds(base);
    let wire = echo_request_wire(sequence_number, is_v4);
    assert(wire.update(2, 0u8).update(3, 0u8) =~= base);
    assert(be16_at(wire, 2) == 256 * ((ck / 256) as u8 as int) + ((ck % 256) as u8 as int));
    assert(256 * (ck / 256) + ck % 256 == ck);
}

/// Every constructed IPv4 probe is 28 bytes long, declares exactly that
/// length in its total-length field, and carries a valid IPv4 header
/// checksum and a valid ICMP checksum in its payload.
pub proof fn lemma_ipv4_probe_valid(dest: Seq<u8>, sequence_number: u16, ttl: u8)
    requires
        dest.len() == 4,
    ensures
        ipv4_probe_wire(dest, sequence_number, ttl).len() == 28,
        be16_at(ipv4_probe_wire(dest, sequence_number, ttl), 2) == 28,
        ipv4_checksum_valid(ipv4_probe_wire(dest, sequence_number, ttl)),
        icmp_checksum_valid(ipv4_probe_wire(dest, sequence_number, ttl).subrange(20, 28)),
{
    let base = ipv4_header_unchecksummed(dest, ttl);
    let ck = checksum_of(base);
    lemma_checksum_of_bounds(base);
    let probe = ipv4_probe_wire(dest, sequence_number, ttl);
    assert(probe.subrange(0, 20).update(10, 0u8).update(11, 0u8) =~= base);
    assert(256 * (ck / 256) + ck % 256 == ck);
    lemma_echo_request_checksum_valid(sequence_number, true);
    assert(probe.subrange(20, 28) =~= echo_request_wire(sequence_number, true));
}

/// Every constructed IPv6 probe is 48 bytes long, declares a payload
/// length of exactly 8 (the Echo-Request it carries), and that payload
/// carries a valid plain ICMP checksum.
pub proof fn lemma_ipv6_probe_valid(dest: Seq<u8>, sequence_number: u16, hop_limit: u8)
    requires
        dest.len() == 16,
    ensures
        ipv6_probe_wire(dest, sequence_number, hop_limit).len() == 48,
        be16_at(ipv6_probe_wire(dest, sequence_number, hop_limit), 4) == 8,
        icmp_checksum_valid(ipv6_probe_wire(dest, sequence_number, hop_limit).subrange(40, 48)),
{
    let probe = ipv6_probe_wire(dest, sequence_number, hop_limit);
    lemma_echo_request_checksum_valid(sequence_number, false);
    assert(probe.subrange(40, 48) =~= echo_request_wire(sequence_number, false));
}

/// Reads the ICMP type byte and the embedded sequence number out of an
/// inbound ICMP message body (the bytes after the IP header for IPv4,
/// or the whole ICMPv6 message). The echo header needs 8 bytes; a
/// shorter message yields nothing.
pub fn parse_reply_header(payload: &Vec<u8>) -> (r: Option<(u8, u16)>)
    ensures
        payload@.len() >= 8 ==> r == Some((payload@[0], be16_at(payload@, 6) as u16)),
        payload@.len() < 8 ==> r is None,
{
    if payload.len() < 8 {
        None
    } else {
        let hi: u16 = payload[6] as u16;
        let lo: u16 = payload[7] as u16;
        Some((payload[0], hi * 256 + lo))
    }
}

/// Builds the 8-byte ICMP (or ICMPv6) Echo-Request header with the
/// fixed identifier, the given sequence number, and a computed
/// checksum.
pub fn build_icmp_packet(sequence_number: u16, is_v4: bool) -> (r: Vec<u8>)
    ensures
        r@ == echo_request_wire(sequence_number, is_v4),
        r@.len() == 8,
        icmp_checksum_valid(r@),
{
    proof {
        lemma_echo_request_checksum_valid(sequence_number, is_v4);
    }
    let mut p: Vec<u8> = Vec::new();
    p.push(if is_v4 { 8 } else { 128 });
    p.push(0);
    p.push(0);
    p.push(0);
    p.push(0);
    p.push(44);
    p.push((sequence_number / 256) as u8);
    p.push((sequence_number % 256) as u8);
    proof {
        assert(p@ =~= echo_request_unchecksummed(sequence_number, is_v4));
    }
    let ck: u16 = internet_checksum(&p);
    p.set(2, (ck / 256) as u8);
    p.set(3, (ck % 256) as u8);
    proof {
        assert(p@ =~= echo_request_wire(sequence_number, is_v4));
    }
    p
}

/// Builds a complete 28-byte IPv4 probe for the given destination,
/// sequence number and TTL.
pub fn build_v4_packet(dest: [u8; 4], sequence_number: u16, ttl: u8) -> (r: Vec<u8>)
    ensures
        r@ == ipv4_probe_wire(dest@, sequence_number, ttl),
        r@.len() == 28,
        be16_at(r@, 2) == 28,
        ipv4_checksum_valid(r@),
        icmp_checksum_valid(r@.subrange(20, 28)),
{
    proof {
        lemma_ipv4_probe_valid(dest@, sequence_number, ttl);
    }
    let mut p: Vec<u8> = Vec::new();
    p.push(0x45);
    p.push(0);
    p.push(0);
    p.push(28);
    p.push(0);
    p.push(44);
    p.push(0);
    p.push(0);
    p.push(ttl);
    p.push(1);
    p.push(0);
    p.push(0);
    p.push(0);
    p.push(0);
    p.push(0);
    p.push(0);
    p.push(dest[0]);
    p.push(dest[1]);
    p.push(dest[2]);
    p.push(dest[3]);
    proof {
        assert(p@ =~= ipv4_header_unchecksummed(dest@, ttl));
    }
    let ck: u16 = internet_checksum(&p);
    p.set(10, (ck / 256) as u8);
    p.set(11, (ck % 256) as u8);
    let mut icmp: Vec<u8> = build_icmp_packet(sequence_number, true);
    p.append(&mut icmp);
    proof {
        assert(p@ =~= ipv4_probe_wire(dest@, sequence_number, ttl));
    }
    p
}

/// Builds a complete 48-byte IPv6 probe for the given destination,
/// sequence number and hop limit.
pub fn build_v6_packet(dest: [u8; 16], sequence_number: u16, hop_limit: u8) -> (r: Vec<u8>)
    ensures
        r@ == ipv6_probe_wire(dest@, sequence_number, hop_limit),
        r@.len() == 48,
        be16_at(r@, 4) == 8,
        icmp_checksum_valid(r@.subrange(40, 48)),
{
    proof {
        lemma_ipv6_probe_valid(dest@, sequence_number, hop_limit);
    }
    let mut p: Vec<u8> = Vec::new();
    p.push(0x60);
    p.push(0);
    p.push(0);
    p.push(0);
    p.push(0);
    p.push(8);
    p.push(58);
    p.push(hop_limit);
    p.push(0);
    p.push(0);
    p.push(0);
    p.push(0);
    p.push(0);
    p.push(0);
    p.push(0);
    p.push(0);
    p.push(0);
    p.push(0);
    p.push(0);
    p.push(0);
    p.push(0);
    p.push(0);
    p.push(0);
    p.push(0);
    p.push(dest[0]);
    p.push(dest[1]);
    p.push(dest[2]);
    p.push(dest[3]);
    p.push(dest[4]);
    p.push(dest[5]);
    p.push(dest[6]);
    p.push(dest[7]);
    p.push(dest[8]);
    p.push(dest[9]);
    p.push(dest[10]);
    p.push(dest[11]);
    p.push(dest[12]);
    p.push(dest[13]);
    p.push(dest[14]);
    p.push(dest[15]);
    proof {
        assert(p@ =~= ipv6_header_wire(dest@, hop_limit));
    }
    let mut icmp: Vec<u8> = build_icmp_packet(sequence_number, false);
    p.append(&mut icmp);
    proof {
        assert(p@ =~= ipv6_probe_wire(dest@, sequence_number, hop_limit));
    }
    p
}

} // verus!
