use vstd::prelude::*;

use crate::bytes::{be16_bytes, be32_bytes, lemma_be16_round_trip, lemma_be32_round_trip, push_be16, push_be32};
use crate::checksum::{checksum, pnet_checksum};
use crate::correlate::{fingerprint_matches, reflected_sequence};
use crate::error::TracerError;
use crate::icmp::{echo_payload, magic, nested_seq, starts_with_magic, MAGIC_LEN, MAX_PACKET_SIZE};
use crate::probe::{Probe, ResponseSeq, ResponseSeqUdp};
use crate::types::{AddrFamily, Flags, IpAddr, Protocol};

verus! {

/// The size of an IPv4 header without options and a UDP header together.
pub const UDP_IPV4_HEADERS_SIZE: usize = 28;

/// The IP protocol number of UDP.
pub const IPPROTO_UDP: u8 = 17;

/// The most UDP payload that an IPv6 probe within the packet size limit carries
/// behind a 40-byte IPv6 header and an 8-byte UDP header.
pub const MAX_UDP6_PAYLOAD: usize = MAX_PACKET_SIZE - 48;

/// An IPv4 header without options, for UDP, with the given fields.
pub open spec fn ipv4_header_bytes(total: u16, id: u16, ttl: u8, sum: u16, src: u32, dst: u32) -> Seq<u8> {
    seq![0x45u8, 0u8] + be16_bytes(total) + be16_bytes(id) + seq![0u8, 0u8, ttl, IPPROTO_UDP]
        + be16_bytes(sum) + be32_bytes(src) + be32_bytes(dst)
}

/// The UDP probe over IPv4 for `probe`, from `src` to `dst`, with `payload_len`
/// copies of `payload_value` as payload: the probe's sequence in the IPv4
/// Identification, its TTL in the header, the header checksum over the header
/// with a zero checksum, and no UDP checksum.
pub open spec fn udp_ipv4_bytes(probe: Probe, src: u32, dst: u32, payload_len: u16, payload_value: u8) -> Seq<u8> {
    let total = (UDP_IPV4_HEADERS_SIZE + payload_len) as u16;
    let unsummed = ipv4_header_bytes(total, probe.sequence.0, probe.ttl.0, 0, src, dst);
    ipv4_header_bytes(total, probe.sequence.0, probe.ttl.0, pnet_checksum(unsummed, 5), src, dst)
        + be16_bytes(probe.src_port.0) + be16_bytes(probe.dest_port.0) + be16_bytes(
        (8 + payload_len) as u16,
    ) + be16_bytes(0) + echo_payload(payload_len as nat, payload_value)
}

/// Build the IPv4 UDP probe for a classic or Dublin IPv4 trace, which carries
/// the probe's sequence in the IPv4 Identification field.
pub fn encode_udp_ipv4(probe: &Probe, src: u32, dst: u32, payload_len: u16, payload_value: u8) -> (r: Result<
    Vec<u8>,
    TracerError,
>)
    ensures
        UDP_IPV4_HEADERS_SIZE + payload_len <= MAX_PACKET_SIZE <==> r is Ok,
        UDP_IPV4_HEADERS_SIZE + payload_len > MAX_PACKET_SIZE ==> r == Err::<Vec<u8>, TracerError>(
            TracerError::InvalidPacketSize((UDP_IPV4_HEADERS_SIZE + payload_len) as usize),
        ),
        r is Ok ==> r->Ok_0@ == udp_ipv4_bytes(*probe, src, dst, payload_len, payload_value),
{
    let len = payload_len as usize;
    if len > MAX_PACKET_SIZE - UDP_IPV4_HEADERS_SIZE {
        return Err(TracerError::InvalidPacketSize(UDP_IPV4_HEADERS_SIZE + len));
    }
    let total = (UDP_IPV4_HEADERS_SIZE + len) as u16;
    let mut header: Vec<u8> = Vec::new();
    header.push(0x45);
    header.push(0);
    push_be16(&mut header, total);
    push_be16(&mut header, probe.sequence.0);
    header.push(0);
    header.push(0);
    header.push(probe.ttl.0);
    header.push(IPPROTO_UDP);
    push_be16(&mut header, 0);
    push_be32(&mut header, src);
    push_be32(&mut header, dst);
    assert(header@ =~= ipv4_header_bytes(total, probe.sequence.0, probe.ttl.0, 0, src, dst));
    let sum = checksum(header.as_slice(), 5);
    header.set(10, (sum / 256) as u8);
    header.set(11, (sum % 256) as u8);
    assert(header@ =~= ipv4_header_bytes(total, probe.sequence.0, probe.ttl.0, sum, src, dst));
    let mut out = header;
    push_be16(&mut out, probe.src_port.0);
    push_be16(&mut out, probe.dest_port.0);
    push_be16(&mut out, 8 + payload_len);
    push_be16(&mut out, 0);
    let ghost prefix = out@;
    let mut k: usize = 0;
    while k < len
        invariant
            k <= len,
            out@ =~= prefix + echo_payload(k as nat, payload_value),
        decreases len - k,
    {
        out.push(payload_value);
        k = k + 1;
    }
    Ok(out)
}

/// The UDP payload of a Dublin IPv6 probe: the magic prefix, then
/// `base_payload_len` plus the sequence zero bytes.
pub open spec fn dublin_payload(seq: u16, base_payload_len: u16) -> Seq<u8> {
    magic() + Seq::new((base_payload_len + seq) as nat, |_i: int| 0u8)
}

/// Whether a Dublin IPv6 payload for `seq` fits the packet size limit.
pub open spec fn dublin_payload_ok(seq: u16, base_payload_len: u16) -> bool {
    MAGIC_LEN + base_payload_len + seq <= MAX_UDP6_PAYLOAD
}

/// Build the UDP payload of a Dublin IPv6 probe, whose length beyond the magic
/// prefix carries the sequence.
pub fn dublin_ipv6_payload(probe: &Probe, base_payload_len: u16) -> (r: Result<Vec<u8>, TracerError>)
    ensures
        dublin_payload_ok(probe.sequence.0, base_payload_len) <==> r is Ok,
        !dublin_payload_ok(probe.sequence.0, base_payload_len) ==> r == Err::<Vec<u8>, TracerError>(
            TracerError::InvalidPacketSize((MAGIC_LEN + base_payload_len + probe.sequence.0) as usize),
        ),
        r is Ok ==> r->Ok_0@ == dublin_payload(probe.sequence.0, base_payload_len),
{
    let len = MAGIC_LEN + base_payload_len as usize + probe.sequence.0 as usize;
    if len > MAX_UDP6_PAYLOAD {
        return Err(TracerError::InvalidPacketSize(len));
    }
    let mut out: Vec<u8> = Vec::new();
    out.push(0x74);
    out.push(0x72);
    out.push(0x69);
    out.push(0x70);
    out.push(0x70);
    out.push(0x79);
    let mut k: usize = MAGIC_LEN;
    while k < len
        invariant
            MAGIC_LEN <= k <= len,
            out@ =~= magic() + Seq::new((k - MAGIC_LEN) as nat, |_i: int| 0u8),
        decreases len - k,
    {
        out.push(0);
        k = k + 1;
    }
    Ok(out)
}

/// A classic or Dublin IPv4 UDP probe, reflected whole, decodes to the
/// sequence in its Identification field and the probe's own tuple, and so
/// matches the probe it was built for.
pub proof fn lemma_udp_ipv4_round_trip(
    probe: Probe,
    src: u32,
    dst: u32,
    payload_len: u16,
    payload_value: u8,
    base_payload_len: u16,
)
    requires
        UDP_IPV4_HEADERS_SIZE + payload_len <= MAX_PACKET_SIZE,
        probe.flags == Flags::Classic || probe.flags == Flags::DublinIpv4,
    ensures
        nested_seq(
            AddrFamily::Ipv4,
            Protocol::Udp,
            probe.flags,
            udp_ipv4_bytes(probe, src, dst, payload_len, payload_value),
        ) == Some(
            ResponseSeq::Udp(
                ResponseSeqUdp {
                    identifier: probe.sequence.0,
                    dest_addr: IpAddr::V4(dst),
                    src_port: probe.src_port.0,
                    dest_port: probe.dest_port.0,
                    checksum: 0,
                    payload_len,
                    has_magic: false,
                },
            ),
        ),
        fingerprint_matches(
            nested_seq(
                AddrFamily::Ipv4,
                Protocol::Udp,
                probe.flags,
                udp_ipv4_bytes(probe, src, dst, payload_len, payload_value),
            )->0,
            probe,
            IpAddr::V4(dst),
            base_payload_len,
        ),
{
    let b = udp_ipv4_bytes(probe, src, dst, payload_len, payload_value);
    let total = (UDP_IPV4_HEADERS_SIZE + payload_len) as u16;
    assert(b.subrange(4, 6) =~= be16_bytes(probe.sequence.0));
    lemma_be16_round_trip(probe.sequence.0, b, 4);
    assert(b.subrange(16, 20) =~= be32_bytes(dst));
    lemma_be32_round_trip(dst, b, 16);
    let t = b.subrange(20, b.len() as int);
    assert(t.subrange(0, 2) =~= be16_bytes(probe.src_port.0));
    assert(t.subrange(2, 4) =~= be16_bytes(probe.dest_port.0));
    assert(t.subrange(4, 6) =~= be16_bytes((8 + payload_len) as u16));
    assert(t.subrange(6, 8) =~= be16_bytes(0));
    lemma_be16_round_trip(probe.src_port.0, t, 0);
    lemma_be16_round_trip(probe.dest_port.0, t, 2);
    lemma_be16_round_trip((8 + payload_len) as u16, t, 4);
    lemma_be16_round_trip(0, t, 6);
}

/// A Dublin IPv6 payload, reflected whole behind an IPv6 header and a UDP
/// header that gives its length, decodes with the magic flag set, a payload
/// length of the base length plus the sequence, and so the sequence it was built for.
pub proof fn lemma_dublin_ipv6_round_trip(
    seq: u16,
    base_payload_len: u16,
    ip_header: Seq<u8>,
    src_port: u16,
    dest_port: u16,
    udp_checksum: u16,
)
    requires
        dublin_payload_ok(seq, base_payload_len),
        ip_header.len() == 40,
        ip_header[0] / 16 == 6,
    ensures
        starts_with_magic(dublin_payload(seq, base_payload_len)),
        ({
            let p = dublin_payload(seq, base_payload_len);
            let d = ip_header + be16_bytes(src_port) + be16_bytes(dest_port) + be16_bytes(
                (8 + p.len()) as u16,
            ) + be16_bytes(udp_checksum) + p;
            &&& nested_seq(AddrFamily::Ipv6, Protocol::Udp, Flags::DublinIpv6, d) is Some
            &&& nested_seq(AddrFamily::Ipv6, Protocol::Udp, Flags::DublinIpv6, d)->0 is Udp
            &&& nested_seq(
                AddrFamily::Ipv6,
                Protocol::Udp,
                Flags::DublinIpv6,
                d,
            )->0->Udp_0.has_magic
            &&& nested_seq(
                AddrFamily::Ipv6,
                Protocol::Udp,
                Flags::DublinIpv6,
                d,
            )->0->Udp_0.payload_len == base_payload_len + seq
            &&& reflected_sequence(
                nested_seq(AddrFamily::Ipv6, Protocol::Udp, Flags::DublinIpv6, d)->0->Udp_0,
                Flags::DublinIpv6,
                base_payload_len,
            ) == Some(seq)
        }),
{
    let p = dublin_payload(seq, base_payload_len);
    let ulen = (8 + p.len()) as u16;
    let d = ip_header + be16_bytes(src_port) + be16_bytes(dest_port) + be16_bytes(ulen) + be16_bytes(
        udp_checksum,
    ) + p;
    let t = d.subrange(40, d.len() as int);
    assert(t =~= be16_bytes(src_port) + be16_bytes(dest_port) + be16_bytes(ulen) + be16_bytes(
        udp_checksum,
    ) + p);
    assert(t.subrange(4, 6) =~= be16_bytes(ulen));
    lemma_be16_round_trip(ulen, t, 4);
    assert(t.subrange(8, t.len() as int) =~= p);
    assert(p.subrange(0, 6) =~= magic());
    assert(starts_with_magic(p));
}

} // verus!
