use trippy_core::{
    correlate, Correlator, decode_icmp, dublin_ipv6_payload, encode_udp_ipv4, decode_icmp_response, decode_tcp_response, emit_mpls,
    encode_echo_request, extract_echo_request, parse_extension_objects, parse_mpls, AddrFamily,
    Extension, Flags, IcmpPacketCode, IcmpPacketType, IcmpResponse, IpAddr, MplsLabelStack,
    MplsLabelStackMember, Port, Probe, ProbeStatus, Protocol, Response, ResponseSeq,
    ResponseSeqIcmp, RoundId, Sequence, TimeToLive, Timestamp, TraceId, TracerError,
};

const MAGIC: [u8; 6] = [0x74, 0x72, 0x69, 0x70, 0x70, 0x79];

fn v4(a: u8, b: u8, c: u8, d: u8) -> IpAddr {
    IpAddr::V4(u32::from_be_bytes([a, b, c, d]))
}

fn probe(seq: u16, id: u16, src: u16, dst: u16, ttl: u8, flags: Flags) -> Probe {
    Probe::new(
        Sequence(seq),
        TraceId(id),
        Port(src),
        Port(dst),
        TimeToLive(ttl),
        RoundId(0),
        Timestamp(1_000),
        flags,
    )
}

fn ipv4_header(dest: [u8; 4], protocol: u8) -> Vec<u8> {
    let mut h = vec![0x45, 0, 0, 0, 0x12, 0x34, 0, 0, 1, protocol, 0, 0, 10, 0, 0, 1];
    h.extend_from_slice(&dest);
    h
}

fn ipv6_header(dest: [u8; 16]) -> Vec<u8> {
    let mut h = vec![0x60, 0, 0, 0, 0, 0, 17, 1];
    h.extend_from_slice(&[0u8; 16]);
    h.extend_from_slice(&dest);
    h
}

fn icmp_error(icmp_type: u8, code: u8, nested: &[u8]) -> Vec<u8> {
    let mut m = vec![icmp_type, code, 0, 0, 0, 0, 0, 0];
    m.extend_from_slice(nested);
    m
}

fn udp_header(src: u16, dst: u16, len: u16, checksum: u16) -> Vec<u8> {
    let mut u = Vec::new();
    u.extend_from_slice(&src.to_be_bytes());
    u.extend_from_slice(&dst.to_be_bytes());
    u.extend_from_slice(&len.to_be_bytes());
    u.extend_from_slice(&checksum.to_be_bytes());
    u
}

fn rfc1071(data: &[u8]) -> u16 {
    let mut sum: u32 = 0;
    for chunk in data.chunks(2) {
        let hi = u32::from(chunk[0]) << 8;
        let lo = if chunk.len() > 1 { u32::from(chunk[1]) } else { 0 };
        sum += hi | lo;
    }
    while sum >> 16 != 0 {
        sum = (sum >> 16) + (sum & 0xffff);
    }
    !(sum as u16)
}

#[test]
fn icmp_hop_response() {
    let p = probe(1, 0x1234, 0, 0, 1, Flags::Classic);
    let echo = encode_echo_request(&p, 0x1234, 84, 0).unwrap();
    let mut nested = ipv4_header([10, 0, 0, 5], 1);
    nested.extend_from_slice(&echo);
    let te = icmp_error(11, 0, &nested);
    let router = v4(192, 0, 2, 1);
    let resp = decode_icmp(AddrFamily::Ipv4, Protocol::Icmp, Flags::Classic, &te, router, Timestamp(2_000))
        .unwrap()
        .unwrap();
    let mut outstanding = vec![p];
    let c = correlate(resp, &mut outstanding, v4(10, 0, 0, 5), 0).unwrap();
    assert_eq!(c.host, router);
    assert_eq!(c.icmp_packet_type, IcmpPacketType::TimeExceeded(IcmpPacketCode(0)));
    assert_eq!(c.extensions, None);
    assert_eq!(c.sequence, Sequence(1));
    assert_eq!(c.received, Timestamp(2_000));
    assert!(outstanding.is_empty());
}

#[test]
fn paris_udp_match() {
    let p = probe(42, 0, 33434, 33500, 5, Flags::ParisIpv4);
    let mut nested = ipv4_header([10, 0, 0, 5], 17);
    nested.extend_from_slice(&udp_header(33434, 33500, 8, 42));
    let te = icmp_error(11, 0, &nested);
    let resp = decode_icmp(AddrFamily::Ipv4, Protocol::Udp, Flags::ParisIpv4, &te, v4(192, 0, 2, 1), Timestamp(5_000))
        .unwrap()
        .unwrap();
    let mut outstanding = vec![p];
    let c = correlate(resp, &mut outstanding, v4(10, 0, 0, 5), 0).unwrap();
    assert_eq!(c.sequence, Sequence(42));
}

fn dublin_ipv6_error(payload: &[u8]) -> Vec<u8> {
    let target = [0x20, 0x01, 0x0d, 0xb8, 0, 0, 0, 0, 0, 0, 0, 0, 0, 0, 0, 1];
    let mut nested = ipv6_header(target);
    nested.extend_from_slice(&udp_header(40000, 33434, 8 + payload.len() as u16, 0));
    nested.extend_from_slice(payload);
    icmp_error(3, 0, &nested)
}

fn ipv6_target() -> IpAddr {
    IpAddr::V6(u128::from_be_bytes([0x20, 0x01, 0x0d, 0xb8, 0, 0, 0, 0, 0, 0, 0, 0, 0, 0, 0, 1]))
}

#[test]
fn dublin_ipv6_magic_validation() {
    let p = probe(7, 0, 40000, 33434, 3, Flags::DublinIpv6);
    let mut payload = MAGIC.to_vec();
    payload.resize(MAGIC.len() + 23, 0);
    let te = dublin_ipv6_error(&payload);
    let resp = decode_icmp(AddrFamily::Ipv6, Protocol::Udp, Flags::DublinIpv6, &te, v4(192, 0, 2, 1), Timestamp(5_000))
        .unwrap()
        .unwrap();
    match resp.response_data().resp_seq {
        ResponseSeq::Udp(s) => {
            assert_eq!(s.payload_len, 23);
            assert!(s.has_magic);
            assert_eq!(s.dest_addr, ipv6_target());
        }
        other => panic!("unexpected fingerprint {other:?}"),
    }
    let mut outstanding = vec![p];
    let c = correlate(resp, &mut outstanding, ipv6_target(), 16).unwrap();
    assert_eq!(c.sequence, Sequence(7));
}

#[test]
fn dublin_ipv6_without_magic_is_not_matched() {
    let p = probe(7, 0, 40000, 33434, 3, Flags::DublinIpv6);
    let payload = vec![0u8; 23];
    let te = dublin_ipv6_error(&payload);
    let resp = decode_icmp(AddrFamily::Ipv6, Protocol::Udp, Flags::DublinIpv6, &te, v4(192, 0, 2, 1), Timestamp(5_000))
        .unwrap()
        .unwrap();
    match resp.response_data().resp_seq {
        ResponseSeq::Udp(s) => {
            assert!(!s.has_magic);
            assert_eq!(s.payload_len, 23);
        }
        other => panic!("unexpected fingerprint {other:?}"),
    }
    let mut outstanding = vec![p];
    assert!(correlate(resp, &mut outstanding, ipv6_target(), 16).is_none());
    assert_eq!(outstanding.len(), 1);
}

#[test]
fn magic_is_ignored_outside_dublin_ipv6() {
    let mut payload = MAGIC.to_vec();
    payload.resize(23, 0);
    let te = dublin_ipv6_error(&payload);
    let resp = decode_icmp(AddrFamily::Ipv6, Protocol::Udp, Flags::ParisIpv6, &te, v4(192, 0, 2, 1), Timestamp(5_000))
        .unwrap()
        .unwrap();
    match resp.response_data().resp_seq {
        ResponseSeq::Udp(s) => {
            assert!(!s.has_magic);
            assert_eq!(s.payload_len, 23);
        }
        other => panic!("unexpected fingerprint {other:?}"),
    }
}

#[test]
fn tcp_refused() {
    let target = v4(198, 51, 100, 1);
    let p = probe(9, 0, 50000, 80, 12, Flags::Classic);
    let mut seg = vec![0u8; 20];
    seg[0..2].copy_from_slice(&80u16.to_be_bytes());
    seg[2..4].copy_from_slice(&50000u16.to_be_bytes());
    seg[12] = 0x50;
    seg[13] = 0x14;
    let resp = decode_tcp_response(&seg, target, Timestamp(3_000)).unwrap().unwrap();
    assert!(matches!(resp, Response::TcpRefused(_)));
    let mut outstanding = vec![p];
    let c = correlate(resp, &mut outstanding, target, 0).unwrap();
    assert_eq!(c.icmp_packet_type, IcmpPacketType::NotApplicable);
    assert_eq!(c.host, target);
}

#[test]
fn tcp_syn_ack_is_reply_and_plain_ack_is_ignored() {
    let target = v4(198, 51, 100, 1);
    let mut seg = vec![0u8; 20];
    seg[0..2].copy_from_slice(&80u16.to_be_bytes());
    seg[2..4].copy_from_slice(&50000u16.to_be_bytes());
    seg[13] = 0x12;
    let resp = decode_tcp_response(&seg, target, Timestamp(3_000)).unwrap().unwrap();
    match resp {
        Response::TcpReply(d) => match d.resp_seq {
            ResponseSeq::Tcp(t) => {
                assert_eq!(t.src_port, 50000);
                assert_eq!(t.dest_port, 80);
            }
            other => panic!("unexpected fingerprint {other:?}"),
        },
        other => panic!("unexpected response {other:?}"),
    }
    seg[13] = 0x10;
    assert!(decode_tcp_response(&seg, target, Timestamp(3_000)).unwrap().is_none());
    assert_eq!(decode_tcp_response(&seg[..19], target, Timestamp(3_000)).unwrap_err(), TracerError::PacketParseError);
}

#[test]
fn mpls_extension() {
    let p = probe(1, 0x1234, 0, 0, 1, Flags::Classic);
    let echo = encode_echo_request(&p, 0x1234, 28, 0).unwrap();
    let mut nested = ipv4_header([10, 0, 0, 5], 1);
    nested.extend_from_slice(&echo);
    let mut te = icmp_error(11, 0, &nested);
    te[5] = (nested.len() / 4) as u8;
    te.extend_from_slice(&[0x20, 0, 0, 0]);
    te.extend_from_slice(&[0, 8, 1, 1, 0, 6, 65, 64]);
    let resp = decode_icmp(AddrFamily::Ipv4, Protocol::Icmp, Flags::Classic, &te, v4(192, 0, 2, 1), Timestamp(2_000))
        .unwrap()
        .unwrap();
    match resp {
        Response::TimeExceeded(_, _, Some(ext)) => {
            let expected = vec![Extension::Mpls(MplsLabelStack {
                members: vec![MplsLabelStackMember { label: 100, exp: 0, bos: 1, ttl: 64 }],
            })];
            assert_eq!(ext.extensions, expected);
        }
        other => panic!("unexpected response {other:?}"),
    }
}

#[test]
fn unknown_extension_is_kept_verbatim() {
    let objects = [0, 7, 2, 3, 0xaa, 0xbb, 0xcc];
    let exts = parse_extension_objects(&objects, 0).unwrap();
    assert_eq!(exts.len(), 1);
    match &exts[0] {
        Extension::Unknown(u) => {
            assert_eq!(u.class_num, 2);
            assert_eq!(u.class_subtype, 3);
            assert_eq!(u.bytes, vec![0xaa, 0xbb, 0xcc]);
        }
        other => panic!("unexpected extension {other:?}"),
    }
    assert!(parse_extension_objects(&[0, 9, 2, 3, 0xaa], 0).is_none());
    assert!(parse_extension_objects(&[0, 2, 2, 3], 0).is_none());
}

#[test]
fn malformed_extension_fails_decode() {
    let mut nested = ipv4_header([10, 0, 0, 5], 1);
    nested.extend_from_slice(&[8, 0, 0, 0, 0x12, 0x34, 0, 1]);
    let mut te = icmp_error(11, 0, &nested);
    te[5] = (nested.len() / 4) as u8;
    te.extend_from_slice(&[0x20, 0, 0, 0, 0, 40, 1, 1]);
    let r = decode_icmp(AddrFamily::Ipv4, Protocol::Icmp, Flags::Classic, &te, v4(192, 0, 2, 1), Timestamp(2_000));
    assert_eq!(r.unwrap_err(), TracerError::PacketParseError);
}

#[test]
fn oversize_rejection() {
    let p = probe(1, 1, 0, 0, 1, Flags::Classic);
    let r = encode_echo_request(&p, 1, 2000, 0);
    assert_eq!(r, Err(TracerError::InvalidPacketSize(2000)));
}

#[test]
fn packet_size_boundaries() {
    let p = probe(1, 1, 0, 0, 1, Flags::Classic);
    assert_eq!(encode_echo_request(&p, 1, 1024, 0).unwrap().len(), 1004);
    assert_eq!(encode_echo_request(&p, 1, 1025, 0), Err(TracerError::InvalidPacketSize(1025)));
    assert_eq!(encode_echo_request(&p, 1, 28, 0).unwrap().len(), 8);
    assert_eq!(encode_echo_request(&p, 1, 27, 0), Err(TracerError::InvalidPacketSize(27)));
}

#[test]
fn echo_request_layout_and_checksum() {
    let p = probe(0x0102, 0, 0, 0, 1, Flags::Classic);
    let echo = encode_echo_request(&p, 0xbeef, 32, 0xab).unwrap();
    assert_eq!(&echo[0..2], &[8, 0]);
    assert_eq!(&echo[4..8], &[0xbe, 0xef, 0x01, 0x02]);
    assert_eq!(&echo[8..], &[0xab; 4]);
    let mut zeroed = echo.clone();
    zeroed[2] = 0;
    zeroed[3] = 0;
    let expected = rfc1071(&zeroed);
    assert_ne!(expected, 0);
    assert_eq!(u16::from_be_bytes([echo[2], echo[3]]), expected);
    assert_eq!(rfc1071(&echo), 0);
}

#[test]
fn truncated_nested_header_fails_decode() {
    let nested = vec![0x45, 0, 0, 0, 0, 0, 0, 0, 1, 1];
    let te = icmp_error(11, 0, &nested);
    let r = decode_icmp(AddrFamily::Ipv4, Protocol::Icmp, Flags::Classic, &te, v4(192, 0, 2, 1), Timestamp(1));
    assert_eq!(r.unwrap_err(), TracerError::PacketParseError);
    assert_eq!(decode_icmp_response(&te, v4(192, 0, 2, 1), Timestamp(1)).unwrap_err(), TracerError::PacketParseError);
    let mut long_ihl = ipv4_header([10, 0, 0, 5], 1);
    long_ihl[0] = 0x4f;
    long_ihl.extend_from_slice(&[8, 0, 0, 0, 0x12, 0x34, 0, 1]);
    assert_eq!(extract_echo_request(&long_ihl).unwrap_err(), TracerError::PacketParseError);
    assert_eq!(
        decode_icmp(AddrFamily::Ipv4, Protocol::Icmp, Flags::Classic, &[11, 0, 0], v4(1, 1, 1, 1), Timestamp(1)).unwrap_err(),
        TracerError::PacketParseError
    );
}

#[test]
fn tuple_mismatch_is_not_matched() {
    let p = probe(42, 0, 33434, 33500, 5, Flags::ParisIpv4);
    let mut nested = ipv4_header([10, 0, 0, 5], 17);
    nested.extend_from_slice(&udp_header(33434, 33501, 8, 42));
    let te = icmp_error(11, 0, &nested);
    let resp = decode_icmp(AddrFamily::Ipv4, Protocol::Udp, Flags::ParisIpv4, &te, v4(192, 0, 2, 1), Timestamp(5_000))
        .unwrap()
        .unwrap();
    let mut outstanding = vec![p];
    assert!(correlate(resp.clone(), &mut outstanding, v4(10, 0, 0, 5), 0).is_none());
    assert_eq!(outstanding, vec![p]);
    let mut nested = ipv4_header([10, 0, 0, 6], 17);
    nested.extend_from_slice(&udp_header(33434, 33500, 8, 42));
    let te = icmp_error(11, 0, &nested);
    let resp = decode_icmp(AddrFamily::Ipv4, Protocol::Udp, Flags::ParisIpv4, &te, v4(192, 0, 2, 1), Timestamp(5_000))
        .unwrap()
        .unwrap();
    assert!(correlate(resp, &mut outstanding, v4(10, 0, 0, 5), 0).is_none());
}

#[test]
fn classic_udp_uses_ip_identification() {
    let p = probe(0x1234, 0, 33434, 33500, 5, Flags::Classic);
    let mut nested = ipv4_header([10, 0, 0, 5], 17);
    nested.extend_from_slice(&udp_header(33434, 33500, 8, 7));
    let te = icmp_error(3, 3, &nested);
    let resp = decode_icmp(AddrFamily::Ipv4, Protocol::Udp, Flags::Classic, &te, v4(10, 0, 0, 5), Timestamp(5_000))
        .unwrap()
        .unwrap();
    assert!(matches!(resp, Response::DestinationUnreachable(_, IcmpPacketCode(3), None)));
    let mut outstanding = vec![p];
    let c = correlate(resp, &mut outstanding, v4(10, 0, 0, 5), 0).unwrap();
    assert_eq!(c.icmp_packet_type, IcmpPacketType::Unreachable(IcmpPacketCode(3)));
}

#[test]
fn most_recent_duplicate_is_chosen() {
    let mut older = probe(5, 9, 0, 0, 2, Flags::Classic);
    older.round = RoundId(1);
    let mut newer = probe(5, 9, 0, 0, 2, Flags::Classic);
    newer.round = RoundId(2);
    newer.sent = Timestamp(1_500);
    let reply = vec![0, 0, 0, 0, 0, 9, 0, 5];
    let resp = decode_icmp(AddrFamily::Ipv4, Protocol::Icmp, Flags::Classic, &reply, v4(10, 0, 0, 5), Timestamp(2_000))
        .unwrap()
        .unwrap();
    let other = probe(6, 9, 0, 0, 3, Flags::Classic);
    let mut outstanding = vec![older, other, newer];
    let c = correlate(resp, &mut outstanding, v4(10, 0, 0, 5), 0).unwrap();
    assert_eq!(c.round, RoundId(2));
    assert_eq!(c.icmp_packet_type, IcmpPacketType::EchoReply(IcmpPacketCode(0)));
    assert_eq!(outstanding, vec![other]);
}

#[test]
fn response_before_send_is_not_matched() {
    let p = probe(5, 9, 0, 0, 2, Flags::Classic);
    let reply = vec![0, 0, 0, 0, 0, 9, 0, 5];
    let resp = decode_icmp(AddrFamily::Ipv4, Protocol::Icmp, Flags::Classic, &reply, v4(10, 0, 0, 5), Timestamp(500))
        .unwrap()
        .unwrap();
    let mut outstanding = vec![p];
    assert!(correlate(resp, &mut outstanding, v4(10, 0, 0, 5), 0).is_none());
}

#[test]
fn echo_reply_sequence_mismatch_is_discarded() {
    let p = probe(5, 9, 0, 0, 2, Flags::Classic);
    let reply = vec![0, 0, 0, 0, 0, 9, 0, 6];
    let resp = decode_icmp(AddrFamily::Ipv4, Protocol::Icmp, Flags::Classic, &reply, v4(10, 0, 0, 5), Timestamp(2_000))
        .unwrap()
        .unwrap();
    let mut outstanding = vec![p];
    assert!(correlate(resp, &mut outstanding, v4(10, 0, 0, 5), 0).is_none());
}

#[test]
fn icmp_response_decoding() {
    let addr = v4(10, 0, 0, 5);
    let reply = [0, 0, 0, 0, 0x12, 0x34, 0, 7];
    match decode_icmp_response(&reply, addr, Timestamp(9)).unwrap().unwrap() {
        IcmpResponse::EchoReply(d) => {
            assert_eq!((d.identifier, d.sequence), (0x1234, 7));
        }
        other => panic!("unexpected response {other:?}"),
    }
    let mut nested = ipv4_header([10, 0, 0, 5], 1);
    nested.extend_from_slice(&[8, 0, 0, 0, 0x12, 0x34, 0, 3]);
    let du = icmp_error(3, 1, &nested);
    match decode_icmp_response(&du, addr, Timestamp(9)).unwrap().unwrap() {
        IcmpResponse::DestinationUnreachable(d) => {
            assert_eq!((d.identifier, d.sequence), (0x1234, 3));
        }
        other => panic!("unexpected response {other:?}"),
    }
    assert_eq!(extract_echo_request(&nested).unwrap(), ResponseSeqIcmp::new(0x1234, 3));
    let other = [5, 0, 0, 0, 0, 0, 0, 0];
    assert!(decode_icmp_response(&other, addr, Timestamp(9)).unwrap().is_none());
    assert!(decode_icmp(AddrFamily::Ipv4, Protocol::Icmp, Flags::Classic, &other, addr, Timestamp(9)).unwrap().is_none());
}

#[test]
fn mpls_round_trip() {
    let stack = MplsLabelStack {
        members: vec![
            MplsLabelStackMember { label: 100, exp: 0, bos: 0, ttl: 64 },
            MplsLabelStackMember { label: 0xfffff, exp: 7, bos: 1, ttl: 255 },
        ],
    };
    let bytes = emit_mpls(&stack);
    assert_eq!(bytes, vec![0, 6, 64, 64, 0xff, 0xff, 0xff, 0xff]);
    assert_eq!(parse_mpls(&bytes, 0, bytes.len()), stack.members);
    let raw = [0x12, 0x34, 0x56, 0x78, 0x9a, 0xbc, 0xde, 0xf0];
    let members = parse_mpls(&raw, 0, raw.len());
    assert_eq!(members[0], MplsLabelStackMember { label: 0x12345, exp: 3, bos: 0, ttl: 0x78 });
    assert_eq!(emit_mpls(&MplsLabelStack { members }), raw.to_vec());
}

#[test]
fn probe_lifecycle() {
    let s = ProbeStatus::default();
    assert_eq!(s, ProbeStatus::NotSent);
    assert_eq!(ProbeStatus::NotSent.skip(), ProbeStatus::Skipped);
    let p = probe(3, 4, 0, 0, 255, Flags::Classic);
    let awaited = s.send(p);
    assert!(awaited.is_awaited());
    assert_eq!(awaited.clone().try_into_awaited(), Some(p));
    assert_eq!(awaited.clone().try_into_complete(), None);
    let done = awaited.complete(v4(1, 2, 3, 4), Timestamp(1_000), IcmpPacketType::NotApplicable, None);
    assert!(done.is_complete());
    let c = done.try_into_complete().unwrap();
    assert_eq!(c.ttl, TimeToLive(255));
    assert_eq!(c.flags, Flags::Classic);
    assert!(c.received.0 >= c.sent.0);
    assert_eq!(c.host, v4(1, 2, 3, 4));
}

#[test]
fn extension_default_is_empty_unknown() {
    match Extension::default() {
        Extension::Unknown(u) => {
            assert_eq!((u.class_num, u.class_subtype), (0, 0));
            assert!(u.bytes.is_empty());
        }
        other => panic!("unexpected extension {other:?}"),
    }
}

#[test]
fn classic_udp_ipv4_round_trip() {
    let p = probe(0x0203, 0, 33000, 33434, 4, Flags::Classic);
    let dst = u32::from_be_bytes([10, 0, 0, 5]);
    let src = u32::from_be_bytes([10, 0, 0, 1]);
    let pkt = encode_udp_ipv4(&p, src, dst, 12, 0x55).unwrap();
    assert_eq!(pkt.len(), 40);
    assert_eq!(&pkt[0..12], &[0x45, 0, 0, 40, 0x02, 0x03, 0, 0, 4, 17, pkt[10], pkt[11]]);
    assert_eq!(&pkt[12..20], &[10, 0, 0, 1, 10, 0, 0, 5]);
    assert_eq!(&pkt[20..28], &[0x80, 0xe8, 0x82, 0x9a, 0, 20, 0, 0]);
    assert_eq!(&pkt[28..], &[0x55; 12]);
    let mut zeroed = pkt[0..20].to_vec();
    zeroed[10] = 0;
    zeroed[11] = 0;
    assert_eq!(u16::from_be_bytes([pkt[10], pkt[11]]), rfc1071(&zeroed));
    let te = icmp_error(11, 0, &pkt);
    let resp = decode_icmp(AddrFamily::Ipv4, Protocol::Udp, Flags::Classic, &te, v4(192, 0, 2, 1), Timestamp(5_000))
        .unwrap()
        .unwrap();
    match resp.response_data().resp_seq {
        ResponseSeq::Udp(s) => {
            assert_eq!(s.identifier, 0x0203);
            assert_eq!(s.payload_len, 12);
            assert_eq!(s.dest_addr, IpAddr::V4(dst));
        }
        other => panic!("unexpected fingerprint {other:?}"),
    }
    let mut outstanding = vec![p];
    assert!(correlate(resp, &mut outstanding, IpAddr::V4(dst), 0).is_some());
}

#[test]
fn udp_ipv4_size_limit() {
    let p = probe(1, 0, 33000, 33434, 4, Flags::DublinIpv4);
    assert_eq!(encode_udp_ipv4(&p, 1, 2, 996, 0).unwrap().len(), 1024);
    assert_eq!(encode_udp_ipv4(&p, 1, 2, 997, 0), Err(TracerError::InvalidPacketSize(1025)));
}

#[test]
fn dublin_ipv6_payload_round_trip() {
    let p = probe(7, 0, 40000, 33434, 3, Flags::DublinIpv6);
    let payload = dublin_ipv6_payload(&p, 16).unwrap();
    assert_eq!(payload.len(), MAGIC.len() + 23);
    assert_eq!(&payload[0..6], &MAGIC);
    assert!(payload[6..].iter().all(|b| *b == 0));
    let te = dublin_ipv6_error(&payload);
    let resp = decode_icmp(AddrFamily::Ipv6, Protocol::Udp, Flags::DublinIpv6, &te, v4(192, 0, 2, 1), Timestamp(5_000))
        .unwrap()
        .unwrap();
    let mut outstanding = vec![p];
    assert_eq!(correlate(resp, &mut outstanding, ipv6_target(), 16).unwrap().sequence, Sequence(7));
    assert_eq!(dublin_ipv6_payload(&p, 0).unwrap().len(), MAGIC.len() + 7);
    let far = probe(955, 0, 40000, 33434, 3, Flags::DublinIpv6);
    assert_eq!(dublin_ipv6_payload(&far, 16), Err(TracerError::InvalidPacketSize(977)));
    let edge = probe(954, 0, 40000, 33434, 3, Flags::DublinIpv6);
    assert_eq!(dublin_ipv6_payload(&edge, 16).unwrap().len(), 976);
}

#[test]
fn correlator_counts_unmatched_responses() {
    let target = v4(10, 0, 0, 5);
    let mut c = Correlator::new(target, 0);
    c.add(probe(5, 9, 0, 0, 2, Flags::Classic));
    let miss = vec![0, 0, 0, 0, 0, 9, 0, 6];
    let hit = vec![0, 0, 0, 0, 0, 9, 0, 5];
    let decode = |b: &[u8]| {
        decode_icmp(AddrFamily::Ipv4, Protocol::Icmp, Flags::Classic, b, target, Timestamp(2_000))
            .unwrap()
            .unwrap()
    };
    assert!(c.on_response(decode(&miss)).is_none());
    assert_eq!(c.unmatched, 1);
    assert_eq!(c.on_response(decode(&hit)).unwrap().sequence, Sequence(5));
    assert_eq!(c.unmatched, 1);
    assert!(c.outstanding.is_empty());
    assert!(c.on_response(decode(&hit)).is_none());
    assert_eq!(c.unmatched, 2);
}

#[test]
fn nested_ip_version_mismatch_fails_decode() {
    let mut nested = ipv4_header([10, 0, 0, 5], 1);
    nested[0] = 0x65;
    nested.extend_from_slice(&[8, 0, 0, 0, 0x12, 0x34, 0, 1]);
    assert_eq!(extract_echo_request(&nested).unwrap_err(), TracerError::PacketParseError);
    let te = icmp_error(11, 0, &nested);
    let r = decode_icmp(AddrFamily::Ipv4, Protocol::Icmp, Flags::Classic, &te, v4(192, 0, 2, 1), Timestamp(1));
    assert_eq!(r.unwrap_err(), TracerError::PacketParseError);
    let mut v4_in_v6 = ipv6_header([0; 16]);
    v4_in_v6[0] = 0x45;
    v4_in_v6.extend_from_slice(&udp_header(40000, 33434, 8, 0));
    let te = icmp_error(3, 0, &v4_in_v6);
    let r = decode_icmp(AddrFamily::Ipv6, Protocol::Udp, Flags::DublinIpv6, &te, v4(192, 0, 2, 1), Timestamp(1));
    assert_eq!(r.unwrap_err(), TracerError::PacketParseError);
}

#[test]
fn magic_with_short_udp_length_fails_decode() {
    let target = [0x20, 0x01, 0x0d, 0xb8, 0, 0, 0, 0, 0, 0, 0, 0, 0, 0, 0, 1];
    let mut nested = ipv6_header(target);
    nested.extend_from_slice(&udp_header(40000, 33434, 10, 0));
    nested.extend_from_slice(&MAGIC);
    let te = icmp_error(3, 0, &nested);
    let r = decode_icmp(AddrFamily::Ipv6, Protocol::Udp, Flags::DublinIpv6, &te, v4(192, 0, 2, 1), Timestamp(1));
    assert_eq!(r.unwrap_err(), TracerError::PacketParseError);
}

#[test]
fn short_message_of_unread_type_is_discarded() {
    let addr = v4(10, 0, 0, 5);
    let short = [8, 0, 0, 0];
    assert!(decode_icmp_response(&short, addr, Timestamp(1)).unwrap().is_none());
    assert!(decode_icmp(AddrFamily::Ipv4, Protocol::Icmp, Flags::Classic, &short, addr, Timestamp(1)).unwrap().is_none());
    assert!(decode_icmp_response(&[5], addr, Timestamp(1)).unwrap().is_none());
    assert_eq!(decode_icmp_response(&[], addr, Timestamp(1)).unwrap_err(), TracerError::PacketParseError);
    assert_eq!(decode_icmp_response(&[11, 0, 0, 0], addr, Timestamp(1)).unwrap_err(), TracerError::PacketParseError);
    assert_eq!(decode_icmp_response(&[0, 0, 0, 0], addr, Timestamp(1)).unwrap_err(), TracerError::PacketParseError);
}
