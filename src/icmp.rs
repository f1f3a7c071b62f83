use vstd::prelude::*;

use crate::bytes::{be128, be16, be16_bytes, be32, push_be16, read_be128, read_be16, read_be32};
use crate::checksum::{checksum, pnet_checksum};
use crate::correlate::fingerprint_matches;
use crate::error::TracerError;
use crate::extensions::{extensions_denote, parse_extension_objects, parse_objects};
use crate::probe::{
    Extensions, IcmpPacketCode, Probe, Response, ResponseData, ResponseSeq, ResponseSeqIcmp,
    ResponseSeqTcp, ResponseSeqUdp,
};
use crate::types::{AddrFamily, Flags, IpAddr, Protocol, Timestamp};

verus! {

/// The maximum size of the IP packet we allow.
pub const MAX_PACKET_SIZE: usize = 1024;

/// The size of an IPv4 header without options.
pub const IPV4_HEADER_SIZE: usize = 20;

/// The size of an IPv6 header.
pub const IPV6_HEADER_SIZE: usize = 40;

/// The size of an ICMP echo header.
pub const ECHO_HEADER_SIZE: usize = 8;

/// The maximum size of ICMP packet we allow.
pub const MAX_ICMP_BUF: usize = MAX_PACKET_SIZE - IPV4_HEADER_SIZE;

/// The maximum ICMP payload size we allow.
pub const MAX_PAYLOAD_BUF: usize = MAX_ICMP_BUF - ECHO_HEADER_SIZE;

/// The ICMPv4 type of an echo request.
pub const ICMP_ECHO_REQUEST: u8 = 8;

/// The bytes that open the payload of a Dublin IPv6 UDP probe.
pub open spec fn magic() -> Seq<u8> {
    seq![0x74u8, 0x72u8, 0x69u8, 0x70u8, 0x70u8, 0x79u8]
}

/// The length of the magic prefix.
pub const MAGIC_LEN: usize = 6;

/// Whether, under `flags`, the UDP datagram `t` carries the magic prefix: only
/// a Dublin IPv6 trace looks for it.
pub open spec fn reflects_magic(flags: Flags, t: Seq<u8>) -> bool {
    flags == Flags::DublinIpv6 && starts_with_magic(t.subrange(8, t.len() as int))
}

/// Whether `p` begins with the magic prefix.
pub open spec fn starts_with_magic(p: Seq<u8>) -> bool {
    p.len() >= 6 && p.subrange(0, 6) == magic()
}

/// An ICMP echo message: type, zero code, checksum, identifier, sequence, payload.
pub open spec fn echo_message(icmp_type: u8, sum: u16, id: u16, seq: u16, payload: Seq<u8>) -> Seq<u8> {
    seq![icmp_type, 0u8] + be16_bytes(sum) + be16_bytes(id) + be16_bytes(seq) + payload
}

/// The payload of an echo request: `size` copies of `value`.
pub open spec fn echo_payload(size: nat, value: u8) -> Seq<u8> {
    Seq::new(size, |_i: int| value)
}

/// Whether an echo request of `packet_size` bytes, IPv4 header included, can be built.
pub open spec fn packet_size_ok(packet_size: int) -> bool {
    IPV4_HEADER_SIZE + ECHO_HEADER_SIZE <= packet_size <= MAX_PACKET_SIZE
}

/// The ICMP echo request that carries `seq` for trace `id` in a packet of
/// `packet_size` bytes, its checksum taken over the message with a zero checksum.
pub open spec fn echo_request_bytes(id: u16, seq: u16, packet_size: int, payload_value: u8) -> Seq<u8> {
    let payload = echo_payload((packet_size - 28) as nat, payload_value);
    echo_message(
        ICMP_ECHO_REQUEST,
        pnet_checksum(echo_message(ICMP_ECHO_REQUEST, 0, id, seq, payload), 1),
        id,
        seq,
        payload,
    )
}

/// Build the ICMP echo request for `probe`, identified by `id`, so that the IPv4
/// packet that carries it is `packet_size` bytes long.
pub fn encode_echo_request(probe: &Probe, id: u16, packet_size: u16, payload_value: u8) -> (r: Result<
    Vec<u8>,
    TracerError,
>)
    ensures
        packet_size_ok(packet_size as int) <==> r is Ok,
        !packet_size_ok(packet_size as int) ==> r == Err::<Vec<u8>, TracerError>(
            TracerError::InvalidPacketSize(packet_size as usize),
        ),
        r is Ok ==> r->Ok_0@ == echo_request_bytes(
            id,
            probe.sequence.0,
            packet_size as int,
            payload_value,
        ),
{
    let size = packet_size as usize;
    if size > MAX_PACKET_SIZE || size < IPV4_HEADER_SIZE + ECHO_HEADER_SIZE {
        return Err(TracerError::InvalidPacketSize(size));
    }
    let payload_size = size - IPV4_HEADER_SIZE - ECHO_HEADER_SIZE;
    let seq = probe.sequence.0;
    let mut buf: Vec<u8> = Vec::new();
    buf.push(ICMP_ECHO_REQUEST);
    buf.push(0);
    push_be16(&mut buf, 0);
    push_be16(&mut buf, id);
    push_be16(&mut buf, seq);
    let mut k: usize = 0;
    while k < payload_size
        invariant
            k <= payload_size,
            payload_size <= MAX_PAYLOAD_BUF,
            buf@ =~= echo_message(ICMP_ECHO_REQUEST, 0, id, seq, echo_payload(k as nat, payload_value)),
        decreases payload_size - k,
    {
        buf.push(payload_value);
        k = k + 1;
    }
    let ghost payload = echo_payload(payload_size as nat, payload_value);
    let sum = checksum(buf.as_slice(), 1);
    buf.set(2, (sum / 256) as u8);
    buf.set(3, (sum % 256) as u8);
    assert(buf@ =~= echo_message(ICMP_ECHO_REQUEST, sum, id, seq, payload));
    Ok(buf)
}

/// The kinds of ICMP message that tracing reads.
#[derive(Debug, Clone, Copy, PartialEq, Eq, Structural)]
pub enum IcmpKind {
    TimeExceeded,
    DestinationUnreachable,
    EchoReply,
    Other,
}

/// The kind of an ICMP message of type `t`, by address family.
pub open spec fn icmp_kind_of(family: AddrFamily, t: u8) -> IcmpKind {
    match family {
        AddrFamily::Ipv4 => if t == 11 {
            IcmpKind::TimeExceeded
        } else if t == 3 {
            IcmpKind::DestinationUnreachable
        } else if t == 0 {
            IcmpKind::EchoReply
        } else {
            IcmpKind::Other
        },
        AddrFamily::Ipv6 => if t == 3 {
            IcmpKind::TimeExceeded
        } else if t == 1 {
            IcmpKind::DestinationUnreachable
        } else if t == 129 {
            IcmpKind::EchoReply
        } else {
            IcmpKind::Other
        },
    }
}

pub fn icmp_kind(family: AddrFamily, t: u8) -> (r: IcmpKind)
    ensures
        r == icmp_kind_of(family, t),
{
    match family {
        AddrFamily::Ipv4 => if t == 11 {
            IcmpKind::TimeExceeded
        } else if t == 3 {
            IcmpKind::DestinationUnreachable
        } else if t == 0 {
            IcmpKind::EchoReply
        } else {
            IcmpKind::Other
        },
        AddrFamily::Ipv6 => if t == 3 {
            IcmpKind::TimeExceeded
        } else if t == 1 {
            IcmpKind::DestinationUnreachable
        } else if t == 129 {
            IcmpKind::EchoReply
        } else {
            IcmpKind::Other
        },
    }
}

/// The length of the original datagram that an RFC 4884 ICMP error declares
/// (zero where it declares none): 32-bit words in byte 5 for ICMPv4, 64-bit
/// words in byte 4 for ICMPv6.
pub open spec fn declared_len(family: AddrFamily, b: Seq<u8>) -> int {
    match family {
        AddrFamily::Ipv4 => b[5] as int * 4,
        AddrFamily::Ipv6 => b[4] as int * 8,
    }
}

/// Whether the ICMP error `b` declares an original datagram that it holds whole.
pub open spec fn has_declared_len(family: AddrFamily, b: Seq<u8>) -> bool {
    declared_len(family, b) != 0 && 8 + declared_len(family, b) <= b.len()
}

/// The original datagram that the ICMP error `b` carries after its 8-byte header.
pub open spec fn original_datagram(family: AddrFamily, b: Seq<u8>) -> Seq<u8> {
    if has_declared_len(family, b) {
        b.subrange(8, 8 + declared_len(family, b))
    } else {
        b.subrange(8, b.len() as int)
    }
}

/// The extension objects after the original datagram and a version 2
/// extension header, where the ICMP error `b` has them.
pub open spec fn extension_area(family: AddrFamily, b: Seq<u8>) -> Option<Seq<u8>> {
    let l = declared_len(family, b);
    if has_declared_len(family, b) && 8 + l + 4 <= b.len() && b[8 + l] / 16 == 2 {
        Some(b.subrange(8 + l + 4, b.len() as int))
    } else {
        None
    }
}

/// The header length that an IPv4 header declares in its IHL field.
pub open spec fn ihl_len(d: Seq<u8>) -> int {
    (d[0] % 16) as int * 4
}

/// The transport header and payload of the IP packet `d`, where its IP header
/// is whole and of the trace's IP version.
pub open spec fn nested_transport(family: AddrFamily, d: Seq<u8>) -> Option<Seq<u8>> {
    match family {
        AddrFamily::Ipv4 => if d.len() >= 20 && d[0] / 16 == 4 && 20 <= ihl_len(d) <= d.len() {
            Some(d.subrange(ihl_len(d), d.len() as int))
        } else {
            None
        },
        AddrFamily::Ipv6 => if d.len() >= 40 && d[0] / 16 == 6 {
            Some(d.subrange(40, d.len() as int))
        } else {
            None
        },
    }
}

/// The destination address of the IP packet `d`.
pub open spec fn nested_dest(family: AddrFamily, d: Seq<u8>) -> IpAddr {
    match family {
        AddrFamily::Ipv4 => IpAddr::V4(be32(d, 16) as u32),
        AddrFamily::Ipv6 => IpAddr::V6(be128(d, 24) as u128),
    }
}

/// The IPv4 Identification of the IP packet `d` (zero for IPv6, which has none).
pub open spec fn nested_ip_id(family: AddrFamily, d: Seq<u8>) -> u16 {
    match family {
        AddrFamily::Ipv4 => be16(d, 4) as u16,
        AddrFamily::Ipv6 => 0,
    }
}

/// The fingerprint of the probe that the IP packet `d` holds, read as a probe
/// of `protocol` under `flags`; `None` where a header is truncated or of
/// another IP version, or a length is implausible. The UDP payload length
/// leaves out the magic prefix where there is one.
pub open spec fn nested_seq(family: AddrFamily, protocol: Protocol, flags: Flags, d: Seq<u8>) -> Option<
    ResponseSeq,
> {
    match nested_transport(family, d) {
        None => None,
        Some(t) => match protocol {
            Protocol::Icmp => if t.len() >= 8 {
                Some(
                    ResponseSeq::Icmp(
                        ResponseSeqIcmp { identifier: be16(t, 4) as u16, sequence: be16(t, 6) as u16 },
                    ),
                )
            } else {
                None
            },
            Protocol::Udp => if t.len() >= 8 && be16(t, 4) >= 8 && !(reflects_magic(flags, t)
                && be16(t, 4) < 8 + MAGIC_LEN) {
                Some(
                    ResponseSeq::Udp(
                        ResponseSeqUdp {
                            identifier: nested_ip_id(family, d),
                            dest_addr: nested_dest(family, d),
                            src_port: be16(t, 0) as u16,
                            dest_port: be16(t, 2) as u16,
                            checksum: be16(t, 6) as u16,
                            payload_len: (be16(t, 4) - 8 - if reflects_magic(flags, t) {
                                MAGIC_LEN as int
                            } else {
                                0
                            }) as u16,
                            has_magic: reflects_magic(flags, t),
                        },
                    ),
                )
            } else {
                None
            },
            Protocol::Tcp => if t.len() >= 4 {
                Some(
                    ResponseSeq::Tcp(
                        ResponseSeqTcp {
                            dest_addr: nested_dest(family, d),
                            src_port: be16(t, 0) as u16,
                            dest_port: be16(t, 2) as u16,
                        },
                    ),
                )
            } else {
                None
            },
        },
    }
}

/// `ext` is what the extension objects of the ICMP error `b` decode to.
pub open spec fn extensions_of(family: AddrFamily, b: Seq<u8>, ext: Option<Extensions>) -> bool {
    match extension_area(family, b) {
        None => ext is None,
        Some(area) => match parse_objects(area) {
            None => false,
            Some(os) => ext is Some && extensions_denote(ext->0.extensions@, os),
        },
    }
}

/// Whether the extension objects of the ICMP error `b`, if any, are well formed.
pub open spec fn extensions_well_formed(family: AddrFamily, b: Seq<u8>) -> bool {
    match extension_area(family, b) {
        None => true,
        Some(area) => parse_objects(area) is Some,
    }
}

/// Whether `resp` is the response of `kind` with `data` and `code`, whose
/// extensions are those of the ICMP error `b`.
pub open spec fn error_response_is(
    kind: IcmpKind,
    resp: Response,
    data: ResponseData,
    code: IcmpPacketCode,
    family: AddrFamily,
    b: Seq<u8>,
) -> bool {
    match resp {
        Response::TimeExceeded(d, c, e) => kind == IcmpKind::TimeExceeded && d == data && c == code
            && extensions_of(family, b, e),
        Response::DestinationUnreachable(d, c, e) => kind == IcmpKind::DestinationUnreachable && d
            == data && c == code && extensions_of(family, b, e),
        _ => false,
    }
}

/// Whether `r` is the decoding of the ICMP message `b` received from `addr` at
/// `recv`, for a trace of `protocol` probes under `flags`. A message of a type
/// that tracing does not read is discarded whatever its length; the types it
/// reads need their 8-byte header.
pub open spec fn icmp_decoding(
    family: AddrFamily,
    protocol: Protocol,
    flags: Flags,
    b: Seq<u8>,
    addr: IpAddr,
    recv: Timestamp,
    r: Result<Option<Response>, TracerError>,
) -> bool {
    if b.len() == 0 || (b.len() < 8 && !(icmp_kind_of(family, b[0]) is Other)) {
        r == Err::<Option<Response>, TracerError>(TracerError::PacketParseError)
    } else {
        match icmp_kind_of(family, b[0]) {
            IcmpKind::Other => r == Ok::<Option<Response>, TracerError>(None),
            IcmpKind::EchoReply => r == Ok::<Option<Response>, TracerError>(
                Some(
                    Response::EchoReply(
                        ResponseData {
                            recv,
                            addr,
                            resp_seq: ResponseSeq::Icmp(
                                ResponseSeqIcmp {
                                    identifier: be16(b, 4) as u16,
                                    sequence: be16(b, 6) as u16,
                                },
                            ),
                        },
                        IcmpPacketCode(b[1]),
                    ),
                ),
            ),
            kind => match nested_seq(family, protocol, flags, original_datagram(family, b)) {
                None => r == Err::<Option<Response>, TracerError>(TracerError::PacketParseError),
                Some(s) => if !extensions_well_formed(family, b) {
                    r == Err::<Option<Response>, TracerError>(TracerError::PacketParseError)
                } else {
                    let data = ResponseData { recv, addr, resp_seq: s };
                    let code = IcmpPacketCode(b[1]);
                    &&& r is Ok
                    &&& r->Ok_0 is Some
                    &&& error_response_is(kind, r->Ok_0->Some_0, data, code, family, b)
                },
            },
        }
    }
}

/// Read the fingerprint of the probe held in the IP packet `b[from..to]`.
pub fn extract_nested_seq(
    family: AddrFamily,
    protocol: Protocol,
    flags: Flags,
    b: &[u8],
    from: usize,
    to: usize,
) -> (r: Option<ResponseSeq>)
    requires
        from <= to <= b@.len(),
    ensures
        r == nested_seq(family, protocol, flags, b@.subrange(from as int, to as int)),
{
    let ghost d = b@.subrange(from as int, to as int);
    let len = to - from;
    let (hdr, ip_id, dest) = match family {
        AddrFamily::Ipv4 => {
            if len < IPV4_HEADER_SIZE {
                return None;
            }
            let hdr = ((b[from] % 16) as usize) * 4;
            if b[from] / 16 != 4 || hdr < IPV4_HEADER_SIZE || hdr > len {
                return None;
            }
            let id = read_be16(b, from + 4);
            let dest = read_be32(b, from + 16);
            assert(be16(d, 4) == be16(b@, from + 4));
            assert(be32(d, 16) == be32(b@, from + 16));
            (hdr, id, IpAddr::V4(dest))
        },
        AddrFamily::Ipv6 => {
            if len < IPV6_HEADER_SIZE || b[from] / 16 != 6 {
                return None;
            }
            let dest = read_be128(b, from + 24);
            assert(be128(d, 24) == be128(b@, from + 24));
            (IPV6_HEADER_SIZE, 0u16, IpAddr::V6(dest))
        },
    };
    let start = from + hdr;
    let ghost t = b@.subrange(start as int, to as int);
    assert(nested_transport(family, d) == Some(t)) by {
        assert(d.subrange(hdr as int, d.len() as int) =~= t);
    }
    let tlen = to - start;
    match protocol {
        Protocol::Icmp => {
            if tlen < 8 {
                return None;
            }
            let identifier = read_be16(b, start + 4);
            let sequence = read_be16(b, start + 6);
            assert(be16(t, 4) == identifier && be16(t, 6) == sequence);
            Some(ResponseSeq::Icmp(ResponseSeqIcmp::new(identifier, sequence)))
        },
        Protocol::Udp => {
            if tlen < 8 {
                return None;
            }
            let src_port = read_be16(b, start);
            let dest_port = read_be16(b, start + 2);
            let udp_len = read_be16(b, start + 4);
            let sum = read_be16(b, start + 6);
            assert(be16(t, 0) == src_port && be16(t, 2) == dest_port);
            assert(be16(t, 4) == udp_len && be16(t, 6) == sum);
            if udp_len < 8 {
                return None;
            }
            let has_magic = match flags {
                Flags::DublinIpv6 => has_magic_at(b, start + 8, to),
                _ => false,
            };
            assert(has_magic == reflects_magic(flags, t)) by {
                assert(t.subrange(8, t.len() as int) =~= b@.subrange(start + 8, to as int));
            }
            let payload_len = if has_magic {
                if udp_len < 8 + MAGIC_LEN as u16 {
                    return None;
                }
                udp_len - 8 - MAGIC_LEN as u16
            } else {
                udp_len - 8
            };
            Some(
                ResponseSeq::Udp(
                    ResponseSeqUdp::new(ip_id, dest, src_port, dest_port, sum, payload_len, has_magic),
                ),
            )
        },
        Protocol::Tcp => {
            if tlen < 4 {
                return None;
            }
            let src_port = read_be16(b, start);
            let dest_port = read_be16(b, start + 2);
            assert(be16(t, 0) == src_port && be16(t, 2) == dest_port);
            Some(ResponseSeq::Tcp(ResponseSeqTcp::new(dest, src_port, dest_port)))
        },
    }
}

/// Whether `b[from..to]` begins with the magic prefix.
fn has_magic_at(b: &[u8], from: usize, to: usize) -> (r: bool)
    requires
        from <= to <= b@.len(),
    ensures
        r == starts_with_magic(b@.subrange(from as int, to as int)),
{
    let ghost p = b@.subrange(from as int, to as int);
    if to - from < MAGIC_LEN {
        return false;
    }
    let r = b[from] == 0x74 && b[from + 1] == 0x72 && b[from + 2] == 0x69 && b[from + 3] == 0x70
        && b[from + 4] == 0x70 && b[from + 5] == 0x79;
    assert(r == (p.subrange(0, 6) =~= magic()));
    r
}

/// Decode the ICMP message `b` received from `addr` at `recv`, for a trace of
/// `protocol` probes under `flags`. `Ok(None)` for a message of another type.
pub fn decode_icmp(
    family: AddrFamily,
    protocol: Protocol,
    flags: Flags,
    b: &[u8],
    addr: IpAddr,
    recv: Timestamp,
) -> (r: Result<Option<Response>, TracerError>)
    ensures
        icmp_decoding(family, protocol, flags, b@, addr, recv, r),
{
    let n = b.len();
    if n == 0 {
        return Err(TracerError::PacketParseError);
    }
    let kind = icmp_kind(family, b[0]);
    if matches!(kind, IcmpKind::Other) {
        return Ok(None);
    }
    if n < 8 {
        return Err(TracerError::PacketParseError);
    }
    let code = IcmpPacketCode(b[1]);
    match kind {
        IcmpKind::Other => Ok(None),
        IcmpKind::EchoReply => {
            let identifier = read_be16(b, 4);
            let sequence = read_be16(b, 6);
            let resp_seq = ResponseSeq::Icmp(ResponseSeqIcmp::new(identifier, sequence));
            Ok(Some(Response::EchoReply(ResponseData::new(recv, addr, resp_seq), code)))
        },
        _ => {
            let l: usize = match family {
                AddrFamily::Ipv4 => (b[5] as usize) * 4,
                AddrFamily::Ipv6 => (b[4] as usize) * 8,
            };
            let declared = l != 0 && l <= n - 8;
            let end = if declared {
                8 + l
            } else {
                n
            };
            let resp_seq = match extract_nested_seq(family, protocol, flags, b, 8, end) {
                None => {
                    return Err(TracerError::PacketParseError);
                },
                Some(s) => s,
            };
            let extensions = if declared && n - 8 - l >= 4 && b[8 + l] / 16 == 2 {
                match parse_extension_objects(b, 8 + l + 4) {
                    None => {
                        return Err(TracerError::PacketParseError);
                    },
                    Some(v) => Some(Extensions { extensions: v }),
                }
            } else {
                None
            };
            let data = ResponseData::new(recv, addr, resp_seq);
            match kind {
                IcmpKind::TimeExceeded => Ok(Some(Response::TimeExceeded(data, code, extensions))),
                _ => Ok(Some(Response::DestinationUnreachable(data, code, extensions))),
            }
        },
    }
}

/// The response to an ICMP `EchoRequest`.
#[derive(Debug, Copy, Clone, PartialEq, Eq, Structural)]
pub enum IcmpResponse {
    TimeExceeded(IcmpResponseData),
    DestinationUnreachable(IcmpResponseData),
    EchoReply(IcmpResponseData),
}

/// The data in an `IcmpResponse`.
#[derive(Debug, Copy, Clone, PartialEq, Eq, Structural)]
pub struct IcmpResponseData {
    pub recv: Timestamp,
    pub addr: IpAddr,
    pub identifier: u16,
    pub sequence: u16,
}

impl IcmpResponseData {
    pub fn new(recv: Timestamp, addr: IpAddr, identifier: u16, sequence: u16) -> (r: Self)
        ensures
            r == (IcmpResponseData { recv, addr, identifier, sequence }),
    {
        Self { recv, addr, identifier, sequence }
    }
}

/// Read the identifier and sequence of the echo request held in the IPv4
/// packet `payload`, whose header length comes from its IHL field.
pub fn extract_echo_request(payload: &[u8]) -> (r: Result<ResponseSeqIcmp, TracerError>)
    ensures
        match nested_seq(AddrFamily::Ipv4, Protocol::Icmp, Flags::Classic, payload@) {
            Some(ResponseSeq::Icmp(s)) => r == Ok::<ResponseSeqIcmp, TracerError>(s),
            _ => r == Err::<ResponseSeqIcmp, TracerError>(TracerError::PacketParseError),
        },
{
    let n = payload.len();
    assert(payload@.subrange(0, n as int) =~= payload@);
    match extract_nested_seq(AddrFamily::Ipv4, Protocol::Icmp, Flags::Classic, payload, 0, n) {
        Some(ResponseSeq::Icmp(s)) => Ok(s),
        _ => Err(TracerError::PacketParseError),
    }
}

/// The echo request fingerprint inside the ICMPv4 error `b`, if it holds a whole one.
pub open spec fn nested_echo(b: Seq<u8>) -> Option<ResponseSeq> {
    nested_seq(AddrFamily::Ipv4, Protocol::Icmp, Flags::Classic, b.subrange(8, b.len() as int))
}

/// Decode an ICMPv4 message `b` received from `addr` at `recv` in reply to an
/// echo request: a time-exceeded or unreachable error that holds the request,
/// or an echo reply. `Ok(None)` for a message of another type.
pub fn decode_icmp_response(b: &[u8], addr: IpAddr, recv: Timestamp) -> (r: Result<
    Option<IcmpResponse>,
    TracerError,
>)
    ensures
        b@.len() == 0 || (b@.len() < 8 && !(icmp_kind_of(AddrFamily::Ipv4, b@[0]) is Other)) ==> r
            == Err::<Option<IcmpResponse>, TracerError>(TracerError::PacketParseError),
        b@.len() >= 1 && icmp_kind_of(AddrFamily::Ipv4, b@[0]) is Other ==> r == Ok::<
            Option<IcmpResponse>,
            TracerError,
        >(None),
        b@.len() >= 8 ==> match icmp_kind_of(AddrFamily::Ipv4, b@[0]) {
            IcmpKind::Other => r == Ok::<Option<IcmpResponse>, TracerError>(None),
            IcmpKind::EchoReply => r == Ok::<Option<IcmpResponse>, TracerError>(
                Some(
                    IcmpResponse::EchoReply(
                        IcmpResponseData {
                            recv,
                            addr,
                            identifier: be16(b@, 4) as u16,
                            sequence: be16(b@, 6) as u16,
                        },
                    ),
                ),
            ),
            kind => match nested_echo(b@) {
                Some(ResponseSeq::Icmp(s)) => {
                    let data = IcmpResponseData {
                        recv,
                        addr,
                        identifier: s.identifier,
                        sequence: s.sequence,
                    };
                    r == Ok::<Option<IcmpResponse>, TracerError>(
                        Some(
                            if kind == IcmpKind::TimeExceeded {
                                IcmpResponse::TimeExceeded(data)
                            } else {
                                IcmpResponse::DestinationUnreachable(data)
                            },
                        ),
                    )
                },
                _ => r == Err::<Option<IcmpResponse>, TracerError>(TracerError::PacketParseError),
            },
        },
{
    let n = b.len();
    if n == 0 {
        return Err(TracerError::PacketParseError);
    }
    let kind = icmp_kind(AddrFamily::Ipv4, b[0]);
    if matches!(kind, IcmpKind::Other) {
        return Ok(None);
    }
    if n < 8 {
        return Err(TracerError::PacketParseError);
    }
    match kind {
        IcmpKind::TimeExceeded => match extract_nested_seq(
            AddrFamily::Ipv4,
            Protocol::Icmp,
            Flags::Classic,
            b,
            8,
            n,
        ) {
            Some(ResponseSeq::Icmp(s)) => Ok(
                Some(
                    IcmpResponse::TimeExceeded(
                        IcmpResponseData::new(recv, addr, s.identifier, s.sequence),
                    ),
                ),
            ),
            _ => Err(TracerError::PacketParseError),
        },
        IcmpKind::DestinationUnreachable => match extract_nested_seq(
            AddrFamily::Ipv4,
            Protocol::Icmp,
            Flags::Classic,
            b,
            8,
            n,
        ) {
            Some(ResponseSeq::Icmp(s)) => Ok(
                Some(
                    IcmpResponse::DestinationUnreachable(
                        IcmpResponseData::new(recv, addr, s.identifier, s.sequence),
                    ),
                ),
            ),
            _ => Err(TracerError::PacketParseError),
        },
        IcmpKind::EchoReply => {
            let identifier = read_be16(b, 4);
            let sequence = read_be16(b, 6);
            Ok(Some(IcmpResponse::EchoReply(IcmpResponseData::new(recv, addr, identifier, sequence))))
        },
        IcmpKind::Other => Ok(None),
    }
}

/// The size of a TCP header without options.
pub const TCP_HEADER_SIZE: usize = 20;

/// Whether bit `bit` (a power of two) is set in the TCP flags byte `f`.
pub open spec fn tcp_flag(f: u8, bit: int) -> bool {
    (f as int / bit) % 2 == 1
}

/// Decode the TCP segment `b` that the target `addr` sent at `recv` in reply to
/// a SYN: an RST is a refusal and a SYN/ACK a reply. The fingerprint holds the
/// probe's tuple, the segment's ports swapped back. `Ok(None)` for any other segment.
pub fn decode_tcp_response(b: &[u8], addr: IpAddr, recv: Timestamp) -> (r: Result<
    Option<Response>,
    TracerError,
>)
    ensures
        b@.len() < TCP_HEADER_SIZE ==> r == Err::<Option<Response>, TracerError>(
            TracerError::PacketParseError,
        ),
        b@.len() >= TCP_HEADER_SIZE ==> {
            let data = ResponseData {
                recv,
                addr,
                resp_seq: ResponseSeq::Tcp(
                    ResponseSeqTcp {
                        dest_addr: addr,
                        src_port: be16(b@, 2) as u16,
                        dest_port: be16(b@, 0) as u16,
                    },
                ),
            };
            let f = b@[13];
            r == Ok::<Option<Response>, TracerError>(
                if tcp_flag(f, 4) {
                    Some(Response::TcpRefused(data))
                } else if tcp_flag(f, 2) && tcp_flag(f, 16) {
                    Some(Response::TcpReply(data))
                } else {
                    None
                },
            )
        },
{
    let n = b.len();
    if n < TCP_HEADER_SIZE {
        return Err(TracerError::PacketParseError);
    }
    let remote_port = read_be16(b, 0);
    let local_port = read_be16(b, 2);
    let f = b[13];
    let data = ResponseData::new(
        recv,
        addr,
        ResponseSeq::Tcp(ResponseSeqTcp::new(addr, local_port, remote_port)),
    );
    if (f / 4) % 2 == 1 {
        Ok(Some(Response::TcpRefused(data)))
    } else if (f / 2) % 2 == 1 && (f / 16) % 2 == 1 {
        Ok(Some(Response::TcpReply(data)))
    } else {
        Ok(None)
    }
}

/// An encoded echo request, reflected inside an IPv4 packet whose header
/// declares its own length, decodes to the identifier and sequence it was
/// built with; with the trace identifier as `id`, the reflection matches the probe.
pub proof fn lemma_echo_round_trip(
    probe: Probe,
    id: u16,
    packet_size: int,
    payload_value: u8,
    ip_header: Seq<u8>,
    flags: Flags,
    target: IpAddr,
    base_payload_len: u16,
)
    requires
        packet_size_ok(packet_size),
        ip_header.len() >= 20,
        ip_header[0] / 16 == 4,
        ihl_len(ip_header) == ip_header.len(),
    ensures
        nested_seq(
            AddrFamily::Ipv4,
            Protocol::Icmp,
            flags,
            ip_header + echo_request_bytes(id, probe.sequence.0, packet_size, payload_value),
        ) == Some(ResponseSeq::Icmp(ResponseSeqIcmp { identifier: id, sequence: probe.sequence.0 })),
        id == probe.identifier.0 ==> fingerprint_matches(
            ResponseSeq::Icmp(ResponseSeqIcmp { identifier: id, sequence: probe.sequence.0 }),
            probe,
            target,
            base_payload_len,
        ),
{
    let b = echo_request_bytes(id, probe.sequence.0, packet_size, payload_value);
    let d = ip_header + b;
    assert(d[0] == ip_header[0]);
    assert(d.subrange(ihl_len(d), d.len() as int) =~= b);
    assert(b.subrange(4, 6) =~= be16_bytes(id));
    assert(b.subrange(6, 8) =~= be16_bytes(probe.sequence.0));
    crate::bytes::lemma_be16_round_trip(id, b, 4);
    crate::bytes::lemma_be16_round_trip(probe.sequence.0, b, 6);
}

/// The magic flag of a decoded UDP reflection is set exactly when the trace is
/// Dublin IPv6 and the reflected UDP payload begins with the magic prefix; the
/// payload length then leaves the prefix out.
pub proof fn lemma_magic_reflects_payload(family: AddrFamily, flags: Flags, d: Seq<u8>)
    requires
        nested_seq(family, Protocol::Udp, flags, d) is Some,
    ensures
        nested_transport(family, d) is Some,
        nested_seq(family, Protocol::Udp, flags, d)->0 is Udp,
        nested_seq(family, Protocol::Udp, flags, d)->0->Udp_0.has_magic == (flags == Flags::DublinIpv6
            && starts_with_magic(nested_transport(family, d)->0.subrange(8, nested_transport(family, d)->0.len() as int))),
        nested_seq(family, Protocol::Udp, flags, d)->0->Udp_0.payload_len == be16(
            nested_transport(family, d)->0,
            4,
        ) - 8 - if nested_seq(family, Protocol::Udp, flags, d)->0->Udp_0.has_magic {
            MAGIC_LEN as int
        } else {
            0
        },
{
}

} // verus!
