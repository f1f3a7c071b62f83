//! Probe lifecycle, wire codec and response correlation for a path-tracing engine.
pub mod bytes;
mod checksum;
pub mod correlate;
pub mod error;
pub mod extensions;
pub mod icmp;
pub mod probe;
pub mod types;
pub mod udp;

pub use correlate::{correlate, Correlator, matches_probe, udp_reflected_sequence};
pub use error::{TraceResult, TracerError};
pub use extensions::{emit_mpls, parse_extension_objects, parse_mpls};
pub use icmp::{
    decode_icmp, decode_icmp_response, decode_tcp_response, encode_echo_request,
    extract_echo_request, extract_nested_seq, IcmpKind, IcmpResponse, IcmpResponseData,
    MAX_ICMP_BUF, MAX_PACKET_SIZE, MAX_PAYLOAD_BUF,
};
pub use probe::{
    Extension, Extensions, IcmpPacketCode, IcmpPacketType, MplsLabelStack, MplsLabelStackMember,
    Probe, ProbeComplete, ProbeStatus, Response, ResponseData, ResponseSeq, ResponseSeqIcmp,
    ResponseSeqTcp, ResponseSeqUdp, UnknownExtension,
};
pub use types::{
    AddrFamily, Flags, IpAddr, Port, Protocol, RoundId, Sequence, TimeToLive, Timestamp, TraceId,
};
pub use udp::{dublin_ipv6_payload, encode_udp_ipv4};
