use vstd::prelude::*;

verus! {

/// The sequence number of a probe, unique within a tracing session modulo wrap.
#[derive(Debug, Clone, Copy, PartialEq, Eq, Structural)]
pub struct Sequence(pub u16);

/// The identifier of a tracing session.
#[derive(Debug, Clone, Copy, PartialEq, Eq, Structural)]
pub struct TraceId(pub u16);

/// A UDP or TCP port.
#[derive(Debug, Clone, Copy, PartialEq, Eq, Structural)]
pub struct Port(pub u16);

/// The time-to-live of a probe; a valid probe has a TTL of at least one.
#[derive(Debug, Clone, Copy, PartialEq, Eq, Structural)]
pub struct TimeToLive(pub u8);

/// The round (TTL sweep) that a probe belongs to.
#[derive(Debug, Clone, Copy, PartialEq, Eq, Structural)]
pub struct RoundId(pub usize);

/// A point in time, in nanoseconds since the Unix epoch.
#[derive(Debug, Clone, Copy, PartialEq, Eq, Structural)]
pub struct Timestamp(pub u64);

/// An IP address: IPv4 as a big-endian `u32`, IPv6 as a big-endian `u128`.
#[derive(Debug, Clone, Copy, PartialEq, Eq, Structural)]
pub enum IpAddr {
    V4(u32),
    V6(u128),
}

/// The address family of a trace.
#[derive(Debug, Clone, Copy, PartialEq, Eq, Structural)]
pub enum AddrFamily {
    Ipv4,
    Ipv6,
}

/// The transport protocol of the probes of a trace.
#[derive(Debug, Clone, Copy, PartialEq, Eq, Structural)]
pub enum Protocol {
    Icmp,
    Udp,
    Tcp,
}

/// The tracing strategy, which decides where a probe's sequence travels.
///
/// - `Classic`, `DublinIpv4`: the IPv4 Identification field.
/// - `ParisIpv4`, `ParisIpv6`: the UDP checksum.
/// - `DublinIpv6`: the UDP payload length beyond a base length, behind a magic prefix.
#[derive(Debug, Clone, Copy, PartialEq, Eq, Structural)]
pub enum Flags {
    Classic,
    ParisIpv4,
    ParisIpv6,
    DublinIpv4,
    DublinIpv6,
}

} // verus!
