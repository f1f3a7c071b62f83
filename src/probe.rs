use vstd::prelude::*;

use crate::types::{Flags, IpAddr, Port, RoundId, Sequence, TimeToLive, Timestamp, TraceId};

verus! {

/// A network tracing probe, in one of four states.
///
/// - `NotSent`: the slot is reserved and nothing has been transmitted.
/// - `Skipped`: transmission was abandoned before the wire (terminal).
/// - `Awaited`: transmitted, not yet correlated with a response.
/// - `Complete`: correlated with a response (terminal).
///
/// The only transitions are `NotSent -> Skipped`, `NotSent -> Awaited` and
/// `Awaited -> Complete`.
#[derive(Debug, Clone, PartialEq, Eq)]
pub enum ProbeStatus {
    NotSent,
    Skipped,
    Awaited(Probe),
    Complete(ProbeComplete),
}

/// An incomplete network tracing probe.
#[derive(Debug, Clone, Copy, PartialEq, Eq, Structural)]
pub struct Probe {
    /// The sequence of the probe.
    pub sequence: Sequence,
    /// The trace identifier.
    pub identifier: TraceId,
    /// The source port (UDP/TCP only).
    pub src_port: Port,
    /// The destination port (UDP/TCP only).
    pub dest_port: Port,
    /// The TTL of the probe.
    pub ttl: TimeToLive,
    /// Which round the probe belongs to.
    pub round: RoundId,
    /// Timestamp when the probe was sent.
    pub sent: Timestamp,
    /// Probe flags.
    pub flags: Flags,
}

impl Probe {
    /// A probe is well formed when its TTL lies in `1..=255`.
    pub open spec fn wf(&self) -> bool {
        1 <= self.ttl.0 <= 255
    }

    /// Create a new probe.
    #[allow(clippy::too_many_arguments)]
    pub fn new(
        sequence: Sequence,
        identifier: TraceId,
        src_port: Port,
        dest_port: Port,
        ttl: TimeToLive,
        round: RoundId,
        sent: Timestamp,
        flags: Flags,
    ) -> (r: Self)
        requires
            ttl.0 >= 1,
        ensures
            r.wf(),
            r == (Probe { sequence, identifier, src_port, dest_port, ttl, round, sent, flags }),
    {
        Self { sequence, identifier, src_port, dest_port, ttl, round, sent, flags }
    }

    /// A response has been received and the probe is now complete.
    ///
    /// A response cannot precede its probe, so `received` is no earlier than `sent`.
    pub fn complete(
        self,
        host: IpAddr,
        received: Timestamp,
        icmp_packet_type: IcmpPacketType,
        extensions: Option<Extensions>,
    ) -> (r: ProbeComplete)
        requires
            self.wf(),
            received.0 >= self.sent.0,
        ensures
            r.wf(),
            r.completes(self),
            r.host == host,
            r.received == received,
            r.icmp_packet_type == icmp_packet_type,
            r.extensions == extensions,
    {
        ProbeComplete {
            sequence: self.sequence,
            identifier: self.identifier,
            src_port: self.src_port,
            dest_port: self.dest_port,
            ttl: self.ttl,
            round: self.round,
            sent: self.sent,
            flags: self.flags,
            host,
            received,
            icmp_packet_type,
            extensions,
        }
    }
}

/// A complete network tracing probe.
#[derive(Debug, Clone, PartialEq, Eq)]
pub struct ProbeComplete {
    /// The sequence of the probe.
    pub sequence: Sequence,
    /// The trace identifier.
    pub identifier: TraceId,
    /// The source port (UDP/TCP only)
    pub src_port: Port,
    /// The destination port (UDP/TCP only)
    pub dest_port: Port,
    /// The TTL of the probe.
    pub ttl: TimeToLive,
    /// Which round the probe belongs to.
    pub round: RoundId,
    /// Timestamp when the probe was sent.
    pub sent: Timestamp,
    /// Probe flags.
    pub flags: Flags,
    /// The host which responded to the probe.
    pub host: IpAddr,
    /// Timestamp when the response to the probe was received.
    pub received: Timestamp,
    /// The type of ICMP response packet received for the probe.
    pub icmp_packet_type: IcmpPacketType,
    /// The ICMP response extensions.
    pub extensions: Option<Extensions>,
}

impl ProbeComplete {
    /// A completed probe has a TTL in `1..=255` and was received no earlier than sent.
    pub open spec fn wf(&self) -> bool {
        &&& 1 <= self.ttl.0 <= 255
        &&& self.received.0 >= self.sent.0
    }

    /// This completed probe carries every field of `p`.
    pub open spec fn completes(&self, p: Probe) -> bool {
        &&& self.sequence == p.sequence
        &&& self.identifier == p.identifier
        &&& self.src_port == p.src_port
        &&& self.dest_port == p.dest_port
        &&& self.ttl == p.ttl
        &&& self.round == p.round
        &&& self.sent == p.sent
        &&& self.flags == p.flags
    }
}

impl Default for ProbeStatus {
    fn default() -> (r: Self)
        ensures
            r is NotSent,
    {
        ProbeStatus::NotSent
    }
}

/// The position of a state in the lifecycle order.
pub open spec fn status_rank(s: ProbeStatus) -> int {
    match s {
        ProbeStatus::NotSent => 0,
        ProbeStatus::Skipped => 1,
        ProbeStatus::Awaited(_) => 1,
        ProbeStatus::Complete(_) => 2,
    }
}

/// The legal transitions of the lifecycle.
pub open spec fn is_transition(from: ProbeStatus, to: ProbeStatus) -> bool {
    ||| from is NotSent && to is Skipped
    ||| from is NotSent && to is Awaited
    ||| from is Awaited && to is Complete && to->Complete_0.completes(from->Awaited_0)
}

impl ProbeStatus {
    /// Every probe that a status holds is well formed.
    pub open spec fn wf(&self) -> bool {
        match self {
            ProbeStatus::Awaited(p) => p.wf(),
            ProbeStatus::Complete(c) => c.wf(),
            _ => true,
        }
    }

    /// Abandon a probe that was never sent.
    pub fn skip(self) -> (r: ProbeStatus)
        requires
            self is NotSent,
        ensures
            r is Skipped,
            is_transition(self, r),
    {
        ProbeStatus::Skipped
    }

    /// Record that `probe` has been transmitted.
    pub fn send(self, probe: Probe) -> (r: ProbeStatus)
        requires
            self is NotSent,
            probe.wf(),
        ensures
            r == ProbeStatus::Awaited(probe),
            r.wf(),
            is_transition(self, r),
    {
        ProbeStatus::Awaited(probe)
    }

    /// Record that an awaited probe has been answered.
    pub fn complete(
        self,
        host: IpAddr,
        received: Timestamp,
        icmp_packet_type: IcmpPacketType,
        extensions: Option<Extensions>,
    ) -> (r: ProbeStatus)
        requires
            self.wf(),
            self is Awaited,
            received.0 >= self->Awaited_0.sent.0,
        ensures
            r is Complete,
            r.wf(),
            is_transition(self, r),
            r->Complete_0.host == host,
            r->Complete_0.received == received,
            r->Complete_0.icmp_packet_type == icmp_packet_type,
            r->Complete_0.extensions == extensions,
    {
        match self {
            ProbeStatus::Awaited(p) => ProbeStatus::Complete(
                p.complete(host, received, icmp_packet_type, extensions),
            ),
            _ => ProbeStatus::NotSent,
        }
    }

    /// Whether the probe is awaiting a response.
    pub fn is_awaited(&self) -> (r: bool)
        ensures
            r == (*self is Awaited),
    {
        matches!(self, ProbeStatus::Awaited(_))
    }

    /// Whether the probe has been answered.
    pub fn is_complete(&self) -> (r: bool)
        ensures
            r == (*self is Complete),
    {
        matches!(self, ProbeStatus::Complete(_))
    }

    /// The awaited probe, if this status holds one.
    pub fn try_into_awaited(self) -> (r: Option<Probe>)
        ensures
            self is Awaited <==> r is Some,
            self is Awaited ==> r == Some(self->Awaited_0),
    {
        if let ProbeStatus::Awaited(awaited) = self {
            Some(awaited)
        } else {
            None
        }
    }

    /// The completed probe, if this status holds one.
    pub fn try_into_complete(self) -> (r: Option<ProbeComplete>)
        ensures
            self is Complete <==> r is Some,
            self is Complete ==> r == Some(self->Complete_0),
    {
        if let ProbeStatus::Complete(complete) = self {
            Some(complete)
        } else {
            None
        }
    }
}

/// The lifecycle only moves forward, and nothing leaves `Skipped` or `Complete`.
pub proof fn lemma_status_lattice(from: ProbeStatus, to: ProbeStatus)
    requires
        is_transition(from, to),
    ensures
        status_rank(from) < status_rank(to),
        !(from is Skipped),
        !(from is Complete),
        from is Awaited ==> to is Complete,
        to is Complete ==> from is Awaited,
{
}

/// Every well-formed probe status obeys the probe invariants: a TTL in
/// `1..=255`, and a completed probe received no earlier than it was sent.
pub proof fn lemma_status_invariants(s: ProbeStatus)
    requires
        s.wf(),
    ensures
        s is Awaited ==> 1 <= s->Awaited_0.ttl.0 <= 255,
        s is Complete ==> 1 <= s->Complete_0.ttl.0 <= 255,
        s is Complete ==> s->Complete_0.received.0 >= s->Complete_0.sent.0,
{
}

/// The type of ICMP packet received.
#[derive(Debug, Clone, Copy, PartialEq, Eq, Structural)]
pub enum IcmpPacketType {
    /// `TimeExceeded` packet.
    TimeExceeded(IcmpPacketCode),
    /// `EchoReply` packet.
    EchoReply(IcmpPacketCode),
    /// Unreachable packet.
    Unreachable(IcmpPacketCode),
    /// Non-ICMP response (i.e. for some `UDP` & `TCP` probes).
    NotApplicable,
}

/// The code of `TimeExceeded`, `EchoReply` and `Unreachable` ICMP packets.
#[derive(Debug, Clone, Copy, PartialEq, Eq, Structural)]
pub struct IcmpPacketCode(pub u8);

/// The response to a probe.
#[derive(Debug, Clone)]
pub enum Response {
    TimeExceeded(ResponseData, IcmpPacketCode, Option<Extensions>),
    DestinationUnreachable(ResponseData, IcmpPacketCode, Option<Extensions>),
    EchoReply(ResponseData, IcmpPacketCode),
    TcpReply(ResponseData),
    TcpRefused(ResponseData),
}

impl Response {
    /// The data that every kind of response carries.
    pub open spec fn data(&self) -> ResponseData {
        match self {
            Response::TimeExceeded(d, _, _) => *d,
            Response::DestinationUnreachable(d, _, _) => *d,
            Response::EchoReply(d, _) => *d,
            Response::TcpReply(d) => *d,
            Response::TcpRefused(d) => *d,
        }
    }

    /// The packet type that a probe completed by this response records.
    pub open spec fn packet_type(&self) -> IcmpPacketType {
        match self {
            Response::TimeExceeded(_, c, _) => IcmpPacketType::TimeExceeded(*c),
            Response::DestinationUnreachable(_, c, _) => IcmpPacketType::Unreachable(*c),
            Response::EchoReply(_, c) => IcmpPacketType::EchoReply(*c),
            _ => IcmpPacketType::NotApplicable,
        }
    }

    /// The extensions that the response carries.
    pub open spec fn extensions(&self) -> Option<Extensions> {
        match self {
            Response::TimeExceeded(_, _, e) => *e,
            Response::DestinationUnreachable(_, _, e) => *e,
            _ => None,
        }
    }

    /// The data that the response carries.
    pub fn response_data(&self) -> (r: ResponseData)
        ensures
            r == self.data(),
    {
        match self {
            Response::TimeExceeded(d, _, _) => *d,
            Response::DestinationUnreachable(d, _, _) => *d,
            Response::EchoReply(d, _) => *d,
            Response::TcpReply(d) => *d,
            Response::TcpRefused(d) => *d,
        }
    }

    /// The packet type and the extensions that a probe completed by this response records.
    pub fn into_outcome(self) -> (r: (IcmpPacketType, Option<Extensions>))
        ensures
            r.0 == self.packet_type(),
            r.1 == self.extensions(),
    {
        match self {
            Response::TimeExceeded(_, c, e) => (IcmpPacketType::TimeExceeded(c), e),
            Response::DestinationUnreachable(_, c, e) => (IcmpPacketType::Unreachable(c), e),
            Response::EchoReply(_, c) => (IcmpPacketType::EchoReply(c), None),
            _ => (IcmpPacketType::NotApplicable, None),
        }
    }
}

/// The ICMP extensions for a probe response.
#[derive(Debug, Clone, PartialEq, Eq, Default)]
pub struct Extensions {
    pub extensions: Vec<Extension>,
}

/// A probe response extension.
#[derive(Debug, Clone, PartialEq, Eq)]
pub enum Extension {
    Unknown(UnknownExtension),
    Mpls(MplsLabelStack),
}

impl Default for Extension {
    fn default() -> (r: Self)
        ensures
            r is Unknown,
            r->Unknown_0.class_num == 0,
            r->Unknown_0.class_subtype == 0,
            r->Unknown_0.bytes@.len() == 0,
    {
        Self::Unknown(UnknownExtension { class_num: 0, class_subtype: 0, bytes: Vec::new() })
    }
}

/// The members of a MPLS probe response extension.
#[derive(Debug, Clone, PartialEq, Eq, Default)]
pub struct MplsLabelStack {
    pub members: Vec<MplsLabelStackMember>,
}

/// A member of a MPLS probe response extension.
#[derive(Debug, Clone, Copy, PartialEq, Eq, Default, Structural)]
pub struct MplsLabelStackMember {
    pub label: u32,
    pub exp: u8,
    pub bos: u8,
    pub ttl: u8,
}

/// An unknown ICMP extension.
#[derive(Debug, Clone, PartialEq, Eq, Default)]
pub struct UnknownExtension {
    pub class_num: u8,
    pub class_subtype: u8,
    pub bytes: Vec<u8>,
}

/// The data in the probe response.
#[derive(Debug, Clone, Copy, PartialEq, Eq, Structural)]
pub struct ResponseData {
    /// Timestamp of the probe response.
    pub recv: Timestamp,
    /// The address that responded to the probe.
    pub addr: IpAddr,
    /// Information about the sequence number of the probe response.
    pub resp_seq: ResponseSeq,
}

impl ResponseData {
    pub fn new(recv: Timestamp, addr: IpAddr, resp_seq: ResponseSeq) -> (r: Self)
        ensures
            r == (ResponseData { recv, addr, resp_seq }),
    {
        Self { recv, addr, resp_seq }
    }
}

/// The fingerprint extracted from a response.
#[derive(Debug, Clone, Copy, PartialEq, Eq, Structural)]
pub enum ResponseSeq {
    Icmp(ResponseSeqIcmp),
    Udp(ResponseSeqUdp),
    Tcp(ResponseSeqTcp),
}

/// The data in the response to an ICMP probe.
#[derive(Debug, Clone, Copy, PartialEq, Eq, Structural)]
pub struct ResponseSeqIcmp {
    /// The ICMP identifier.
    pub identifier: u16,
    /// The ICMP sequence number.
    pub sequence: u16,
}

impl ResponseSeqIcmp {
    pub fn new(identifier: u16, sequence: u16) -> (r: Self)
        ensures
            r == (ResponseSeqIcmp { identifier, sequence }),
    {
        Self { identifier, sequence }
    }
}

/// The data in the response to a UDP probe.
#[derive(Debug, Clone, Copy, PartialEq, Eq, Structural)]
pub struct ResponseSeqUdp {
    /// The IPv4 identifier: the sequence number for classic and Dublin IPv4.
    pub identifier: u16,
    /// The destination address of the original probe.
    pub dest_addr: IpAddr,
    /// The source port of the original probe.
    pub src_port: u16,
    /// The destination port of the original probe.
    pub dest_port: u16,
    /// The UDP checksum: the sequence number for Paris.
    pub checksum: u16,
    /// The length of the UDP payload, the magic prefix left out: the base
    /// payload length plus the sequence number for Dublin IPv6.
    pub payload_len: u16,
    /// Whether the reflected payload began with the magic prefix.
    pub has_magic: bool,
}

impl ResponseSeqUdp {
    pub fn new(
        identifier: u16,
        dest_addr: IpAddr,
        src_port: u16,
        dest_port: u16,
        checksum: u16,
        payload_len: u16,
        has_magic: bool,
    ) -> (r: Self)
        ensures
            r == (ResponseSeqUdp {
                identifier,
                dest_addr,
                src_port,
                dest_port,
                checksum,
                payload_len,
                has_magic,
            }),
    {
        Self { identifier, dest_addr, src_port, dest_port, checksum, payload_len, has_magic }
    }
}

/// The data in the response to a TCP probe.
#[derive(Debug, Clone, Copy, PartialEq, Eq, Structural)]
pub struct ResponseSeqTcp {
    /// The destination address of the original probe.
    pub dest_addr: IpAddr,
    /// The source port of the original probe.
    pub src_port: u16,
    /// The destination port of the original probe.
    pub dest_port: u16,
}

impl ResponseSeqTcp {
    pub fn new(dest_addr: IpAddr, src_port: u16, dest_port: u16) -> (r: Self)
        ensures
            r == (ResponseSeqTcp { dest_addr, src_port, dest_port }),
    {
        Self { dest_addr, src_port, dest_port }
    }
}

} // verus!
