use vstd::prelude::*;

use crate::probe::{Probe, ProbeComplete, Response, ResponseSeq, ResponseSeqUdp};
use crate::types::{Flags, IpAddr};

verus! {

/// The probe sequence that a reflected UDP header carries under `flags`:
/// the IPv4 Identification for classic and Dublin IPv4, the checksum for Paris,
/// and for Dublin IPv6 the payload length beyond `base_payload_len`, only
/// behind the magic prefix.
pub open spec fn reflected_sequence(s: ResponseSeqUdp, flags: Flags, base_payload_len: u16) -> Option<u16> {
    match flags {
        Flags::Classic | Flags::DublinIpv4 => Some(s.identifier),
        Flags::ParisIpv4 | Flags::ParisIpv6 => Some(s.checksum),
        Flags::DublinIpv6 => if s.has_magic && s.payload_len >= base_payload_len {
            Some((s.payload_len - base_payload_len) as u16)
        } else {
            None
        },
    }
}

/// Read the probe sequence that a reflected UDP header carries under `flags`.
pub fn udp_reflected_sequence(s: &ResponseSeqUdp, flags: Flags, base_payload_len: u16) -> (r: Option<u16>)
    ensures
        r == reflected_sequence(*s, flags, base_payload_len),
{
    match flags {
        Flags::Classic | Flags::DublinIpv4 => Some(s.identifier),
        Flags::ParisIpv4 | Flags::ParisIpv6 => Some(s.checksum),
        Flags::DublinIpv6 => if s.has_magic && s.payload_len >= base_payload_len {
            Some(s.payload_len - base_payload_len)
        } else {
            None
        },
    }
}

/// Whether the fingerprint `resp` identifies `probe`, sent to `target`: the
/// identifier and sequence for ICMP; for UDP the field that `probe.flags`
/// chooses and the `(dest_addr, src_port, dest_port)` tuple; for TCP the tuple.
pub open spec fn fingerprint_matches(resp: ResponseSeq, probe: Probe, target: IpAddr, base_payload_len: u16) -> bool {
    match resp {
        ResponseSeq::Icmp(s) => s.identifier == probe.identifier.0 && s.sequence == probe.sequence.0,
        ResponseSeq::Udp(s) => {
            &&& reflected_sequence(s, probe.flags, base_payload_len) == Some(probe.sequence.0)
            &&& s.dest_addr == target
            &&& s.src_port == probe.src_port.0
            &&& s.dest_port == probe.dest_port.0
        },
        ResponseSeq::Tcp(s) => {
            &&& s.dest_addr == target
            &&& s.src_port == probe.src_port.0
            &&& s.dest_port == probe.dest_port.0
        },
    }
}

/// Whether the fingerprint `resp` identifies `probe`, sent to `target`.
pub fn matches_probe(resp: &ResponseSeq, probe: &Probe, target: IpAddr, base_payload_len: u16) -> (r: bool)
    ensures
        r == fingerprint_matches(*resp, *probe, target, base_payload_len),
{
    match resp {
        ResponseSeq::Icmp(s) => s.identifier == probe.identifier.0 && s.sequence == probe.sequence.0,
        ResponseSeq::Udp(s) => {
            let seq_ok = match udp_reflected_sequence(s, probe.flags, base_payload_len) {
                Some(v) => v == probe.sequence.0,
                None => false,
            };
            seq_ok && s.dest_addr == target && s.src_port == probe.src_port.0 && s.dest_port
                == probe.dest_port.0
        },
        ResponseSeq::Tcp(s) => s.dest_addr == target && s.src_port == probe.src_port.0 && s.dest_port
            == probe.dest_port.0,
    }
}

/// Whether `resp` may complete `probe`: its fingerprint matches, and it was
/// received no earlier than the probe was sent.
pub open spec fn is_candidate(resp: Response, probe: Probe, target: IpAddr, base_payload_len: u16) -> bool {
    &&& fingerprint_matches(resp.data().resp_seq, probe, target, base_payload_len)
    &&& resp.data().recv.0 >= probe.sent.0
}

/// Whether `i` is the most recently sent of the probes in `ps` that `resp` may complete.
pub open spec fn is_most_recent_candidate(
    resp: Response,
    ps: Seq<Probe>,
    i: int,
    target: IpAddr,
    base_payload_len: u16,
) -> bool {
    &&& 0 <= i < ps.len()
    &&& is_candidate(resp, ps[i], target, base_payload_len)
    &&& forall|j: int|
        0 <= j < ps.len() && #[trigger] is_candidate(resp, ps[j], target, base_payload_len)
            ==> ps[j].sent.0 <= ps[i].sent.0
}

/// The probes of `ps` that `resp` may not complete, in their order.
pub open spec fn non_candidates(resp: Response, ps: Seq<Probe>, target: IpAddr, base_payload_len: u16) -> Seq<
    Probe,
>
    decreases ps.len(),
{
    if ps.len() == 0 {
        Seq::empty()
    } else {
        let rest = non_candidates(resp, ps.drop_last(), target, base_payload_len);
        if is_candidate(resp, ps.last(), target, base_payload_len) {
            rest
        } else {
            rest.push(ps.last())
        }
    }
}

/// Keeping only the non-candidates keeps every probe well formed.
proof fn lemma_non_candidates_wf(resp: Response, ps: Seq<Probe>, target: IpAddr, base_payload_len: u16)
    requires
        forall|i: int| 0 <= i < ps.len() ==> (#[trigger] ps[i]).wf(),
    ensures
        forall|i: int|
            0 <= i < non_candidates(resp, ps, target, base_payload_len).len() ==> (
            #[trigger] non_candidates(resp, ps, target, base_payload_len)[i]).wf(),
    decreases ps.len(),
{
    if ps.len() > 0 {
        let init = ps.drop_last();
        assert forall|i: int| 0 <= i < init.len() implies (#[trigger] init[i]).wf() by {
            assert(init[i] == ps[i]);
        }
        lemma_non_candidates_wf(resp, init, target, base_payload_len);
        let rest = non_candidates(resp, init, target, base_payload_len);
        let all = non_candidates(resp, ps, target, base_payload_len);
        assert(ps.last() == ps[ps.len() - 1]);
        assert forall|i: int| 0 <= i < all.len() implies (#[trigger] all[i]).wf() by {
            if i < rest.len() {
                assert(all[i] == rest[i]);
            }
        }
    }
}

/// `r` is the outcome of matching `response` to the awaited probes `before`,
/// sent to `target`, and `after` is what remains awaited. The most recently
/// sent probe that the response may complete is returned completed, and it
/// leaves together with the older duplicates that the response may also
/// complete, which are stale; where there is none, nothing changes and the
/// result is `None`.
pub open spec fn correlation(
    response: Response,
    before: Seq<Probe>,
    after: Seq<Probe>,
    target: IpAddr,
    base_payload_len: u16,
    r: Option<ProbeComplete>,
) -> bool {
    &&& r is None <==> !exists|i: int|
        0 <= i < before.len() && #[trigger] is_candidate(response, before[i], target, base_payload_len)
    &&& r is None ==> after == before
    &&& r is Some ==> exists|i: int|
        {
            &&& #[trigger] is_most_recent_candidate(response, before, i, target, base_payload_len)
            &&& r->0.completes(before[i])
        }
    &&& r is Some ==> after == non_candidates(response, before, target, base_payload_len)
    &&& r is Some ==> {
        &&& r->0.wf()
        &&& r->0.host == response.data().addr
        &&& r->0.received == response.data().recv
        &&& r->0.icmp_packet_type == response.packet_type()
        &&& r->0.extensions == response.extensions()
    }
}

/// Match `response` to the outstanding awaited probes sent to `target`.
///
/// Among the probes that the response may complete, the most recently sent
/// one is returned completed with the responder's address, the time of
/// receipt, the packet type and the extensions; it leaves `outstanding`, and
/// so do the older duplicates that the response may also complete, as stale.
/// Where none matches, `outstanding` is left as it was and `None` is returned.
///
/// The whole table is searched. Within one session a fingerprint is shared
/// only once the 16-bit sequence has wrapped, and a round holds fewer probes
/// than that, so of several probes that share a fingerprint only the most
/// recent can belong to the round in progress: the others are older than one
/// round and stale whichever round they came from.
pub fn correlate(
    response: Response,
    outstanding: &mut Vec<Probe>,
    target: IpAddr,
    base_payload_len: u16,
) -> (r: Option<ProbeComplete>)
    requires
        forall|i: int| 0 <= i < old(outstanding)@.len() ==> (#[trigger] old(outstanding)@[i]).wf(),
    ensures
        correlation(response, old(outstanding)@, final(outstanding)@, target, base_payload_len, r),
{
    let data = response.response_data();
    let mut best: Option<usize> = None;
    let mut i: usize = 0;
    while i < outstanding.len()
        invariant
            i <= outstanding@.len(),
            data == response.data(),
            match best {
                None => forall|j: int|
                    0 <= j < i ==> !#[trigger] is_candidate(
                        response,
                        outstanding@[j],
                        target,
                        base_payload_len,
                    ),
                Some(b) => {
                    &&& b < i
                    &&& is_candidate(response, outstanding@[b as int], target, base_payload_len)
                    &&& forall|j: int|
                        0 <= j < i && #[trigger] is_candidate(
                            response,
                            outstanding@[j],
                            target,
                            base_payload_len,
                        ) ==> outstanding@[j].sent.0 <= outstanding@[b as int].sent.0
                },
            },
        decreases outstanding@.len() - i,
    {
        let p = &outstanding[i];
        if matches_probe(&data.resp_seq, p, target, base_payload_len) && data.recv.0 >= p.sent.0 {
            let better = match best {
                None => true,
                Some(b) => outstanding[b].sent.0 <= p.sent.0,
            };
            if better {
                best = Some(i);
            }
        }
        i = i + 1;
    }
    match best {
        None => None,
        Some(b) => {
            let ghost before = outstanding@;
            assert(is_most_recent_candidate(response, before, b as int, target, base_payload_len));
            let probe = outstanding[b];
            let mut kept: Vec<Probe> = Vec::new();
            let mut k: usize = 0;
            while k < outstanding.len()
                invariant
                    k <= outstanding@.len(),
                    outstanding@ == before,
                    data == response.data(),
                    kept@ == non_candidates(
                        response,
                        before.subrange(0, k as int),
                        target,
                        base_payload_len,
                    ),
                decreases outstanding@.len() - k,
            {
                let q = &outstanding[k];
                let candidate = matches_probe(&data.resp_seq, q, target, base_payload_len) && data.recv.0
                    >= q.sent.0;
                proof {
                    assert(before.subrange(0, k + 1).drop_last() =~= before.subrange(0, k as int));
                    assert(before.subrange(0, k + 1).last() == before[k as int]);
                }
                if !candidate {
                    kept.push(*q);
                }
                k = k + 1;
            }
            assert(before.subrange(0, before.len() as int) =~= before);
            *outstanding = kept;
            let (packet_type, extensions) = response.into_outcome();
            Some(probe.complete(data.addr, data.recv, packet_type, extensions))
        },
    }
}

/// A response whose reflected `(dest_addr, src_port, dest_port)` tuple differs
/// from the probe's is never matched to it, whatever sequence it carries.
pub proof fn lemma_tuple_mismatch_never_matches(
    resp: ResponseSeq,
    probe: Probe,
    target: IpAddr,
    base_payload_len: u16,
)
    requires
        match resp {
            ResponseSeq::Udp(s) => s.dest_addr != target || s.src_port != probe.src_port.0
                || s.dest_port != probe.dest_port.0,
            ResponseSeq::Tcp(s) => s.dest_addr != target || s.src_port != probe.src_port.0
                || s.dest_port != probe.dest_port.0,
            ResponseSeq::Icmp(_) => false,
        },
    ensures
        !fingerprint_matches(resp, probe, target, base_payload_len),
{
}

/// The awaited probes of one trace to `target`, and the number of responses
/// that matched none of them.
pub struct Correlator {
    pub outstanding: Vec<Probe>,
    pub target: IpAddr,
    pub base_payload_len: u16,
    pub unmatched: u64,
}

impl Correlator {
    /// Every awaited probe is well formed.
    pub open spec fn wf(&self) -> bool {
        forall|i: int| 0 <= i < self.outstanding@.len() ==> (#[trigger] self.outstanding@[i]).wf()
    }

    /// A correlator for a trace to `target` with nothing awaited.
    pub fn new(target: IpAddr, base_payload_len: u16) -> (r: Self)
        ensures
            r.wf(),
            r.outstanding@.len() == 0,
            r.target == target,
            r.base_payload_len == base_payload_len,
            r.unmatched == 0,
    {
        Correlator { outstanding: Vec::new(), target, base_payload_len, unmatched: 0 }
    }

    /// Await a response to `probe`, which has just been sent.
    pub fn add(&mut self, probe: Probe)
        requires
            old(self).wf(),
            probe.wf(),
        ensures
            final(self).wf(),
            final(self).outstanding@ == old(self).outstanding@.push(probe),
            final(self).target == old(self).target,
            final(self).base_payload_len == old(self).base_payload_len,
            final(self).unmatched == old(self).unmatched,
    {
        self.outstanding.push(probe);
    }

    /// Match `response` to an awaited probe, counting it when none matches
    /// (the count stops at its largest value).
    pub fn on_response(&mut self, response: Response) -> (r: Option<ProbeComplete>)
        requires
            old(self).wf(),
        ensures
            final(self).wf(),
            correlation(
                response,
                old(self).outstanding@,
                final(self).outstanding@,
                old(self).target,
                old(self).base_payload_len,
                r,
            ),
            final(self).target == old(self).target,
            final(self).base_payload_len == old(self).base_payload_len,
            r is Some ==> final(self).unmatched == old(self).unmatched,
            r is None ==> final(self).unmatched == if old(self).unmatched == u64::MAX {
                u64::MAX
            } else {
                (old(self).unmatched + 1) as u64
            },
    {
        let r = correlate(response, &mut self.outstanding, self.target, self.base_payload_len);
        if r.is_none() {
            self.unmatched = self.unmatched.saturating_add(1);
        }
        proof {
            if r is Some {
                lemma_non_candidates_wf(
                    response,
                    old(self).outstanding@,
                    self.target,
                    self.base_payload_len,
                );
            }
        }
        r
    }
}

} // verus!
