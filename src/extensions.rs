use vstd::prelude::*;

use crate::bytes::{be16, read_be16};
use crate::probe::{Extension, MplsLabelStack, MplsLabelStackMember, UnknownExtension};

verus! {

/// The class number of an MPLS label stack object (RFC 4950).
pub const MPLS_CLASS_NUM: u8 = 1;

/// The MPLS label stack entry held in `b[i..i + 4]`: a 20-bit label, 3
/// experimental bits, the bottom-of-stack bit and an 8-bit TTL.
pub open spec fn mpls_member_of(b: Seq<u8>, i: int) -> MplsLabelStackMember {
    MplsLabelStackMember {
        label: (b[i] as int * 4096 + b[i + 1] as int * 16 + b[i + 2] as int / 16) as u32,
        exp: ((b[i + 2] / 2) % 8) as u8,
        bos: (b[i + 2] % 2) as u8,
        ttl: b[i + 3],
    }
}

/// The label stack entries of an MPLS object body, one per whole group of 4 bytes.
pub open spec fn mpls_members(b: Seq<u8>) -> Seq<MplsLabelStackMember> {
    Seq::new((b.len() / 4) as nat, |k: int| mpls_member_of(b, 4 * k))
}

/// An entry whose fields fit their widths on the wire.
pub open spec fn member_valid(m: MplsLabelStackMember) -> bool {
    m.label < 0x10_0000 && m.exp < 8 && m.bos < 2
}

/// The 4 bytes that encode an entry.
pub open spec fn member_bytes(m: MplsLabelStackMember) -> Seq<u8> {
    seq![
        ((m.label / 4096) % 256) as u8,
        ((m.label / 16) % 256) as u8,
        ((m.label % 16) * 16 + (m.exp % 8) * 2 + m.bos % 2) as u8,
        m.ttl,
    ]
}

/// The bytes that encode a label stack.
pub open spec fn mpls_bytes(ms: Seq<MplsLabelStackMember>) -> Seq<u8>
    decreases ms.len(),
{
    if ms.len() == 0 {
        Seq::empty()
    } else {
        mpls_bytes(ms.drop_last()) + member_bytes(ms.last())
    }
}

/// The extension objects of an RFC 4884 extension structure (its header
/// removed): each object is a 16-bit length that counts its own 4-byte header,
/// a class number, a class subtype and a body. `None` where an object is
/// truncated or its length is implausible.
pub open spec fn parse_objects(b: Seq<u8>) -> Option<Seq<(u8, u8, Seq<u8>)>>
    decreases b.len(),
{
    if b.len() == 0 {
        Some(Seq::empty())
    } else if b.len() < 4 {
        None
    } else {
        let n = be16(b, 0);
        if n < 4 || n > b.len() {
            None
        } else {
            match parse_objects(b.subrange(n, b.len() as int)) {
                Some(rest) => Some(seq![(b[2], b[3], b.subrange(4, n))] + rest),
                None => None,
            }
        }
    }
}

/// `e` is the decoding of the object `o`: an MPLS label stack for class 1,
/// otherwise the object kept verbatim.
pub open spec fn denotes(e: Extension, o: (u8, u8, Seq<u8>)) -> bool {
    match e {
        Extension::Mpls(s) => o.0 == MPLS_CLASS_NUM && s.members@ == mpls_members(o.2),
        Extension::Unknown(u) => {
            &&& o.0 != MPLS_CLASS_NUM
            &&& u.class_num == o.0
            &&& u.class_subtype == o.1
            &&& u.bytes@ == o.2
        },
    }
}

/// `es` decodes the objects `os`, one for one and in order.
pub open spec fn extensions_denote(es: Seq<Extension>, os: Seq<(u8, u8, Seq<u8>)>) -> bool {
    &&& es.len() == os.len()
    &&& forall|i: int| 0 <= i < es.len() ==> denotes(#[trigger] es[i], os[i])
}

fn mpls_member_at(b: &[u8], i: usize) -> (r: MplsLabelStackMember)
    requires
        i + 4 <= b@.len(),
    ensures
        r == mpls_member_of(b@, i as int),
{
    let _n = b.len();
    let b2 = b[i + 2];
    MplsLabelStackMember {
        label: (b[i] as u32) * 4096 + (b[i + 1] as u32) * 16 + (b2 as u32) / 16,
        exp: (b2 / 2) % 8,
        bos: b2 % 2,
        ttl: b[i + 3],
    }
}

/// Parse the label stack entries of an MPLS object body `b[from..to]`.
pub fn parse_mpls(b: &[u8], from: usize, to: usize) -> (r: Vec<MplsLabelStackMember>)
    requires
        from <= to <= b@.len(),
    ensures
        r@ == mpls_members(b@.subrange(from as int, to as int)),
{
    let ghost body = b@.subrange(from as int, to as int);
    let mut out: Vec<MplsLabelStackMember> = Vec::new();
    let mut i: usize = from;
    let ghost mut k: int = 0;
    while to - i >= 4
        invariant
            from <= i <= to,
            to <= b@.len(),
            i == from + 4 * k,
            body == b@.subrange(from as int, to as int),
            out@ =~= Seq::new(k as nat, |j: int| mpls_member_of(body, 4 * j)),
        decreases to - i,
    {
        let m = mpls_member_at(b, i);
        proof {
            assert(body[4 * k] == b@[i as int]);
            assert(body[4 * k + 1] == b@[i + 1]);
            assert(body[4 * k + 2] == b@[i + 2]);
            assert(body[4 * k + 3] == b@[i + 3]);
        }
        out.push(m);
        i = i + 4;
        proof {
            k = k + 1;
        }
    }
    assert(body.len() / 4 == k);
    out
}

/// Decode the object with class `class_num` and subtype `c_type` whose body is `b[from..to]`.
fn make_extension(b: &[u8], from: usize, to: usize, class_num: u8, c_type: u8) -> (r: Extension)
    requires
        from <= to <= b@.len(),
    ensures
        denotes(r, (class_num, c_type, b@.subrange(from as int, to as int))),
{
    if class_num == MPLS_CLASS_NUM {
        Extension::Mpls(MplsLabelStack { members: parse_mpls(b, from, to) })
    } else {
        let mut bytes: Vec<u8> = Vec::new();
        let mut i: usize = from;
        while i < to
            invariant
                from <= i <= to,
                to <= b@.len(),
                bytes@ =~= b@.subrange(from as int, i as int),
            decreases to - i,
        {
            bytes.push(b[i]);
            i = i + 1;
        }
        Extension::Unknown(UnknownExtension { class_num, class_subtype: c_type, bytes })
    }
}

/// Parse the extension objects in `b[start..]`.
pub fn parse_extension_objects(b: &[u8], start: usize) -> (r: Option<Vec<Extension>>)
    requires
        start <= b@.len(),
    ensures
        match parse_objects(b@.subrange(start as int, b@.len() as int)) {
            None => r is None,
            Some(os) => r is Some && extensions_denote(r->0@, os),
        },
    decreases b@.len() - start,
{
    let n = b.len();
    let ghost s = b@.subrange(start as int, n as int);
    if start == n {
        return Some(Vec::new());
    }
    if n - start < 4 {
        return None;
    }
    let len = read_be16(b, start) as usize;
    assert(be16(s, 0) == len);
    if len < 4 || len > n - start {
        return None;
    }
    let ext = make_extension(b, start + 4, start + len, b[start + 2], b[start + 3]);
    assert(s.subrange(len as int, s.len() as int) =~= b@.subrange(start + len, n as int));
    assert(s.subrange(4, len as int) =~= b@.subrange(start + 4, start + len));
    match parse_extension_objects(b, start + len) {
        None => None,
        Some(rest) => {
            let mut all = rest;
            all.insert(0, ext);
            proof {
                let os = parse_objects(s)->0;
                let ros = parse_objects(b@.subrange(start + len, n as int))->0;
                assert(os == seq![(s[2], s[3], s.subrange(4, len as int))] + ros);
                assert forall|i: int| 0 <= i < all@.len() implies denotes(#[trigger] all@[i], os[i]) by {
                    if i > 0 {
                        assert(all@[i] == rest@[i - 1]);
                        assert(os[i] == ros[i - 1]);
                    }
                }
            }
            Some(all)
        },
    }
}

/// Encode a label stack.
pub fn emit_mpls(stack: &MplsLabelStack) -> (r: Vec<u8>)
    ensures
        r@ == mpls_bytes(stack.members@),
{
    let mut out: Vec<u8> = Vec::new();
    let mut i: usize = 0;
    while i < stack.members.len()
        invariant
            i <= stack.members@.len(),
            out@ == mpls_bytes(stack.members@.subrange(0, i as int)),
        decreases stack.members@.len() - i,
    {
        let m = stack.members[i];
        out.push(((m.label / 4096) % 256) as u8);
        out.push(((m.label / 16) % 256) as u8);
        out.push(((m.label % 16) * 16 + ((m.exp % 8) as u32) * 2 + (m.bos % 2) as u32) as u8);
        out.push(m.ttl);
        proof {
            let next = stack.members@.subrange(0, i + 1);
            assert(next.drop_last() =~= stack.members@.subrange(0, i as int));
            assert(out@ =~= mpls_bytes(next));
        }
        i = i + 1;
    }
    assert(stack.members@.subrange(0, i as int) =~= stack.members@);
    out
}

proof fn lemma_mpls_bytes_len(ms: Seq<MplsLabelStackMember>)
    ensures
        mpls_bytes(ms).len() == 4 * ms.len(),
    decreases ms.len(),
{
    if ms.len() > 0 {
        lemma_mpls_bytes_len(ms.drop_last());
    }
}

proof fn lemma_member_round_trip(m: MplsLabelStackMember)
    requires
        member_valid(m),
    ensures
        mpls_member_of(member_bytes(m), 0) == m,
{
    let b = member_bytes(m);
    let l = m.label as int;
    assert(b[0] as int == l / 4096);
    assert(b[1] as int == (l / 16) % 256);
    assert(b[2] as int == (l % 16) * 16 + m.exp as int * 2 + m.bos as int);
    assert((l / 4096) * 4096 + ((l / 16) % 256) * 16 + l % 16 == l);
}

proof fn lemma_bytes_round_trip(b: Seq<u8>)
    requires
        b.len() == 4,
    ensures
        member_bytes(mpls_member_of(b, 0)) =~= b,
        member_valid(mpls_member_of(b, 0)),
{
    let l = b[0] as int * 4096 + b[1] as int * 16 + b[2] as int / 16;
    assert(l / 4096 == b[0] as int);
    assert((l / 16) % 256 == b[1] as int);
    assert(l % 16 == b[2] as int / 16);
}

/// Emitting a label stack of valid entries and parsing the bytes gives the
/// same stack back, entry for entry.
pub proof fn lemma_mpls_emit_parse(ms: Seq<MplsLabelStackMember>)
    requires
        forall|i: int| 0 <= i < ms.len() ==> member_valid(#[trigger] ms[i]),
    ensures
        mpls_members(mpls_bytes(ms)) == ms,
    decreases ms.len(),
{
    lemma_mpls_bytes_len(ms);
    if ms.len() > 0 {
        let init = ms.drop_last();
        lemma_mpls_emit_parse(init);
        lemma_mpls_bytes_len(init);
        let b = mpls_bytes(ms);
        let head = mpls_bytes(init);
        let tail = member_bytes(ms.last());
        assert(b == head + tail);
        assert forall|k: int| 0 <= k < ms.len() implies #[trigger] mpls_member_of(b, 4 * k) == ms[k] by {
            if k < ms.len() - 1 {
                assert(mpls_member_of(b, 4 * k) == mpls_member_of(head, 4 * k));
                assert(mpls_members(head)[k] == init[k]);
            } else {
                lemma_member_round_trip(ms.last());
                assert(mpls_member_of(b, 4 * k) == mpls_member_of(tail, 0));
            }
        }
        assert(mpls_members(b) =~= ms);
    }
}

/// Parsing an MPLS object body of whole 4-byte entries and emitting the stack
/// gives the same bytes back; every parsed entry is valid.
pub proof fn lemma_mpls_parse_emit(b: Seq<u8>)
    requires
        b.len() % 4 == 0,
    ensures
        mpls_bytes(mpls_members(b)) == b,
        forall|i: int| 0 <= i < mpls_members(b).len() ==> member_valid(#[trigger] mpls_members(b)[i]),
    decreases b.len(),
{
    let ms = mpls_members(b);
    if b.len() == 0 {
        assert(ms.len() == 0);
        assert(mpls_bytes(ms) =~= b);
    } else {
        let n = b.len() as int;
        let init = b.subrange(0, n - 4);
        let tail = b.subrange(n - 4, n);
        lemma_mpls_parse_emit(init);
        assert(ms.drop_last() =~= mpls_members(init)) by {
            assert forall|k: int| 0 <= k < ms.len() - 1 implies ms.drop_last()[k]
                == #[trigger] mpls_members(init)[k] by {
                assert(mpls_member_of(b, 4 * k) == mpls_member_of(init, 4 * k));
            }
        }
        assert(ms.last() == mpls_member_of(tail, 0));
        lemma_bytes_round_trip(tail);
        assert(mpls_bytes(ms) =~= b);
        assert forall|i: int| 0 <= i < ms.len() implies member_valid(#[trigger] ms[i]) by {
            if i < ms.len() - 1 {
                assert(ms[i] == mpls_members(init)[i]);
            }
        }
    }
}

} // verus!
