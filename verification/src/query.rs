//! The form/query codec: percent-encoded `key=value` pairs joined by `&`.
//!
//! It parses the query of the OAuth callback request and the stored token
//! records, which are written in the same shape.

use vstd::prelude::*;
use vstd::slice::slice_subrange;
use crate::encoding::{
    find_byte, find_byte_exec, find_byte_props, pct_decoded, pct_decode_bytes, pct_encoded,
    pct_encode_bytes, bytes_eq, clone_bytes,
};

verus! {

/// The decoded (key, value) of one `key=value` segment; a segment without
/// `=` is a key with an empty value.
pub open spec fn segment_pair(seg: Seq<u8>) -> (Seq<u8>, Seq<u8>) {
    let e = find_byte(seg, 61);
    if e == seg.len() {
        (pct_decoded(seg), seq![])
    } else {
        (pct_decoded(seg.take(e)), pct_decoded(seg.skip(e + 1)))
    }
}

/// A segment contributes a pair unless it is empty (as in `a&&b`).
pub open spec fn maybe_pair(seg: Seq<u8>) -> Seq<(Seq<u8>, Seq<u8>)> {
    if seg.len() == 0 {
        seq![]
    } else {
        seq![segment_pair(seg)]
    }
}

/// All decoded pairs of a query string, in order.
pub open spec fn query_pairs(s: Seq<u8>) -> Seq<(Seq<u8>, Seq<u8>)>
    decreases s.len(),
    via query_pairs_decreases
{
    if s.len() == 0 {
        seq![]
    } else {
        let a = find_byte(s, 38);
        if a == s.len() {
            maybe_pair(s)
        } else {
            maybe_pair(s.take(a)) + query_pairs(s.skip(a + 1))
        }
    }
}

#[via_fn]
proof fn query_pairs_decreases(s: Seq<u8>) {
    find_byte_props(s, 38);
}

/// The value of the first pair with the given key, if any.
pub open spec fn pairs_lookup(ps: Seq<(Seq<u8>, Seq<u8>)>, key: Seq<u8>) -> Option<Seq<u8>>
    decreases ps.len(),
{
    if ps.len() == 0 {
        None
    } else if ps[0].0 == key {
        Some(ps[0].1)
    } else {
        pairs_lookup(ps.drop_first(), key)
    }
}

/// The decoded value bound to `key` in the query string, if any.
pub open spec fn query_value(s: Seq<u8>, key: Seq<u8>) -> Option<Seq<u8>> {
    pairs_lookup(query_pairs(s), key)
}

/// The views of executable pairs.
pub open spec fn pairs_view(ps: Seq<(Vec<u8>, Vec<u8>)>) -> Seq<(Seq<u8>, Seq<u8>)> {
    ps.map_values(|p: (Vec<u8>, Vec<u8>)| (p.0@, p.1@))
}

/// Parses one segment into its decoded key and value.
fn parse_segment(seg: &[u8]) -> (r: (Vec<u8>, Vec<u8>))
    ensures
        (r.0@, r.1@) == segment_pair(seg@),
{
    let e = find_byte_exec(seg, 61);
    proof {
        find_byte_props(seg@, 61);
    }
    if e == seg.len() {
        let k = pct_decode_bytes(seg);
        let v: Vec<u8> = Vec::new();
        proof {
            assert(v@ =~= segment_pair(seg@).1);
        }
        (k, v)
    } else {
        let k = pct_decode_bytes(slice_subrange(seg, 0, e));
        let v = pct_decode_bytes(slice_subrange(seg, e + 1, seg.len()));
        (k, v)
    }
}

/// Parses a whole query string into its decoded pairs, in order.
pub fn parse_query(s: &[u8]) -> (r: Vec<(Vec<u8>, Vec<u8>)>)
    ensures
        pairs_view(r@) == query_pairs(s@),
    decreases s@.len(),
{
    let mut out: Vec<(Vec<u8>, Vec<u8>)> = Vec::new();
    if s.len() == 0 {
        proof {
            assert(pairs_view(out@) =~= query_pairs(s@));
        }
        return out;
    }
    let a = find_byte_exec(s, 38);
    proof {
        find_byte_props(s@, 38);
    }
    if a == s.len() {
        let (k, v) = parse_segment(s);
        out.push((k, v));
        proof {
            assert(pairs_view(out@) =~= maybe_pair(s@));
        }
        out
    } else {
        let head = slice_subrange(s, 0, a);
        let tail = slice_subrange(s, a + 1, s.len());
        if head.len() > 0 {
            let (k, v) = parse_segment(head);
            out.push((k, v));
        }
        let mut rest = parse_query(tail);
        let ghost out_before = out@;
        out.append(&mut rest);
        proof {
            assert(pairs_view(out_before) =~= maybe_pair(s@.take(a as int)));
            assert(pairs_view(out@) =~= pairs_view(out_before) + query_pairs(tail@));
            assert(pairs_view(out@) =~= query_pairs(s@));
        }
        out
    }
}

/// Looks up the first pair with the given key among parsed pairs.
pub fn lookup_pair(pairs: &Vec<(Vec<u8>, Vec<u8>)>, key: &[u8]) -> (r: Option<Vec<u8>>)
    ensures
        r matches Some(v) ==> pairs_lookup(pairs_view(pairs@), key@) == Some(v@),
        r is None <==> pairs_lookup(pairs_view(pairs@), key@) is None,
    decreases pairs@.len(),
{
    let mut i: usize = 0;
    proof {
        assert(pairs@.skip(0) =~= pairs@);
    }
    while i < pairs.len()
        invariant
            i <= pairs@.len(),
            pairs_lookup(pairs_view(pairs@), key@)
                == pairs_lookup(pairs_view(pairs@.skip(i as int)), key@),
        decreases pairs@.len() - i,
    {
        if bytes_eq(pairs[i].0.as_slice(), key) {
            let v = clone_bytes(pairs[i].1.as_slice());
            proof {
                assert(pairs_view(pairs@.skip(i as int))[0] == (pairs@[i as int].0@, pairs@[i as int].1@));
            }
            return Some(v);
        }
        proof {
            assert(pairs_view(pairs@.skip(i as int))[0] == (pairs@[i as int].0@, pairs@[i as int].1@));
            assert(pairs_view(pairs@.skip(i as int)).drop_first()
                =~= pairs_view(pairs@.skip(i + 1)));
        }
        i = i + 1;
    }
    proof {
        assert(pairs_view(pairs@.skip(i as int)).len() == 0);
    }
    None
}

/// Percent-encoded output never contains a pair separator `&` or a
/// key/value separator `=`: both are escaped.
pub proof fn pct_encoded_no_separators(s: Seq<u8>)
    ensures
        forall|i: int| 0 <= i < pct_encoded(s).len()
            ==> #[trigger] pct_encoded(s)[i] != 38 && pct_encoded(s)[i] != 61,
    decreases s.len(),
{
    if s.len() > 0 {
        pct_encoded_no_separators(s.drop_first());
        let whole = pct_encoded(s);
        let head = crate::encoding::pct_byte(s[0]);
        assert forall|i: int| 0 <= i < whole.len()
            implies #[trigger] whole[i] != 38 && whole[i] != 61 by {
            if i < head.len() {
                assert(whole[i] == head[i]);
            } else {
                assert(whole[i] == pct_encoded(s.drop_first())[i - head.len()]);
            }
        }
    }
}

/// A nonempty query without `&` is a single segment.
pub proof fn query_pairs_single(seg: Seq<u8>)
    requires
        seg.len() > 0,
        forall|i: int| 0 <= i < seg.len() ==> #[trigger] seg[i] != 38,
    ensures
        query_pairs(seg) == seq![segment_pair(seg)],
{
    crate::encoding::find_byte_from_props(seg, 38, seg.len() as int);
}

/// Prepending one `&`-terminated segment prepends one pair.
pub proof fn query_pairs_prepend(seg: Seq<u8>, rest: Seq<u8>)
    requires
        seg.len() > 0,
        forall|i: int| 0 <= i < seg.len() ==> #[trigger] seg[i] != 38,
    ensures
        query_pairs(seg + seq![38u8] + rest) == seq![segment_pair(seg)] + query_pairs(rest),
{
    let whole = seg + seq![38u8] + rest;
    assert forall|j: int| 0 <= j < seg.len() implies whole[j] != 38 by {
        assert(whole[j] == seg[j]);
    }
    assert(whole[seg.len() as int] == 38);
    crate::encoding::find_byte_from_props(whole, 38, seg.len() as int);
    assert(whole.take(seg.len() as int) =~= seg);
    assert(whole.skip(seg.len() as int + 1) =~= rest);
    assert(query_pairs(whole) =~= seq![segment_pair(seg)] + query_pairs(rest));
}

/// The segment `pct(k)=pct(v)` decodes back to the pair `(k, v)`, and holds
/// no `&`.
pub proof fn segment_pair_encoded(k: Seq<u8>, v: Seq<u8>)
    ensures
        segment_pair(pct_encoded(k) + seq![61u8] + pct_encoded(v)) == (k, v),
        (pct_encoded(k) + seq![61u8] + pct_encoded(v)).len() > 0,
        forall|i: int| 0 <= i < (pct_encoded(k) + seq![61u8] + pct_encoded(v)).len()
            ==> #[trigger] (pct_encoded(k) + seq![61u8] + pct_encoded(v))[i] != 38,
{
    let ek = pct_encoded(k);
    let ev = pct_encoded(v);
    let seg = ek + seq![61u8] + ev;
    pct_encoded_no_separators(k);
    pct_encoded_no_separators(v);
    assert forall|j: int| 0 <= j < ek.len() implies seg[j] != 61 by {
        assert(seg[j] == ek[j]);
    }
    assert(seg[ek.len() as int] == 61);
    crate::encoding::find_byte_from_props(seg, 61, ek.len() as int);
    assert(seg.take(ek.len() as int) =~= ek);
    assert(seg.skip(ek.len() as int + 1) =~= ev);
    crate::encoding::pct_decoded_encoded(k);
    crate::encoding::pct_decoded_encoded(v);
    assert forall|i: int| 0 <= i < seg.len() implies #[trigger] seg[i] != 38 by {
        if i < ek.len() {
            assert(seg[i] == ek[i]);
        } else if i == ek.len() {
            assert(seg[i] == 61);
        } else {
            assert(seg[i] == ev[i - ek.len() - 1]);
        }
    }
}

/// Appends one encoded `key=value` segment (with a leading `&` when the
/// buffer is not empty) onto a query under construction.
pub fn push_pair(buf: &mut Vec<u8>, key: &[u8], value: &[u8])
    ensures
        final(buf)@ == old(buf)@
            + (if old(buf)@.len() == 0 { Seq::<u8>::empty() } else { seq![38u8] })
            + pct_encoded(key@) + seq![61u8] + pct_encoded(value@),
{
    let ghost start = buf@;
    if buf.len() > 0 {
        buf.push(38);
    }
    let mut ek = pct_encode_bytes(key);
    buf.append(&mut ek);
    buf.push(61);
    let mut ev = pct_encode_bytes(value);
    buf.append(&mut ev);
    proof {
        assert(buf@ =~= start
            + (if start.len() == 0 { Seq::<u8>::empty() } else { seq![38u8] })
            + pct_encoded(key@) + seq![61u8] + pct_encoded(value@));
    }
}

} // verus!
