//! Encoding of the `.mp4` boxes: big-endian fields, box framing, and the
//! index (`moov`) built from the muxer's sample records.

use vstd::prelude::*;

verus! {

/// A 32-bit field, most significant byte first.
pub open spec fn be32(x: u32) -> Seq<u8> {
    seq![(x >> 24u32) as u8, (x >> 16u32) as u8, (x >> 8u32) as u8, x as u8]
}

/// A 64-bit field, most significant byte first.
pub open spec fn be64(x: u64) -> Seq<u8> {
    be32((x >> 32u64) as u32) + be32(x as u32)
}

/// A run of 32-bit fields.
pub open spec fn words(w: Seq<u32>) -> Seq<u8>
    decreases w.len(),
{
    if w.len() == 0 {
        Seq::empty()
    } else {
        words(w.drop_last()) + be32(w.last())
    }
}

/// A box of type `kind` around `payload`, when its size fits its 32-bit
/// size field.
pub open spec fn boxed_spec(kind: u32, payload: Seq<u8>) -> Option<Seq<u8>> {
    if payload.len() + 8 <= u32::MAX {
        Some(be32((payload.len() + 8) as u32) + be32(kind) + payload)
    } else {
        None
    }
}

/// As `boxed_spec`, for a payload that may be missing.
pub open spec fn boxed_opt_spec(kind: u32, payload: Option<Seq<u8>>) -> Option<Seq<u8>> {
    match payload {
        Some(p) => boxed_spec(kind, p),
        None => None,
    }
}

/// Two encodings one after the other, when both exist.
pub open spec fn cat_spec(a: Option<Seq<u8>>, b: Option<Seq<u8>>) -> Option<Seq<u8>> {
    match (a, b) {
        (Some(x), Some(y)) => Some(x + y),
        _ => None,
    }
}

/// The bytes an optional buffer holds.
pub open spec fn opt_view(v: Option<Vec<u8>>) -> Option<Seq<u8>> {
    match v {
        Some(b) => Some(b@),
        None => None,
    }
}

/// Appends `x` most significant byte first.
pub fn push_u32(out: &mut Vec<u8>, x: u32)
    ensures
        final(out)@ == old(out)@ + be32(x),
{
    out.push((x >> 24u32) as u8);
    out.push((x >> 16u32) as u8);
    out.push((x >> 8u32) as u8);
    out.push(x as u8);
    assert(final(out)@ =~= old(out)@ + be32(x));
}

/// Appends `x` most significant byte first.
pub fn push_u64(out: &mut Vec<u8>, x: u64)
    ensures
        final(out)@ == old(out)@ + be64(x),
{
    push_u32(out, (x >> 32u64) as u32);
    push_u32(out, x as u32);
    assert(final(out)@ =~= old(out)@ + be64(x));
}

/// Appends each of `w` as a 32-bit field.
pub fn push_words(out: &mut Vec<u8>, w: &Vec<u32>)
    ensures
        final(out)@ == old(out)@ + words(w@),
{
    let mut i: usize = 0;
    while i < w.len()
        invariant
            i <= w@.len(),
            out@ == old(out)@ + words(w@.take(i as int)),
        decreases w@.len() - i,
    {
        push_u32(out, w[i]);
        proof {
            assert(w@.take(i + 1).drop_last() =~= w@.take(i as int));
            assert(out@ =~= old(out)@ + words(w@.take(i + 1)));
        }
        i = i + 1;
    }
    assert(w@.take(i as int) =~= w@);
}

/// Frames `payload` as a box of type `kind`; `None` when it is too large.
pub fn boxed(kind: u32, payload: Vec<u8>) -> (r: Option<Vec<u8>>)
    ensures
        opt_view(r) == boxed_spec(kind, payload@),
{
    if payload.len() > 0xffff_fff7usize {
        return None;
    }
    let mut out: Vec<u8> = Vec::new();
    push_u32(&mut out, (payload.len() + 8) as u32);
    push_u32(&mut out, kind);
    let mut p = payload;
    out.append(&mut p);
    assert(out@ =~= be32((payload@.len() + 8) as u32) + be32(kind) + payload@);
    Some(out)
}

/// Frames a payload that may be missing.
pub fn boxed_opt(kind: u32, payload: Option<Vec<u8>>) -> (r: Option<Vec<u8>>)
    ensures
        opt_view(r) == boxed_opt_spec(kind, opt_view(payload)),
{
    match payload {
        Some(p) => boxed(kind, p),
        None => None,
    }
}

/// Joins two encodings that may be missing.
pub fn cat(a: Option<Vec<u8>>, b: Option<Vec<u8>>) -> (r: Option<Vec<u8>>)
    ensures
        opt_view(r) == cat_spec(opt_view(a), opt_view(b)),
{
    match (a, b) {
        (Some(x), Some(y)) => {
            let mut x = x;
            let mut y = y;
            x.append(&mut y);
            Some(x)
        },
        _ => None,
    }
}

/// The encoding of a run of 32-bit fields.
pub fn words_vec(w: &Vec<u32>) -> (r: Vec<u8>)
    ensures
        r@ == words(w@),
{
    let mut out: Vec<u8> = Vec::new();
    push_words(&mut out, w);
    assert(out@ =~= words(w@));
    out
}

/// Two runs of fields encode as the encoding of their concatenation.
pub proof fn lemma_words_concat(a: Seq<u32>, b: Seq<u32>)
    ensures
        words(a + b) == words(a) + words(b),
    decreases b.len(),
{
    if b.len() == 0 {
        assert(a + b =~= a);
        assert(words(b) =~= Seq::<u8>::empty());
        assert(words(a) + words(b) =~= words(a));
    } else {
        lemma_words_concat(a, b.drop_last());
        assert((a + b).drop_last() =~= a + b.drop_last());
        assert((a + b).last() == b.last());
        assert(words(a + b) =~= words(a) + words(b));
    }
}

} // verus!
