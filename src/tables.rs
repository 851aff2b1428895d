//! The sample tables of one track, encoded from the muxer's records. Each
//! sample forms a chunk of its own.

use vstd::prelude::*;
use crate::boxes::{boxed, boxed_spec, opt_view, push_u64, words, words_vec};
use crate::muxer::SampleRecord;

verus! {

pub const STSD: u32 = 0x73747364;
pub const STTS: u32 = 0x73747473;
pub const STSS: u32 = 0x73747373;
pub const STSC: u32 = 0x73747363;
pub const STSZ: u32 = 0x7374737a;
pub const CO64: u32 = 0x636f3634;

/// The size of each sample.
pub open spec fn sizes(s: Seq<SampleRecord>) -> Seq<u32> {
    Seq::new(s.len(), |i: int| s[i].len as u32)
}

/// The file offset of each sample: its offset in the media data shifted by
/// `base`, the position of the media data in the file.
pub open spec fn offsets(s: Seq<SampleRecord>, base: u64) -> Seq<u8>
    decreases s.len(),
{
    if s.len() == 0 {
        Seq::empty()
    } else {
        offsets(s.drop_last(), base) + crate::boxes::be64((base + s.last().offset) as u64)
    }
}

/// The 1-based numbers of the sync samples, in order.
pub open spec fn sync_numbers(s: Seq<SampleRecord>) -> Seq<u32>
    decreases s.len(),
{
    if s.len() == 0 {
        Seq::empty()
    } else if s.last().sync {
        sync_numbers(s.drop_last()).push(s.len() as u32)
    } else {
        sync_numbers(s.drop_last())
    }
}

/// How long sample `i` lasts: up to the next sample, or nothing for the
/// last one.
pub open spec fn delta(s: Seq<SampleRecord>, i: int) -> int {
    if i + 1 < s.len() {
        s[i + 1].timestamp - s[i].timestamp
    } else {
        0
    }
}

/// Every duration fits a 32-bit field; in particular timestamps never go
/// back.
pub open spec fn deltas_fit(s: Seq<SampleRecord>) -> bool {
    forall|i: int| 0 <= i < s.len() ==> 0 <= #[trigger] delta(s, i) <= u32::MAX
}

/// One time-to-sample entry per sample: a count of one and its duration.
pub open spec fn time_entries(s: Seq<SampleRecord>) -> Seq<u32> {
    Seq::new(2 * s.len(), |j: int| if j % 2 == 0 { 1u32 } else { delta(s, j / 2) as u32 })
}

pub open spec fn stsd_spec(entry: Seq<u8>) -> Option<Seq<u8>> {
    boxed_spec(STSD, words(seq![0u32, 1u32]) + entry)
}

pub open spec fn stts_spec(s: Seq<SampleRecord>) -> Option<Seq<u8>> {
    if s.len() <= u32::MAX && deltas_fit(s) {
        boxed_spec(STTS, words(seq![0u32, s.len() as u32] + time_entries(s)))
    } else {
        None
    }
}

pub open spec fn stss_spec(s: Seq<SampleRecord>) -> Option<Seq<u8>> {
    if s.len() <= u32::MAX {
        boxed_spec(
            STSS,
            words(seq![0u32, sync_numbers(s).len() as u32] + sync_numbers(s)),
        )
    } else {
        None
    }
}

pub open spec fn stsc_spec() -> Seq<u8> {
    words(seq![28u32, STSC, 0u32, 1u32, 1u32, 1u32, 1u32])
}

pub open spec fn stsz_spec(s: Seq<SampleRecord>) -> Option<Seq<u8>> {
    if s.len() <= u32::MAX {
        boxed_spec(STSZ, words(seq![0u32, 0u32, s.len() as u32] + sizes(s)))
    } else {
        None
    }
}

pub open spec fn co64_spec(s: Seq<SampleRecord>, base: u64) -> Option<Seq<u8>> {
    if s.len() <= u32::MAX {
        boxed_spec(CO64, words(seq![0u32, s.len() as u32]) + offsets(s, base))
    } else {
        None
    }
}

/// Every length fits 32 bits and every shifted offset fits 64 bits.
pub open spec fn encodable(s: Seq<SampleRecord>, base: u64) -> bool {
    forall|i: int| 0 <= i < s.len() ==> #[trigger] s[i].len <= u32::MAX && base + s[i].offset <= u64::MAX
}

proof fn lemma_sync_numbers_len(s: Seq<SampleRecord>)
    ensures
        sync_numbers(s).len() <= s.len(),
    decreases s.len(),
{
    if s.len() > 0 {
        lemma_sync_numbers_len(s.drop_last());
    }
}

/// The sample description box around one sample entry.
pub fn stsd_box(entry: &Vec<u8>) -> (r: Option<Vec<u8>>)
    ensures
        opt_view(r) == stsd_spec(entry@),
{
    let head = vec![0u32, 1u32];
    assert(head@ =~= seq![0u32, 1u32]);
    let mut p = words_vec(&head);
    let mut e = entry.clone();
    assert(e@ =~= entry@);
    p.append(&mut e);
    boxed(STSD, p)
}

/// The sample-to-chunk box: every chunk holds one sample.
pub fn stsc_box() -> (r: Vec<u8>)
    ensures
        r@ == stsc_spec(),
{
    let w = vec![28u32, STSC, 0u32, 1u32, 1u32, 1u32, 1u32];
    assert(w@ =~= seq![28u32, STSC, 0u32, 1u32, 1u32, 1u32, 1u32]);
    words_vec(&w)
}

/// The sample size box.
pub fn stsz_box(s: &Vec<SampleRecord>) -> (r: Option<Vec<u8>>)
    ensures
        opt_view(r) == stsz_spec(s@),
{
    if s.len() > 0xffff_ffffusize {
        return None;
    }
    let n = s.len() as u32;
    let mut w: Vec<u32> = vec![0u32, 0u32, n];
    let mut i: usize = 0;
    while i < s.len()
        invariant
            i <= s@.len(),
            n == s@.len(),
            w@ =~= seq![0u32, 0u32, n] + Seq::new(i as nat, |k: int| s@[k].len as u32),
        decreases s@.len() - i,
    {
        w.push(s[i].len as u32);
        i = i + 1;
    }
    assert(Seq::new(i as nat, |k: int| s@[k].len as u32) =~= sizes(s@));
    boxed(STSZ, words_vec(&w))
}

/// The 64-bit chunk offset box, for media data starting at file offset
/// `base`.
pub fn co64_box(s: &Vec<SampleRecord>, base: u64) -> (r: Option<Vec<u8>>)
    requires
        encodable(s@, base),
    ensures
        opt_view(r) == co64_spec(s@, base),
{
    if s.len() > 0xffff_ffffusize {
        return None;
    }
    let head = vec![0u32, s.len() as u32];
    assert(head@ =~= seq![0u32, s@.len() as u32]);
    let mut out = words_vec(&head);
    let mut i: usize = 0;
    assert(s@.take(0) =~= Seq::<SampleRecord>::empty());
    while i < s.len()
        invariant
            i <= s@.len(),
            encodable(s@, base),
            s@.len() <= u32::MAX,
            out@ == words(seq![0u32, s@.len() as u32]) + offsets(s@.take(i as int), base),
        decreases s@.len() - i,
    {
        assert(s@[i as int].len <= u32::MAX);
        push_u64(&mut out, base + s[i].offset);
        proof {
            assert(s@.take(i + 1).drop_last() =~= s@.take(i as int));
            assert(s@.take(i + 1).last() == s@[i as int]);
            assert(out@ =~= words(seq![0u32, s@.len() as u32]) + offsets(s@.take(i + 1), base));
        }
        i = i + 1;
    }
    assert(s@.take(i as int) =~= s@);
    boxed(CO64, out)
}

/// The sync sample box.
pub fn stss_box(s: &Vec<SampleRecord>) -> (r: Option<Vec<u8>>)
    ensures
        opt_view(r) == stss_spec(s@),
{
    if s.len() > 0xffff_ffffusize {
        return None;
    }
    let mut nums: Vec<u32> = Vec::new();
    let mut i: usize = 0;
    assert(s@.take(0) =~= Seq::<SampleRecord>::empty());
    while i < s.len()
        invariant
            i <= s@.len(),
            s@.len() <= u32::MAX,
            nums@ == sync_numbers(s@.take(i as int)),
        decreases s@.len() - i,
    {
        proof {
            assert(s@.take(i + 1).drop_last() =~= s@.take(i as int));
            assert(s@.take(i + 1).last() == s@[i as int]);
        }
        if s[i].sync {
            nums.push((i + 1) as u32);
        }
        i = i + 1;
    }
    assert(s@.take(i as int) =~= s@);
    proof {
        lemma_sync_numbers_len(s@);
    }
    let mut w = vec![0u32, nums.len() as u32];
    assert(w@ =~= seq![0u32, nums@.len() as u32]);
    w.append(&mut nums);
    assert(w@ =~= seq![0u32, sync_numbers(s@).len() as u32] + sync_numbers(s@));
    boxed(STSS, words_vec(&w))
}

/// The time-to-sample box; `None` when a duration does not fit.
pub fn stts_box(s: &Vec<SampleRecord>) -> (r: Option<Vec<u8>>)
    ensures
        opt_view(r) == stts_spec(s@),
{
    if s.len() > 0xffff_ffffusize {
        return None;
    }
    let n = s.len();
    let mut w: Vec<u32> = vec![0u32, n as u32];
    let mut i: usize = 0;
    while i < n
        invariant
            i <= n,
            n == s@.len(),
            n <= u32::MAX,
            forall|k: int| 0 <= k < i ==> 0 <= #[trigger] delta(s@, k) <= u32::MAX,
            w@ =~= seq![0u32, n as u32] + Seq::new(
                2 * i as nat,
                |j: int| if j % 2 == 0 { 1u32 } else { delta(s@, j / 2) as u32 },
            ),
        decreases n - i,
    {
        let d: i128 = if i + 1 < n {
            s[i + 1].timestamp as i128 - s[i].timestamp as i128
        } else {
            0
        };
        assert(d == delta(s@, i as int));
        if d < 0 || d > 0xffff_ffffi128 {
            assert(!deltas_fit(s@));
            return None;
        }
        let ghost before = w@;
        w.push(1u32);
        w.push(d as u32);
        proof {
            let f = |j: int| if j % 2 == 0 { 1u32 } else { delta(s@, j / 2) as u32 };
            assert forall|j: int| 0 <= j < 2 * (i + 1) implies #[trigger] Seq::new(
                2 * (i + 1) as nat,
                f,
            )[j] == (Seq::new(2 * i as nat, f).push(1u32).push(d as u32))[j] by {
                if j == 2 * i {
                    assert(j % 2 == 0);
                } else if j == 2 * i + 1 {
                    assert(j % 2 == 1);
                    assert(j / 2 == i);
                }
            }
            assert(Seq::new(2 * (i + 1) as nat, f) =~= Seq::new(2 * i as nat, f).push(1u32).push(
                d as u32,
            ));
        }
        i = i + 1;
    }
    assert(deltas_fit(s@));
    assert(Seq::new(
        2 * n as nat,
        |j: int| if j % 2 == 0 { 1u32 } else { delta(s@, j / 2) as u32 },
    ) =~= time_entries(s@));
    boxed(STTS, words_vec(&w))
}

} // verus!
