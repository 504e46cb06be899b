//! Transcription planning.
//!
//! The engine itself stays with the caller; this module plans how a
//! captured buffer is cut into overlapping chunks and how the per-chunk
//! texts are assembled into the final transcript.

use vstd::prelude::*;
use vstd::string::*;

verus! {

/// How many seconds of audio one chunk holds.
pub open spec fn chunk_seconds() -> int {
    30
}

/// How many seconds adjacent chunks share.
pub open spec fn overlap_seconds() -> int {
    1
}

/// Cut a buffer of `len` samples at the given rate into spans to
/// transcribe one by one. A buffer of at most one chunk is taken whole;
/// a longer one is cut into chunk-sized spans, each starting one overlap
/// before the previous span's end, the last one ending at the buffer's
/// end.
pub fn chunk_spans(len: usize, sample_rate: u32) -> (r: Vec<(usize, usize)>)
    requires
        len >= 1,
        sample_rate >= 1,
        30 * (sample_rate as int) <= usize::MAX as int,
    ensures
        len <= 30 * (sample_rate as int) ==> r@ =~= seq![(0usize, len)],
        r@.len() >= 1,
        r@[0].0 == 0,
        r@.last().1 == len,
        forall|i: int|
            0 <= i < r@.len() ==> (#[trigger] r@[i]).0 < r@[i].1 && r@[i].1 <= len,
        forall|i: int|
            0 <= i < r@.len() - 1 ==> (#[trigger] r@[i]).1 == r@[i].0 + chunk_seconds() * (
            sample_rate as int),
        forall|i: int|
            0 < i < r@.len() ==> (#[trigger] r@[i]).0 == r@[i - 1].1 - overlap_seconds() * (
            sample_rate as int),
{
    let chunk_size: usize = 30 * (sample_rate as usize);
    let overlap: usize = sample_rate as usize;
    let mut r: Vec<(usize, usize)> = Vec::new();
    if len <= chunk_size {
        r.push((0, len));
        return r;
    }
    let mut offset: usize = 0;
    loop
        invariant_except_break
            r@.len() > 0 ==> r@.last().1 == offset + overlap,
            r@.len() > 0 ==> offset + overlap < len,
            r@.len() == 0 ==> offset == 0,
            forall|i: int|
                0 <= i < r@.len() ==> (#[trigger] r@[i]).1 == r@[i].0 + chunk_size,
        invariant
            sample_rate >= 1,
            chunk_size == 30 * (sample_rate as int),
            overlap == sample_rate,
            overlap < chunk_size,
            chunk_size < len,
            offset < len,
            r@.len() > 0 ==> r@[0].0 == 0,
            forall|i: int|
                0 <= i < r@.len() ==> (#[trigger] r@[i]).0 < r@[i].1 && r@[i].1 <= len,
            forall|i: int|
                0 < i < r@.len() ==> (#[trigger] r@[i]).0 == r@[i - 1].1 - overlap,
        ensures
            r@.len() >= 1,
            r@[0].0 == 0,
            r@.last().1 == len,
            forall|i: int|
                0 <= i < r@.len() ==> (#[trigger] r@[i]).0 < r@[i].1 && r@[i].1 <= len,
            forall|i: int|
                0 <= i < r@.len() - 1 ==> (#[trigger] r@[i]).1 == r@[i].0 + chunk_size,
            forall|i: int|
                0 < i < r@.len() ==> (#[trigger] r@[i]).0 == r@[i - 1].1 - overlap,
        decreases len - offset,
    {
        let end = if chunk_size < len - offset {
            offset + chunk_size
        } else {
            len
        };
        r.push((offset, end));
        if end == len {
            break ;
        }
        offset = end - overlap;
    }
    r
}

/// The texts joined with single spaces, in order.
pub open spec fn spec_join_spaced(parts: Seq<Seq<char>>) -> Seq<char>
    decreases parts.len(),
{
    if parts.len() == 0 {
        Seq::<char>::empty()
    } else if parts.len() == 1 {
        parts[0]
    } else {
        spec_join_spaced(parts.drop_last()) + seq![' '] + parts.last()
    }
}

/// Join the per-chunk texts with single spaces.
pub fn join_texts(parts: &Vec<String>) -> (r: String)
    ensures
        r@ == spec_join_spaced(parts.deep_view()),
{
    let mut r = String::new();
    let mut i: usize = 0;
    proof {
        assert(parts.deep_view().subrange(0, 0) =~= Seq::<Seq<char>>::empty());
    }
    while i < parts.len()
        invariant
            0 <= i <= parts@.len(),
            parts.deep_view().len() == parts@.len(),
            r@ == spec_join_spaced(parts.deep_view().subrange(0, i as int)),
        decreases parts@.len() - i,
    {
        if i > 0 {
            r.append(" ");
        }
        r.append(parts[i].as_str());
        proof {
            reveal_strlit(" ");
            assert(" "@ =~= seq![' ']);
            let pre = parts.deep_view().subrange(0, i as int);
            let cur = parts.deep_view().subrange(0, i + 1);
            assert(cur.drop_last() =~= pre);
            assert(cur.last() == parts.deep_view()[i as int]);
            assert(parts.deep_view()[i as int] == parts@[i as int]@);
        }
        i = i + 1;
    }
    proof {
        assert(parts.deep_view().subrange(0, parts@.len() as int) =~= parts.deep_view());
    }
    r
}

} // verus!
