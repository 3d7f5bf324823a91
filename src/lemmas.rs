use vstd::prelude::*;

use crate::extractor::{
    cursor_after_read, cursor_after_reads, info_after_read, info_after_reads, track_lookup,
    SampleInfo, SampleRead,
};

verus! {

/// Once a handle is exhausted, every further read returns false and leaves
/// both the cursor flag and the caller's buffer as they were, whatever the
/// native layer would report.
pub proof fn lemma_exhausted_reads_are_inert(info: SampleInfo, steps: Seq<SampleRead>)
    ensures
        !cursor_after_reads(false, steps),
        info_after_reads(false, info, steps) == info,
    decreases steps.len(),
{
    if steps.len() > 0 {
        assert(!cursor_after_read(false, steps[0]));
        assert(info_after_read(false, info, steps[0]) == info);
        lemma_exhausted_reads_are_inert(info, steps.drop_first());
    }
}

/// A handle whose cursor flag is set keeps it through a run of reads
/// exactly when every native advance in the run reported more samples: the
/// flag stays true until the first read that returns false.
pub proof fn lemma_cursor_holds_while_advancing(steps: Seq<SampleRead>)
    ensures
        cursor_after_reads(true, steps) <==> forall|i: int| 0 <= i < steps.len() ==> #[trigger] steps[i].advanced,
    decreases steps.len(),
{
    if steps.len() > 0 {
        let rest = steps.drop_first();
        lemma_cursor_holds_while_advancing(rest);
        if steps[0].advanced {
            assert forall|i: int| 0 <= i < steps.len() && !(#[trigger] steps[i].advanced) implies
                i > 0 && !rest[i - 1].advanced by {}
        } else {
            lemma_exhausted_reads_are_inert(SampleInfo { write_size: 0, time: 0, flags: 0 }, rest);
        }
    }
}

/// The format of a track is handed out for exactly the indices below the
/// track count, and for none at or beyond it.
pub proof fn lemma_track_format_bounds(index: usize, track_count: usize)
    ensures
        track_lookup(index, track_count) is Some <==> index < track_count,
        track_lookup(index, track_count) matches Some(i) ==> i == index,
        track_lookup(track_count, track_count) is None,
{
}

} // verus!
