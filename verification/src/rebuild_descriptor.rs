//! Immutable configuration of one rebuild and the segment sequence it
//! induces over the total range.

use vstd::prelude::*;
use vstd::arithmetic::div_mod::{lemma_mod_self_0, lemma_mod_sub_multiples_vanish, lemma_small_mod};
use crate::range::Range;
use crate::range::Within;
use crate::rebuild_error::RebuildError;

verus! {

/// Size in bytes of the largest single transfer the platform's copy
/// buffers support; the default segment size is derived from it.
pub const SEGMENT_SIZE: u64 = 65536;

/// The consecutive segments covering `[start, end)` in ascending
/// order: each of `seg` blocks, except the last, which takes the
/// remainder.
pub open spec fn spec_segments(start: u64, end: u64, seg: u64) -> Seq<Range>
    decreases end - start,
{
    if seg == 0 || start >= end {
        Seq::empty()
    } else if end - start <= seg {
        seq![Range { start, end }]
    } else {
        seq![Range { start, end: (start + seg) as u64 }] + spec_segments(
            (start + seg) as u64,
            end,
            seg,
        )
    }
}

/// Segment coverage: the segment sequence of a non-empty range covers
/// it exactly once, in ascending order, with no gaps or overlaps; every
/// segment but the last holds `seg` blocks, and the last holds
/// `(end - start) % seg` blocks, or `seg` when that remainder is zero.
pub proof fn lemma_segment_coverage(start: u64, end: u64, seg: u64)
    requires
        start < end,
        seg > 0,
    ensures
        ({
            let segs = spec_segments(start, end, seg);
            let n = segs.len() as int;
            let len = end - start;
            &&& n >= 1
            &&& segs[0].start == start
            &&& segs[n - 1].end == end
            &&& forall|i: int| 0 <= i < n ==> (#[trigger] segs[i]).wf()
            &&& forall|i: int|
                0 <= i < n ==> (#[trigger] segs[i]).spec_within(Range { start, end })
            &&& forall|i: int| 0 <= i < n - 1 ==> (#[trigger] segs[i]).end == segs[i + 1].start
            &&& forall|i: int| 0 <= i < n - 1 ==> (#[trigger] segs[i]).spec_len() == seg
            &&& segs[n - 1].spec_len() == (if len % (seg as int) == 0 {
                seg as int
            } else {
                len % (seg as int)
            })
        }),
    decreases end - start,
{
    let segs = spec_segments(start, end, seg);
    let n = segs.len() as int;
    let len = end - start;
    if len <= seg {
        assert(segs =~= seq![Range { start, end }]);
        if len < seg {
            lemma_small_mod(len as nat, seg as nat);
        } else {
            lemma_mod_self_0(seg as int);
        }
    } else {
        let mid = (start + seg) as u64;
        let tail = spec_segments(mid, end, seg);
        lemma_segment_coverage(mid, end, seg);
        assert(segs =~= seq![Range { start, end: mid }] + tail);
        let m = tail.len() as int;
        assert forall|i: int| 0 <= i < n implies (#[trigger] segs[i]).wf() by {
            if i >= 1 {
                assert(segs[i] == tail[i - 1]);
            }
        }
        assert forall|i: int| 0 <= i < n implies (#[trigger] segs[i]).spec_within(
            Range { start, end },
        ) by {
            if i >= 1 {
                assert(segs[i] == tail[i - 1]);
                assert(tail[i - 1].spec_within(Range { start: mid, end }));
            }
        }
        assert forall|i: int| 0 <= i < n - 1 implies (#[trigger] segs[i]).end == segs[i + 1].start
            by {
            if i >= 1 {
                assert(segs[i] == tail[i - 1]);
                assert(segs[i + 1] == tail[i]);
            } else {
                assert(segs[1] == tail[0]);
            }
        }
        assert forall|i: int| 0 <= i < n - 1 implies (#[trigger] segs[i]).spec_len() == seg by {
            if i >= 1 {
                assert(segs[i] == tail[i - 1]);
            }
        }
        assert(segs[n - 1] == tail[m - 1]);
        lemma_mod_sub_multiples_vanish(len as int, seg as int);
        assert((end - mid) % (seg as int) == len % (seg as int));
    }
}

/// Immutable configuration for one rebuild: source and target
/// identities, the total block range, the block size in bytes and the
/// segment granularity in blocks.
#[derive(Clone, Debug)]
pub struct RebuildDescriptor {
    /// URI of the healthy source replica.
    pub src_uri: String,
    /// URI of the target replica being rebuilt.
    pub dst_uri: String,
    /// Total range of blocks to rebuild.
    pub range: Range,
    /// Size in bytes of each block.
    pub block_size: u64,
    /// Granularity of each copy in blocks.
    pub segment_size_blks: u64,
}

impl RebuildDescriptor {
    /// A usable configuration: at least one block to copy, and
    /// non-degenerate block and segment sizes.
    pub open spec fn wf(self) -> bool {
        &&& self.range.wf()
        &&& self.block_size > 0
        &&& self.segment_size_blks > 0
    }

    /// Total number of blocks to rebuild.
    pub open spec fn total_blocks(self) -> int {
        self.range.spec_len()
    }

    /// The segment sequence covering the total range.
    pub open spec fn segments(self) -> Seq<Range> {
        spec_segments(self.range.start, self.range.end, self.segment_size_blks)
    }

    /// Build a descriptor with an explicit segment granularity.
    /// Rejects with `RangeOutOfBounds` exactly the malformed requests:
    /// an empty or reversed range, a zero block size or a zero segment
    /// size.
    pub fn with_segment_size(
        src_uri: String,
        dst_uri: String,
        range: Range,
        block_size: u64,
        segment_size_blks: u64,
    ) -> (r: Result<RebuildDescriptor, RebuildError>)
        ensures
            match r {
                Ok(d) => range.wf() && block_size > 0 && segment_size_blks > 0 && d.wf()
                    && d.src_uri@ == src_uri@ && d.dst_uri@ == dst_uri@ && d.range == range
                    && d.block_size == block_size && d.segment_size_blks == segment_size_blks,
                Err(e) => e == RebuildError::RangeOutOfBounds && (!range.wf() || block_size == 0
                    || segment_size_blks == 0),
            },
    {
        if range.start >= range.end || block_size == 0 || segment_size_blks == 0 {
            return Err(RebuildError::RangeOutOfBounds);
        }
        Ok(RebuildDescriptor { src_uri, dst_uri, range, block_size, segment_size_blks })
    }

    /// Build a descriptor whose segment granularity is derived from
    /// the platform's maximum transfer size, expressed in blocks.
    pub fn new(src_uri: String, dst_uri: String, range: Range, block_size: u64) -> (r: Result<
        RebuildDescriptor,
        RebuildError,
    >)
        ensures
            match r {
                Ok(d) => range.wf() && block_size > 0 && SEGMENT_SIZE / block_size > 0 && d.wf()
                    && d.src_uri@ == src_uri@ && d.dst_uri@ == dst_uri@ && d.range == range
                    && d.block_size == block_size && d.segment_size_blks == SEGMENT_SIZE as int
                    / block_size as int,
                Err(e) => e == RebuildError::RangeOutOfBounds && (!range.wf() || block_size == 0
                    || SEGMENT_SIZE / block_size == 0),
            },
    {
        if block_size == 0 {
            return Err(RebuildError::RangeOutOfBounds);
        }
        let segment_size_blks = SEGMENT_SIZE / block_size;
        Self::with_segment_size(src_uri, dst_uri, range, block_size, segment_size_blks)
    }

    /// The next segment of the lazy segment sequence, recomputed from
    /// the offset cursor: `[cursor, cursor + seg)` clipped to the total
    /// range, or `None` once the cursor has reached the end.
    pub fn next_segment(&self, cursor: u64) -> (r: Option<Range>)
        requires
            self.wf(),
            self.range.start <= cursor <= self.range.end,
        ensures
            match r {
                None => cursor == self.range.end,
                Some(s) => {
                    &&& cursor < self.range.end
                    &&& s.start == cursor
                    &&& s.end == (if cursor + self.segment_size_blks <= self.range.end {
                        cursor + self.segment_size_blks
                    } else {
                        self.range.end as int
                    })
                    &&& s.wf()
                    &&& s.spec_within(self.range)
                    &&& s.spec_len() <= self.segment_size_blks
                },
            },
    {
        if cursor >= self.range.end {
            return None;
        }
        let remaining = self.range.end - cursor;
        let blocks = if remaining <= self.segment_size_blks {
            remaining
        } else {
            self.segment_size_blks
        };
        Some(Range { start: cursor, end: cursor + blocks })
    }
}

/// Segment coverage, stated of a descriptor: the segment sequence a
/// well-formed descriptor produces covers its total range exactly
/// once, in ascending order, with no gaps or overlaps; every segment
/// but the last holds `segment_size_blks` blocks, and the last holds
/// the division remainder, or a full segment when the segment size
/// divides the range evenly.
pub proof fn lemma_descriptor_segment_coverage(d: RebuildDescriptor)
    requires
        d.wf(),
    ensures
        ({
            let segs = d.segments();
            let n = segs.len() as int;
            let len = d.range.spec_len();
            let seg = d.segment_size_blks as int;
            &&& n >= 1
            &&& segs[0].start == d.range.start
            &&& segs[n - 1].end == d.range.end
            &&& forall|i: int| 0 <= i < n ==> (#[trigger] segs[i]).wf()
            &&& forall|i: int| 0 <= i < n ==> (#[trigger] segs[i]).spec_within(d.range)
            &&& forall|i: int| 0 <= i < n - 1 ==> (#[trigger] segs[i]).end == segs[i + 1].start
            &&& forall|i: int| 0 <= i < n - 1 ==> (#[trigger] segs[i]).spec_len() == seg
            &&& segs[n - 1].spec_len() == (if len % seg == 0 {
                seg
            } else {
                len % seg
            })
        }),
{
    lemma_segment_coverage(d.range.start, d.range.end, d.segment_size_blks);
}

} // verus!
