//! The stretch of a fragment that an alignment occupies, and how much of it
//! two alignments of one fragment do not share.

use crate::cigar::CigarOp;
use vstd::prelude::*;

verus! {

/// A half-open interval `[start, end)` of query coordinates, as a
/// mathematical value.
pub struct Interval {
    pub start: int,
    pub end: int,
}

impl Interval {
    /// The end does not lie before the start.
    pub open spec fn wf(self) -> bool {
        0 <= self.start <= self.end
    }

    /// The number of positions in the interval.
    pub open spec fn span(self) -> int {
        self.end - self.start
    }

    /// The two intervals share no position.
    pub open spec fn disjoint(self, other: Interval) -> bool {
        self.end <= other.start || other.end <= self.start
    }
}

/// The half-open interval `[start, end)` of query coordinates that the
/// aligned bases of an alignment occupy on its fragment. The counters are
/// wide enough for any sequence of operations that memory can hold.
#[derive(Clone, Copy, Debug, PartialEq, Eq, Structural)]
pub struct Extent {
    pub start: u128,
    pub end: u128,
}

impl View for Extent {
    type V = Interval;

    open spec fn view(&self) -> Interval {
        Interval { start: self.start as int, end: self.end as int }
    }
}

impl Extent {
    /// The end does not lie before the start.
    pub open spec fn wf(self) -> bool {
        self.start <= self.end
    }
}

pub open spec fn lesser(x: int, y: int) -> int {
    if x <= y {
        x
    } else {
        y
    }
}

pub open spec fn greater(x: int, y: int) -> int {
    if x >= y {
        x
    } else {
        y
    }
}

/// `x - y`, or zero where `y` exceeds `x`.
pub open spec fn clamped_sub(x: int, y: int) -> int {
    if x >= y {
        x - y
    } else {
        0
    }
}

/// Whether some operation of the sequence is aligned.
pub open spec fn has_aligned(ops: Seq<CigarOp>) -> bool
    decreases ops.len(),
{
    if ops.len() == 0 {
        false
    } else {
        ops.last().is_aligned() || has_aligned(ops.drop_last())
    }
}

/// The sum of the lengths of the aligned operations.
pub open spec fn aligned_len(ops: Seq<CigarOp>) -> nat
    decreases ops.len(),
{
    if ops.len() == 0 {
        0
    } else if ops.last().is_aligned() {
        aligned_len(ops.drop_last()) + ops.last().length()
    } else {
        aligned_len(ops.drop_last())
    }
}

/// The sum of the lengths of the clips that stand before the first aligned
/// operation.
pub open spec fn lead_clip(ops: Seq<CigarOp>) -> nat
    decreases ops.len(),
{
    if ops.len() == 0 {
        0
    } else if ops.last().is_clip() && !has_aligned(ops.drop_last()) {
        lead_clip(ops.drop_last()) + ops.last().length()
    } else {
        lead_clip(ops.drop_last())
    }
}

/// The interval that oriented operations occupy: it starts behind the
/// leading clips and is as long as the aligned operations together. Clips
/// behind the first aligned operation, deletions, reference skips and pads
/// take no part.
pub open spec fn extent_of(ops: Seq<CigarOp>) -> Interval {
    Interval { start: lead_clip(ops) as int, end: (lead_clip(ops) + aligned_len(ops)) as int }
}

/// The number of positions that two intervals share.
pub open spec fn overlap_of(a: Interval, b: Interval) -> int {
    clamped_sub(lesser(a.end, b.end), greater(a.start, b.start))
}

/// The smaller of the two spans that are left when the shared positions are
/// taken from each interval.
pub open spec fn min_nonoverlap_of(a: Interval, b: Interval) -> int {
    lesser(
        clamped_sub(a.span(), overlap_of(a, b)),
        clamped_sub(b.span(), overlap_of(a, b)),
    )
}

/// How one more operation at the end changes the interval: a clip before
/// anything is aligned moves start and end alike, an aligned operation moves
/// the end only, and nothing else moves either. The end never moves back.
pub proof fn lemma_extent_push(ops: Seq<CigarOp>, op: CigarOp)
    ensures
        extent_of(ops).wf(),
        has_aligned(ops.push(op)) == (has_aligned(ops) || op.is_aligned()),
        op.is_aligned() ==> extent_of(ops.push(op)).start == extent_of(ops).start && extent_of(
            ops.push(op),
        ).end == extent_of(ops).end + op.length(),
        op.is_clip() && !has_aligned(ops) ==> extent_of(ops.push(op)).start == extent_of(ops).start
            + op.length() && extent_of(ops.push(op)).end == extent_of(ops).end + op.length(),
        !op.is_aligned() && !(op.is_clip() && !has_aligned(ops)) ==> extent_of(ops.push(op))
            == extent_of(ops),
        extent_of(ops.push(op)).end >= extent_of(ops).end,
{
    assert(ops.push(op).drop_last() =~= ops);
    assert(ops.push(op).last() == op);
}

/// Computes the interval that oriented operations occupy. An empty
/// sequence occupies `[0, 0)`.
pub fn extent(ops: &Vec<CigarOp>) -> (e: Extent)
    ensures
        e@ == extent_of(ops@),
        e.wf(),
        ops@.len() == 0 ==> e.start == 0 && e.end == 0,
{
    let n: usize = ops.len();
    let mut start: u128 = 0;
    let mut end: u128 = 0;
    let mut started: bool = false;
    let mut i: usize = 0;
    while i < n
        invariant
            n == ops@.len(),
            i <= n,
            start <= end,
            start == lead_clip(ops@.take(i as int)),
            end == lead_clip(ops@.take(i as int)) + aligned_len(ops@.take(i as int)),
            started == has_aligned(ops@.take(i as int)),
            end <= i * 0xFFFF_FFFF,
        decreases n - i,
    {
        let op: CigarOp = ops[i];
        proof {
            assert(ops@.take(i + 1) =~= ops@.take(i as int).push(op));
            lemma_extent_push(ops@.take(i as int), op);
            assert(i * 0xFFFF_FFFF + 0xFFFF_FFFF <= 0xFFFF_FFFF_FFFF_FFFF * 0x1_0000_0000) by (nonlinear_arith)
                requires
                    0 <= i <= 0xFFFF_FFFF_FFFF_FFFF,
            ;
            assert((i + 1) * 0xFFFF_FFFF == i * 0xFFFF_FFFF + 0xFFFF_FFFF) by (nonlinear_arith);
        }
        match op {
            CigarOp::SoftClip(v) | CigarOp::HardClip(v) => {
                if !started {
                    start = start + v as u128;
                    end = end + v as u128;
                }
            },
            CigarOp::Match(v) | CigarOp::Ins(v) | CigarOp::Equal(v) | CigarOp::Diff(v) => {
                started = true;
                end = end + v as u128;
            },
            _ => {},
        }
        i += 1;
    }
    assert(ops@.take(n as int) =~= ops@);
    Extent { start, end }
}

/// The least span that either of two alignments of one fragment has to
/// itself: each span less the positions shared with the other, never below
/// zero, and of the two the smaller.
pub fn min_nonoverlap(a: Extent, b: Extent) -> (unique: u128)
    requires
        a.wf(),
        b.wf(),
    ensures
        unique == min_nonoverlap_of(a@, b@),
        unique <= a@.span(),
        unique <= b@.span(),
        a@.disjoint(b@) ==> unique == lesser(a@.span(), b@.span()),
{
    let low: u128 = if a.start >= b.start {
        a.start
    } else {
        b.start
    };
    let high: u128 = if a.end <= b.end {
        a.end
    } else {
        b.end
    };
    let overlap: u128 = if high >= low {
        high - low
    } else {
        0
    };
    let span_a: u128 = a.end - a.start;
    let span_b: u128 = b.end - b.start;
    let rest_a: u128 = if span_a >= overlap {
        span_a - overlap
    } else {
        0
    };
    let rest_b: u128 = if span_b >= overlap {
        span_b - overlap
    } else {
        0
    };
    if rest_a <= rest_b {
        rest_a
    } else {
        rest_b
    }
}

/// The least unshared span of two alignments given by their oriented
/// operations.
pub fn calculate_min_nonoverlap(a: &Vec<CigarOp>, b: &Vec<CigarOp>) -> (unique: u128)
    ensures
        unique == min_nonoverlap_of(extent_of(a@), extent_of(b@)),
{
    let a_dm: Extent = extent(a);
    let b_dm: Extent = extent(b);
    min_nonoverlap(a_dm, b_dm)
}

/// The least unshared span never exceeds the span of either interval.
pub proof fn lemma_min_nonoverlap_within_spans(a: Interval, b: Interval)
    requires
        a.wf(),
        b.wf(),
    ensures
        0 <= min_nonoverlap_of(a, b) <= a.span(),
        min_nonoverlap_of(a, b) <= b.span(),
{
}

/// Of two intervals that share no position, the least unshared span is the
/// smaller of the two spans.
pub proof fn lemma_min_nonoverlap_disjoint(a: Interval, b: Interval)
    requires
        a.wf(),
        b.wf(),
        a.disjoint(b),
    ensures
        overlap_of(a, b) == 0,
        min_nonoverlap_of(a, b) == lesser(a.span(), b.span()),
{
}

/// The shared positions never outnumber either span, so taking them away
/// never needs the clamp; and the order of the two intervals is immaterial.
pub proof fn lemma_overlap_bounded(a: Interval, b: Interval)
    requires
        a.wf(),
        b.wf(),
    ensures
        0 <= overlap_of(a, b) <= lesser(a.span(), b.span()),
        min_nonoverlap_of(a, b) == lesser(a.span(), b.span()) - overlap_of(a, b),
        min_nonoverlap_of(a, b) == min_nonoverlap_of(b, a),
{
}

} // verus!
