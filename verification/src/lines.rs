//! Splitting a captured output stream into its nonblank lines.
//!
//! The subprocess's stdout and stderr are captured whole, as raw bytes.
//! Both streams are split on line feeds, and blank lines are dropped;
//! every nonblank line is kept unchanged, in emission order.

use vstd::prelude::*;

verus! {

/// Index of the first line feed at or after `i`, or the length of `bytes`
/// when no line feed follows.
pub open spec fn line_end(bytes: Seq<u8>, i: int) -> int
    decreases bytes.len() - i,
{
    if i < 0 || i >= bytes.len() {
        bytes.len() as int
    } else if bytes[i] == 10u8 {
        i
    } else {
        line_end(bytes, i + 1)
    }
}

pub proof fn lemma_line_end(bytes: Seq<u8>, i: int)
    requires
        0 <= i <= bytes.len(),
    ensures
        i <= line_end(bytes, i) <= bytes.len(),
        line_end(bytes, i) < bytes.len() ==> bytes[line_end(bytes, i)] == 10u8,
        forall|k: int| i <= k < line_end(bytes, i) ==> bytes[k] != 10u8,
    decreases bytes.len() - i,
{
    if i < bytes.len() && bytes[i] != 10u8 {
        lemma_line_end(bytes, i + 1);
    }
}

/// The nonblank lines of `bytes` from position `i` on: maximal runs of
/// bytes free of line feeds, in order.
pub open spec fn lines_from(bytes: Seq<u8>, i: int) -> Seq<Seq<u8>>
    decreases bytes.len() - i,
    via lines_from_decreases
{
    if i < 0 || i >= bytes.len() {
        Seq::empty()
    } else if bytes[i] == 10u8 {
        lines_from(bytes, i + 1)
    } else {
        seq![bytes.subrange(i, line_end(bytes, i))] + lines_from(bytes, line_end(bytes, i))
    }
}

#[via_fn]
proof fn lines_from_decreases(bytes: Seq<u8>, i: int) {
    if 0 <= i < bytes.len() && bytes[i] != 10u8 {
        lemma_line_end(bytes, i);
    }
}

/// All nonblank lines of `bytes`, in emission order.
pub open spec fn split_lines(bytes: Seq<u8>) -> Seq<Seq<u8>> {
    lines_from(bytes, 0)
}

/// Splits a captured stream on line feeds, dropping blank lines and
/// keeping every other line byte-for-byte.
pub fn split_nonblank_lines(bytes: &Vec<u8>) -> (r: Vec<Vec<u8>>)
    ensures
        r.deep_view() == split_lines(bytes@),
{
    let mut r: Vec<Vec<u8>> = Vec::new();
    let mut i: usize = 0;
    while i < bytes.len()
        invariant
            i <= bytes@.len(),
            split_lines(bytes@) == r.deep_view() + lines_from(bytes@, i as int),
        decreases bytes@.len() - i,
    {
        if bytes[i] == 10u8 {
            i = i + 1;
        } else {
            let mut j: usize = i;
            let mut seg: Vec<u8> = Vec::new();
            while j < bytes.len() && bytes[j] != 10u8
                invariant
                    i <= j <= bytes@.len(),
                    line_end(bytes@, i as int) == line_end(bytes@, j as int),
                    seg@ == bytes@.subrange(i as int, j as int),
                decreases bytes@.len() - j,
            {
                seg.push(bytes[j]);
                assert(seg@ == bytes@.subrange(i as int, j + 1 as int));
                j = j + 1;
            }
            proof {
                lemma_line_end(bytes@, j as int);
                assert(line_end(bytes@, j as int) == j);
            }
            let ghost old_r = r.deep_view();
            let ghost seg_snap = seg@;
            r.push(seg);
            proof {
                assert(seg_snap =~= r@.last().deep_view());
                assert(r.deep_view() =~~= old_r.push(seg_snap));
            }
            proof {
                assert(old_r + lines_from(bytes@, i as int) =~= r.deep_view() + lines_from(
                    bytes@,
                    j as int,
                ));
            }
            i = j;
        }
    }
    r
}

} // verus!
