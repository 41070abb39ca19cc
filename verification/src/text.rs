//! Text layout: wrapping a run of glyphs into lines bounded by a box.
//!
//! The engine works on glyph advance widths, in the same pixel units as the
//! canvas. Lines break greedily on word boundaries (after a space glyph),
//! falling back to a break between characters when a single word exceeds
//! the line width. When the text needs more lines than the box height
//! allows, the last visible line is truncated so that an ellipsis marker
//! fits at its tail.

use vstd::prelude::*;

verus! {

/// One shaped glyph: its advance width in pixel units, and whether it is a
/// word-separating space.
#[derive(Clone, Copy, PartialEq, Eq, Structural, Debug)]
pub struct Glyph {
    /// Horizontal advance in pixel units.
    pub advance: usize,
    /// True for a word separator.
    pub space: bool,
}

/// One wrapped line: glyphs `start .. end` of the input run, whose
/// advances sum to `width`.
#[derive(Clone, Copy, PartialEq, Eq, Structural, Debug)]
pub struct Line {
    /// Index of the line's first glyph.
    pub start: usize,
    /// Index one past the line's last glyph.
    pub end: usize,
    /// Total advance width of the line's glyphs.
    pub width: usize,
}

/// Total advance width of glyphs `i .. j`.
pub open spec fn advance_sum(s: Seq<Glyph>, i: int, j: int) -> int
    decreases j - i,
{
    if i >= j {
        0
    } else {
        advance_sum(s, i, j - 1) + s[j - 1].advance
    }
}

/// An advance sum is never negative.
pub proof fn lemma_advance_sum_nonneg(s: Seq<Glyph>, i: int, j: int)
    ensures
        0 <= advance_sum(s, i, j),
    decreases j - i,
{
    if i < j {
        lemma_advance_sum_nonneg(s, i, j - 1);
    }
}

/// A line that ends at `end` because more text was coming breaks greedily:
/// some later glyph `jj` is the first that would overflow the line, and
/// only non-space glyphs stand between the break and that glyph (the tail
/// of the word that moved to the next line).
pub open spec fn break_witness(s: Seq<Glyph>, start: int, end: int, jj: int, max_w: int) -> bool {
    &&& end <= jj < s.len()
    &&& advance_sum(s, start, jj) <= max_w
    &&& advance_sum(s, start, jj) + s[jj].advance > max_w
    &&& forall|m: int| end <= m < jj ==> !(#[trigger] s[m]).space
}

/// A line that ends before the end of the run does so greedily: a later
/// glyph is the first that would overflow it, and when the run offers a
/// word boundary inside the line the break sits just after a space.
pub open spec fn greedy_break(s: Seq<Glyph>, start: int, end: int, max_w: int) -> bool {
    &&& exists|jj: int| break_witness(s, start, end, jj, max_w)
    &&& (s[end - 1].space || forall|m: int| start <= m < end ==> !(#[trigger] s[m]).space)
}

/// A wrapped text run: the visible lines, and whether the tail of the text
/// was truncated behind an ellipsis marker.
pub struct TextLayout {
    /// The visible lines, in order, covering a prefix of the glyph run.
    pub lines: Vec<Line>,
    /// True when the text overflowed the box and was truncated.
    pub ellipsized: bool,
}

/// The number of glyphs covered by the layout: the end of its last line.
pub open spec fn covered(lines: Seq<Line>) -> int {
    if lines.len() == 0 {
        0
    } else {
        lines[lines.len() - 1].end as int
    }
}

/// Builds the longest line that starts at glyph `i` and fits in `max_w`,
/// preferring to break after a space. Returns the line's end and width.
#[verifier::loop_isolation(false)]
fn take_line(glyphs: &Vec<Glyph>, i: usize, max_w: usize) -> (r: (usize, usize))
    requires
        i < glyphs@.len(),
        forall|k: int| 0 <= k < glyphs@.len() ==> (#[trigger] glyphs@[k]).advance <= max_w,
    ensures
        i < r.0 <= glyphs@.len(),
        r.1 == advance_sum(glyphs@, i as int, r.0 as int),
        r.1 <= max_w,
        r.0 < glyphs@.len() ==> greedy_break(glyphs@, i as int, r.0 as int, max_w as int),
{
    let n = glyphs.len();
    let mut j: usize = i;
    let mut w: usize = 0;
    let mut brk: usize = 0;
    let mut brk_w: usize = 0;
    let mut has_brk: bool = false;
    while j < n
        invariant
            i <= j <= n,
            n == glyphs@.len(),
            w == advance_sum(glyphs@, i as int, j as int),
            w <= max_w,
            forall|k: int| 0 <= k < glyphs@.len() ==> (#[trigger] glyphs@[k]).advance <= max_w,
            has_brk ==> i < brk <= j && glyphs@[brk - 1].space
                && brk_w == advance_sum(glyphs@, i as int, brk as int) && brk_w <= w,
            has_brk ==> forall|m: int| brk <= m < j ==> !(#[trigger] glyphs@[m]).space,
            !has_brk ==> forall|m: int| i <= m < j ==> !(#[trigger] glyphs@[m]).space,
        decreases n - j,
    {
        let a = glyphs[j].advance;
        if a <= max_w - w {
            w = w + a;
            j = j + 1;
            if glyphs[j - 1].space {
                brk = j;
                brk_w = w;
                has_brk = true;
            }
        } else {
            break;
        }
    }
    if j == n {
        (n, w)
    } else {
        proof {
            lemma_advance_sum_nonneg(glyphs@, i as int, j as int);
        }
        if has_brk {
            assert(break_witness(glyphs@, i as int, brk as int, j as int, max_w as int));
            assert(greedy_break(glyphs@, i as int, brk as int, max_w as int));
            (brk, brk_w)
        } else {
            assert(break_witness(glyphs@, i as int, j as int, j as int, max_w as int));
            assert(greedy_break(glyphs@, i as int, j as int, max_w as int));
            (j, w)
        }
    }
}

/// Lines partition a prefix of a run of `n` glyphs: the first line starts
/// at glyph 0, each line starts where the one before it ends, every line
/// before the last is nonempty, and each line's `width` is the sum of its
/// glyphs' advances.
pub open spec fn lines_wf(lines: Seq<Line>, s: Seq<Glyph>) -> bool {
    &&& forall|k: int| 0 <= k < lines.len()
        ==> (#[trigger] lines[k]).start <= lines[k].end <= s.len()
    &&& forall|k: int| 0 <= k < lines.len() - 1
        ==> (#[trigger] lines[k]).start < lines[k].end
    &&& lines.len() > 0 ==> lines[0].start == 0
    &&& forall|k: int| #![trigger lines[k], lines[k + 1]] 0 <= k < lines.len() - 1
        ==> lines[k].end == lines[k + 1].start
    &&& forall|k: int| 0 <= k < lines.len()
        ==> (#[trigger] lines[k]).width == advance_sum(s, lines[k].start as int, lines[k].end as int)
}

/// Appending the next greedy line to a wrapped prefix keeps the layout
/// well-formed.
proof fn lemma_push_line(prev: Seq<Line>, line: Line, s: Seq<Glyph>, max_w: int)
    requires
        lines_wf(prev, s),
        forall|k: int| 0 <= k < prev.len() ==> (#[trigger] prev[k]).start < prev[k].end,
        forall|k: int| 0 <= k < prev.len() ==> (#[trigger] prev[k]).width <= max_w,
        forall|k: int| 0 <= k < prev.len() && prev[k].end < s.len()
            ==> greedy_break(s, (#[trigger] prev[k]).start as int, prev[k].end as int, max_w),
        line.start == covered(prev),
        line.start < line.end <= s.len(),
        line.width == advance_sum(s, line.start as int, line.end as int),
        line.width <= max_w,
        line.end < s.len()
            ==> greedy_break(s, line.start as int, line.end as int, max_w),
    ensures
        lines_wf(prev.push(line), s),
        forall|k: int| 0 <= k < prev.push(line).len()
            ==> (#[trigger] prev.push(line)[k]).start < prev.push(line)[k].end,
        forall|k: int| 0 <= k < prev.push(line).len()
            ==> (#[trigger] prev.push(line)[k]).width <= max_w,
        forall|k: int| 0 <= k < prev.push(line).len() && prev.push(line)[k].end < s.len()
            ==> greedy_break(s, (#[trigger] prev.push(line)[k]).start as int,
                prev.push(line)[k].end as int, max_w),
        covered(prev.push(line)) == line.end,
{
    let l2 = prev.push(line);
    assert(l2[prev.len() as int] == line);
    assert(forall|k: int| 0 <= k < prev.len() ==> l2[k] == prev[k]);
    assert forall|k: int| 0 <= k < l2.len() implies
        (#[trigger] l2[k]).start <= l2[k].end <= s.len() by {
        if k < prev.len() {
            assert(l2[k] == prev[k]);
        }
    };
    assert forall|k: int| 0 <= k < l2.len() implies
        (#[trigger] l2[k]).start < l2[k].end by {
        if k < prev.len() {
            assert(l2[k] == prev[k]);
        }
    };
    assert forall|k: int| #![trigger l2[k], l2[k + 1]] 0 <= k < l2.len() - 1 implies
        l2[k].end == l2[k + 1].start by {
        assert(l2[k] == prev[k]);
        if k + 1 < prev.len() {
            assert(l2[k + 1] == prev[k + 1]);
        } else {
            assert(l2[k + 1] == line);
            assert(line.start == covered(prev));
        }
    };
    assert(l2[0].start == 0) by {
        if prev.len() > 0 {
            assert(l2[0] == prev[0]);
        }
    };
    assert forall|k: int| 0 <= k < l2.len() implies
        (#[trigger] l2[k]).width == advance_sum(s, l2[k].start as int, l2[k].end as int) by {
        if k < prev.len() {
            assert(l2[k] == prev[k]);
        }
    };
    assert forall|k: int| 0 <= k < l2.len() implies
        (#[trigger] l2[k]).width <= max_w by {
        if k < prev.len() {
            assert(l2[k] == prev[k]);
        }
    };
    assert forall|k: int| 0 <= k < l2.len() && l2[k].end < s.len() implies
        greedy_break(s, (#[trigger] l2[k]).start as int, l2[k].end as int, max_w) by {
        if k < prev.len() {
            assert(l2[k] == prev[k]);
        } else {
            assert(l2[k] == line);
        }
    };
    assert(lines_wf(l2, s));
}

/// Truncates the last line of a wrapped prefix so that an ellipsis marker
/// `ell_w` wide fits at its tail.
#[verifier::loop_isolation(false)]
fn ellipsize_last(lines: &mut Vec<Line>, glyphs: &Vec<Glyph>, max_w: usize, ell_w: usize)
    requires
        ell_w <= max_w,
        lines_wf(old(lines)@, glyphs@),
        forall|k: int| 0 <= k < old(lines)@.len()
            ==> (#[trigger] old(lines)@[k]).width <= max_w,
    ensures
        final(lines)@.len() == old(lines)@.len(),
        lines_wf(final(lines)@, glyphs@),
        forall|k: int| 0 <= k < final(lines)@.len() - 1
            ==> #[trigger] final(lines)@[k] == old(lines)@[k],
        forall|k: int| 0 <= k < final(lines)@.len()
            ==> (#[trigger] final(lines)@[k]).width <= max_w,
        final(lines)@.len() > 0 ==> {
            let l2 = final(lines)@;
            let prev = old(lines)@;
            &&& l2[l2.len() - 1].start == prev[prev.len() - 1].start
            &&& l2[l2.len() - 1].end <= prev[prev.len() - 1].end
            &&& l2[l2.len() - 1].width + ell_w <= max_w
        },
{
    let ghost prev = lines@;
    let last_opt = lines.pop();
    match last_opt {
        Some(mut last) => {
            let ghost start0 = last.start;
            let ghost end0 = last.end;
            while ell_w > max_w - last.width
                invariant
                    last.start == start0,
                    last.start <= last.end <= end0,
                    last.width == advance_sum(glyphs@, last.start as int, last.end as int),
                    last.width <= max_w,
                decreases last.end - last.start,
            {
                proof {
                    lemma_advance_sum_nonneg(glyphs@, last.start as int, last.end as int - 1);
                }
                last.end = last.end - 1;
                last.width = last.width - glyphs[last.end].advance;
            }
            lines.push(last);
            proof {
                let l2 = lines@;
                assert(l2 == prev.drop_last().push(last));
                assert(forall|k: int| 0 <= k < l2.len() - 1 ==> l2[k] == prev[k]);
                assert(l2[l2.len() - 1] == last);
                assert forall|k: int| 0 <= k < l2.len() implies
                    (#[trigger] l2[k]).start <= l2[k].end <= glyphs@.len() by {
                    if k < l2.len() - 1 {
                        assert(l2[k] == prev[k]);
                    }
                };
                assert forall|k: int| 0 <= k < l2.len() - 1 implies
                    (#[trigger] l2[k]).start < l2[k].end by {
                    assert(l2[k] == prev[k]);
                };
                assert forall|k: int| #![trigger l2[k], l2[k + 1]] 0 <= k < l2.len() - 1
                    implies l2[k].end == l2[k + 1].start by {
                    assert(l2[k] == prev[k]);
                    if k + 1 < l2.len() - 1 {
                        assert(l2[k + 1] == prev[k + 1]);
                    } else {
                        assert(l2[k + 1] == last);
                        assert(last.start == start0 == prev[k + 1].start);
                        assert(prev[k].end == prev[k + 1].start);
                    }
                };
                assert(l2[0].start == 0) by {
                    if l2.len() > 1 {
                        assert(l2[0] == prev[0]);
                    } else {
                        assert(last.start == start0 == prev[0].start);
                    }
                };
                assert forall|k: int| 0 <= k < l2.len() implies
                    (#[trigger] l2[k]).width
                        == advance_sum(glyphs@, l2[k].start as int, l2[k].end as int) by {
                    if k < l2.len() - 1 {
                        assert(l2[k] == prev[k]);
                    }
                };
                assert(lines_wf(l2, glyphs@));
                assert forall|k: int| 0 <= k < l2.len() implies
                    (#[trigger] l2[k]).width <= max_w by {
                    if k < l2.len() - 1 {
                        assert(l2[k] == prev[k]);
                    }
                };
            }
        },
        None => {
        },
    }
}

/// Greedily wraps as many glyphs as fit into at most `max_lines` lines of
/// width `max_w`.
#[verifier::loop_isolation(false)]
#[verifier::rlimit(50)]
fn wrap_lines(glyphs: &Vec<Glyph>, max_w: usize, max_lines: usize) -> (lines: Vec<Line>)
    requires
        forall|k: int| 0 <= k < glyphs@.len() ==> (#[trigger] glyphs@[k]).advance <= max_w,
    ensures
        lines_wf(lines@, glyphs@),
        forall|k: int| 0 <= k < lines@.len() ==> (#[trigger] lines@[k]).start < lines@[k].end,
        forall|k: int| 0 <= k < lines@.len() ==> (#[trigger] lines@[k]).width <= max_w,
        forall|k: int| 0 <= k < lines@.len() && lines@[k].end < glyphs@.len()
            ==> greedy_break(glyphs@, (#[trigger] lines@[k]).start as int,
                lines@[k].end as int, max_w as int),
        lines@.len() <= max_lines,
        covered(lines@) <= glyphs@.len(),
        covered(lines@) < glyphs@.len() ==> lines@.len() == max_lines,
{
    let n = glyphs.len();
    let mut lines: Vec<Line> = Vec::new();
    let mut i: usize = 0;
    while i < n && lines.len() < max_lines
        invariant
            i <= n,
            lines@.len() <= max_lines,
            lines_wf(lines@, glyphs@),
            covered(lines@) == i,
            forall|k: int| 0 <= k < lines@.len()
                ==> (#[trigger] lines@[k]).start < lines@[k].end,
            forall|k: int| 0 <= k < lines@.len() ==> (#[trigger] lines@[k]).width <= max_w,
            forall|k: int| 0 <= k < lines@.len() && lines@[k].end < n
                ==> greedy_break(glyphs@, (#[trigger] lines@[k]).start as int,
                    lines@[k].end as int, max_w as int),
        decreases n - i,
    {
        let r = take_line(glyphs, i, max_w);
        let line = Line { start: i, end: r.0, width: r.1 };
        let ghost prev = lines@;
        lines.push(line);
        proof {
            lemma_push_line(prev, line, glyphs@, max_w as int);
            assert(lines@ == prev.push(line));
        }
        i = r.0;
    }
    lines
}

/// Wraps a glyph run into a box `max_w` wide and `max_h` tall, with lines
/// `line_h` tall and an ellipsis marker `ell_w` wide.
///
/// Every line fits in `max_w`. The layout either covers the whole run, or
/// is marked ellipsized, fills every line the box height allows, and
/// leaves room for the ellipsis marker at the tail of its last line.
/// Every line before the last breaks greedily on a word boundary when one
/// is available.
#[verifier::rlimit(50)]
pub fn wrap_text(glyphs: &Vec<Glyph>, max_w: usize, max_h: usize, line_h: usize, ell_w: usize)
    -> (r: TextLayout)
    requires
        1 <= line_h,
        ell_w <= max_w,
        forall|k: int| 0 <= k < glyphs@.len() ==> (#[trigger] glyphs@[k]).advance <= max_w,
    ensures
        lines_wf(r.lines@, glyphs@),
        r.lines@.len() <= max_h as int / line_h as int,
        forall|k: int| 0 <= k < r.lines@.len() ==> (#[trigger] r.lines@[k]).width <= max_w,
        r.ellipsized <==> covered(r.lines@) < glyphs@.len(),
        !r.ellipsized ==> covered(r.lines@) == glyphs@.len(),
        r.ellipsized ==> r.lines@.len() == max_h as int / line_h as int,
        r.ellipsized && r.lines@.len() > 0
            ==> r.lines@[r.lines@.len() - 1].width + ell_w <= max_w,
        forall|k: int| 0 <= k < r.lines@.len() - 1
            ==> greedy_break(glyphs@, (#[trigger] r.lines@[k]).start as int,
                r.lines@[k].end as int, max_w as int),
{
    let n = glyphs.len();
    let max_lines = max_h / line_h;
    let mut lines = wrap_lines(glyphs, max_w, max_lines);
    let cov: usize = if lines.len() == 0 {
        0
    } else {
        lines[lines.len() - 1].end
    };
    proof {
        assert(cov == covered(lines@));
        let l0 = lines@;
        assert forall|k: int| 0 <= k < l0.len() - 1 implies
            greedy_break(glyphs@, (#[trigger] l0[k]).start as int, l0[k].end as int,
                max_w as int) by {
            assert(l0[k].end == l0[k + 1].start);
            assert(l0[k + 1].start < l0[k + 1].end <= n);
        };
    }
    if cov < n {
        let ghost before = lines@;
        ellipsize_last(&mut lines, glyphs, max_w, ell_w);
        proof {
            let l2 = lines@;
            assert forall|k: int| 0 <= k < l2.len() - 1 implies
                greedy_break(glyphs@, (#[trigger] l2[k]).start as int, l2[k].end as int,
                    max_w as int) by {
                assert(l2[k] == before[k]);
                assert(before[k].end == before[k + 1].start);
                assert(before[k + 1].start < before[k + 1].end <= n);
            };
            if l2.len() > 0 {
                assert(covered(l2) <= covered(before));
            }
        }
        TextLayout { lines, ellipsized: true }
    } else {
        TextLayout { lines, ellipsized: false }
    }
}

} // verus!
