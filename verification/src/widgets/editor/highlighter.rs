//! Bookkeeping of the syntax highlighter: which parse snapshots it keeps,
//! which scope ranges a line has, and where error ranges fall on a line.

use vstd::prelude::*;

verus! {

/// What the highlighter is set up with: the colour theme, the syntax key
/// and the ranges that hold errors.
#[derive(Clone, Debug, PartialEq)]
pub struct Settings {
    pub theme: String,
    pub token: String,
    pub errors: Vec<core::ops::Range<usize>>,
}

/// How many lines apart the parse snapshots are.
pub const LINES_PER_SNAPSHOT: usize = 50;

/// What restarting the highlighter at `line` does, given the number of
/// snapshots it holds: how many snapshots it keeps, and the line it resumes
/// from (a copy of the last kept snapshot, or a fresh parse state when none
/// is kept, is pushed after them).
pub open spec fn restart_plan(cache_count: nat, line: nat) -> (nat, nat) {
    let snapshot = line / (LINES_PER_SNAPSHOT as nat);
    if snapshot <= cache_count {
        (snapshot, snapshot * (LINES_PER_SNAPSHOT as nat))
    } else {
        (1, 0)
    }
}

/// How many snapshots to keep and which line to resume from when the
/// highlighter restarts at `line`.
pub fn change_line(cache_count: usize, line: usize) -> (res: (usize, usize))
    ensures
        (res.0 as nat, res.1 as nat) == restart_plan(cache_count as nat, line as nat),
        res.1 <= line,
        res.1 % LINES_PER_SNAPSHOT == 0,
{
    let snapshot = line / LINES_PER_SNAPSHOT;
    if snapshot <= cache_count {
        assert(snapshot * 50 <= line) by (nonlinear_arith)
            requires
                snapshot == line / 50,
        ;
        assert((snapshot * 50) % 50 == 0) by (nonlinear_arith);
        (snapshot, snapshot * LINES_PER_SNAPSHOT)
    } else {
        (1, 0)
    }
}

/// Whether highlighting the current line needs a new snapshot first: the
/// current line lies past the range the snapshots cover.
pub fn needs_snapshot(current_line: usize, cache_count: usize) -> (res: bool)
    ensures
        res == (current_line / LINES_PER_SNAPSHOT >= cache_count),
{
    current_line / LINES_PER_SNAPSHOT >= cache_count
}

/// Where an error range falls on the line numbered `line_end - 1`, as a
/// range of columns: only a range inside `[line_start, line_end]` is shown;
/// it starts at the column past `line_start` (0 when it starts there) and
/// ends at the column past `line_start`, or at the end of the line when it
/// reaches `line_end`.
pub open spec fn error_columns(
    start: nat,
    end: nat,
    line_start: nat,
    line_end: nat,
    line_length: nat,
) -> Option<(nat, nat)> {
    if start >= line_start && end <= line_end {
        let s = if start > line_start {
            (start - line_start) as nat
        } else {
            0
        };
        let e = if end < line_end {
            (end - line_start) as nat
        } else {
            line_length
        };
        Some((s, e))
    } else {
        None
    }
}

/// The columns an error range covers on a line, if it lies on it.
pub fn error_span(
    start: usize,
    end: usize,
    line_start: usize,
    line_end: usize,
    line_length: usize,
) -> (res: Option<(usize, usize)>)
    requires
        start >= line_start && end <= line_end && end < line_end ==> end >= line_start,
    ensures
        match res {
            Some((s, e)) => error_columns(
                start as nat,
                end as nat,
                line_start as nat,
                line_end as nat,
                line_length as nat,
            ) == Some((s as nat, e as nat)),
            None => error_columns(
                start as nat,
                end as nat,
                line_start as nat,
                line_end as nat,
                line_length as nat,
            ) is None,
        },
{
    if start >= line_start && end <= line_end {
        let s = if start > line_start {
            start - line_start
        } else {
            0
        };
        let e = if end < line_end {
            end - line_start
        } else {
            line_length
        };
        Some((s, e))
    } else {
        None
    }
}

/// Walks a line split at the positions where scope operations apply: each
/// step gives the range up to the next operation and the operation that
/// applies at its start (none for the first range).
pub struct ScopeRanges {
    /// The positions of the operations in the line, in order.
    pub offsets: Vec<usize>,
    pub line_length: usize,
    pub index: usize,
    pub last_str_index: usize,
}

impl ScopeRanges {
    /// A walk over a line of `line_length` bytes with operations at
    /// `offsets`.
    pub fn new(offsets: Vec<usize>, line_length: usize) -> (res: Self)
        ensures
            res.offsets == offsets,
            res.line_length == line_length,
            res.index == 0,
            res.last_str_index == 0,
    {
        ScopeRanges { offsets, line_length, index: 0, last_str_index: 0 }
    }

    /// The next range, as its start, its end and the index of the operation
    /// that applies at its start; the walk ends after the range that
    /// reaches the end of the line.
    pub fn next(&mut self) -> (res: Option<(usize, usize, Option<usize>)>)
        requires
            old(self).index < usize::MAX,
        ensures
            old(self).index > old(self).offsets@.len() ==> res is None && *final(self) == *old(
                self,
            ),
            old(self).index <= old(self).offsets@.len() ==> {
                let next_end = if old(self).index == old(self).offsets@.len() {
                    old(self).line_length
                } else {
                    old(self).offsets@[old(self).index as int]
                };
                &&& res == Some(
                    (
                        old(self).last_str_index,
                        next_end,
                        if old(self).index == 0 {
                            None::<usize>
                        } else {
                            Some((old(self).index - 1) as usize)
                        },
                    ),
                )
                &&& final(self).offsets == old(self).offsets
                &&& final(self).line_length == old(self).line_length
                &&& final(self).last_str_index == next_end
                &&& final(self).index == old(self).index + 1
            },
    {
        if self.index > self.offsets.len() {
            return None;
        }
        let next_end = if self.index == self.offsets.len() {
            self.line_length
        } else {
            self.offsets[self.index]
        };
        let start = self.last_str_index;
        self.last_str_index = next_end;
        let op = if self.index == 0 {
            None
        } else {
            Some(self.index - 1)
        };
        self.index += 1;
        Some((start, next_end, op))
    }
}

/// The columns of the error ranges that lie on a line, in the order of
/// the ranges.
pub open spec fn line_error_columns(
    errors: Seq<core::ops::Range<usize>>,
    line_start: nat,
    line_end: nat,
    line_length: nat,
) -> Seq<(nat, nat)>
    decreases errors.len(),
{
    if errors.len() == 0 {
        Seq::empty()
    } else {
        let rest = line_error_columns(errors.drop_last(), line_start, line_end, line_length);
        let r = errors.last();
        match error_columns(r.start as nat, r.end as nat, line_start, line_end, line_length) {
            Some(c) => rest.push(c),
            None => rest,
        }
    }
}

/// The columns of the error ranges that lie on the line from `line_start`
/// to `line_end`, in the order of the ranges.
pub fn error_spans(
    errors: &Vec<core::ops::Range<usize>>,
    line_start: usize,
    line_end: usize,
    line_length: usize,
) -> (res: Vec<(usize, usize)>)
    requires
        forall|i: int|
            0 <= i < errors@.len() ==> {
                let r = #[trigger] errors@[i];
                r.start >= line_start && r.end <= line_end && r.end < line_end ==> r.end
                    >= line_start
            },
    ensures
        res@.len() == line_error_columns(
            errors@,
            line_start as nat,
            line_end as nat,
            line_length as nat,
        ).len(),
        forall|i: int|
            0 <= i < res@.len() ==> (res@[i].0 as nat, res@[i].1 as nat) == #[trigger] line_error_columns(
                errors@,
                line_start as nat,
                line_end as nat,
                line_length as nat,
            )[i],
{
    let mut out: Vec<(usize, usize)> = Vec::new();
    let mut i: usize = 0;
    while i < errors.len()
        invariant
            i <= errors@.len(),
            forall|j: int|
                0 <= j < errors@.len() ==> {
                    let r = #[trigger] errors@[j];
                    r.start >= line_start && r.end <= line_end && r.end < line_end ==> r.end
                        >= line_start
                },
            out@.len() == line_error_columns(
                errors@.take(i as int),
                line_start as nat,
                line_end as nat,
                line_length as nat,
            ).len(),
            forall|j: int|
                0 <= j < out@.len() ==> (out@[j].0 as nat, out@[j].1 as nat) == #[trigger] line_error_columns(
                    errors@.take(i as int),
                    line_start as nat,
                    line_end as nat,
                    line_length as nat,
                )[j],
        decreases errors@.len() - i,
    {
        assert(errors@.take(i + 1).drop_last() =~= errors@.take(i as int));
        assert(errors@.take(i + 1).last() == errors@[i as int]);
        let r = &errors[i];
        if let Some(span) = error_span(r.start, r.end, line_start, line_end, line_length) {
            out.push(span);
        }
        i += 1;
    }
    assert(errors@.take(errors@.len() as int) =~= errors@);
    out
}

/// The weight and slant a highlight asks of the monospace font.
#[derive(Debug, Clone, Copy, PartialEq, Eq, Structural)]
pub struct FontStyle {
    pub bold: bool,
    pub italic: bool,
}

/// The font of a highlight with these style flags: none unless it is
/// bold, italic or underlined; else bold or normal weight, italic or
/// upright.
pub fn font_style(bold: bool, italic: bool, underline: bool) -> (res: Option<FontStyle>)
    ensures
        res == (if bold || italic || underline {
            Some(FontStyle { bold, italic })
        } else {
            None::<FontStyle>
        }),
{
    if bold || italic || underline {
        Some(FontStyle { bold, italic })
    } else {
        None
    }
}

/// Where an error is underlined on a line: an error that spans the whole
/// line is underlined from its first column to its end; one that starts
/// before the line or ends after it is not underlined on it; one inside
/// the line is underlined from its start to its end, counted from the
/// line's start.
pub proof fn lemma_error_underlines(start: nat, end: nat, line_start: nat, line_end: nat, len: nat)
    ensures
        error_columns(line_start, line_end, line_start, line_end, len) == Some((0nat, len)),
        start < line_start ==> error_columns(start, end, line_start, line_end, len) is None,
        end > line_end ==> error_columns(start, end, line_start, line_end, len) is None,
        line_start < start && start <= end < line_end ==> error_columns(
            start,
            end,
            line_start,
            line_end,
            len,
        ) == Some(((start - line_start) as nat, (end - line_start) as nat)),
{
}

/// Restarting the highlighter resumes at a snapshot no later than the line
/// asked for and keeps that many snapshots; asking past the snapshots it
/// holds restarts from the first line with one.
pub proof fn lemma_restart_resumes_at_a_snapshot(cache_count: nat, line: nat)
    ensures
        line / 50 <= cache_count ==> restart_plan(cache_count, line) == (
            line / 50,
            (line / 50) * 50,
        ),
        line / 50 > cache_count ==> restart_plan(cache_count, line) == (1nat, 0nat),
        restart_plan(cache_count, line).1 <= line,
        restart_plan(cache_count, line).1 % 50 == 0,
{
    assert((line / 50) * 50 <= line) by (nonlinear_arith);
    assert(((line / 50) * 50) % 50 == 0) by (nonlinear_arith);
}

/// The error columns of a line follow the errors in order: no errors give
/// none, and one more error adds its columns last when it lies on the
/// line, and nothing otherwise.
pub proof fn lemma_error_columns_in_order(
    errors: Seq<core::ops::Range<usize>>,
    r: core::ops::Range<usize>,
    line_start: nat,
    line_end: nat,
    len: nat,
)
    ensures
        line_error_columns(Seq::empty(), line_start, line_end, len).len() == 0,
        line_error_columns(errors.push(r), line_start, line_end, len) == match error_columns(
            r.start as nat,
            r.end as nat,
            line_start,
            line_end,
            len,
        ) {
            Some(c) => line_error_columns(errors, line_start, line_end, len).push(c),
            None => line_error_columns(errors, line_start, line_end, len),
        },
{
    assert(errors.push(r).drop_last() =~= errors);
}

} // verus!
