//! The shared, immutable text run consumed by text boxes: a character
//! sequence with one advance-width metric per character, decomposed on
//! demand into natural (non-breakable) sub-slices tagged as whitespace or
//! not.
//!
//! Text shaping is an external collaborator; a run carries the shaped
//! metrics as plain values and this module only aggregates them.

use vstd::prelude::*;
use crate::geometry::{MAX_AU, Rect, Point, Size};
use crate::range::{Range, range_end};

verus! {

/// Bound on the number of characters in one run, chosen so that the total
/// advance of a run always fits comfortably in `i64`.
pub const MAX_TEXT_LEN: usize = 0x100_0000;

/// The whitespace classification used for line breaking.
pub open spec fn is_ws_char(c: char) -> bool {
    c == ' ' || c == '\t' || c == '\n' || c == '\r'
}

/// Executable counterpart of `is_ws_char`.
pub fn char_is_whitespace(c: char) -> (r: bool)
    ensures
        r == is_ws_char(c),
{
    c == ' ' || c == '\t' || c == '\n' || c == '\r'
}

/// One natural (non-breakable) sub-slice of a run: a maximal span of
/// characters of one whitespace class.
#[derive(Clone, Copy, Debug, PartialEq, Eq, Structural)]
pub struct TextSlice {
    pub begin: usize,
    pub length: usize,
    pub whitespace: bool,
}

/// The decomposition of `[begin, end)` of `chars` into natural slices,
/// built character by character from the left.
pub open spec fn slice_decomposition(chars: Seq<char>, begin: int, end: int) -> Seq<TextSlice>
    decreases end - begin,
{
    if begin < 0 || begin >= end {
        Seq::empty()
    } else {
        let rest = slice_decomposition(chars, begin + 1, end);
        let ws = is_ws_char(chars[begin]);
        if rest.len() > 0 && rest[0].whitespace == ws {
            seq![TextSlice { begin: begin as usize, length: (rest[0].length + 1) as usize, whitespace: ws }]
                + rest.skip(1)
        } else {
            seq![TextSlice { begin: begin as usize, length: 1, whitespace: ws }] + rest
        }
    }
}

/// Everything the splitting algorithm relies on about a decomposition:
/// the slices tile `[begin, end)` from left to right, are non-empty and
/// uniform in whitespace class, and adjacent slices alternate class.
pub open spec fn is_decomposition(s: Seq<TextSlice>, chars: Seq<char>, begin: int, end: int) -> bool {
    &&& (s.len() == 0 <==> begin >= end)
    &&& (s.len() > 0 ==> s[0].begin == begin)
    &&& (s.len() > 0 ==> s[s.len() - 1].begin + s[s.len() - 1].length == end)
    &&& (forall|k: int| 0 <= k < s.len() ==> #[trigger] s[k].length >= 1)
    &&& (forall|k: int| 0 <= k < s.len() ==> begin <= #[trigger] s[k].begin
        && s[k].begin + s[k].length <= end)
    &&& (forall|k: int| 0 <= k < s.len() - 1 ==> #[trigger] s[k].begin + s[k].length
        == s[k + 1].begin)
    &&& (forall|k: int, i: int| #![trigger s[k], chars[i]] 0 <= k < s.len()
        && s[k].begin <= i < s[k].begin + s[k].length
        ==> is_ws_char(chars[i]) == s[k].whitespace)
    &&& (forall|k: int| 0 <= k < s.len() - 1 ==> #[trigger] s[k].whitespace != s[k + 1].whitespace)
}

pub proof fn lemma_slice_decomposition(chars: Seq<char>, begin: int, end: int)
    requires
        0 <= begin <= end <= chars.len(),
        end <= usize::MAX,
    ensures
        is_decomposition(slice_decomposition(chars, begin, end), chars, begin, end),
    decreases end - begin,
{
    if begin < end {
        lemma_slice_decomposition(chars, begin + 1, end);
        let rest = slice_decomposition(chars, begin + 1, end);
        let s = slice_decomposition(chars, begin, end);
        let ws = is_ws_char(chars[begin]);
        if rest.len() > 0 && rest[0].whitespace == ws {
            assert(forall|k: int| 1 <= k < s.len() ==> #[trigger] s[k] == rest[k]);
            assert forall|k: int| 0 <= k < s.len() - 1 implies #[trigger] s[k].begin + s[k].length
                == s[k + 1].begin by {
                if k == 0 {
                    assert(rest[0].begin + rest[0].length == rest[1].begin);
                }
            }
            assert forall|k: int, i: int| #![trigger s[k], chars[i]] 0 <= k < s.len()
                && s[k].begin <= i < s[k].begin + s[k].length implies is_ws_char(chars[i])
                == s[k].whitespace by {
                if k == 0 && i > begin {
                    assert(rest[0].begin <= i < rest[0].begin + rest[0].length);
                    assert(is_ws_char(chars[i]) == rest[0].whitespace);
                }
            }
            assert forall|k: int| 0 <= k < s.len() - 1 implies #[trigger] s[k].whitespace
                != s[k + 1].whitespace by {
                assert(rest[k].whitespace != rest[k + 1].whitespace);
            }
            assert(s[s.len() - 1].begin + s[s.len() - 1].length == end);
        } else {
            assert(forall|k: int| 1 <= k < s.len() ==> #[trigger] s[k] == rest[k - 1]);
            assert forall|k: int| 0 <= k < s.len() - 1 implies #[trigger] s[k].begin + s[k].length
                == s[k + 1].begin by {
                if k > 0 {
                    assert(rest[k - 1].begin + rest[k - 1].length == rest[k].begin);
                }
            }
            assert forall|k: int| 0 <= k < s.len() - 1 implies #[trigger] s[k].whitespace
                != s[k + 1].whitespace by {
                if k > 0 {
                    assert(rest[k - 1].whitespace != rest[k].whitespace);
                }
            }
            assert(s[s.len() - 1].begin + s[s.len() - 1].length == end);
        }
    }
}

/// The total advance width of the characters in `[i, j)`.
pub open spec fn advance_total(adv: Seq<i64>, i: int, j: int) -> int
    decreases j - i,
{
    if i >= j {
        0
    } else {
        adv[i] + advance_total(adv, i + 1, j)
    }
}

/// Bounds on a sub-range total when every advance lies in `[0, MAX_AU]`.
pub proof fn lemma_advance_total_bounds(adv: Seq<i64>, i: int, j: int)
    requires
        0 <= i <= j <= adv.len(),
        forall|k: int| 0 <= k < adv.len() ==> 0 <= #[trigger] adv[k] <= MAX_AU,
    ensures
        0 <= advance_total(adv, i, j) <= (j - i) * MAX_AU,
    decreases j - i,
{
    if i < j {
        lemma_advance_total_bounds(adv, i + 1, j);
        assert((j - i) * MAX_AU == (j - i - 1) * MAX_AU + MAX_AU) by (nonlinear_arith);
    }
}

/// Splitting a sub-range at `k` splits its total advance.
pub proof fn lemma_advance_total_split(adv: Seq<i64>, i: int, k: int, j: int)
    requires
        i <= k <= j,
    ensures
        advance_total(adv, i, j) == advance_total(adv, i, k) + advance_total(adv, k, j),
    decreases k - i,
{
    if i < k {
        lemma_advance_total_split(adv, i + 1, k, j);
    }
}

/// Metrics aggregated over a sub-range of a run.
#[derive(Clone, Copy, Debug, PartialEq, Eq, Structural)]
pub struct RunMetrics {
    pub advance_width: i64,
    pub bounding_box: Rect,
    pub ascent: i64,
}

/// An immutable run of shaped text: characters, one advance per character,
/// and the vertical metrics of the font the run was shaped with.
#[derive(Clone, Debug)]
pub struct TextRun {
    pub chars: Vec<char>,
    pub advances: Vec<i64>,
    pub em_height: i64,
    pub ascent: i64,
}

/// The mathematical value of a text run.
#[verifier::ext_equal]
pub struct TextRunView {
    pub chars: Seq<char>,
    pub advances: Seq<i64>,
    pub em_height: int,
    pub ascent: int,
}

impl View for TextRun {
    type V = TextRunView;

    open spec fn view(&self) -> TextRunView {
        TextRunView {
            chars: self.chars@,
            advances: self.advances@,
            em_height: self.em_height as int,
            ascent: self.ascent as int,
        }
    }
}

impl TextRun {
    /// A copy of this run carrying the same characters and metrics.
    pub fn duplicate(&self) -> (r: TextRun)
        ensures
            r@ == self@,
    {
        let chars = self.chars.clone();
        let advances = self.advances.clone();
        proof {
            assert(chars@ =~= self.chars@);
            assert(advances@ =~= self.advances@);
            assert(TextRun { chars, advances, em_height: self.em_height, ascent: self.ascent }@
                =~= self@);
        }
        TextRun { chars, advances, em_height: self.em_height, ascent: self.ascent }
    }

    /// Well-formedness: metrics cover the characters one for one and every
    /// length is bounded.
    pub open spec fn wf(&self) -> bool {
        &&& self.advances@.len() == self.chars@.len()
        &&& self.chars@.len() <= MAX_TEXT_LEN
        &&& forall|k: int| 0 <= k < self.advances@.len() ==> 0 <= #[trigger] self.advances@[k] <= MAX_AU
        &&& 0 <= self.em_height <= MAX_AU
        &&& 0 <= self.ascent <= MAX_AU
    }

    /// Whether `r` is a valid sub-range of this run.
    pub open spec fn range_wf(&self, r: Range) -> bool {
        r.begin + r.length <= self.chars@.len()
    }

    pub fn new(chars: Vec<char>, advances: Vec<i64>, em_height: i64, ascent: i64) -> (r: TextRun)
        requires
            advances@.len() == chars@.len(),
            chars@.len() <= MAX_TEXT_LEN,
            forall|k: int| 0 <= k < advances@.len() ==> 0 <= #[trigger] advances@[k] <= MAX_AU,
            0 <= em_height <= MAX_AU,
            0 <= ascent <= MAX_AU,
        ensures
            r == (TextRun { chars, advances, em_height, ascent }),
            r.wf(),
    {
        TextRun { chars, advances, em_height, ascent }
    }

    pub fn len(&self) -> (r: usize)
        ensures
            r == self.chars@.len(),
    {
        self.chars.len()
    }

    /// The total advance width of the characters in `[begin, end)`.
    pub fn advance_for(&self, begin: usize, end: usize) -> (r: i64)
        requires
            self.wf(),
            begin <= end <= self.chars@.len(),
        ensures
            r == advance_total(self.advances@, begin as int, end as int),
            0 <= r <= (end - begin) * MAX_AU,
    {
        proof {
            lemma_advance_total_bounds(self.advances@, begin as int, end as int);
        }
        let mut acc: i64 = 0;
        let mut idx: usize = begin;
        while idx < end
            invariant
                self.wf(),
                begin <= idx <= end <= self.chars@.len(),
                acc == advance_total(self.advances@, begin as int, idx as int),
                0 <= acc <= (idx - begin) * MAX_AU,
            decreases end - idx,
        {
            proof {
                lemma_advance_total_split(self.advances@, begin as int, idx as int, idx + 1);
                assert(advance_total(self.advances@, idx + 1, idx + 1) == 0);
                assert(advance_total(self.advances@, idx as int, idx + 1)
                    == self.advances@[idx as int]);
                lemma_advance_total_bounds(self.advances@, begin as int, idx + 1);
            }
            acc = acc + self.advances[idx];
            idx = idx + 1;
        }
        acc
    }

    /// The natural (non-breakable) sub-slices covering `range`, in order.
    pub fn natural_slices(&self, range: &Range) -> (r: Vec<TextSlice>)
        requires
            self.wf(),
            self.range_wf(*range),
        ensures
            r@ == slice_decomposition(self.chars@, range.begin as int, range_end(*range)),
            is_decomposition(r@, self.chars@, range.begin as int, range_end(*range)),
    {
        let end: usize = range.begin + range.length;
        let mut pos: usize = end;
        let mut slices: Vec<TextSlice> = Vec::new();
        while pos > range.begin
            invariant
                self.wf(),
                self.range_wf(*range),
                range.begin <= pos <= end,
                end == range_end(*range),
                slices@ == slice_decomposition(self.chars@, pos as int, end as int),
            decreases pos,
        {
            pos = pos - 1;
            let ws = char_is_whitespace(self.chars[pos]);
            proof {
                lemma_slice_decomposition(self.chars@, pos + 1 as int, end as int);
            }
            if slices.len() > 0 && slices[0].whitespace == ws {
                let first = slices[0];
                slices.set(0, TextSlice { begin: pos, length: first.length + 1, whitespace: ws });
                proof {
                    assert(slices@ =~= slice_decomposition(self.chars@, pos as int, end as int));
                }
            } else {
                slices.insert(0, TextSlice { begin: pos, length: 1, whitespace: ws });
                proof {
                    assert(slices@ =~= slice_decomposition(self.chars@, pos as int, end as int));
                }
            }
        }
        proof {
            lemma_slice_decomposition(self.chars@, range.begin as int, end as int);
        }
        slices
    }

    /// Metrics for a sub-range: total advance, a bounding box of that width
    /// and the run's em height, and the run's ascent.
    pub fn metrics_for_range(&self, range: &Range) -> (r: RunMetrics)
        requires
            self.wf(),
            self.range_wf(*range),
        ensures
            r.advance_width == advance_total(self.advances@, range.begin as int, range_end(*range)),
            r.bounding_box == (Rect {
                origin: Point { x: 0, y: 0 },
                size: Size { width: r.advance_width, height: self.em_height },
            }),
            r.ascent == self.ascent,
            0 <= r.advance_width <= range.length * MAX_AU,
    {
        let advance = self.advance_for(range.begin, range.begin + range.length);
        RunMetrics {
            advance_width: advance,
            bounding_box: Rect {
                origin: Point { x: 0, y: 0 },
                size: Size { width: advance, height: self.em_height },
            },
            ascent: self.ascent,
        }
    }

    /// Metrics for one natural slice of this run.
    pub fn metrics_for_slice(&self, slice: &TextSlice) -> (r: RunMetrics)
        requires
            self.wf(),
            slice.begin + slice.length <= self.chars@.len(),
        ensures
            r.advance_width == advance_total(self.advances@, slice.begin as int,
                slice.begin + slice.length),
            0 <= r.advance_width <= slice.length * MAX_AU,
    {
        self.metrics_for_range(&Range { begin: slice.begin, length: slice.length })
    }

    /// The widest single non-breakable (non-whitespace) slice in `range`:
    /// the narrowest width the range can be laid out in.
    pub fn min_width_for_range(&self, range: &Range) -> (r: i64)
        requires
            self.wf(),
            self.range_wf(*range),
        ensures
            r == spec_min_width(self.chars@, self.advances@, range.begin as int, range_end(*range)),
            0 <= r <= range.length * MAX_AU,
    {
        let slices = self.natural_slices(range);
        let ghost decomp = slice_decomposition(self.chars@, range.begin as int, range_end(*range));
        let mut best: i64 = 0;
        let mut k: usize = 0;
        proof {
            lemma_min_width_prefix_bounds(self.chars@, self.advances@, range.begin as int,
                range_end(*range));
        }
        while k < slices.len()
            invariant
                self.wf(),
                self.range_wf(*range),
                slices@ == decomp,
                decomp == slice_decomposition(self.chars@, range.begin as int, range_end(*range)),
                is_decomposition(decomp, self.chars@, range.begin as int, range_end(*range)),
                k <= slices@.len(),
                best == spec_min_width_prefix(self.chars@, self.advances@, decomp, k as int),
                0 <= best <= range.length * MAX_AU,
            decreases slices@.len() - k,
        {
            let s = slices[k];
            if !s.whitespace {
                let a = self.advance_for(s.begin, s.begin + s.length);
                proof {
                    lemma_advance_le_range(self.advances@, range.begin as int, s.begin as int,
                        s.begin + s.length, range_end(*range));
                }
                if a > best {
                    best = a;
                }
            }
            k = k + 1;
        }
        best
    }

    /// The total advance of `range`: the width the range occupies when laid
    /// out on a single unbroken line.
    pub fn max_line_width_for_range(&self, range: &Range) -> (r: i64)
        requires
            self.wf(),
            self.range_wf(*range),
        ensures
            r == advance_total(self.advances@, range.begin as int, range_end(*range)),
            0 <= r <= range.length * MAX_AU,
    {
        self.advance_for(range.begin, range.begin + range.length)
    }
}

/// The maximum over the first `k` slices of the advance of each
/// non-whitespace slice.
pub open spec fn spec_min_width_prefix(chars: Seq<char>, adv: Seq<i64>, s: Seq<TextSlice>, k: int) -> int
    decreases k,
{
    if k <= 0 {
        0
    } else {
        let prev = spec_min_width_prefix(chars, adv, s, k - 1);
        let here = if s[k - 1].whitespace {
            0
        } else {
            advance_total(adv, s[k - 1].begin as int, s[k - 1].begin + s[k - 1].length)
        };
        if here > prev {
            here
        } else {
            prev
        }
    }
}

/// The minimum width of `[begin, end)`: the widest non-whitespace natural
/// slice it contains.
pub open spec fn spec_min_width(chars: Seq<char>, adv: Seq<i64>, begin: int, end: int) -> int {
    let s = slice_decomposition(chars, begin, end);
    spec_min_width_prefix(chars, adv, s, s.len() as int)
}

proof fn lemma_min_width_prefix_bounds(chars: Seq<char>, adv: Seq<i64>, begin: int, end: int)
    requires
        adv.len() == chars.len(),
        0 <= begin <= end <= adv.len(),
        end <= usize::MAX,
        forall|k: int| 0 <= k < adv.len() ==> 0 <= #[trigger] adv[k] <= MAX_AU,
    ensures
        forall|k: int| 0 <= k <= slice_decomposition(chars, begin, end).len()
            ==> 0 <= #[trigger] spec_min_width_prefix(chars, adv, slice_decomposition(chars, begin, end), k)
                <= (end - begin) * MAX_AU,
{
    let s = slice_decomposition(chars, begin, end);
    lemma_slice_decomposition(chars, begin, end);
    assert forall|k: int| 0 <= k <= s.len() implies 0 <= #[trigger] spec_min_width_prefix(chars, adv, s, k)
        <= (end - begin) * MAX_AU by {
        lemma_min_width_prefix_bounds_rec(chars, adv, s, k, begin, end);
    }
}

proof fn lemma_min_width_prefix_bounds_rec(chars: Seq<char>, adv: Seq<i64>, s: Seq<TextSlice>, k: int, begin: int, end: int)
    requires
        0 <= begin <= end <= adv.len(),
        forall|j: int| 0 <= j < adv.len() ==> 0 <= #[trigger] adv[j] <= MAX_AU,
        is_decomposition(s, chars, begin, end),
        0 <= k <= s.len(),
    ensures
        0 <= spec_min_width_prefix(chars, adv, s, k) <= (end - begin) * MAX_AU,
    decreases k,
{
    if k > 0 {
        lemma_min_width_prefix_bounds_rec(chars, adv, s, k - 1, begin, end);
        if !s[k - 1].whitespace {
            lemma_advance_le_range(adv, begin, s[k - 1].begin as int,
                s[k - 1].begin + s[k - 1].length, end);
        }
    }
}

/// The advance of an inner sub-range is at most the advance of the whole
/// range, which is at most `(end - begin) * MAX_AU`.
pub proof fn lemma_advance_le_range(adv: Seq<i64>, begin: int, i: int, j: int, end: int)
    requires
        0 <= begin <= i <= j <= end <= adv.len(),
        forall|k: int| 0 <= k < adv.len() ==> 0 <= #[trigger] adv[k] <= MAX_AU,
    ensures
        0 <= advance_total(adv, i, j) <= advance_total(adv, begin, end),
        advance_total(adv, begin, end) <= (end - begin) * MAX_AU,
{
    lemma_advance_total_split(adv, begin, i, end);
    lemma_advance_total_split(adv, i, j, end);
    lemma_advance_total_bounds(adv, begin, i);
    lemma_advance_total_bounds(adv, i, j);
    lemma_advance_total_bounds(adv, j, end);
    lemma_advance_total_bounds(adv, begin, end);
}

} // verus!
