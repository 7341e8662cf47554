//! The greedy line-breaking algorithm over a text run's natural slices,
//! as a mathematical specification, together with the laws it obeys.
//!
//! Slices are processed in order against a remaining-width budget. A slice
//! that fits extends the left range (or, for a leading whitespace slice on
//! a fresh line, is trimmed); the first slice that does not fit ends the
//! scan and determines the right range.

use vstd::prelude::*;
use crate::geometry::MAX_AU;
use crate::range::{Range, range_end};
use crate::text_run::{TextSlice, advance_total, slice_decomposition, is_decomposition,
    is_ws_char, lemma_slice_decomposition, lemma_advance_total_split, lemma_advance_total_bounds,
    lemma_advance_le_range};

verus! {

/// The scan state of the splitting algorithm: the remaining width budget,
/// the left range grown so far, the right range once decided, how many
/// slices have been examined, and whether the scan has stopped early.
pub struct SplitState {
    pub remaining: int,
    pub left_begin: int,
    pub left_length: int,
    pub right: Option<(int, int)>,
    pub count: int,
    pub done: bool,
}

pub open spec fn initial_split_state(max_width: int, range_begin: int) -> SplitState {
    SplitState {
        remaining: max_width,
        left_begin: range_begin,
        left_length: 0,
        right: None,
        count: 0,
        done: false,
    }
}

/// One step of the scan, examining slice `s`.
pub open spec fn split_step(s: TextSlice, adv: Seq<i64>, rend: int, starts_line: bool, st: SplitState) -> SplitState {
    let a = advance_total(adv, s.begin as int, s.begin + s.length);
    if a <= st.remaining {
        if starts_line && st.count == 0 && s.whitespace {
            // Leading trimmable whitespace: move the left range past it.
            SplitState { left_begin: st.left_begin + s.length, count: st.count + 1, ..st }
        } else {
            SplitState {
                remaining: st.remaining - a,
                left_length: st.left_length + s.length,
                count: st.count + 1,
                ..st
            }
        }
    } else {
        // The slice does not fit; it decides the right range and ends the scan.
        let right = if s.whitespace {
            if s.begin + s.length < rend {
                Some((s.begin + s.length, rend - (s.begin + s.length)))
            } else {
                None
            }
        } else {
            Some((s.begin as int, rend - s.begin))
        };
        SplitState { right, count: st.count + 1, done: true, ..st }
    }
}

/// The scan from slice `k` onward.
pub open spec fn split_from(slices: Seq<TextSlice>, adv: Seq<i64>, rend: int, starts_line: bool, k: int, st: SplitState) -> SplitState
    decreases slices.len() - k,
{
    if st.done || k < 0 || k >= slices.len() {
        st
    } else {
        split_from(slices, adv, rend, starts_line, k + 1,
            split_step(slices[k], adv, rend, starts_line, st))
    }
}

/// The final scan state for splitting `range` of a run at `max_width`.
pub open spec fn split_result(chars: Seq<char>, adv: Seq<i64>, range: Range, max_width: int, starts_line: bool) -> SplitState {
    let slices = slice_decomposition(chars, range.begin as int, range_end(range));
    split_from(slices, adv, range_end(range), starts_line, 0,
        initial_split_state(max_width, range.begin as int))
}

/// The split "did fit" unless the very first slice examined already failed
/// to fit, or no left range was produced.
pub open spec fn split_did_fit(st: SplitState) -> bool {
    !(st.count == 1 && st.done) && st.left_length > 0
}

/// Common well-formedness of the inputs to the splitting laws.
pub open spec fn split_inputs_wf(chars: Seq<char>, adv: Seq<i64>) -> bool {
    &&& adv.len() == chars.len()
    &&& chars.len() <= usize::MAX
    &&& forall|k: int| 0 <= k < adv.len() ==> 0 <= #[trigger] adv[k] <= MAX_AU
}

proof fn lemma_split_from_props(slices: Seq<TextSlice>, adv: Seq<i64>, chars: Seq<char>, begin: int, end: int, starts_line: bool, k: int, st: SplitState)
    requires
        split_inputs_wf(chars, adv),
        0 <= begin <= end <= chars.len(),
        is_decomposition(slices, chars, begin, end),
        0 <= k <= slices.len(),
        !st.done,
        st.count == k,
        st.left_length >= 0,
        begin <= st.left_begin,
        st.left_begin + st.left_length == (if k < slices.len() {
            slices[k].begin as int
        } else {
            end
        }),
        forall|i: int| begin <= i < st.left_begin ==> is_ws_char(#[trigger] chars[i]),
        st.right is None,
    ensures
        ({
            let r = split_from(slices, adv, end, starts_line, k, st);
            &&& begin <= r.left_begin
            &&& r.left_length >= 0
            &&& r.left_begin + r.left_length <= end
            &&& (forall|i: int| begin <= i < r.left_begin ==> is_ws_char(#[trigger] chars[i]))
            &&& match r.right {
                Some(rr) => {
                    &&& r.left_begin + r.left_length <= rr.0
                    &&& rr.0 + rr.1 == end
                    &&& 0 < rr.1
                    &&& forall|i: int| r.left_begin + r.left_length <= i < rr.0
                        ==> is_ws_char(#[trigger] chars[i])
                },
                None => forall|i: int| r.left_begin + r.left_length <= i < end
                    ==> is_ws_char(#[trigger] chars[i]),
            }
            &&& (st.count > 0 ==> r.left_begin == st.left_begin)
            &&& r.left_length >= st.left_length
        }),
    decreases slices.len() - k,
{
    if k == slices.len() {
        // Scan complete: the left range reaches the end of the box range.
    } else {
        let s = slices[k];
        let a = advance_total(adv, s.begin as int, s.begin + s.length);
        let st2 = split_step(s, adv, end, starts_line, st);
        if a <= st.remaining {
            if starts_line && st.count == 0 && s.whitespace {
                // count == k == 0, so the left range is still empty and the
                // skipped region is exactly slice 0.
                assert(st.left_begin == begin && st.left_length == 0);
                assert forall|i: int| begin <= i < st2.left_begin implies is_ws_char(
                    #[trigger] chars[i]) by {
                    assert(s.begin <= i < s.begin + s.length);
                }
                lemma_split_from_props(slices, adv, chars, begin, end, starts_line, k + 1, st2);
            } else {
                lemma_split_from_props(slices, adv, chars, begin, end, starts_line, k + 1, st2);
            }
        } else {
            // The scan stops here; the gap between the left range and the
            // right range (or the range end) is the unfitting whitespace
            // slice, if any.
            if s.whitespace {
                assert forall|i: int| st2.left_begin + st2.left_length <= i < s.begin + s.length
                    implies is_ws_char(#[trigger] chars[i]) by {
                    assert(s.begin <= i < s.begin + s.length);
                }
            }
        }
    }
}

proof fn lemma_split_from_all_fit(slices: Seq<TextSlice>, adv: Seq<i64>, chars: Seq<char>, begin: int, end: int, starts_line: bool, k: int, st: SplitState)
    requires
        split_inputs_wf(chars, adv),
        0 <= begin <= end <= chars.len(),
        is_decomposition(slices, chars, begin, end),
        0 <= k <= slices.len(),
        !st.done,
        st.right is None,
        st.remaining >= advance_total(adv,
            if k < slices.len() { slices[k].begin as int } else { end }, end),
    ensures
        ({
            let r = split_from(slices, adv, end, starts_line, k, st);
            &&& !r.done
            &&& r.right is None
        }),
    decreases slices.len() - k,
{
    if k < slices.len() {
        let s = slices[k];
        let send = s.begin + s.length;
        let a = advance_total(adv, s.begin as int, send);
        lemma_advance_total_split(adv, s.begin as int, send, end);
        lemma_advance_total_bounds(adv, s.begin as int, send);
        lemma_advance_total_bounds(adv, send, end);
        assert(a <= st.remaining);
        let st2 = split_step(s, adv, end, starts_line, st);
        assert(if k + 1 < slices.len() {
            slices[k + 1].begin as int
        } else {
            end
        } == send);
        lemma_split_from_all_fit(slices, adv, chars, begin, end, starts_line, k + 1, st2);
    }
}

/// Splitting partitions the box range exactly: the left range, the right
/// range (if any) and the trimmed whitespace in between and around them
/// cover `[range.begin, range.begin + range.length)` in order, with no
/// overlap, and every trimmed position holds a whitespace character.
pub proof fn lemma_split_partitions_range(chars: Seq<char>, adv: Seq<i64>, range: Range, max_width: int, starts_line: bool)
    requires
        split_inputs_wf(chars, adv),
        range.begin + range.length <= chars.len(),
    ensures
        ({
            let st = split_result(chars, adv, range, max_width, starts_line);
            let left_end = st.left_begin + st.left_length;
            &&& range.begin <= st.left_begin
            &&& st.left_length >= 0
            &&& left_end <= range_end(range)
            &&& (forall|i: int| range.begin <= i < st.left_begin
                ==> is_ws_char(#[trigger] chars[i]))
            &&& match st.right {
                Some(rr) => {
                    &&& left_end <= rr.0
                    &&& rr.0 + rr.1 == range_end(range)
                    &&& 0 < rr.1
                    &&& forall|i: int| left_end <= i < rr.0 ==> is_ws_char(#[trigger] chars[i])
                },
                None => forall|i: int| left_end <= i < range_end(range)
                    ==> is_ws_char(#[trigger] chars[i]),
            }
        }),
{
    let begin = range.begin as int;
    let end = range_end(range);
    lemma_slice_decomposition(chars, begin, end);
    let slices = slice_decomposition(chars, begin, end);
    let st0 = initial_split_state(max_width, begin);
    lemma_split_from_props(slices, adv, chars, begin, end, starts_line, 0, st0);
}

/// When the available width is at least the preferred (single-line) width
/// of the non-empty range, the split fits and produces no right range. The
/// one family of inputs excluded: a range whose characters are all
/// whitespace while `starts_line` holds is trimmed away entirely and
/// produces no left box.
pub proof fn lemma_split_fits_when_width_sufficient(chars: Seq<char>, adv: Seq<i64>, range: Range, max_width: int, starts_line: bool)
    requires
        split_inputs_wf(chars, adv),
        range.begin + range.length <= chars.len(),
        range.length > 0,
        max_width >= advance_total(adv, range.begin as int, range_end(range)),
        starts_line ==> exists|i: int| range.begin <= i < range_end(range) && !is_ws_char(
            #[trigger] chars[i]),
    ensures
        ({
            let st = split_result(chars, adv, range, max_width, starts_line);
            &&& split_did_fit(st)
            &&& st.right is None
        }),
{
    let begin = range.begin as int;
    let end = range_end(range);
    lemma_slice_decomposition(chars, begin, end);
    let slices = slice_decomposition(chars, begin, end);
    let st0 = initial_split_state(max_width, begin);
    let st = split_from(slices, adv, end, starts_line, 0, st0);
    lemma_split_from_props(slices, adv, chars, begin, end, starts_line, 0, st0);
    lemma_split_from_all_fit(slices, adv, chars, begin, end, starts_line, 0, st0);
    if starts_line {
        // A non-whitespace character exists, and every position left of the
        // left range and right of it is whitespace, so the left range is
        // non-empty.
        let i = choose|i: int|
            range.begin <= i < range_end(range) && !is_ws_char(#[trigger] chars[i]);
        if st.left_length <= 0 {
            assert(is_ws_char(chars[i]));
        }
    } else {
        // Off a fresh line nothing is trimmed: the first slice fits whole
        // into the budget and the left range keeps everything after it.
        let s = slices[0];
        let send = s.begin + s.length;
        lemma_advance_le_range(adv, begin, s.begin as int, send, end);
        let st1 = split_step(s, adv, end, starts_line, st0);
        assert(split_from(slices, adv, end, starts_line, 0, st0) == split_from(slices, adv, end,
            starts_line, 1, st1));
        lemma_split_from_props(slices, adv, chars, begin, end, starts_line, 1, st1);
    }
}

/// A range that is one single word (no whitespace anywhere) wider than the
/// available width does not fit: no left range is produced and the whole
/// range comes back as the right range.
pub proof fn lemma_split_single_wide_word(chars: Seq<char>, adv: Seq<i64>, range: Range, max_width: int, starts_line: bool)
    requires
        split_inputs_wf(chars, adv),
        range.begin + range.length <= chars.len(),
        range.length > 0,
        forall|i: int| range.begin <= i < range_end(range) ==> !is_ws_char(#[trigger] chars[i]),
        advance_total(adv, range.begin as int, range_end(range)) > max_width,
    ensures
        ({
            let st = split_result(chars, adv, range, max_width, starts_line);
            &&& !split_did_fit(st)
            &&& st.left_length == 0
            &&& st.right == Some((range.begin as int, range.length as int))
        }),
{
    let begin = range.begin as int;
    let end = range_end(range);
    lemma_slice_decomposition(chars, begin, end);
    let slices = slice_decomposition(chars, begin, end);
    // All characters share one whitespace class, so the decomposition is a
    // single slice covering the whole range.
    if slices.len() > 1 {
        assert(slices[0].whitespace != slices[1].whitespace);
        assert(is_ws_char(chars[slices[0].begin as int]) == slices[0].whitespace);
        assert(is_ws_char(chars[slices[1].begin as int]) == slices[1].whitespace);
    }
    assert(slices.len() == 1);
    let s = slices[0];
    assert(s.begin == begin && s.begin + s.length == end);
    assert(!s.whitespace) by {
        assert(is_ws_char(chars[s.begin as int]) == s.whitespace);
    }
    let st0 = initial_split_state(max_width, begin);
    let st1 = split_step(s, adv, end, starts_line, st0);
    assert(split_from(slices, adv, end, starts_line, 1, st1) == st1);
}

/// On a fresh line, a leading whitespace slice is never part of the left
/// range: either it is trimmed (the left range begins after it) or no left
/// range is produced at all.
pub proof fn lemma_split_trims_leading_whitespace(chars: Seq<char>, adv: Seq<i64>, range: Range, max_width: int, starts_line: bool)
    requires
        split_inputs_wf(chars, adv),
        range.begin + range.length <= chars.len(),
        starts_line,
    ensures
        ({
            let st = split_result(chars, adv, range, max_width, starts_line);
            let slices = slice_decomposition(chars, range.begin as int, range_end(range));
            slices.len() > 0 && slices[0].whitespace && st.left_length > 0
                ==> st.left_begin == slices[0].begin + slices[0].length
        }),
{
    let begin = range.begin as int;
    let end = range_end(range);
    lemma_slice_decomposition(chars, begin, end);
    let slices = slice_decomposition(chars, begin, end);
    let st0 = initial_split_state(max_width, begin);
    if slices.len() > 0 && slices[0].whitespace {
        let s = slices[0];
        let a = advance_total(adv, s.begin as int, s.begin + s.length);
        let st1 = split_step(s, adv, end, starts_line, st0);
        assert(split_from(slices, adv, end, starts_line, 0, st0)
            == split_from(slices, adv, end, starts_line, 1, st1));
        if a <= st0.remaining {
            // The leading whitespace is skipped; afterwards the left begin
            // never moves again.
            assert(st1.left_begin == s.begin + s.length);
            assert forall|i: int| begin <= i < st1.left_begin implies is_ws_char(
                #[trigger] chars[i]) by {
                assert(s.begin <= i < s.begin + s.length);
            }
            lemma_split_from_props(slices, adv, chars, begin, end, starts_line, 1, st1);
        } else {
            // The scan stops at once with an empty left range.
            assert(st1.done && st1.left_length == 0);
            assert(split_from(slices, adv, end, starts_line, 1, st1) == st1);
        }
    }
}

} // verus!
