//! Tests for the text run model and the line-breaking algorithm.

use std::rc::Rc;
use layout_core::range::Range;
use layout_core::render_box::{adapt_textbox_with_range, RenderBox, RenderBoxBase, SplitBoxResult};
use layout_core::text_run::TextRun;

fn run_with_uniform_advance(s: &str, adv: i64) -> TextRun {
    let chars: Vec<char> = s.chars().collect();
    let advances = vec![adv; chars.len()];
    TextRun::new(chars, advances, 960, 720)
}

fn text_box(run: TextRun, begin: usize, length: usize) -> layout_core::render_box::TextRenderBox {
    adapt_textbox_with_range(RenderBoxBase::new(0, 0), Rc::new(run), Range::new(begin, length))
}

#[test]
fn natural_slices_partition_words_and_spaces() {
    let run = run_with_uniform_advance("hello world", 60);
    let slices = run.natural_slices(&Range::new(0, 11));
    assert_eq!(slices.len(), 3);
    assert_eq!((slices[0].begin, slices[0].length, slices[0].whitespace), (0, 5, false));
    assert_eq!((slices[1].begin, slices[1].length, slices[1].whitespace), (5, 1, true));
    assert_eq!((slices[2].begin, slices[2].length, slices[2].whitespace), (6, 5, false));
}

#[test]
fn metrics_sum_advances() {
    let run = run_with_uniform_advance("hello world", 60);
    let m = run.metrics_for_range(&Range::new(0, 11));
    assert_eq!(m.advance_width, 11 * 60);
    assert_eq!(m.bounding_box.size.height, 960);
    assert_eq!(m.ascent, 720);
    assert_eq!(run.min_width_for_range(&Range::new(0, 11)), 5 * 60);
    assert_eq!(run.max_line_width_for_range(&Range::new(0, 11)), 11 * 60);
}

#[test]
fn split_hello_world_at_hello_width_trims_the_space() {
    // The range [0,11) of "hello world" split at the advance of "hello"
    // with starts_line set: left [0,5), right [6,5), the space trimmed.
    let run = run_with_uniform_advance("hello world", 60);
    let tb = text_box(run, 0, 11);
    match tb.split_to_width(5 * 60, true) {
        SplitBoxResult::SplitDidFit(Some(left), Some(right)) => {
            match (*left, *right) {
                (RenderBox::Text(l), RenderBox::Text(r)) => {
                    assert_eq!((l.range.begin, l.range.length), (0, 5));
                    assert_eq!((r.range.begin, r.range.length), (6, 5));
                },
                _ => panic!("split produced non-text boxes"),
            }
        },
        _ => panic!("expected a fitting split with both sides"),
    }
}

#[test]
fn split_wide_single_word_does_not_fit() {
    // A single word wider than the budget: no left box, the whole range
    // comes back on the right.
    let run = run_with_uniform_advance("abcdef", 60);
    let tb = text_box(run, 0, 6);
    match tb.split_to_width(100, true) {
        SplitBoxResult::SplitDidNotFit(None, Some(right)) => match *right {
            RenderBox::Text(r) => {
                assert_eq!((r.range.begin, r.range.length), (0, 6));
            },
            _ => panic!("split produced a non-text box"),
        },
        _ => panic!("expected an unfitting split with only a right box"),
    }
}

#[test]
fn split_trims_leading_whitespace_on_a_fresh_line() {
    let run = run_with_uniform_advance("  hi", 60);
    let tb = text_box(run, 0, 4);
    match tb.split_to_width(4 * 60, true) {
        SplitBoxResult::SplitDidFit(Some(left), None) => match *left {
            RenderBox::Text(l) => {
                assert_eq!((l.range.begin, l.range.length), (2, 2));
            },
            _ => panic!("split produced a non-text box"),
        },
        r => panic!("expected a fitting split with a left box, got {:?}", r),
    }
}

#[test]
fn split_keeps_leading_whitespace_mid_line() {
    let run = run_with_uniform_advance(" hi", 60);
    let tb = text_box(run, 0, 3);
    match tb.split_to_width(3 * 60, false) {
        SplitBoxResult::SplitDidFit(Some(left), None) => match *left {
            RenderBox::Text(l) => {
                assert_eq!((l.range.begin, l.range.length), (0, 3));
            },
            _ => panic!("split produced a non-text box"),
        },
        r => panic!("expected a fitting split keeping the space, got {:?}", r),
    }
}

#[test]
fn split_when_everything_fits_returns_no_right_range() {
    let run = run_with_uniform_advance("hello world", 60);
    let tb = text_box(run, 0, 11);
    match tb.split_to_width(11 * 60, false) {
        SplitBoxResult::SplitDidFit(Some(left), None) => match *left {
            RenderBox::Text(l) => {
                assert_eq!((l.range.begin, l.range.length), (0, 11));
            },
            _ => panic!("split produced a non-text box"),
        },
        r => panic!("expected a fitting split covering everything, got {:?}", r),
    }
}

#[test]
fn split_of_empty_range_produces_nothing() {
    let run = run_with_uniform_advance("hello", 60);
    let tb = text_box(run, 0, 0);
    match tb.split_to_width(600, false) {
        SplitBoxResult::SplitDidNotFit(None, None) => {},
        r => panic!("expected an empty unfitting split, got {:?}", r),
    }
}

#[test]
fn split_breaks_words_across_lines() {
    // "aa bb cc" at a budget for one word and the following space.
    let run = run_with_uniform_advance("aa bb cc", 60);
    let tb = text_box(run, 0, 8);
    match tb.split_to_width(3 * 60, false) {
        SplitBoxResult::SplitDidFit(Some(left), Some(right)) => match (*left, *right) {
            (RenderBox::Text(l), RenderBox::Text(r)) => {
                assert_eq!((l.range.begin, l.range.length), (0, 3));
                assert_eq!((r.range.begin, r.range.length), (3, 5));
            },
            _ => panic!("split produced non-text boxes"),
        },
        r => panic!("expected a fitting split at the word boundary, got {:?}", r),
    }
}

#[test]
fn shared_run_is_reference_counted_across_split_boxes() {
    let run = run_with_uniform_advance("one two", 60);
    let tb = text_box(run, 0, 7);
    match tb.split_to_width(3 * 60, false) {
        SplitBoxResult::SplitDidFit(Some(left), Some(right)) => match (*left, *right) {
            (RenderBox::Text(l), RenderBox::Text(r)) => {
                assert!(Rc::ptr_eq(&l.run, &tb.run));
                assert!(Rc::ptr_eq(&r.run, &tb.run));
            },
            _ => panic!("split produced non-text boxes"),
        },
        r => panic!("expected both sides to share the run, got {:?}", r),
    }
}
