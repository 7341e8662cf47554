//! Keyboard input handling and state management for text input controls:
//! the content as lines without trailing newlines, an edit point, and the
//! reaction each key produces.

use vstd::prelude::*;
use vstd::string::StrSliceExecFns;
use vstd::pervasive::VecAdditionalExecFns;
use crate::style::str_eq;

verus! {

broadcast use vstd::string::group_string_axioms;

/// Bound on the number of characters in one line and on the number of
/// lines, so that stepping an index or adding a line stays well inside
/// the machine's integer range.
pub const MAX_CONTENT: usize = 0x1000_0000;

/// A position in the content: a line and a character index within it.
#[derive(Clone, Copy, Debug, PartialEq, Eq, Structural)]
pub struct TextPoint {
    pub line: usize,
    pub index: usize,
}

impl Default for TextPoint {
    /// The origin of the content.
    fn default() -> (r: TextPoint)
        ensures
            r == (TextPoint { line: 0, index: 0 }),
    {
        TextPoint { line: 0, index: 0 }
    }
}

/// What the caller should do in response to a key.
#[derive(Clone, Copy, Debug, PartialEq, Eq, Structural)]
pub enum KeyReaction {
    TriggerDefaultAction,
    DispatchInput,
    Nothing,
}

/// A text input control: its content split across lines (without trailing
/// newlines), the current edit point, the selection, and whether the
/// control accepts multiple lines.
#[derive(Clone, Debug)]
pub struct TextInput {
    pub lines: Vec<String>,
    pub edit_point: TextPoint,
    pub selection: Option<(TextPoint, TextPoint)>,
    pub multiline: bool,
}

/// The mathematical value of a text input control.
#[verifier::ext_equal]
pub struct TextInputView {
    pub lines: Seq<Seq<char>>,
    pub line: int,
    pub index: int,
    pub multiline: bool,
}

impl View for TextInput {
    type V = TextInputView;

    open spec fn view(&self) -> TextInputView {
        TextInputView {
            lines: self.lines@.map_values(|s: String| s@),
            line: self.edit_point.line as int,
            index: self.edit_point.index as int,
            multiline: self.multiline,
        }
    }
}

impl TextInputView {
    /// At least one line, the edit point on a line, its index at most the
    /// line's length, and exactly one line unless multiline.
    pub open spec fn wf(self) -> bool {
        &&& self.lines.len() > 0
        &&& self.lines.len() <= MAX_CONTENT
        &&& 0 <= self.line < self.lines.len()
        &&& 0 <= self.index <= self.lines[self.line].len()
        &&& (forall|i: int| 0 <= i < self.lines.len() ==> (#[trigger] self.lines[i]).len()
            <= MAX_CONTENT)
        &&& (!self.multiline ==> self.lines.len() == 1)
    }

    pub open spec fn current_line(self) -> Seq<char> {
        self.lines[self.line]
    }
}

/// The content after inserting `ch` at the edit point and stepping past it.
pub open spec fn spec_insert_char(v: TextInputView, ch: char) -> TextInputView {
    let line = v.current_line();
    let new_line = line.subrange(0, v.index) + seq![ch] + line.subrange(v.index, line.len() as int);
    TextInputView { lines: v.lines.update(v.line, new_line), index: v.index + 1, ..v }
}

/// The content after deleting one character at the edit point: the one to
/// its right when `forward`, else the one to its left (stepping back). A
/// deletion that would cross a line boundary changes nothing.
pub open spec fn spec_delete_char(v: TextInputView, forward: bool) -> TextInputView {
    let line = v.current_line();
    if forward {
        if v.index + 1 > line.len() {
            v
        } else {
            let new_line = line.subrange(0, v.index) + line.subrange(v.index + 1,
                line.len() as int);
            TextInputView { lines: v.lines.update(v.line, new_line), ..v }
        }
    } else {
        if v.index == 0 {
            v
        } else {
            let new_line = line.subrange(0, v.index - 1) + line.subrange(v.index,
                line.len() as int);
            TextInputView { lines: v.lines.update(v.line, new_line), index: v.index - 1, ..v }
        }
    }
}

/// The edit point after a vertical move: clamped to the content's lines,
/// the index clamped to the landing line. Single-line controls ignore
/// vertical moves.
pub open spec fn spec_adjust_vertical(v: TextInputView, adjust: int) -> TextInputView {
    if !v.multiline {
        v
    } else {
        let target = v.line + adjust;
        let new_line = if target < 0 {
            0
        } else if target >= v.lines.len() {
            v.lines.len() - 1
        } else {
            target
        };
        let new_index = if v.index <= v.lines[new_line].len() {
            v.index
        } else {
            v.lines[new_line].len() as int
        };
        TextInputView { line: new_line, index: new_index, ..v }
    }
}

/// The edit point after a horizontal move by one step: left steps at a
/// line start climb to the end of the previous line, right steps at a line
/// end descend to the start of the next; the content's ends absorb the
/// rest.
pub open spec fn spec_step_left(v: TextInputView) -> TextInputView {
    if v.index > 0 {
        TextInputView { index: v.index - 1, ..v }
    } else if v.line > 0 {
        TextInputView { line: v.line - 1, index: v.lines[v.line - 1].len() as int, ..v }
    } else {
        v
    }
}

pub open spec fn spec_step_right(v: TextInputView) -> TextInputView {
    if v.index < v.current_line().len() {
        TextInputView { index: v.index + 1, ..v }
    } else if v.line + 1 < v.lines.len() {
        TextInputView { line: v.line + 1, index: 0, ..v }
    } else {
        v
    }
}

/// The edit point after a horizontal move by `adjust` characters, a line
/// break counting as one character.
pub open spec fn spec_adjust_horizontal(v: TextInputView, adjust: int) -> TextInputView
    decreases
            (if adjust < 0 {
                -adjust
            } else {
                adjust
            }),
{
    if adjust < 0 {
        spec_adjust_horizontal(spec_step_left(v), adjust + 1)
    } else if adjust > 0 {
        spec_adjust_horizontal(spec_step_right(v), adjust - 1)
    } else {
        v
    }
}

/// The content after a line break at the edit point: the current line is
/// cut at the index, the remainder becomes the next line, and the edit
/// point stays put (at the cut line's end).
pub open spec fn spec_handle_return(v: TextInputView) -> TextInputView {
    let line = v.current_line();
    let prefix = line.subrange(0, v.index);
    let suffix = line.subrange(v.index, line.len() as int);
    TextInputView { lines: v.lines.update(v.line, prefix).insert(v.line + 1, suffix), ..v }
}

/// The lines joined with newlines: the control's content as one string.
pub open spec fn spec_joined_content(lines: Seq<Seq<char>>, count: int) -> Seq<char>
    decreases count,
{
    if count <= 0 {
        Seq::empty()
    } else if count == 1 {
        lines[0]
    } else {
        spec_joined_content(lines, count - 1) + seq!['\n'] + lines[count - 1]
    }
}

/// A string split at newlines, none of the pieces keeping one.
pub open spec fn spec_split_lines(s: Seq<char>) -> Seq<Seq<char>>
    decreases s.len(),
{
    if s.len() == 0 {
        seq![Seq::empty()]
    } else {
        let rest = spec_split_lines(s.drop_last());
        if s.last() == '\n' {
            rest.push(Seq::empty())
        } else {
            rest.update(rest.len() - 1, rest.last().push(s.last()))
        }
    }
}

proof fn lemma_split_lines_nonempty(s: Seq<char>)
    ensures
        spec_split_lines(s).len() > 0,
    decreases s.len(),
{
    if s.len() > 0 {
        lemma_split_lines_nonempty(s.drop_last());
    }
}

/// Splitting cannot produce more pieces than characters plus one, nor a
/// piece longer than the whole.
proof fn lemma_split_lines_bounds(s: Seq<char>)
    ensures
        1 <= spec_split_lines(s).len() <= s.len() + 1,
        forall|i: int| 0 <= i < spec_split_lines(s).len() ==> (#[trigger] spec_split_lines(
            s)[i]).len() <= s.len(),
    decreases s.len(),
{
    if s.len() > 0 {
        lemma_split_lines_bounds(s.drop_last());
    }
}

/// Joining only reads the lines it joins: lists that agree on their first
/// `count` lines join alike.
proof fn lemma_joined_content_prefix(a: Seq<Seq<char>>, b: Seq<Seq<char>>, count: int)
    requires
        0 <= count <= a.len(),
        count <= b.len(),
        forall|i: int| 0 <= i < count ==> a[i] == b[i],
    ensures
        spec_joined_content(a, count) == spec_joined_content(b, count),
    decreases count,
{
    if count > 1 {
        lemma_joined_content_prefix(a, b, count - 1);
    }
}

/// Splitting a string at newlines and joining the lines with newlines
/// yields the string again: a control's content survives a set/get round
/// trip unchanged.
pub proof fn lemma_content_round_trip(s: Seq<char>)
    ensures
        spec_joined_content(spec_split_lines(s), spec_split_lines(s).len() as int) == s,
    decreases s.len(),
{
    if s.len() == 0 {
        assert(spec_joined_content(spec_split_lines(s), 1) =~= s);
    } else {
        let t = s.drop_last();
        lemma_content_round_trip(t);
        lemma_split_lines_nonempty(t);
        let rest = spec_split_lines(t);
        let n = rest.len() as int;
        if s.last() == '\n' {
            let lines = rest.push(Seq::empty());
            lemma_joined_content_prefix(lines, rest, n);
            assert(spec_joined_content(lines, n + 1) =~= t + seq!['\n']);
            assert(t + seq!['\n'] =~= s);
        } else {
            let lines = rest.update(n - 1, rest.last().push(s.last()));
            if n == 1 {
                assert(spec_joined_content(lines, 1) =~= s);
            } else {
                lemma_joined_content_prefix(lines, rest, n - 1);
                assert(spec_joined_content(lines, n) == spec_joined_content(lines, n - 1)
                    + seq!['\n'] + lines[n - 1]);
                assert(t == spec_joined_content(rest, n - 1) + seq!['\n'] + rest[n - 1]);
                assert(s =~= t.push(s.last()));
                assert(lines[n - 1] == rest[n - 1].push(s.last()));
                assert(spec_joined_content(lines, n - 1) + seq!['\n'] + lines[n - 1] =~= s);
            }
        }
    }
}

/// Relies on `String::push`: appends exactly the given character.
#[verifier::external_body]
fn push_char(s: &mut String, c: char)
    ensures
        final(s)@ == old(s)@.push(c),
{
    s.push(c);
}

impl TextInput {
    /// A control with the given content; the edit point starts at the
    /// origin.
    pub fn new(multiline: bool, initial: String) -> (r: TextInput)
        requires
            initial@.len() < MAX_CONTENT,
        ensures
            r@.wf(),
            r@.multiline == multiline,
            r@.lines == if multiline {
                spec_split_lines(initial@)
            } else {
                seq![initial@]
            },
            r@.line == 0,
            r@.index == 0,
    {
        let mut i = TextInput {
            lines: Vec::new(),
            edit_point: TextPoint { line: 0, index: 0 },
            selection: None,
            multiline,
        };
        i.lines.push(String::new());
        proof {
            assert(i@.lines =~= seq![Seq::<char>::empty()]);
        }
        i.set_content(initial);
        i
    }

    fn get_current_line(&self) -> (r: &String)
        requires
            self@.wf(),
        ensures
            r@ == self@.current_line(),
    {
        &self.lines[self.edit_point.line]
    }

    fn current_line_length(&self) -> (r: usize)
        requires
            self@.wf(),
        ensures
            r == self@.current_line().len(),
    {
        self.lines[self.edit_point.line].as_str().unicode_len()
    }

    /// Inserts a character at the edit point.
    fn insert_char(&mut self, ch: char)
        requires
            old(self)@.wf(),
            old(self)@.current_line().len() < MAX_CONTENT,
        ensures
            final(self)@ == spec_insert_char(old(self)@, ch),
            final(self)@.wf(),
    {
        let idx = self.edit_point.index;
        let len = self.current_line_length();
        let new_line = {
            let line = self.get_current_line();
            let prefix = line.as_str().substring_char(0, idx);
            let suffix = line.as_str().substring_char(idx, len);
            let mut new_line = prefix.to_owned();
            push_char(&mut new_line, ch);
            new_line.append(suffix);
            new_line
        };
        self.lines.set(self.edit_point.line, new_line);
        self.edit_point.index = idx + 1;
        proof {
            assert(self@.lines =~~= spec_insert_char(old(self)@, ch).lines);
            assert(self@ =~~= spec_insert_char(old(self)@, ch));
        }
    }

    /// Deletes a character beside the edit point; a deletion that would
    /// cross a line boundary changes nothing.
    fn delete_char(&mut self, forward: bool)
        requires
            old(self)@.wf(),
        ensures
            final(self)@ == spec_delete_char(old(self)@, forward),
            final(self)@.wf(),
    {
        let idx = self.edit_point.index;
        let len = self.current_line_length();
        let (prefix_end, suffix_start) = if forward {
            if idx >= len {
                proof {
                    assert(self@ =~~= spec_delete_char(old(self)@, forward));
                }
                return;
            }
            (idx, idx + 1)
        } else {
            if idx == 0 {
                proof {
                    assert(self@ =~~= spec_delete_char(old(self)@, forward));
                }
                return;
            }
            (idx - 1, idx)
        };
        let new_line = {
            let line = self.get_current_line();
            let prefix = line.as_str().substring_char(0, prefix_end);
            let suffix = line.as_str().substring_char(suffix_start, len);
            let mut new_line = prefix.to_owned();
            new_line.append(suffix);
            new_line
        };
        self.lines.set(self.edit_point.line, new_line);
        if !forward {
            self.edit_point.index = idx - 1;
        }
        proof {
            assert(self@.lines =~~= spec_delete_char(old(self)@, forward).lines);
            assert(self@ =~~= spec_delete_char(old(self)@, forward));
        }
    }

    /// Moves the edit point up or down by `adjust` lines, clamped to the
    /// content; single-line controls ignore the move.
    fn adjust_vertical(&mut self, adjust: i64)
        requires
            old(self)@.wf(),
        ensures
            final(self)@ == spec_adjust_vertical(old(self)@, adjust as int),
            final(self)@.wf(),
    {
        if !self.multiline {
            return;
        }
        let nlines = self.lines.len();
        let cur: i64 = self.edit_point.line as i64;
        let target: i64 = if adjust > nlines as i64 {
            cur + nlines as i64
        } else if adjust < -(nlines as i64) {
            cur - nlines as i64
        } else {
            cur + adjust
        };
        let ghost true_target = old(self)@.line + adjust;
        let new_line: usize = if target < 0 {
            0
        } else if target >= nlines as i64 {
            nlines - 1
        } else {
            target as usize
        };
        proof {
            assert(new_line as int == (if true_target < 0 {
                0int
            } else if true_target >= old(self)@.lines.len() {
                old(self)@.lines.len() - 1
            } else {
                true_target
            }));
        }
        self.edit_point.line = new_line;
        let landing_len = self.lines[new_line].as_str().unicode_len();
        if self.edit_point.index > landing_len {
            self.edit_point.index = landing_len;
        }
        proof {
            assert(self@ =~= spec_adjust_vertical(old(self)@, adjust as int));
        }
    }

    /// Moves the edit point left or right by `adjust` characters, a line
    /// break counting as one character, stopping at the content's ends.
    fn adjust_horizontal(&mut self, adjust: i64)
        requires
            old(self)@.wf(),
        ensures
            final(self)@ == spec_adjust_horizontal(old(self)@, adjust as int),
            final(self)@.wf(),
    {
        let mut n: i64 = adjust;
        if adjust < 0 {
            while n < 0
                invariant
                    self@.wf(),
                    self@.lines == old(self)@.lines,
                    self@.multiline == old(self)@.multiline,
                    n <= 0,
                    spec_adjust_horizontal(old(self)@, adjust as int) == spec_adjust_horizontal(
                        self@, n as int),
                decreases -n,
            {
                if self.edit_point.index > 0 {
                    self.edit_point.index = self.edit_point.index - 1;
                } else if self.edit_point.line > 0 {
                    self.edit_point.line = self.edit_point.line - 1;
                    self.edit_point.index = self.lines[
                        self.edit_point.line].as_str().unicode_len();
                } else {
                    // Already at the content's start: the remaining steps
                    // are absorbed.
                    proof {
                        lemma_adjust_horizontal_stuck_left(self@, n as int);
                    }
                    return;
                }
                n = n + 1;
            }
        } else {
            while n > 0
                invariant
                    self@.wf(),
                    self@.lines == old(self)@.lines,
                    self@.multiline == old(self)@.multiline,
                    n >= 0,
                    spec_adjust_horizontal(old(self)@, adjust as int) == spec_adjust_horizontal(
                        self@, n as int),
                decreases n,
            {
                let len = self.current_line_length();
                if self.edit_point.index < len {
                    self.edit_point.index = self.edit_point.index + 1;
                } else if self.edit_point.line + 1 < self.lines.len() {
                    self.edit_point.line = self.edit_point.line + 1;
                    self.edit_point.index = 0;
                } else {
                    // Already at the content's end.
                    proof {
                        lemma_adjust_horizontal_stuck_right(self@, n as int);
                    }
                    return;
                }
                n = n - 1;
            }
        }
    }

    /// Handles the Enter key: a line break at the edit point for multiline
    /// controls, the default action otherwise.
    fn handle_return(&mut self) -> (r: KeyReaction)
        requires
            old(self)@.wf(),
            old(self)@.lines.len() < MAX_CONTENT,
        ensures
            !old(self)@.multiline ==> r == KeyReaction::TriggerDefaultAction && *final(self)
                == *old(self),
            old(self)@.multiline ==> r == KeyReaction::DispatchInput && final(self)@
                == spec_handle_return(old(self)@),
            final(self)@.wf(),
    {
        if !self.multiline {
            return KeyReaction::TriggerDefaultAction;
        }
        let idx = self.edit_point.index;
        let len = self.current_line_length();
        let (prefix, suffix) = {
            let line = self.get_current_line();
            let prefix = line.as_str().substring_char(0, idx).to_owned();
            let suffix = line.as_str().substring_char(idx, len).to_owned();
            (prefix, suffix)
        };
        self.lines.set(self.edit_point.line, prefix);
        self.lines.insert(self.edit_point.line + 1, suffix);
        proof {
            assert(self@.lines =~~= spec_handle_return(old(self)@).lines);
            assert(self@ =~~= spec_handle_return(old(self)@));
        }
        KeyReaction::DispatchInput
    }

    /// Handles one key, by its name, and reports the reaction: printable
    /// characters and Space insert, Delete and Backspace delete, the
    /// arrows move, Enter breaks the line, Home and End jump within the
    /// line, Tab falls through to the default action, and anything else
    /// does nothing.
    #[verifier::rlimit(60)]
    #[verifier::spinoff_prover]
    pub fn handle_keydown(&mut self, key: &str) -> (r: KeyReaction)
        requires
            old(self)@.wf(),
            old(self)@.current_line().len() < MAX_CONTENT,
            old(self)@.lines.len() < MAX_CONTENT,
        ensures
            final(self)@.wf(),
            key@.len() == 1 ==> final(self)@ == spec_insert_char(old(self)@, key@[0]) && r
                == KeyReaction::DispatchInput,
            key@ == "Space"@ ==> final(self)@ == spec_insert_char(old(self)@, ' ') && r
                == KeyReaction::DispatchInput,
            key@ == "Delete"@ ==> final(self)@ == spec_delete_char(old(self)@, true) && r
                == KeyReaction::DispatchInput,
            key@ == "Backspace"@ ==> final(self)@ == spec_delete_char(old(self)@, false) && r
                == KeyReaction::DispatchInput,
            key@ == "ArrowLeft"@ ==> final(self)@ == spec_adjust_horizontal(old(self)@, -1) && r
                == KeyReaction::Nothing,
            key@ == "ArrowRight"@ ==> final(self)@ == spec_adjust_horizontal(old(self)@, 1) && r
                == KeyReaction::Nothing,
            key@ == "ArrowUp"@ ==> final(self)@ == spec_adjust_vertical(old(self)@, -1) && r
                == KeyReaction::Nothing,
            key@ == "ArrowDown"@ ==> final(self)@ == spec_adjust_vertical(old(self)@, 1) && r
                == KeyReaction::Nothing,
            key@ == "Enter"@ ==> (if old(self)@.multiline {
                final(self)@ == spec_handle_return(old(self)@) && r == KeyReaction::DispatchInput
            } else {
                *final(self) == *old(self) && r == KeyReaction::TriggerDefaultAction
            }),
            key@ == "Home"@ ==> final(self)@ == (TextInputView { index: 0, ..old(self)@ }) && r
                == KeyReaction::Nothing,
            key@ == "End"@ ==> final(self)@ == (TextInputView {
                index: old(self)@.current_line().len() as int,
                ..old(self)@
            }) && r == KeyReaction::Nothing,
            key@ == "Tab"@ ==> *final(self) == *old(self) && r
                == KeyReaction::TriggerDefaultAction,
            !(key@.len() == 1 || key@ == "Space"@ || key@ == "Delete"@ || key@ == "Backspace"@
                || key@ == "ArrowLeft"@ || key@ == "ArrowRight"@ || key@ == "ArrowUp"@
                || key@ == "ArrowDown"@ || key@ == "Enter"@ || key@ == "Home"@ || key@ == "End"@
                || key@ == "Tab"@) ==> *final(self) == *old(self) && r == KeyReaction::Nothing,
    {
        proof {
            reveal_strlit("Space");
            reveal_strlit("Delete");
            reveal_strlit("Backspace");
            reveal_strlit("ArrowLeft");
            reveal_strlit("ArrowRight");
            reveal_strlit("ArrowUp");
            reveal_strlit("ArrowDown");
            reveal_strlit("Enter");
            reveal_strlit("Home");
            reveal_strlit("End");
            reveal_strlit("Tab");
            // Key names of equal length are told apart by a character.
            assert("Space"@ != "Enter"@) by {
                assert("Space"@[0] == 'S' && "Enter"@[0] == 'E');
            }
            assert("Backspace"@ != "ArrowLeft"@) by {
                assert("Backspace"@[0] == 'B' && "ArrowLeft"@[0] == 'A');
            }
            assert("Backspace"@ != "ArrowDown"@) by {
                assert("Backspace"@[0] == 'B' && "ArrowDown"@[0] == 'A');
            }
            assert("ArrowLeft"@ != "ArrowDown"@) by {
                assert("ArrowLeft"@[5] == 'L' && "ArrowDown"@[5] == 'D');
            }
            assert("End"@ != "Tab"@) by {
                assert("End"@[0] == 'E' && "Tab"@[0] == 'T');
            }
        }
        if s_len_is_one(key) {
            let c = key.get_char(0);
            self.insert_char(c);
            return KeyReaction::DispatchInput;
        }
        if str_eq(key, "Space") {
            self.insert_char(' ');
            KeyReaction::DispatchInput
        } else if str_eq(key, "Delete") {
            self.delete_char(true);
            KeyReaction::DispatchInput
        } else if str_eq(key, "Backspace") {
            self.delete_char(false);
            KeyReaction::DispatchInput
        } else if str_eq(key, "ArrowLeft") {
            self.adjust_horizontal(-1);
            KeyReaction::Nothing
        } else if str_eq(key, "ArrowRight") {
            self.adjust_horizontal(1);
            KeyReaction::Nothing
        } else if str_eq(key, "ArrowUp") {
            self.adjust_vertical(-1);
            KeyReaction::Nothing
        } else if str_eq(key, "ArrowDown") {
            self.adjust_vertical(1);
            KeyReaction::Nothing
        } else if str_eq(key, "Enter") {
            self.handle_return()
        } else if str_eq(key, "Home") {
            self.edit_point.index = 0;
            proof {
                assert(self@ =~= (TextInputView { index: 0, ..old(self)@ }));
            }
            KeyReaction::Nothing
        } else if str_eq(key, "End") {
            self.edit_point.index = self.current_line_length();
            proof {
                assert(self@ =~= (TextInputView {
                    index: old(self)@.current_line().len() as int,
                    ..old(self)@
                }));
            }
            KeyReaction::Nothing
        } else if str_eq(key, "Tab") {
            KeyReaction::TriggerDefaultAction
        } else {
            KeyReaction::Nothing
        }
    }

    /// The whole content, lines joined with newlines.
    pub fn get_content(&self) -> (r: String)
        requires
            self@.wf(),
        ensures
            r@ == spec_joined_content(self@.lines, self@.lines.len() as int),
    {
        let mut content = String::new();
        let n = self.lines.len();
        let mut i: usize = 0;
        while i < n
            invariant
                self@.wf(),
                n == self@.lines.len(),
                0 <= i <= n,
                content@ == spec_joined_content(self@.lines, i as int),
            decreases n - i,
        {
            if i > 0 {
                push_char(&mut content, '\n');
            }
            content.append(self.lines[i].as_str());
            proof {
                if i == 0 {
                    assert(content@ =~= spec_joined_content(self@.lines, 1));
                } else {
                    assert(content@ =~= spec_joined_content(self@.lines, i + 1));
                }
            }
            i = i + 1;
        }
        content
    }

    /// Replaces the whole content: multiline controls split it at
    /// newlines, single-line controls take it as one line; the edit point
    /// is clamped into the new content.
    pub fn set_content(&mut self, content: String)
        requires
            content@.len() < MAX_CONTENT,
        ensures
            final(self)@.wf(),
            final(self)@.multiline == old(self)@.multiline,
            final(self)@.lines == if old(self)@.multiline {
                spec_split_lines(content@)
            } else {
                seq![content@]
            },
            final(self)@.line == if old(self)@.line < final(self)@.lines.len() {
                old(self)@.line
            } else {
                final(self)@.lines.len() - 1
            },
            final(self)@.index == if old(self)@.index <= final(self)@.current_line().len() {
                old(self)@.index
            } else {
                final(self)@.current_line().len() as int
            },
    {
        if self.multiline {
            let mut lines: Vec<String> = Vec::new();
            let mut cur = String::new();
            let s = content.as_str();
            let n = s.unicode_len();
            let mut i: usize = 0;
            while i < n
                invariant
                    n == content@.len(),
                    s@ == content@,
                    0 <= i <= n,
                    spec_split_lines(content@.subrange(0, i as int))
                        == lines@.map_values(|l: String| l@).push(cur@),
                decreases n - i,
            {
                let c = s.get_char(i);
                proof {
                    assert(content@.subrange(0, i + 1).drop_last() =~= content@.subrange(0,
                        i as int));
                    assert(content@.subrange(0, i + 1).last() == content@[i as int]);
                }
                if c == '\n' {
                    lines.push(cur);
                    cur = String::new();
                    proof {
                        assert(spec_split_lines(content@.subrange(0, i + 1))
                            =~= lines@.map_values(|l: String| l@).push(cur@));
                    }
                } else {
                    push_char(&mut cur, c);
                    proof {
                        let prev = spec_split_lines(content@.subrange(0, i as int));
                        assert(spec_split_lines(content@.subrange(0, i + 1))
                            =~= lines@.map_values(|l: String| l@).push(cur@));
                    }
                }
                i = i + 1;
            }
            lines.push(cur);
            proof {
                assert(content@.subrange(0, n as int) =~= content@);
                assert(lines@.map_values(|l: String| l@) =~= spec_split_lines(content@));
            }
            self.lines = lines;
        } else {
            let mut lines: Vec<String> = Vec::new();
            lines.push(content);
            self.lines = lines;
            proof {
                assert(self@.lines =~= seq![content@]);
            }
        }
        proof {
            lemma_split_lines_nonempty(content@);
            lemma_split_lines_bounds(content@);
        }
        // Clamp the edit point into the new content.
        if self.edit_point.line >= self.lines.len() {
            self.edit_point.line = self.lines.len() - 1;
        }
        let len = self.lines[self.edit_point.line].as_str().unicode_len();
        if self.edit_point.index > len {
            self.edit_point.index = len;
        }
    }
}

/// Whether a key name is a single character.
fn s_len_is_one(s: &str) -> (r: bool)
    ensures
        r == (s@.len() == 1),
{
    s.unicode_len() == 1
}

proof fn lemma_adjust_horizontal_stuck_left(v: TextInputView, n: int)
    requires
        n <= 0,
        v.line == 0,
        v.index == 0,
    ensures
        spec_adjust_horizontal(v, n) == v,
    decreases -n,
{
    if n < 0 {
        assert(spec_step_left(v) == v);
        lemma_adjust_horizontal_stuck_left(v, n + 1);
    }
}

proof fn lemma_adjust_horizontal_stuck_right(v: TextInputView, n: int)
    requires
        n >= 0,
        v.wf(),
        v.line == v.lines.len() - 1,
        v.index == v.current_line().len(),
    ensures
        spec_adjust_horizontal(v, n) == v,
    decreases n,
{
    if n > 0 {
        assert(spec_step_right(v) == v);
        lemma_adjust_horizontal_stuck_right(v, n - 1);
    }
}

} // verus!
