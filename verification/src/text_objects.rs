//! Selecting the text between matching delimiters: braces, parentheses and
//! brackets, with or without the delimiters.

use vstd::prelude::*;
use crate::core_types::{BufferState, EditorState};
use crate::editor::Editor;
use crate::justify::strings_view;
use crate::selection::with_buffer_selection;

verus! {

/// Searching backward for `target`, from the `c` characters of line `l`
/// still to look at (the last of them first), then through the lines
/// before; each `opposite` passed must be matched by a `target` first,
/// `nest` counting those still open. Lines past the end are skipped.
pub open spec fn delim_back(ls: Seq<Seq<char>>, target: char, opposite: char, l: int, c: nat, nest: nat) -> Option<
    (nat, nat),
>
    decreases l + 1, c,
{
    if l < 0 {
        None
    } else if c == 0 || l >= ls.len() {
        delim_back(
            ls,
            target,
            opposite,
            l - 1,
            if 0 <= l - 1 < ls.len() {
                ls[l - 1].len()
            } else {
                0
            },
            nest,
        )
    } else {
        let ch = ls[l][c - 1];
        if ch == opposite {
            delim_back(ls, target, opposite, l, (c - 1) as nat, nest + 1)
        } else if ch == target {
            if nest == 0 {
                Some((l as nat, (c - 1) as nat))
            } else {
                delim_back(ls, target, opposite, l, (c - 1) as nat, (nest - 1) as nat)
            }
        } else {
            delim_back(ls, target, opposite, l, (c - 1) as nat, nest)
        }
    }
}

/// Searching forward for `target` from column `c` of line `l`, then
/// through the lines after; each `opposite` passed must be matched by a
/// `target` first, `nest` counting those still open.
pub open spec fn delim_fwd(ls: Seq<Seq<char>>, target: char, opposite: char, l: nat, c: nat, nest: nat) -> Option<
    (nat, nat),
>
    decreases ls.len() - l, ls[l as int].len() - c,
{
    if l >= ls.len() {
        None
    } else if c >= ls[l as int].len() {
        delim_fwd(ls, target, opposite, l + 1, 0, nest)
    } else {
        let ch = ls[l as int][c as int];
        if ch == opposite {
            delim_fwd(ls, target, opposite, l, c + 1, nest + 1)
        } else if ch == target {
            if nest == 0 {
                Some((l, c))
            } else {
                delim_fwd(ls, target, opposite, l, c + 1, (nest - 1) as nat)
            }
        } else {
            delim_fwd(ls, target, opposite, l, c + 1, nest)
        }
    }
}

/// How many characters of line `l` a backward search from column `x`
/// looks at: up to and including the column, none past the end.
pub open spec fn back_count(ls: Seq<Seq<char>>, l: usize, x: usize) -> nat {
    if l < ls.len() {
        (x + 1) as nat
    } else {
        0
    }
}

/// The selection between the delimiters at `o` (opening) and `c`
/// (closing): with them, from the opening one to just past the closing
/// one; without them, the text strictly between, which on one line must
/// not be empty.
pub open spec fn delimited_selection(o: (nat, nat), c: (nat, nat), with_delims: bool) -> Option<
    ((usize, usize), (usize, usize)),
> {
    if with_delims {
        Some(((o.0 as usize, o.1 as usize), (c.0 as usize, (c.1 + 1) as usize)))
    } else if o.0 != c.0 || c.1 > o.1 + 1 {
        Some(((o.0 as usize, (o.1 + 1) as usize), (c.0 as usize, c.1 as usize)))
    } else {
        None
    }
}

/// Whether `(ls, l, c)` is where a delimiter search may start: on a
/// character of an existing line, or anywhere in an empty document.
pub open spec fn on_character(ls: Seq<Seq<char>>, l: nat, c: nat) -> bool {
    ls.len() > 0 ==> l < ls.len() && c < ls[l as int].len()
}

impl Editor {
    /// Whether `post` is this editor with the text between the `open` and
    /// `close` delimiters around the cursor selected (see
    /// `delimited_selection`): the nearest unmatched `open` at or before
    /// the cursor and the nearest unmatched `close` at or after it.
    /// Whatever the selection ends up as is also given to the active
    /// buffer; when either delimiter is missing nothing changes.
    pub open spec fn delimiters_selected(self, open: char, close: char, with_delims: bool, post: Editor) -> bool {
        let ls = strings_view(self.lines@);
        let l = self.cursor_line();
        let x = self.cursor_x;
        let o = delim_back(ls, open, close, l as int, back_count(ls, l, x), 0);
        let c = delim_fwd(ls, close, open, l as nat, x as nat, 0);
        match (o, c) {
            (Some(op), Some(cl)) => {
                let (s, e) = match delimited_selection(op, cl, with_delims) {
                    Some((s, e)) => (Some(s), Some(e)),
                    None => (self.editor_state.selection_start, self.editor_state.selection_end),
                };
                &&& post.buffers@ == with_buffer_selection(self.buffers@, self.active_buffer, s, e)
                &&& post == (Editor {
                    buffers: post.buffers,
                    editor_state: EditorState {
                        selection_start: s,
                        selection_end: e,
                        ..self.editor_state
                    },
                    ..self
                })
            },
            _ => post == self,
        }
    }
}

/// Searches backward for `target` (see `delim_back`), starting with the
/// character at `(start_line, start_col)`.
fn find_delimiter_backward(
    lines: &Vec<String>,
    target: char,
    opposite: char,
    start_line: usize,
    start_col: usize,
) -> (r: Option<(usize, usize)>)
    requires
        start_line < lines@.len() ==> start_col < lines@[start_line as int]@.len(),
    ensures
        r matches Some((a, b)) ==> delim_back(
            strings_view(lines@),
            target,
            opposite,
            start_line as int,
            back_count(strings_view(lines@), start_line, start_col),
            0,
        ) == Some((a as nat, b as nat)),
        r is None ==> delim_back(
            strings_view(lines@),
            target,
            opposite,
            start_line as int,
            back_count(strings_view(lines@), start_line, start_col),
            0,
        ) is None,
        r matches Some((a, b)) ==> a < lines@.len() && b < lines@[a as int]@.len(),
{
    let ghost ls = strings_view(lines@);
    let n = lines.len();
    let ghost c0: nat = back_count(ls, start_line, start_col);
    let mut nest: u128 = 0;
    let mut l = start_line;
    let mut c: usize = if start_line < n {
        assert(ls[start_line as int] == lines@[start_line as int]@);
        let _len = lines[start_line].as_str().unicode_len();
        start_col + 1
    } else {
        0
    };
    loop
        invariant
            n == lines@.len(),
            ls == strings_view(lines@),
            l < n ==> c <= ls[l as int].len(),
            l >= n ==> c == 0,
            c0 == back_count(ls, start_line, start_col),
            nest + c <= (start_line - l + 1) * 0xffff_ffff_ffff_ffff,
            l <= start_line,
            delim_back(ls, target, opposite, start_line as int, c0, 0) == delim_back(
                ls,
                target,
                opposite,
                l as int,
                c as nat,
                nest as nat,
            ),
        decreases l, c,
    {
        if c > 0 {
            assert(ls[l as int] == lines@[l as int]@);
            let ch = lines[l].as_str().get_char(c - 1);
            if ch == opposite {
                nest = nest + 1;
            } else if ch == target {
                if nest == 0 {
                    assert(delim_back(ls, target, opposite, l as int, c as nat, 0) == Some(
                        (l as nat, (c - 1) as nat),
                    ));
                    return Some((l, c - 1));
                }
                nest = nest - 1;
            }
            c = c - 1;
        } else {
            if l == 0 {
                assert(delim_back(ls, target, opposite, -1, 0, nest as nat) is None);
                return None;
            }
            l = l - 1;
            c = if l < n {
                assert(ls[l as int] == lines@[l as int]@);
                lines[l].as_str().unicode_len()
            } else {
                0
            };
        }
    }
}

/// Searches forward for `target` (see `delim_fwd`) from
/// `(start_line, start_col)`.
fn find_delimiter_forward(
    lines: &Vec<String>,
    target: char,
    opposite: char,
    start_line: usize,
    start_col: usize,
) -> (r: Option<(usize, usize)>)
    ensures
        r matches Some((a, b)) ==> delim_fwd(
            strings_view(lines@),
            target,
            opposite,
            start_line as nat,
            start_col as nat,
            0,
        ) == Some((a as nat, b as nat)),
        r is None ==> delim_fwd(
            strings_view(lines@),
            target,
            opposite,
            start_line as nat,
            start_col as nat,
            0,
        ) is None,
        r matches Some((a, b)) ==> a < lines@.len() && b < lines@[a as int]@.len(),
{
    let ghost ls = strings_view(lines@);
    let n = lines.len();
    let mut nest: u128 = 0;
    let mut l = start_line;
    let mut c = start_col;
    while l < n
        invariant
            n == lines@.len(),
            ls == strings_view(lines@),
            start_line <= l,
            nest <= (l - start_line) * 0x1_0000_0000_0000_0000 + 0x1_0000_0000_0000_0000 - 1,
            l < n ==> nest <= (l - start_line) * 0x1_0000_0000_0000_0000 + c,
            delim_fwd(ls, target, opposite, start_line as nat, start_col as nat, 0) == delim_fwd(
                ls,
                target,
                opposite,
                l as nat,
                c as nat,
                nest as nat,
            ),
        decreases n - l,
    {
        assert(ls[l as int] == lines@[l as int]@);
        let len = lines[l].as_str().unicode_len();
        while c < len
            invariant
                n == lines@.len(),
                ls == strings_view(lines@),
                start_line <= l < n,
                len == ls[l as int].len(),
                nest <= (l - start_line) * 0x1_0000_0000_0000_0000 + c,
                delim_fwd(ls, target, opposite, start_line as nat, start_col as nat, 0)
                    == delim_fwd(ls, target, opposite, l as nat, c as nat, nest as nat),
            decreases len - c,
        {
            let ch = lines[l].as_str().get_char(c);
            if ch == opposite {
                nest = nest + 1;
            } else if ch == target {
                if nest == 0 {
                    return Some((l, c));
                }
                nest = nest - 1;
            }
            c = c + 1;
        }
        l = l + 1;
        c = 0;
    }
    None
}

impl Editor {
    /// Selects between the `open` and `close` delimiters around the cursor
    /// (see `delimited_selection`): the nearest unmatched `open` at or
    /// before the cursor and the nearest unmatched `close` at or after it.
    /// Whatever the selection ends up as is also given to the active
    /// buffer; when either delimiter is missing nothing changes. The
    /// cursor must be on a character.
    pub fn select_between_delimiters(&mut self, open_delim: char, close_delim: char, with_delimiters: bool)
        requires
            on_character(strings_view(old(self).lines@), old(self).cursor_line() as nat, old(self).cursor_x as nat),
        ensures
            old(self).delimiters_selected(open_delim, close_delim, with_delimiters, *final(self)),
    {
        let (line_idx, col_idx) = self.get_cursor_position();
        proof {
            let ls = strings_view(self.lines@);
            if line_idx < ls.len() {
                assert(ls[line_idx as int] == self.lines@[line_idx as int]@);
            }
        }
        let (open_line, open_col) = match find_delimiter_backward(
            &self.lines,
            open_delim,
            close_delim,
            line_idx,
            col_idx,
        ) {
            Some(p) => p,
            None => {
                return ;
            },
        };
        let (close_line, close_col) = match find_delimiter_forward(
            &self.lines,
            close_delim,
            open_delim,
            line_idx,
            col_idx,
        ) {
            Some(p) => p,
            None => {
                return ;
            },
        };
        let _open_len = self.lines[open_line].as_str().unicode_len();
        let _close_len = self.lines[close_line].as_str().unicode_len();
        if with_delimiters {
            self.editor_state.selection_start = Some((open_line, open_col));
            self.editor_state.selection_end = Some((close_line, close_col + 1));
        } else if open_line != close_line || close_col > open_col + 1 {
            self.editor_state.selection_start = Some((open_line, open_col + 1));
            self.editor_state.selection_end = Some((close_line, close_col));
        }
        proof {
            let ls = strings_view(old(self).lines@);
            assert(line_idx == old(self).cursor_line());
            assert(delim_back(ls, open_delim, close_delim, line_idx as int, back_count(ls, line_idx, col_idx), 0) == Some((open_line as nat, open_col as nat)));
            assert(delim_fwd(ls, close_delim, open_delim, line_idx as nat, col_idx as nat, 0) == Some((close_line as nat, close_col as nat)));
        }
        let i = self.active_buffer;
        if i < self.buffers.len() {
            self.buffers[i].selection_start = self.editor_state.selection_start;
            self.buffers[i].selection_end = self.editor_state.selection_end;
        }
        proof {
            let sel = delimited_selection(
                (open_line as nat, open_col as nat),
                (close_line as nat, close_col as nat),
                with_delimiters,
            );
            let (s, e) = match sel {
                Some((s, e)) => (Some(s), Some(e)),
                None => (old(self).editor_state.selection_start, old(self).editor_state.selection_end),
            };
            assert(self.editor_state.selection_start == s);
            assert(self.editor_state.selection_end == e);
            assert(self.buffers@ == with_buffer_selection(old(self).buffers@, old(self).active_buffer, s, e));
        }
    }

    /// Selects inside the braces around the cursor.
    pub fn select_inner_braces(&mut self)
        requires
            on_character(strings_view(old(self).lines@), old(self).cursor_line() as nat, old(self).cursor_x as nat),
        ensures
            old(self).delimiters_selected('{', '}', false, *final(self)),
    {
        self.select_between_delimiters('{', '}', false)
    }

    /// Selects the braces around the cursor and what they hold.
    pub fn select_around_braces(&mut self)
        requires
            on_character(strings_view(old(self).lines@), old(self).cursor_line() as nat, old(self).cursor_x as nat),
        ensures
            old(self).delimiters_selected('{', '}', true, *final(self)),
    {
        self.select_between_delimiters('{', '}', true)
    }

    /// Selects inside the parentheses around the cursor.
    pub fn select_inner_parentheses(&mut self)
        requires
            on_character(strings_view(old(self).lines@), old(self).cursor_line() as nat, old(self).cursor_x as nat),
        ensures
            old(self).delimiters_selected('(', ')', false, *final(self)),
    {
        self.select_between_delimiters('(', ')', false)
    }

    /// Selects the parentheses around the cursor and what they hold.
    pub fn select_around_parentheses(&mut self)
        requires
            on_character(strings_view(old(self).lines@), old(self).cursor_line() as nat, old(self).cursor_x as nat),
        ensures
            old(self).delimiters_selected('(', ')', true, *final(self)),
    {
        self.select_between_delimiters('(', ')', true)
    }

    /// Selects inside the brackets around the cursor.
    pub fn select_inner_brackets(&mut self)
        requires
            on_character(strings_view(old(self).lines@), old(self).cursor_line() as nat, old(self).cursor_x as nat),
        ensures
            old(self).delimiters_selected('[', ']', false, *final(self)),
    {
        self.select_between_delimiters('[', ']', false)
    }

    /// Selects the brackets around the cursor and what they hold.
    pub fn select_around_brackets(&mut self)
        requires
            on_character(strings_view(old(self).lines@), old(self).cursor_line() as nat, old(self).cursor_x as nat),
        ensures
            old(self).delimiters_selected('[', ']', true, *final(self)),
    {
        self.select_between_delimiters('[', ']', true)
    }
}

} // verus!
