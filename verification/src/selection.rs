//! Visual selections: starting, extending, clearing, remembering and
//! restoring them, the text they cover, and selecting words.

use vstd::prelude::*;
use crate::command_translation::join_with;
use crate::core_types::{BufferState, EditorMode, EditorState};
use crate::editor::Editor;
use crate::justify::strings_view;
use crate::text::{
    is_whitespace, is_word_char, push_char, push_str, spec_is_whitespace, spec_is_word_char,
};

verus! {

/// A class of characters that a word motion runs over.
#[derive(Clone, Copy, Debug, PartialEq, Eq, Structural)]
pub enum CharClass {
    /// Whitespace.
    Space,
    /// Anything but whitespace.
    NonSpace,
    /// Alphanumeric characters and `_`.
    Word,
    /// Neither whitespace nor word characters.
    Punct,
}

/// Whether `c` is in class `k`.
pub open spec fn in_class(k: CharClass, c: char) -> bool {
    match k {
        CharClass::Space => spec_is_whitespace(c),
        CharClass::NonSpace => !spec_is_whitespace(c),
        CharClass::Word => spec_is_word_char(c),
        CharClass::Punct => !spec_is_whitespace(c) && !spec_is_word_char(c),
    }
}

/// Decides `in_class`.
pub fn is_in_class(k: CharClass, c: char) -> (r: bool)
    ensures
        r == in_class(k, c),
{
    match k {
        CharClass::Space => is_whitespace(c),
        CharClass::NonSpace => !is_whitespace(c),
        CharClass::Word => is_word_char(c),
        CharClass::Punct => !is_whitespace(c) && !is_word_char(c),
    }
}

/// Moving back from column `i` over characters of class `k`; a column
/// past the end stays where it is.
pub open spec fn back_while(s: Seq<char>, i: nat, k: CharClass) -> nat
    decreases i,
{
    if i == 0 || i > s.len() {
        i
    } else if in_class(k, s[i - 1]) {
        back_while(s, (i - 1) as nat, k)
    } else {
        i
    }
}

/// Moving forward from column `i` over characters of class `k`.
pub open spec fn fwd_while(s: Seq<char>, i: nat, k: CharClass) -> nat
    decreases s.len() - i,
{
    if i >= s.len() {
        i
    } else if in_class(k, s[i as int]) {
        fwd_while(s, i + 1, k)
    } else {
        i
    }
}

/// The word under column `col` (kept on the line) of a non-empty line, as
/// `(start, end)` with `end` exclusive: a run of non-whitespace for a big
/// word, else a run of word characters or of punctuation; none on
/// whitespace. Columns count characters.
pub open spec fn inner_word_range(s: Seq<char>, col: nat, big: bool) -> Option<(nat, nat)> {
    if s.len() == 0 {
        None
    } else {
        let c = if col <= s.len() - 1 {
            col
        } else {
            (s.len() - 1) as nat
        };
        let ch = s[c as int];
        if spec_is_whitespace(ch) {
            None
        } else {
            let k = if big {
                CharClass::NonSpace
            } else if spec_is_word_char(ch) {
                CharClass::Word
            } else {
                CharClass::Punct
            };
            Some((back_while(s, c, k), fwd_while(s, c + 1, k)))
        }
    }
}

/// The class a word motion runs over from character `c`, if any.
pub open spec fn run_class(c: char, big: bool) -> Option<CharClass> {
    if big {
        Some(CharClass::NonSpace)
    } else if spec_is_word_char(c) {
        Some(CharClass::Word)
    } else if !spec_is_whitespace(c) {
        Some(CharClass::Punct)
    } else {
        None
    }
}

/// The word around column `col` of `s` with the whitespace after it (or,
/// when the word ends the line or starts it, before it), as
/// `(start, end)`; on whitespace, the word before it.
pub open spec fn around_word_range(s: Seq<char>, col: nat, big: bool) -> (nat, nat) {
    let st0 = if col < s.len() && spec_is_whitespace(s[col as int]) {
        let b = back_while(s, col, CharClass::Space);
        if b > 0 {
            (b - 1) as nat
        } else {
            b
        }
    } else {
        col
    };
    let st1 = if st0 < s.len() {
        match run_class(s[st0 as int], big) {
            Some(k) => back_while(s, st0, k),
            None => st0,
        }
    } else {
        st0
    };
    let e0 = if st1 < s.len() {
        match run_class(s[st1 as int], big) {
            Some(k) => fwd_while(s, st1, k),
            None => st1,
        }
    } else {
        st1
    };
    let e1 = fwd_while(s, e0, CharClass::Space);
    let st2 = if e1 < s.len() || st1 == 0 {
        back_while(s, st1, CharClass::Space)
    } else {
        st1
    };
    (st2, e1)
}

/// The smaller of `a` and `b`.
pub open spec fn min_of(a: nat, b: nat) -> nat {
    if a <= b {
        a
    } else {
        b
    }
}

/// Each of lines `lo..hi` that exists, followed by a newline.
pub open spec fn middle_lines(ls: Seq<Seq<char>>, lo: nat, hi: nat) -> Seq<char>
    decreases hi - lo,
{
    if lo >= hi {
        seq![]
    } else {
        (if lo < ls.len() {
            ls[lo as int] + seq!['\n']
        } else {
            seq![]
        }) + middle_lines(ls, lo + 1, hi)
    }
}

/// The text between the selection ends `a` and `b` (taken in line order):
/// whole lines joined by newlines in line mode; otherwise the characters
/// between the columns on one line (in either order), or the rest of the
/// first line, the lines between and the start of the last line, with
/// newlines. Columns are kept inside their lines; lines past the end give
/// nothing.
pub open spec fn selected_text(ls: Seq<Seq<char>>, line_mode: bool, a: (usize, usize), b: (usize, usize)) -> Seq<
    char,
> {
    let (sl, sc) = if a.0 <= b.0 {
        a
    } else {
        b
    };
    let (el, ec) = if a.0 <= b.0 {
        b
    } else {
        a
    };
    if line_mode {
        if sl < ls.len() && el < ls.len() {
            join_with(ls.subrange(sl as int, el + 1), seq!['\n'])
        } else {
            seq![]
        }
    } else if sl == el {
        if sl < ls.len() {
            let s = ls[sl as int];
            let x = min_of(sc as nat, s.len());
            let y = min_of(ec as nat, s.len());
            if x < y {
                s.subrange(x as int, y as int)
            } else {
                s.subrange(y as int, x as int)
            }
        } else {
            seq![]
        }
    } else {
        (if sl < ls.len() {
            ls[sl as int].skip(min_of(sc as nat, ls[sl as int].len()) as int) + seq!['\n']
        } else {
            seq![]
        }) + middle_lines(ls, (sl + 1) as nat, el as nat) + (if el < ls.len() {
            ls[el as int].take(min_of(ec as nat, ls[el as int].len()) as int)
        } else {
            seq![]
        })
    }
}

/// The buffers with buffer `i`, if there is one, given the selection
/// `(s, e)`.
pub open spec fn with_buffer_selection(
    bs: Seq<BufferState>,
    i: usize,
    s: Option<(usize, usize)>,
    e: Option<(usize, usize)>,
) -> Seq<BufferState> {
    if i < bs.len() {
        bs.update(i as int, BufferState { selection_start: s, selection_end: e, ..bs[i as int] })
    } else {
        bs
    }
}

impl Editor {
    /// This editor with the selection `(s, e)`, also in the active buffer.
    pub open spec fn selecting(self, s: Option<(usize, usize)>, e: Option<(usize, usize)>, post: Editor) -> bool {
        &&& post.buffers@ == with_buffer_selection(self.buffers@, self.active_buffer, s, e)
        &&& post == (Editor {
            buffers: post.buffers,
            editor_state: EditorState { selection_start: s, selection_end: e, ..self.editor_state },
            ..self
        })
    }
}

/// `a` kept at most `b`.
pub open spec fn capped(a: usize, b: usize) -> usize {
    if a <= b {
        a
    } else {
        b
    }
}

/// The columns `(start, end)` of document line `line`, `len` characters
/// long, that the selection from `a` to `b` covers, kept within the line:
/// all of it in line mode or between the selection's first and last lines;
/// from the selection's start on its first line and up to its end on its
/// last; none off the selection's lines.
pub open spec fn selection_columns(
    a: (usize, usize),
    b: (usize, usize),
    line: int,
    line_mode: bool,
    len: usize,
) -> Option<(usize, usize)> {
    let (lo, hi) = if a.0 <= b.0 {
        (a.0, b.0)
    } else {
        (b.0, a.0)
    };
    if !(lo <= line <= hi) {
        None
    } else if line_mode {
        Some((0, len))
    } else {
        let (s, e) = if a.0 == b.0 {
            if a.1 <= b.1 {
                (a.1, b.1)
            } else {
                (b.1, a.1)
            }
        } else if line == lo {
            (if a.0 < b.0 {
                a.1
            } else {
                b.1
            }, len)
        } else if line == hi {
            (0, if a.0 > b.0 {
                a.1
            } else {
                b.1
            })
        } else {
            (0, len)
        };
        Some((capped(s, len), capped(e, len)))
    }
}

impl Editor {
    /// Whether `post` is this editor with the selection's end moved to the
    /// cursor, also in the active buffer (whose start stays).
    pub open spec fn selection_extended(self, post: Editor) -> bool {
        let p = Some((self.cursor_line(), self.cursor_x));
        &&& post.buffers@ == (if self.active_buffer < self.buffers@.len() {
            self.buffers@.update(
                self.active_buffer as int,
                BufferState { selection_end: p, ..self.buffers@[self.active_buffer as int] },
            )
        } else {
            self.buffers@
        })
        &&& post == (Editor {
            buffers: post.buffers,
            editor_state: EditorState { selection_end: p, ..self.editor_state },
            ..self
        })
    }
}

impl Editor {
    /// Whether `post` is this editor with the remembered selection restored
    /// (`gv`): its mode becomes the active mode, the selection is set here
    /// and in the active buffer, and the cursor moves to its end as
    /// `move_to_position` does; unchanged without a remembered selection.
    pub open spec fn visual_restored(self, post: Editor) -> bool {
            ({
                let es = self.editor_state;
                match (es.last_visual_start, es.last_visual_end, es.last_visual_mode) {
                    (Some(s), Some(e), Some(m)) => exists|sel: Editor, moved: Editor|
                        #[trigger] sel.selecting(Some(s), Some(e), moved) && sel.buffers@ == (if self.active_buffer < self.buffers@.len() {
                            self.buffers@.update(
                                self.active_buffer as int,
                                BufferState {
                                    mode: m,
                                    ..self.buffers@[self.active_buffer as int]
                                },
                            )
                        } else {
                            self.buffers@
                        }) && sel == (Editor {
                            buffers: sel.buffers,
                            editor_state: EditorState { mode: m, ..es },
                            ..self
                        }) && moved.moved_to(e.0, e.1, post),
                    _ => post == self,
                }
            })
    }
}

/// Gives buffer `i`, if there is one, the selection `(s, e)`.
fn set_buffer_selection(
    bs: &mut Vec<BufferState>,
    i: usize,
    s: Option<(usize, usize)>,
    e: Option<(usize, usize)>,
)
    ensures
        final(bs)@ == with_buffer_selection(old(bs)@, i, s, e),
{
    if i < bs.len() {
        bs[i].selection_start = s;
        bs[i].selection_end = e;
    }
}

/// `back_while(s, i, k)` for a column on the line.
fn back_while_exec(s: &str, i: usize, k: CharClass) -> (r: usize)
    requires
        i <= s@.len(),
    ensures
        r == back_while(s@, i as nat, k),
{
    let mut j = i;
    while j > 0 && is_in_class(k, s.get_char(j - 1))
        invariant
            j <= i <= s@.len(),
            back_while(s@, i as nat, k) == back_while(s@, j as nat, k),
        decreases j,
    {
        j = j - 1;
    }
    j
}

/// `fwd_while(s, i, k)`.
fn fwd_while_exec(s: &str, i: usize, k: CharClass) -> (r: usize)
    ensures
        r == fwd_while(s@, i as nat, k),
{
    let n = s.unicode_len();
    let mut j = i;
    while j < n && is_in_class(k, s.get_char(j))
        invariant
            n == s@.len(),
            i <= j,
            fwd_while(s@, i as nat, k) == fwd_while(s@, j as nat, k),
        decreases n - j,
    {
        j = j + 1;
    }
    j
}

/// The class a word motion runs over from `c` (see `run_class`).
fn run_class_exec(c: char, big: bool) -> (r: Option<CharClass>)
    ensures
        r == run_class(c, big),
{
    if big {
        Some(CharClass::NonSpace)
    } else if is_word_char(c) {
        Some(CharClass::Word)
    } else if !is_whitespace(c) {
        Some(CharClass::Punct)
    } else {
        None
    }
}

/// `inner_word_range(s, col, big)`.
fn inner_word_exec(s: &str, col: usize, big: bool) -> (r: Option<(usize, usize)>)
    ensures
        r matches Some((a, b)) ==> inner_word_range(s@, col as nat, big) == Some((a as nat, b as nat)),
        r is None ==> inner_word_range(s@, col as nat, big) is None,
{
    let n = s.unicode_len();
    if n == 0 {
        return None;
    }
    let c = if col <= n - 1 {
        col
    } else {
        n - 1
    };
    let ch = s.get_char(c);
    if is_whitespace(ch) {
        return None;
    }
    let k = if big {
        CharClass::NonSpace
    } else if is_word_char(ch) {
        CharClass::Word
    } else {
        CharClass::Punct
    };
    Some((back_while_exec(s, c, k), fwd_while_exec(s, c + 1, k)))
}

/// The run of word characters (see `spec_is_word_char`) under column
/// `col` (kept on the line) of a line, as `(start, end)` with `end`
/// exclusive; none on an empty line or where the character there is not a
/// word character. Columns count characters.
pub open spec fn word_range_at(s: Seq<char>, col: nat) -> Option<(nat, nat)> {
    if s.len() == 0 {
        None
    } else {
        let c = if col <= s.len() - 1 {
            col
        } else {
            (s.len() - 1) as nat
        };
        if spec_is_word_char(s[c as int]) {
            Some((back_while(s, c, CharClass::Word), fwd_while(s, c + 1, CharClass::Word)))
        } else {
            None
        }
    }
}

/// Moving back never passes the start column.
pub proof fn lemma_back_while_le(s: Seq<char>, i: nat, k: CharClass)
    ensures
        back_while(s, i, k) <= i,
    decreases i,
{
    if i > 0 && i <= s.len() && in_class(k, s[i - 1]) {
        lemma_back_while_le(s, (i - 1) as nat, k);
    }
}

/// Moving forward from a column on the line stays on the line and never
/// goes back.
pub proof fn lemma_fwd_while_bounds(s: Seq<char>, i: nat, k: CharClass)
    requires
        i <= s.len(),
    ensures
        i <= fwd_while(s, i, k) <= s.len(),
    decreases s.len() - i,
{
    if i < s.len() && in_class(k, s[i as int]) {
        lemma_fwd_while_bounds(s, i + 1, k);
    }
}

/// `word_range_at(s, col)`.
fn word_range_exec(s: &str, col: usize) -> (r: Option<(usize, usize)>)
    ensures
        r matches Some((a, b)) ==> word_range_at(s@, col as nat) == Some((a as nat, b as nat))
            && a < b <= s@.len(),
        r is None ==> word_range_at(s@, col as nat) is None,
{
    let n = s.unicode_len();
    if n == 0 {
        return None;
    }
    let c = if col <= n - 1 {
        col
    } else {
        n - 1
    };
    if !is_word_char(s.get_char(c)) {
        return None;
    }
    let a = back_while_exec(s, c, CharClass::Word);
    let b = fwd_while_exec(s, c + 1, CharClass::Word);
    proof {
        lemma_back_while_le(s@, c as nat, CharClass::Word);
        lemma_fwd_while_bounds(s@, (c + 1) as nat, CharClass::Word);
    }
    Some((a, b))
}

/// `around_word_range(s, col, big)`.
fn around_word_exec(s: &str, col: usize, big: bool) -> (r: (usize, usize))
    ensures
        (r.0 as nat, r.1 as nat) == around_word_range(s@, col as nat, big),
{
    let n = s.unicode_len();
    let st0 = if col < n && is_whitespace(s.get_char(col)) {
        let b = back_while_exec(s, col, CharClass::Space);
        if b > 0 {
            b - 1
        } else {
            b
        }
    } else {
        col
    };
    let st1 = if st0 < n {
        match run_class_exec(s.get_char(st0), big) {
            Some(k) => back_while_exec(s, st0, k),
            None => st0,
        }
    } else {
        st0
    };
    let e0 = if st1 < n {
        match run_class_exec(s.get_char(st1), big) {
            Some(k) => fwd_while_exec(s, st1, k),
            None => st1,
        }
    } else {
        st1
    };
    let e1 = fwd_while_exec(s, e0, CharClass::Space);
    let st2 = if e1 < n || st1 == 0 {
        if st1 <= n {
            back_while_exec(s, st1, CharClass::Space)
        } else {
            st1
        }
    } else {
        st1
    };
    (st2, e1)
}

/// The characters of `s` from `a` up to `b`.
fn slice_string(s: &str, a: usize, b: usize) -> (r: String)
    requires
        a <= b <= s@.len(),
    ensures
        r@ == s@.subrange(a as int, b as int),
{
    let mut r = String::new();
    let mut i = a;
    while i < b
        invariant
            a <= i <= b <= s@.len(),
            r@ == s@.subrange(a as int, i as int),
        decreases b - i,
    {
        push_char(&mut r, s.get_char(i));
        i = i + 1;
        assert(r@ =~= s@.subrange(a as int, i as int));
    }
    r
}

impl Editor {
    /// Starts a selection at the cursor: both ends at the cursor's
    /// position, also in the active buffer.
    pub fn start_selection(&mut self)
        ensures
            old(self).selecting(
                Some((old(self).cursor_line(), old(self).cursor_x)),
                Some((old(self).cursor_line(), old(self).cursor_x)),
                *final(self),
            ),
    {
        let pos = self.get_cursor_position();
        self.editor_state.selection_start = Some(pos);
        self.editor_state.selection_end = Some(pos);
        let i = self.active_buffer;
        set_buffer_selection(&mut self.buffers, i, Some(pos), Some(pos));
    }

    /// Moves the selection's end to the cursor, also in the active buffer
    /// (whose start stays).
    pub fn update_selection(&mut self)
        ensures
            old(self).selection_extended(*final(self)),
    {
        let pos = self.get_cursor_position();
        self.editor_state.selection_end = Some(pos);
        let i = self.active_buffer;
        if i < self.buffers.len() {
            self.buffers[i].selection_end = Some(pos);
        }
    }

    /// Whether `post` is this editor with the selection cleared, here and in the active buffer, out of visual selection.
    pub open spec fn selection_cleared(self, post: Editor) -> bool {
        &&& (post.buffers@ == with_buffer_selection(
                    self.buffers@,
                    self.active_buffer,
                    None,
                    None,
                ))
        &&& (post == (Editor {
                    buffers: post.buffers,
                    editor_state: EditorState {
                        selection_start: None,
                        selection_end: None,
                        visual_selection_active: false,
                        previous_visual_mode: None,
                        ..self.editor_state
                    },
                    ..self
                }))
    }

    /// Clears the selection, here and in the active buffer, and leaves
    /// visual selection.
    pub fn clear_selection(&mut self)
        ensures
            old(self).selection_cleared(*final(self)),
    {
        self.editor_state.selection_start = None;
        self.editor_state.selection_end = None;
        self.editor_state.visual_selection_active = false;
        self.editor_state.previous_visual_mode = None;
        let i = self.active_buffer;
        set_buffer_selection(&mut self.buffers, i, None, None);
    }

    /// Remembers the active buffer's selection, with the active mode, for
    /// `gv`; without a complete selection nothing changes.
    pub fn save_visual_selection(&mut self)
        ensures
            ({
                let i = old(self).active_buffer;
                if i < old(self).buffers@.len() && old(self).buffers@[i as int].selection_start is Some
                    && old(self).buffers@[i as int].selection_end is Some {
                    *final(self) == (Editor {
                        editor_state: EditorState {
                            last_visual_start: old(self).buffers@[i as int].selection_start,
                            last_visual_end: old(self).buffers@[i as int].selection_end,
                            last_visual_mode: Some(old(self).active_mode()),
                            ..old(self).editor_state
                        },
                        ..*old(self)
                    })
                } else {
                    *final(self) == *old(self)
                }
            }),
    {
        let i = self.active_buffer;
        if i < self.buffers.len() && self.buffers[i].selection_start.is_some()
            && self.buffers[i].selection_end.is_some() {
            let mode = self.get_active_mode();
            let s = self.buffers[i].selection_start;
            let e = self.buffers[i].selection_end;
            self.editor_state.last_visual_start = s;
            self.editor_state.last_visual_end = e;
            self.editor_state.last_visual_mode = Some(mode);
        }
    }

    /// Whether screen row `line_index` lies between the selection's lines.
    pub fn has_selection_on_line(&self, line_index: usize) -> (r: bool)
        ensures
            r == (match (self.editor_state.selection_start, self.editor_state.selection_end) {
                (Some(a), Some(b)) => {
                    let l = self.offset + line_index;
                    let lo = if a.0 <= b.0 {
                        a.0
                    } else {
                        b.0
                    };
                    let hi = if a.0 > b.0 {
                        a.0
                    } else {
                        b.0
                    };
                    lo <= l <= hi
                },
                _ => false,
            }),
    {
        match (self.editor_state.selection_start, self.editor_state.selection_end) {
            (Some(a), Some(b)) => {
                let lo = if a.0 <= b.0 {
                    a.0
                } else {
                    b.0
                };
                let hi = if a.0 > b.0 {
                    a.0
                } else {
                    b.0
                };
                self.offset <= hi && line_index <= hi - self.offset && (self.offset >= lo
                    || line_index >= lo - self.offset)
            },
            _ => false,
        }
    }

    /// Whether row `line_index` of the pane showing buffer `buffer_idx`
    /// lies between the lines of that buffer's selection: the editor's own
    /// selection and offset for the active buffer, the stored ones for
    /// another; false for no buffer or no complete selection.
    pub fn has_pane_selection_on_line(&self, buffer_idx: usize, line_index: usize) -> (r: bool)
        ensures
            r == ({
                let (sel, offset) = if buffer_idx == self.active_buffer {
                    (
                        (self.editor_state.selection_start, self.editor_state.selection_end),
                        self.offset,
                    )
                } else if buffer_idx < self.buffers@.len() {
                    let b = self.buffers@[buffer_idx as int];
                    ((b.selection_start, b.selection_end), b.offset)
                } else {
                    ((None, None), 0)
                };
                match sel {
                    (Some(a), Some(b)) => {
                        let l = offset + line_index;
                        let lo = if a.0 <= b.0 {
                            a.0
                        } else {
                            b.0
                        };
                        let hi = if a.0 > b.0 {
                            a.0
                        } else {
                            b.0
                        };
                        lo <= l <= hi
                    },
                    _ => false,
                }
            }),
    {
        let (sel, offset) = if buffer_idx == self.active_buffer {
            ((self.editor_state.selection_start, self.editor_state.selection_end), self.offset)
        } else if buffer_idx < self.buffers.len() {
            let b = &self.buffers[buffer_idx];
            ((b.selection_start, b.selection_end), b.offset)
        } else {
            return false;
        };
        match sel {
            (Some(a), Some(b)) => {
                let lo = if a.0 <= b.0 {
                    a.0
                } else {
                    b.0
                };
                let hi = if a.0 > b.0 {
                    a.0
                } else {
                    b.0
                };
                offset <= hi && line_index <= hi - offset && (offset >= lo || line_index >= lo
                    - offset)
            },
            _ => false,
        }
    }

    /// The columns `(start, end)` of screen row `line_index`, a line `len`
    /// characters long, drawn as selected in the single view: only in a
    /// visual mode or with a visual selection kept, and with both ends set.
    /// In line mode (visual line, or a kept selection made in it) the rows
    /// between the ends' lines are in range, otherwise those lines or, for a
    /// selection on one line, that line. Visual line mode takes the whole
    /// line; otherwise one line's selection takes the columns between its
    /// ends, the line of the start takes from the start column when it is
    /// the upper end, the line of the end takes up to the end column when it
    /// is the lower end, and other lines are taken whole. Columns are kept
    /// within the line.
    pub open spec fn row_selection(self, line_index: usize, len: usize) -> Option<(usize, usize)> {
        let es = self.editor_state;
        if !((es.mode == EditorMode::VisualChar || es.mode == EditorMode::VisualLine
            || es.visual_selection_active) && es.selection_start is Some && es.selection_end is Some) {
            None
        } else {
            let a = es.selection_start.unwrap();
            let b = es.selection_end.unwrap();
            let l = self.offset + line_index;
            let line_mode = es.mode == EditorMode::VisualLine || (es.visual_selection_active
                && es.previous_visual_mode == Some(EditorMode::VisualLine));
            let (lo, hi) = if a.0 <= b.0 {
                (a.0, b.0)
            } else {
                (b.0, a.0)
            };
            let in_range = if !line_mode && a.0 == b.0 {
                l == a.0
            } else {
                lo <= l <= hi
            };
            if !in_range {
                None
            } else if es.mode == EditorMode::VisualLine {
                Some((0, len))
            } else {
                let (s, e) = if a.0 == b.0 {
                    if a.1 <= b.1 {
                        (a.1, b.1)
                    } else {
                        (b.1, a.1)
                    }
                } else if l == a.0 {
                    if a.0 < b.0 {
                        (a.1, len)
                    } else {
                        (0, len)
                    }
                } else if l == b.0 {
                    if b.0 > a.0 {
                        (0, b.1)
                    } else {
                        (0, len)
                    }
                } else {
                    (0, len)
                };
                Some((capped(s, len), capped(e, len)))
            }
        }
    }

    /// The selected columns of screen row `line_index` in the single view
    /// (see `row_selection`).
    pub fn selection_on_row(&self, line_index: usize, len: usize) -> (r: Option<(usize, usize)>)
        ensures
            r == self.row_selection(line_index, len),
    {
        let es = &self.editor_state;
        if !((es.mode == EditorMode::VisualChar || es.mode == EditorMode::VisualLine
            || es.visual_selection_active) && es.selection_start.is_some()
            && es.selection_end.is_some()) {
            return None;
        }
        let a = match es.selection_start {
            Some(p) => p,
            None => {
                return None;
            },
        };
        let b = match es.selection_end {
            Some(p) => p,
            None => {
                return None;
            },
        };
        let line_mode = es.mode == EditorMode::VisualLine || (es.visual_selection_active
            && es.previous_visual_mode == Some(EditorMode::VisualLine));
        let (lo, hi) = if a.0 <= b.0 {
            (a.0, b.0)
        } else {
            (b.0, a.0)
        };
        let offset = self.offset;
        let in_range = if !line_mode && a.0 == b.0 {
            offset <= a.0 && line_index == a.0 - offset
        } else {
            offset <= hi && line_index <= hi - offset && (offset >= lo || line_index >= lo - offset)
        };
        if !in_range {
            return None;
        }
        if es.mode == EditorMode::VisualLine {
            return Some((0, len));
        }
        let l = offset + line_index;
        let (s, e) = if a.0 == b.0 {
            if a.1 <= b.1 {
                (a.1, b.1)
            } else {
                (b.1, a.1)
            }
        } else if l == a.0 {
            if a.0 < b.0 {
                (a.1, len)
            } else {
                (0, len)
            }
        } else if l == b.0 {
            if b.0 > a.0 {
                (0, b.1)
            } else {
                (0, len)
            }
        } else {
            (0, len)
        };
        Some((if s <= len {
            s
        } else {
            len
        }, if e <= len {
            e
        } else {
            len
        }))
    }

    /// The columns of row `line_index`, `line_len` characters long, of the
    /// pane showing buffer `buffer_idx` that its selection covers (see
    /// `selection_columns`): the editor's own selection, offset and mode for
    /// the active buffer, the stored ones for another; none for no buffer
    /// or no complete selection.
    pub fn pane_selection_columns(&self, buffer_idx: usize, line_index: usize, line_len: usize) -> (r:
        Option<(usize, usize)>)
        ensures
            r == (if buffer_idx < self.buffers@.len() {
                let bs = self.buffers@[buffer_idx as int];
                let (sel, offset, mode) = if buffer_idx == self.active_buffer {
                    (
                        (self.editor_state.selection_start, self.editor_state.selection_end),
                        self.offset,
                        self.editor_state.mode,
                    )
                } else {
                    ((bs.selection_start, bs.selection_end), bs.offset, bs.mode)
                };
                match sel {
                    (Some(a), Some(b)) => selection_columns(
                        a,
                        b,
                        offset + line_index,
                        mode == EditorMode::VisualLine,
                        line_len,
                    ),
                    _ => None,
                }
            } else {
                None
            }),
    {
        if buffer_idx >= self.buffers.len() {
            return None;
        }
        let (sel, offset, mode) = if buffer_idx == self.active_buffer {
            (
                (self.editor_state.selection_start, self.editor_state.selection_end),
                self.offset,
                self.editor_state.mode,
            )
        } else {
            let b = &self.buffers[buffer_idx];
            ((b.selection_start, b.selection_end), b.offset, b.mode)
        };
        let (a, b) = match sel {
            (Some(a), Some(b)) => (a, b),
            _ => {
                return None;
            },
        };
        let (lo, hi) = if a.0 <= b.0 {
            (a.0, b.0)
        } else {
            (b.0, a.0)
        };
        if !(offset <= hi && line_index <= hi - offset && (offset >= lo || line_index >= lo - offset)) {
            return None;
        }
        let line = offset + line_index;
        if mode == EditorMode::VisualLine {
            return Some((0, line_len));
        }
        let (s, e) = if a.0 == b.0 {
            if a.1 <= b.1 {
                (a.1, b.1)
            } else {
                (b.1, a.1)
            }
        } else if line == lo {
            (if a.0 < b.0 {
                a.1
            } else {
                b.1
            }, line_len)
        } else if line == hi {
            (0, if a.0 > b.0 {
                a.1
            } else {
                b.1
            })
        } else {
            (0, line_len)
        };
        Some((if s <= line_len {
            s
        } else {
            line_len
        }, if e <= line_len {
            e
        } else {
            line_len
        }))
    }

    /// The selected text (see `selected_text`), in line mode when the mode
    /// is visual line; empty without a complete selection.
    pub fn get_selected_text(&self) -> (r: String)
        ensures
            r@ == (match (self.editor_state.selection_start, self.editor_state.selection_end) {
                (Some(a), Some(b)) => selected_text(
                    strings_view(self.lines@),
                    self.editor_state.mode == EditorMode::VisualLine,
                    a,
                    b,
                ),
                _ => seq![],
            }),
    {
        let ghost ls = strings_view(self.lines@);
        let (a, b) = match (self.editor_state.selection_start, self.editor_state.selection_end) {
            (Some(a), Some(b)) => (a, b),
            _ => {
                return String::new();
            },
        };
        let (sl, sc) = if a.0 <= b.0 {
            a
        } else {
            b
        };
        let (el, ec) = if a.0 <= b.0 {
            b
        } else {
            a
        };
        let n = self.lines.len();
        if self.editor_state.mode == EditorMode::VisualLine {
            if sl < n && el < n {
                let mut r = String::new();
                let mut i = sl;
                while i <= el
                    invariant
                        sl <= i <= el + 1,
                        el < n == self.lines@.len(),
                        ls == strings_view(self.lines@),
                        r@ == join_with(ls.subrange(sl as int, i as int), seq!['\n']),
                    decreases el + 1 - i,
                {
                    let ghost prev = ls.subrange(sl as int, i as int);
                    if i > sl {
                        push_char(&mut r, '\n');
                    }
                    push_str(&mut r, self.lines[i].as_str());
                    assert(ls.subrange(sl as int, i + 1) =~= prev.push(ls[i as int]));
                    assert(prev.push(ls[i as int]).drop_last() =~= prev);
                    assert(ls[i as int] == self.lines@[i as int]@);
                    assert(r@ =~= join_with(prev.push(ls[i as int]), seq!['\n']));
                    i = i + 1;
                }
                return r;
            }
            return String::new();
        }
        if sl == el {
            if sl < n {
                assert(ls[sl as int] == self.lines@[sl as int]@);
                let line = self.lines[sl].as_str();
                let len = line.unicode_len();
                let x = if sc <= len {
                    sc
                } else {
                    len
                };
                let y = if ec <= len {
                    ec
                } else {
                    len
                };
                if x < y {
                    return slice_string(line, x, y);
                } else {
                    return slice_string(line, y, x);
                }
            }
            return String::new();
        }
        let mut r = String::new();
        if sl < n {
            assert(ls[sl as int] == self.lines@[sl as int]@);
            let line = self.lines[sl].as_str();
            let len = line.unicode_len();
            let x = if sc <= len {
                sc
            } else {
                len
            };
            let part = slice_string(line, x, len);
            push_str(&mut r, part.as_str());
            push_char(&mut r, '\n');
            assert(line@.subrange(x as int, len as int) =~= line@.skip(x as int));
        }
        let ghost head = r@;
        let mut i = sl + 1;
        while i < el
            invariant
                sl < el,
                sl + 1 <= i <= el,
                n == self.lines@.len(),
                ls == strings_view(self.lines@),
                r@ + middle_lines(ls, i as nat, el as nat) == head + middle_lines(
                    ls,
                    sl as nat + 1,
                    el as nat,
                ),
            decreases el - i,
        {
            let ghost before = r@;
            if i < n {
                assert(ls[i as int] == self.lines@[i as int]@);
                push_str(&mut r, self.lines[i].as_str());
                push_char(&mut r, '\n');
            }
            assert(before + middle_lines(ls, i as nat, el as nat) =~= r@ + middle_lines(
                ls,
                i as nat + 1,
                el as nat,
            ));
            i = i + 1;
        }
        if el < n {
            assert(ls[el as int] == self.lines@[el as int]@);
            let line = self.lines[el].as_str();
            let len = line.unicode_len();
            let y = if ec <= len {
                ec
            } else {
                len
            };
            let part = slice_string(line, 0, y);
            push_str(&mut r, part.as_str());
            assert(line@.subrange(0, y as int) =~= line@.take(y as int));
        }
        assert(middle_lines(ls, el as nat, el as nat) == Seq::<char>::empty());
        r
    }

    /// Whether `post` is what `select_inner_word` gives.
    pub open spec fn inner_word_selected(self, big_word: bool, post: Editor) -> bool {
        &&& (({
                    let l = self.cursor_line();
                    if l < self.lines@.len() {
                        match inner_word_range(self.lines@[l as int]@, self.cursor_x as nat, big_word) {
                            Some((a, b)) => self.selecting(
                                Some((l, a as usize)),
                                Some((l, b as usize)),
                                post,
                            ),
                            None => post == self,
                        }
                    } else {
                        post == self
                    }
                }))
    }

    /// Selects the word under the cursor (see `inner_word_range`), also in
    /// the active buffer; off the document, on an empty line or on
    /// whitespace nothing changes. The cursor's column and the selection's
    /// columns count characters, not bytes, as all columns of this library
    /// do: on a line with characters of more than one byte the cursor's
    /// column is kept on the line by its number of characters, and the
    /// selection ends after the word's last character.
    pub fn select_inner_word(&mut self, big_word: bool)
        ensures
            old(self).inner_word_selected(big_word, *final(self)),
    {
        let (line_idx, col_idx) = self.get_cursor_position();
        if line_idx >= self.lines.len() {
            return ;
        }
        match inner_word_exec(self.lines[line_idx].as_str(), col_idx, big_word) {
            Some((a, b)) => {
                self.editor_state.selection_start = Some((line_idx, a));
                self.editor_state.selection_end = Some((line_idx, b));
                let i = self.active_buffer;
                set_buffer_selection(&mut self.buffers, i, Some((line_idx, a)), Some((line_idx, b)));
            },
            None => {},
        }
    }

    /// The word under the cursor, which `*` and `#` search for: the run of
    /// word characters around the cursor's column on its line (see
    /// `word_range_at`); none off the document, on an empty line, or where
    /// the character under the cursor is not a word character.
    pub open spec fn word_at_cursor(self) -> Option<Seq<char>> {
        let l = self.cursor_line();
        if l < self.lines@.len() {
            let s = self.lines@[l as int]@;
            match word_range_at(s, self.cursor_x as nat) {
                Some((a, b)) => Some(s.subrange(a as int, b as int)),
                None => None,
            }
        } else {
            None
        }
    }

    /// The word under the cursor (see `word_at_cursor`).
    pub fn get_word_under_cursor(&self) -> (r: Option<String>)
        ensures
            r matches Some(w) ==> self.word_at_cursor() == Some(w@) && w@.len() > 0,
            r is None ==> self.word_at_cursor() is None,
    {
        let (line_idx, col_idx) = self.get_cursor_position();
        if line_idx >= self.lines.len() {
            return None;
        }
        let line = self.lines[line_idx].as_str();
        match word_range_exec(line, col_idx) {
            Some((a, b)) => Some(slice_string(line, a, b)),
            None => None,
        }
    }

    /// Selects the word around the cursor with its surrounding whitespace
    /// (see `around_word_range`), also in the active buffer; off the
    /// document or on an empty line nothing changes.
    pub fn select_around_word(&mut self, big_word: bool)
        ensures
            ({
                let l = old(self).cursor_line();
                if l < old(self).lines@.len() && old(self).lines@[l as int]@.len() > 0 {
                    let (a, b) = around_word_range(
                        old(self).lines@[l as int]@,
                        old(self).cursor_x as nat,
                        big_word,
                    );
                    old(self).selecting(Some((l, a as usize)), Some((l, b as usize)), *final(self))
                } else {
                    *final(self) == *old(self)
                }
            }),
    {
        let (line_idx, col_idx) = self.get_cursor_position();
        if line_idx >= self.lines.len() {
            return ;
        }
        let line = self.lines[line_idx].as_str();
        if line.unicode_len() == 0 {
            return ;
        }
        let (a, b) = around_word_exec(line, col_idx, big_word);
        self.editor_state.selection_start = Some((line_idx, a));
        self.editor_state.selection_end = Some((line_idx, b));
        let i = self.active_buffer;
        set_buffer_selection(&mut self.buffers, i, Some((line_idx, a)), Some((line_idx, b)));
    }

    /// Restores the remembered selection (`gv`): its mode becomes the
    /// active mode, the selection is set here and in the active buffer, and
    /// the cursor moves to its end as `move_to_position` does. Without a
    /// remembered selection nothing changes.
    pub fn restore_visual_selection(&mut self)
        ensures
            old(self).visual_restored(*final(self)),
    {
        let es = &self.editor_state;
        match (es.last_visual_start, es.last_visual_end, es.last_visual_mode) {
            (Some(s), Some(e), Some(m)) => {
                self.set_active_mode(m);
                let ghost sel = *self;
                self.editor_state.selection_start = Some(s);
                self.editor_state.selection_end = Some(e);
                let i = self.active_buffer;
                set_buffer_selection(&mut self.buffers, i, Some(s), Some(e));
                let ghost moved = *self;
                assert(sel.selecting(Some(s), Some(e), moved));
                self.move_to_position(e.0, e.1);
            },
            _ => {},
        }
    }
}

} // verus!
