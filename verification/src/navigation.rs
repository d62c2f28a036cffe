//! Targets of the motions between lines, paragraphs and sentences. Lines
//! are taken as their characters, and columns count characters.

use vstd::prelude::*;
use crate::editor::Editor;
use crate::justify::strings_view;
use crate::movement::{lemma_non_ws_from, non_ws_from, non_ws_index_from};
use crate::text::{is_whitespace, is_word_char, spec_is_whitespace, spec_is_word_char};

verus! {

/// A line of whitespace only (or of nothing).
pub open spec fn blank(s: Seq<char>) -> bool {
    forall|i: int| 0 <= i < s.len() ==> spec_is_whitespace(s[i])
}

/// The first line at or after `l` with a non-whitespace character, and the
/// column of its first such character.
pub open spec fn next_line_start_from(ls: Seq<Seq<char>>, l: nat) -> Option<(nat, nat)>
    decreases ls.len() - l,
{
    if l >= ls.len() {
        None
    } else {
        match non_ws_from(ls[l as int], 0) {
            Some(c) => Some((l, c)),
            None => next_line_start_from(ls, l + 1),
        }
    }
}

/// Where the next text starts from line `start` on: the first
/// non-whitespace character; when there is none, the start of line
/// `start`, or of the last line when `start` lies past the end.
pub open spec fn next_line_start(ls: Seq<Seq<char>>, start: nat) -> (nat, nat) {
    match next_line_start_from(ls, start) {
        Some(p) => p,
        None => if start < ls.len() {
            (start, 0)
        } else {
            (if ls.len() >= 1 {
                (ls.len() - 1) as nat
            } else {
                0
            }, 0)
        },
    }
}

/// The end of the whitespace-free text before column `e`.
pub open spec fn skip_back_ws(s: Seq<char>, e: nat) -> nat
    decreases e,
{
    if e == 0 {
        0
    } else if spec_is_whitespace(s[e - 1]) {
        skip_back_ws(s, (e - 1) as nat)
    } else {
        e
    }
}

/// The start of the run of word characters that ends at column `e`.
pub open spec fn skip_back_word(s: Seq<char>, e: nat) -> nat
    decreases e,
{
    if e == 0 {
        0
    } else if spec_is_word_char(s[e - 1]) {
        skip_back_word(s, (e - 1) as nat)
    } else {
        e
    }
}

/// The start of the run of punctuation (neither whitespace nor word
/// characters) that ends at column `e`.
pub open spec fn skip_back_punct(s: Seq<char>, e: nat) -> nat
    decreases e,
{
    if e == 0 {
        0
    } else if !spec_is_whitespace(s[e - 1]) && !spec_is_word_char(s[e - 1]) {
        skip_back_punct(s, (e - 1) as nat)
    } else {
        e
    }
}

/// The column where the last word (or run of punctuation) of `s` starts;
/// 0 for a blank line.
pub open spec fn last_word_start(s: Seq<char>) -> nat {
    let e = skip_back_ws(s, s.len());
    if e > 0 && spec_is_word_char(s[e - 1]) {
        skip_back_word(s, e)
    } else {
        skip_back_punct(s, e)
    }
}

/// The first blank line at or after `i`.
pub open spec fn first_blank_from(ls: Seq<Seq<char>>, i: nat) -> Option<nat>
    decreases ls.len() - i,
{
    if i >= ls.len() {
        None
    } else if blank(ls[i as int]) {
        Some(i)
    } else {
        first_blank_from(ls, i + 1)
    }
}

/// The first non-blank line at or after `i`.
pub open spec fn first_nonblank_from(ls: Seq<Seq<char>>, i: nat) -> Option<nat>
    decreases ls.len() - i,
{
    if i >= ls.len() {
        None
    } else if !blank(ls[i as int]) {
        Some(i)
    } else {
        first_nonblank_from(ls, i + 1)
    }
}

/// The last blank line before `i`.
pub open spec fn last_blank_before(ls: Seq<Seq<char>>, i: nat) -> Option<nat>
    decreases i,
{
    if i == 0 {
        None
    } else if blank(ls[i - 1]) {
        Some((i - 1) as nat)
    } else {
        last_blank_before(ls, (i - 1) as nat)
    }
}

/// The last non-blank line before `i`.
pub open spec fn last_nonblank_before(ls: Seq<Seq<char>>, i: nat) -> Option<nat>
    decreases i,
{
    if i == 0 {
        None
    } else if !blank(ls[i - 1]) {
        Some((i - 1) as nat)
    } else {
        last_nonblank_before(ls, (i - 1) as nat)
    }
}

/// The target of `}` (forward) or `{` from line `cur`: forward, the first
/// non-blank line after the next blank line (or that blank line, or the
/// last line); backward, the line after the last non-blank line before the
/// previous blank line (or the first line).
pub open spec fn paragraph_boundary(ls: Seq<Seq<char>>, cur: nat, forward: bool) -> (nat, nat) {
    if forward {
        match first_blank_from(ls, cur + 1) {
            Some(l) => match first_nonblank_from(ls, l + 1) {
                Some(n) => (n, 0),
                None => (l, 0),
            },
            None => (if ls.len() >= 1 {
                (ls.len() - 1) as nat
            } else {
                0
            }, 0),
        }
    } else if cur == 0 {
        (0, 0)
    } else {
        match last_blank_before(ls, cur) {
            Some(l) => match last_nonblank_before(ls, l) {
                Some(p) => (p + 1, 0),
                None => (0, 0),
            },
            None => (0, 0),
        }
    }
}

/// Column `i` of `s` ends a sentence: a `.`, `!` or `?` at the end of the
/// line or before whitespace.
pub open spec fn is_sentence_end(s: Seq<char>, i: nat) -> bool {
    &&& i < s.len()
    &&& (s[i as int] == '.' || s[i as int] == '!' || s[i as int] == '?')
    &&& (i + 1 >= s.len() || spec_is_whitespace(s[i + 1 as int]))
}

/// Where the sentence after the one ending at `(l, c)` starts: the next
/// non-whitespace character on the line or on a following line, or the
/// end itself when there is none.
pub open spec fn sentence_start_after(ls: Seq<Seq<char>>, l: nat, c: nat) -> (nat, nat) {
    match non_ws_from(ls[l as int], c + 1) {
        Some(k) => (l, k),
        None => match next_line_start_from(ls, l + 1) {
            Some(p) => p,
            None => (l, c),
        },
    }
}

/// The last character of the last line (`(0, 0)` for no lines).
pub open spec fn last_position(ls: Seq<Seq<char>>) -> (nat, nat) {
    if ls.len() == 0 {
        (0, 0)
    } else {
        (
            (ls.len() - 1) as nat,
            if ls.last().len() >= 1 {
                (ls.last().len() - 1) as nat
            } else {
                0
            },
        )
    }
}

/// The start of the next sentence, searching for a sentence end from
/// `(l, c)` on; the last character of the text when there is no sentence
/// end.
pub open spec fn next_sentence_from(ls: Seq<Seq<char>>, l: nat, c: nat) -> (nat, nat)
    decreases ls.len() - l, ls[l as int].len() - c,
{
    if l >= ls.len() {
        last_position(ls)
    } else if c >= ls[l as int].len() {
        next_sentence_from(ls, l + 1, 0)
    } else if is_sentence_end(ls[l as int], c) {
        sentence_start_after(ls, l, c)
    } else {
        next_sentence_from(ls, l, c + 1)
    }
}

/// The start of the previous sentence: just after the last sentence end
/// found searching back from `(l, c)` (column 0 of a line is not
/// searched), or `(0, 0)`.
pub open spec fn prev_sentence_from(ls: Seq<Seq<char>>, l: nat, c: nat) -> (nat, nat)
    decreases l, c,
{
    if c > 0 {
        if is_sentence_end(ls[l as int], c) {
            (l, c + 1)
        } else {
            prev_sentence_from(ls, l, (c - 1) as nat)
        }
    } else if l == 0 {
        (0, 0)
    } else {
        prev_sentence_from(
            ls,
            (l - 1) as nat,
            if ls[l - 1].len() >= 1 {
                (ls[l - 1].len() - 1) as nat
            } else {
                0
            },
        )
    }
}

/// A pair of indices as natural numbers.
pub open spec fn as_nats(p: (usize, usize)) -> (nat, nat) {
    (p.0 as nat, p.1 as nat)
}

/// Whether `s` is blank.
pub fn is_blank(s: &str) -> (r: bool)
    ensures
        r == blank(s@),
{
    proof {
        lemma_non_ws_from(s@, 0);
    }
    non_ws_index_from(s, 0).is_none()
}

/// `next_line_start_from`, from line `l` on.
fn next_line_start_exec(lines: &Vec<String>, l: usize) -> (r: Option<(usize, usize)>)
    ensures
        r matches Some(p) ==> next_line_start_from(strings_view(lines@), l as nat) == Some(
            as_nats(p),
        ),
        r is None ==> next_line_start_from(strings_view(lines@), l as nat) is None,
{
    let ghost ls = strings_view(lines@);
    let mut i = l;
    while i < lines.len()
        invariant
            l <= i,
            ls == strings_view(lines@),
            next_line_start_from(ls, l as nat) == next_line_start_from(ls, i as nat),
        decreases lines@.len() - i,
    {
        assert(ls[i as int] == lines@[i as int]@);
        match non_ws_index_from(lines[i].as_str(), 0) {
            Some(c) => {
                return Some((i, c));
            },
            None => {},
        }
        i = i + 1;
    }
    None
}

/// Whether column `i` of `s` ends a sentence.
fn sentence_end_at(s: &str, i: usize) -> (r: bool)
    ensures
        r == is_sentence_end(s@, i as nat),
{
    let n = s.unicode_len();
    if i >= n {
        return false;
    }
    let c = s.get_char(i);
    if c != '.' && c != '!' && c != '?' {
        return false;
    }
    i + 1 >= n || is_whitespace(s.get_char(i + 1))
}

/// `next_sentence_from(lines, l, c)`.
fn next_sentence(lines: &Vec<String>, l: usize, c: usize) -> (r: (usize, usize))
    ensures
        as_nats(r) == next_sentence_from(strings_view(lines@), l as nat, c as nat),
{
    let ghost ls = strings_view(lines@);
    let n = lines.len();
    let mut sl = l;
    let mut sc = c;
    while sl < n
        invariant
            n == lines@.len(),
            ls == strings_view(lines@),
            next_sentence_from(ls, l as nat, c as nat) == next_sentence_from(
                ls,
                sl as nat,
                sc as nat,
            ),
        decreases n - sl,
    {
        let len = lines[sl].as_str().unicode_len();
        while sc < len
            invariant
                sl < n,
                n == lines@.len(),
                ls == strings_view(lines@),
                len == ls[sl as int].len(),
                next_sentence_from(ls, l as nat, c as nat) == next_sentence_from(
                    ls,
                    sl as nat,
                    sc as nat,
                ),
            decreases len - sc,
        {
            if sentence_end_at(lines[sl].as_str(), sc) {
                return start_after(lines, sl, sc);
            }
            sc = sc + 1;
        }
        sl = sl + 1;
        sc = 0;
    }
    if n == 0 {
        (0, 0)
    } else {
        let m = lines[n - 1].as_str().unicode_len();
        (n - 1, if m >= 1 {
            m - 1
        } else {
            0
        })
    }
}

/// `sentence_start_after(lines, l, c)` for a sentence end at `(l, c)`.
fn start_after(lines: &Vec<String>, l: usize, c: usize) -> (r: (usize, usize))
    requires
        l < lines@.len(),
        c < lines@[l as int]@.len(),
    ensures
        as_nats(r) == sentence_start_after(strings_view(lines@), l as nat, c as nat),
{
    let _n = lines.len();
    let _len = lines[l].as_str().unicode_len();
    match non_ws_index_from(lines[l].as_str(), c + 1) {
        Some(k) => (l, k),
        None => match next_line_start_exec(lines, l + 1) {
            Some(p) => p,
            None => (l, c),
        },
    }
}

/// `prev_sentence_from(lines, l, c)`.
fn prev_sentence(lines: &Vec<String>, l: usize, c: usize) -> (r: (usize, usize))
    requires
        l < lines@.len(),
    ensures
        as_nats(r) == prev_sentence_from(strings_view(lines@), l as nat, c as nat),
{
    let ghost ls = strings_view(lines@);
    let mut sl = l;
    let mut sc = c;
    loop
        invariant
            sl < lines@.len(),
            ls == strings_view(lines@),
            prev_sentence_from(ls, l as nat, c as nat) == prev_sentence_from(
                ls,
                sl as nat,
                sc as nat,
            ),
        decreases sl, sc,
    {
        while sc > 0
            invariant
                sl < lines@.len(),
                ls == strings_view(lines@),
                prev_sentence_from(ls, l as nat, c as nat) == prev_sentence_from(
                    ls,
                    sl as nat,
                    sc as nat,
                ),
            decreases sc,
        {
            let _len = lines[sl].as_str().unicode_len();
            if sentence_end_at(lines[sl].as_str(), sc) {
                return (sl, sc + 1);
            }
            sc = sc - 1;
        }
        if sl == 0 {
            return (0, 0);
        }
        sl = sl - 1;
        let m = lines[sl].as_str().unicode_len();
        sc = if m >= 1 {
            m - 1
        } else {
            0
        };
    }
}

impl Editor {
    /// Where the next text starts from line `start_line` on (see
    /// `next_line_start`).
    pub fn find_next_line_start(&self, start_line: usize) -> (r: (usize, usize))
        ensures
            as_nats(r) == next_line_start(strings_view(self.lines@), start_line as nat),
    {
        match next_line_start_exec(&self.lines, start_line) {
            Some(p) => p,
            None => if start_line < self.lines.len() {
                (start_line, 0)
            } else {
                (if self.lines.len() >= 1 {
                    self.lines.len() - 1
                } else {
                    0
                }, 0)
            },
        }
    }

    /// The start of the last word of line `target_line`, or `(0, 0)` past
    /// the end of the document.
    pub fn find_prev_line_end(&self, target_line: usize) -> (r: (usize, usize))
        ensures
            target_line >= self.lines@.len() ==> r == (0usize, 0usize),
            target_line < self.lines@.len() ==> r.0 == target_line && r.1 == last_word_start(
                self.lines@[target_line as int]@,
            ),
    {
        if target_line >= self.lines.len() {
            return (0, 0);
        }
        let line = self.lines[target_line].as_str();
        let ghost s = line@;
        let mut end = line.unicode_len();
        while end > 0 && is_whitespace(line.get_char(end - 1))
            invariant
                line@ == s,
                end <= s.len(),
                skip_back_ws(s, s.len()) == skip_back_ws(s, end as nat),
            decreases end,
        {
            end = end - 1;
        }
        assert(skip_back_ws(s, s.len()) == end);
        let mut start = end;
        if start > 0 && is_word_char(line.get_char(start - 1)) {
            while start > 0 && is_word_char(line.get_char(start - 1))
                invariant
                    line@ == s,
                    start <= s.len(),
                    skip_back_word(s, end as nat) == skip_back_word(s, start as nat),
                decreases start,
            {
                start = start - 1;
            }
        } else {
            while start > 0 && !is_whitespace(line.get_char(start - 1)) && !is_word_char(
                line.get_char(start - 1),
            )
                invariant
                    line@ == s,
                    start <= s.len(),
                    skip_back_punct(s, end as nat) == skip_back_punct(s, start as nat),
                decreases start,
            {
                start = start - 1;
            }
        }
        (target_line, start)
    }

    /// The target of `}` (forward) or `{` from the cursor's line (see
    /// `paragraph_boundary`).
    pub fn find_paragraph_boundary(&self, forward: bool) -> (r: (usize, usize))
        ensures
            as_nats(r) == paragraph_boundary(
                strings_view(self.lines@),
                self.cursor_line() as nat,
                forward,
            ),
    {
        let ghost ls = strings_view(self.lines@);
        let (current_line, _) = self.get_cursor_position();
        let n = self.lines.len();
        if forward {
            let mut i = current_line + 1;
            while i < n
                invariant
                    forward,
                    current_line == self.cursor_line(),
                    n == self.lines@.len(),
                    ls == strings_view(self.lines@),
                    current_line + 1 <= i,
                    first_blank_from(ls, current_line as nat + 1) == first_blank_from(ls, i as nat),
                decreases n - i,
            {
                assert(ls[i as int] == self.lines@[i as int]@);
                if is_blank(self.lines[i].as_str()) {
                    let mut j = i + 1;
                    while j < n
                        invariant
                            forward,
                            current_line == self.cursor_line(),
                            n == self.lines@.len(),
                            ls == strings_view(self.lines@),
                            i < n,
                            blank(ls[i as int]),
                            first_blank_from(ls, current_line as nat + 1) == first_blank_from(
                                ls,
                                i as nat,
                            ),
                            i + 1 <= j,
                            first_nonblank_from(ls, i as nat + 1) == first_nonblank_from(
                                ls,
                                j as nat,
                            ),
                        decreases n - j,
                    {
                        assert(ls[j as int] == self.lines@[j as int]@);
                        if !is_blank(self.lines[j].as_str()) {
                            assert(first_blank_from(ls, i as nat) == Some(i as nat));
                            assert(first_nonblank_from(ls, j as nat) == Some(j as nat));
                            return (j, 0);
                        }
                        j = j + 1;
                    }
                    assert(first_blank_from(ls, i as nat) == Some(i as nat));
                    assert(first_nonblank_from(ls, j as nat) is None);
                    return (i, 0);
                }
                i = i + 1;
            }
            (if n >= 1 {
                n - 1
            } else {
                0
            }, 0)
        } else {
            if current_line == 0 {
                return (0, 0);
            }
            let mut i = current_line;
            while i > 0
                invariant
                    !forward,
                    current_line == self.cursor_line(),
                    i <= current_line < n,
                    n == self.lines@.len(),
                    ls == strings_view(self.lines@),
                    last_blank_before(ls, current_line as nat) == last_blank_before(ls, i as nat),
                decreases i,
            {
                assert(ls[i - 1] == self.lines@[i - 1]@);
                if is_blank(self.lines[i - 1].as_str()) {
                    let l = i - 1;
                    let mut j = l;
                    while j > 0
                        invariant
                            !forward,
                            current_line == self.cursor_line(),
                            j <= l < n,
                            l + 1 == i,
                            i <= current_line,
                            n == self.lines@.len(),
                            ls == strings_view(self.lines@),
                            blank(ls[l as int]),
                            last_blank_before(ls, current_line as nat) == last_blank_before(
                                ls,
                                i as nat,
                            ),
                            last_nonblank_before(ls, l as nat) == last_nonblank_before(
                                ls,
                                j as nat,
                            ),
                        decreases j,
                    {
                        assert(ls[j - 1] == self.lines@[j - 1]@);
                        if !is_blank(self.lines[j - 1].as_str()) {
                            assert(last_blank_before(ls, i as nat) == Some(l as nat));
                            assert(last_nonblank_before(ls, j as nat) == Some((j - 1) as nat));
                            return (j, 0);
                        }
                        j = j - 1;
                    }
                    assert(last_blank_before(ls, i as nat) == Some(l as nat));
                    assert(last_nonblank_before(ls, 0) is None);
                    return (0, 0);
                }
                i = i - 1;
            }
            (0, 0)
        }
    }

    /// The target of `)` (forward) or `(` from the cursor: forward, the
    /// start of the next sentence searching after the cursor; backward,
    /// just after the previous sentence end searching before the cursor
    /// (see `next_sentence_from` and `prev_sentence_from`). Searching
    /// backward needs a line to search.
    pub fn find_sentence_boundary(&self, forward: bool) -> (r: (usize, usize))
        requires
            forward ==> self.cursor_x < usize::MAX,
            !forward ==> self.lines@.len() > 0,
        ensures
            forward ==> as_nats(r) == next_sentence_from(
                strings_view(self.lines@),
                self.cursor_line() as nat,
                (self.cursor_x + 1) as nat,
            ),
            !forward ==> as_nats(r) == prev_sentence_from(
                strings_view(self.lines@),
                self.cursor_line() as nat,
                (if self.cursor_x >= 1 {
                    self.cursor_x - 1
                } else {
                    0
                }) as nat,
            ),
    {
        let (line, col) = self.get_cursor_position();
        if forward {
            next_sentence(&self.lines, line, col + 1)
        } else {
            prev_sentence(&self.lines, line, if col >= 1 {
                col - 1
            } else {
                0
            })
        }
    }
}

} // verus!
