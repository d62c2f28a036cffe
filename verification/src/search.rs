//! Case-insensitive search through the document: the match shown while a
//! query is typed, the first match of a new search, the next and previous
//! matches, and centring the view on a match.
//!
//! Lines and the query are compared in lower case; positions are counted
//! in the lower-cased text, and a match's end is its start plus the length
//! of the query.

use vstd::prelude::*;
use crate::core_types::{BufferState, EditorMode, EditorState};
use crate::editor::{Editor, RenderState, sat_sub};
use crate::justify::strings_view;
use crate::keys::{Key, KeyCode};
use crate::text::{chars_of, push_char, spec_to_lowercase, to_lowercase};

verus! {

/// Whether `n` occurs in `h` at position `i`.
pub open spec fn occurs_at(h: Seq<char>, n: Seq<char>, i: int) -> bool {
    0 <= i && i + n.len() <= h.len() && h.subrange(i, i + n.len()) == n
}

/// The first position at or after `i` where `n` occurs in `h`.
pub open spec fn find_from(h: Seq<char>, n: Seq<char>, i: nat) -> Option<nat>
    decreases h.len() + 1 - i,
{
    if i + n.len() > h.len() {
        None
    } else if occurs_at(h, n, i as int) {
        Some(i)
    } else {
        find_from(h, n, i + 1)
    }
}

/// The last position at or before `i` where `n` occurs in `h`.
pub open spec fn rfind_from(h: Seq<char>, n: Seq<char>, i: int) -> Option<nat>
    decreases i + 1,
{
    if i < 0 {
        None
    } else if occurs_at(h, n, i) {
        Some(i as nat)
    } else {
        rfind_from(h, n, i - 1)
    }
}

/// The first position where `n` occurs in `h`.
pub open spec fn str_find(h: Seq<char>, n: Seq<char>) -> Option<nat> {
    find_from(h, n, 0)
}

/// The last position where `n` occurs in `h`.
pub open spec fn str_rfind(h: Seq<char>, n: Seq<char>) -> Option<nat> {
    rfind_from(h, n, h.len() - n.len())
}

/// `a + b`, or `usize::MAX` when that is larger.
pub open spec fn sat_add(a: int, b: int) -> nat {
    if a + b <= usize::MAX {
        (a + b) as nat
    } else {
        usize::MAX as nat
    }
}

/// The match of `q` in the lower-cased line `h`: the first occurrence, or
/// the last with `last`, and its end `qlen` further on.
pub open spec fn hit_in(h: Seq<char>, q: Seq<char>, qlen: nat, last: bool) -> Option<(nat, nat)> {
    match (if last {
        str_rfind(h, q)
    } else {
        str_find(h, q)
    }) {
        Some(s) => Some((s, sat_add(s as int, qlen as int))),
        None => None,
    }
}

/// The first match among lines `lo..hi`, as `(line, start, end)`.
pub open spec fn first_line_hit(ls: Seq<Seq<char>>, q: Seq<char>, qlen: nat, lo: nat, hi: nat) -> Option<
    (nat, nat, nat),
>
    decreases hi - lo,
{
    if lo >= hi {
        None
    } else {
        match hit_in(spec_to_lowercase(ls[lo as int]), q, qlen, false) {
            Some((s, e)) => Some((lo, s, e)),
            None => first_line_hit(ls, q, qlen, lo + 1, hi),
        }
    }
}

/// The match on the last line among `lo..hi` that has one; within a line
/// the first occurrence, or the last with `last`.
pub open spec fn last_line_hit(
    ls: Seq<Seq<char>>,
    q: Seq<char>,
    qlen: nat,
    lo: nat,
    hi: nat,
    last: bool,
) -> Option<(nat, nat, nat)>
    decreases hi - lo,
{
    if hi <= lo {
        None
    } else {
        match hit_in(spec_to_lowercase(ls[hi - 1]), q, qlen, last) {
            Some((s, e)) => Some(((hi - 1) as nat, s, e)),
            None => last_line_hit(ls, q, qlen, lo, (hi - 1) as nat, last),
        }
    }
}

/// The match on the cursor's line `cur`: forward, the first one from
/// column `x` on; backward, the last one that lies wholly before column
/// `x`.
pub open spec fn cursor_line_hit(
    ls: Seq<Seq<char>>,
    cur: nat,
    x: nat,
    q: Seq<char>,
    qlen: nat,
    forward: bool,
) -> Option<(nat, nat, nat)> {
    if cur >= ls.len() {
        None
    } else if forward {
        if x < ls[cur as int].len() {
            match str_find(spec_to_lowercase(ls[cur as int].skip(x as int)), q) {
                Some(p) => Some((cur, sat_add(x as int, p as int), sat_add(sat_add(x as int, p as int) as int, qlen as int))),
                None => None,
            }
        } else {
            None
        }
    } else if x > 0 {
        let upto = if x <= ls[cur as int].len() {
            x
        } else {
            ls[cur as int].len()
        };
        match str_rfind(spec_to_lowercase(ls[cur as int].take(upto as int)), q) {
            Some(p) => Some((cur, p, sat_add(p as int, qlen as int))),
            None => None,
        }
    } else {
        None
    }
}

/// The smaller of `a` and `b`.
pub open spec fn min_nat(a: nat, b: nat) -> nat {
    if a <= b {
        a
    } else {
        b
    }
}

/// The match on another line, searching from line `cur` and wrapping
/// around: forward, the lines after `cur`, then from the first line up to
/// `cur`; backward, the lines before `cur` from the nearest, then from the
/// last line down to `cur`.
pub open spec fn other_lines_hit(
    ls: Seq<Seq<char>>,
    q: Seq<char>,
    qlen: nat,
    cur: nat,
    forward: bool,
    last: bool,
) -> Option<(nat, nat, nat)> {
    if forward {
        match first_line_hit(ls, q, qlen, cur + 1, ls.len()) {
            Some(m) => Some(m),
            None => first_line_hit(ls, q, qlen, 0, min_nat(cur + 1, ls.len())),
        }
    } else {
        match last_line_hit(ls, q, qlen, 0, min_nat(cur, ls.len()), last) {
            Some(m) => Some(m),
            None => last_line_hit(ls, q, qlen, cur, ls.len(), last),
        }
    }
}

/// A match as `usize`s.
pub open spec fn as_match(m: Option<(nat, nat, nat)>) -> Option<(usize, usize, usize)> {
    match m {
        Some((l, s, e)) => Some((l as usize, s as usize, e as usize)),
        None => None,
    }
}

/// The buffers with buffer `i`, if there is one, given `m` as its match.
pub open spec fn with_buffer_match(bs: Seq<BufferState>, i: usize, m: Option<(usize, usize, usize)>) -> Seq<
    BufferState,
> {
    if i < bs.len() {
        bs.update(i as int, BufferState { current_match: m, ..bs[i as int] })
    } else {
        bs
    }
}

/// Sets the current match of buffer `i`, if there is one.
fn set_buffer_match(bs: &mut Vec<BufferState>, i: usize, m: Option<(usize, usize, usize)>)
    ensures
        final(bs)@ == with_buffer_match(old(bs)@, i, m),
{
    if i < bs.len() {
        bs[i].current_match = m;
    }
}

/// The offset that centres line `line` in a text area `ch` rows high:
/// never before the first line, and moved back to the last full screen
/// of `total` lines, or to the first line when the document is shorter
/// than the screen and `floor` is set.
pub open spec fn match_offset(line: int, ch: int, total: int, floor: bool) -> int {
    let n = line - ch / 2;
    if n < 0 {
        0
    } else if n + ch > total {
        if floor && total < ch {
            0
        } else {
            total - ch
        }
    } else {
        n
    }
}

/// `a + b`, or `usize::MAX` when that is larger.
fn sat_add_exec(a: usize, b: usize) -> (r: usize)
    ensures
        r == sat_add(a as int, b as int),
{
    if a <= usize::MAX - b {
        a + b
    } else {
        usize::MAX
    }
}

/// Whether `n` occurs in `h` at `i`.
fn occurs_at_exec(h: &Vec<char>, n: &Vec<char>, i: usize) -> (r: bool)
    ensures
        r == occurs_at(h@, n@, i as int),
{
    if i > h.len() || n.len() > h.len() - i {
        return false;
    }
    let mut k: usize = 0;
    while k < n.len()
        invariant
            i + n@.len() <= h@.len(),
            h@.len() <= usize::MAX,
            k <= n@.len(),
            forall|j: int| 0 <= j < k ==> h@[i + j] == n@[j],
        decreases n@.len() - k,
    {
        if h[i + k] != n[k] {
            assert(h@.subrange(i as int, i + n@.len())[k as int] != n@[k as int]);
            return false;
        }
        k = k + 1;
    }
    assert(h@.subrange(i as int, i + n@.len()) =~= n@);
    true
}

/// The first position where `n` occurs in `h` (see `str_find`).
pub(crate) fn find_exec(h: &Vec<char>, n: &Vec<char>) -> (r: Option<usize>)
    ensures
        r matches Some(i) ==> str_find(h@, n@) == Some(i as nat),
        r is None ==> str_find(h@, n@) is None,
{
    let mut i: usize = 0;
    while i <= h.len() && n.len() <= h.len() - i
        invariant
            find_from(h@, n@, 0) == find_from(h@, n@, i as nat),
        decreases h@.len() + 1 - i,
    {
        if occurs_at_exec(h, n, i) {
            return Some(i);
        }
        assert(n@.len() > 0) by {
            if n@.len() == 0 {
                assert(h@.subrange(i as int, i as int) =~= n@);
            }
        }
        i = i + 1;
    }
    None
}

/// The last position where `n` occurs in `h` (see `str_rfind`).
fn rfind_exec(h: &Vec<char>, n: &Vec<char>) -> (r: Option<usize>)
    ensures
        r matches Some(i) ==> str_rfind(h@, n@) == Some(i as nat),
        r is None ==> str_rfind(h@, n@) is None,
{
    if n.len() > h.len() {
        assert(rfind_from(h@, n@, h@.len() - n@.len()) is None);
        return None;
    }
    let mut i: usize = h.len() - n.len();
    loop
        invariant
            i <= h@.len(),
            str_rfind(h@, n@) == rfind_from(h@, n@, i as int),
        decreases i,
    {
        if occurs_at_exec(h, n, i) {
            return Some(i);
        }
        if i == 0 {
            assert(rfind_from(h@, n@, -1) is None);
            return None;
        }
        i = i - 1;
    }
}

/// The characters of `s` in lower case.
fn lower_chars(s: &str) -> (r: Vec<char>)
    ensures
        r@ == spec_to_lowercase(s@),
{
    let low = to_lowercase(s);
    chars_of(low.as_str())
}

/// The characters of `s` from index `x` on, as a string.
fn suffix_string(s: &str, x: usize) -> (r: String)
    requires
        x <= s@.len(),
    ensures
        r@ == s@.skip(x as int),
{
    let n = s.unicode_len();
    let mut r = String::new();
    let mut i = x;
    while i < n
        invariant
            n == s@.len(),
            x <= i <= n,
            r@ == s@.subrange(x as int, i as int),
        decreases n - i,
    {
        push_char(&mut r, s.get_char(i));
        i = i + 1;
        assert(r@ =~= s@.subrange(x as int, i as int));
    }
    assert(s@.subrange(x as int, n as int) =~= s@.skip(x as int));
    r
}

/// The first `x` characters of `s`, as a string.
fn prefix_string(s: &str, x: usize) -> (r: String)
    requires
        x <= s@.len(),
    ensures
        r@ == s@.take(x as int),
{
    let mut r = String::new();
    let mut i: usize = 0;
    while i < x
        invariant
            x <= s@.len(),
            i <= x,
            r@ == s@.take(i as int),
        decreases x - i,
    {
        push_char(&mut r, s.get_char(i));
        i = i + 1;
        assert(r@ =~= s@.take(i as int));
    }
    r
}

/// `hit_in` of line `s` in lower case.
fn line_hit(s: &str, q: &Vec<char>, qlen: usize, last: bool) -> (r: Option<(usize, usize)>)
    ensures
        r matches Some((a, b)) ==> hit_in(spec_to_lowercase(s@), q@, qlen as nat, last) == Some(
            (a as nat, b as nat),
        ),
        r is None ==> hit_in(spec_to_lowercase(s@), q@, qlen as nat, last) is None,
{
    let h = lower_chars(s);
    let found = if last {
        rfind_exec(&h, q)
    } else {
        find_exec(&h, q)
    };
    match found {
        Some(p) => Some((p, sat_add_exec(p, qlen))),
        None => None,
    }
}

/// `first_line_hit(lines, q, qlen, lo, hi)`.
fn first_line_hit_exec(lines: &Vec<String>, q: &Vec<char>, qlen: usize, lo: usize, hi: usize) -> (r:
    Option<(usize, usize, usize)>)
    requires
        hi <= lines@.len(),
    ensures
        as_match(first_line_hit(strings_view(lines@), q@, qlen as nat, lo as nat, hi as nat)) == r,
        first_line_hit(strings_view(lines@), q@, qlen as nat, lo as nat, hi as nat) is Some <==> r is Some,
        r matches Some((l, _, _)) ==> l < lines@.len(),
{
    let ghost ls = strings_view(lines@);
    let mut i = lo;
    while i < hi
        invariant
            hi <= lines@.len(),
            lo <= i,
            ls == strings_view(lines@),
            first_line_hit(ls, q@, qlen as nat, lo as nat, hi as nat) == first_line_hit(
                ls,
                q@,
                qlen as nat,
                i as nat,
                hi as nat,
            ),
        decreases hi - i,
    {
        assert(ls[i as int] == lines@[i as int]@);
        match line_hit(lines[i].as_str(), q, qlen, false) {
            Some((s, e)) => {
                return Some((i, s, e));
            },
            None => {},
        }
        i = i + 1;
    }
    None
}

/// `last_line_hit(lines, q, qlen, lo, hi, last)`.
fn last_line_hit_exec(
    lines: &Vec<String>,
    q: &Vec<char>,
    qlen: usize,
    lo: usize,
    hi: usize,
    last: bool,
) -> (r: Option<(usize, usize, usize)>)
    requires
        hi <= lines@.len(),
    ensures
        as_match(last_line_hit(strings_view(lines@), q@, qlen as nat, lo as nat, hi as nat, last))
            == r,
        last_line_hit(strings_view(lines@), q@, qlen as nat, lo as nat, hi as nat, last) is Some
            <==> r is Some,
        r matches Some((l, _, _)) ==> l < lines@.len(),
{
    let ghost ls = strings_view(lines@);
    let mut i = hi;
    while i > lo
        invariant
            i <= hi <= lines@.len(),
            ls == strings_view(lines@),
            last_line_hit(ls, q@, qlen as nat, lo as nat, hi as nat, last) == last_line_hit(
                ls,
                q@,
                qlen as nat,
                lo as nat,
                i as nat,
                last,
            ),
        decreases i,
    {
        assert(ls[i - 1] == lines@[i - 1]@);
        match line_hit(lines[i - 1].as_str(), q, qlen, last) {
            Some((s, e)) => {
                return Some((i - 1, s, e));
            },
            None => {},
        }
        i = i - 1;
    }
    None
}

/// `cursor_line_hit(lines, cur, x, q, qlen, forward)`.
fn cursor_line_hit_exec(
    lines: &Vec<String>,
    cur: usize,
    x: usize,
    q: &Vec<char>,
    qlen: usize,
    forward: bool,
) -> (r: Option<(usize, usize, usize)>)
    ensures
        as_match(cursor_line_hit(strings_view(lines@), cur as nat, x as nat, q@, qlen as nat, forward))
            == r,
        cursor_line_hit(strings_view(lines@), cur as nat, x as nat, q@, qlen as nat, forward) is Some
            <==> r is Some,
        r matches Some((l, _, _)) ==> l < lines@.len(),
{
    let ghost ls = strings_view(lines@);
    if cur >= lines.len() {
        return None;
    }
    assert(ls[cur as int] == lines@[cur as int]@);
    let line = lines[cur].as_str();
    let n = line.unicode_len();
    if forward {
        if x < n {
            let rest = suffix_string(line, x);
            let h = lower_chars(rest.as_str());
            match find_exec(&h, q) {
                Some(p) => {
                    let start = sat_add_exec(x, p);
                    Some((cur, start, sat_add_exec(start, qlen)))
                },
                None => None,
            }
        } else {
            None
        }
    } else if x > 0 {
        let upto = if x <= n {
            x
        } else {
            n
        };
        let before = prefix_string(line, upto);
        let h = lower_chars(before.as_str());
        match rfind_exec(&h, q) {
            Some(p) => Some((cur, p, sat_add_exec(p, qlen))),
            None => None,
        }
    } else {
        None
    }
}

/// `other_lines_hit(lines, q, qlen, cur, forward, last)`.
fn other_lines_hit_exec(
    lines: &Vec<String>,
    q: &Vec<char>,
    qlen: usize,
    cur: usize,
    forward: bool,
    last: bool,
) -> (r: Option<(usize, usize, usize)>)
    requires
        cur < usize::MAX,
    ensures
        as_match(other_lines_hit(strings_view(lines@), q@, qlen as nat, cur as nat, forward, last))
            == r,
        other_lines_hit(strings_view(lines@), q@, qlen as nat, cur as nat, forward, last) is Some
            <==> r is Some,
        r matches Some((l, _, _)) ==> l < lines@.len(),
{
    let n = lines.len();
    if forward {
        match first_line_hit_exec(lines, q, qlen, cur + 1, n) {
            Some(m) => Some(m),
            None => {
                let hi = if cur + 1 <= n {
                    cur + 1
                } else {
                    n
                };
                first_line_hit_exec(lines, q, qlen, 0, hi)
            },
        }
    } else {
        let hi = if cur <= n {
            cur
        } else {
            n
        };
        match last_line_hit_exec(lines, q, qlen, 0, hi, last) {
            Some(m) => Some(m),
            None => last_line_hit_exec(lines, q, qlen, cur, n, last),
        }
    }
}

impl Editor {
    /// The view centred on line `line` of a match, with the cursor on the
    /// match's column `col` (see `match_offset`).
    pub open spec fn centred_on(self, line: usize, col: usize, floor: bool) -> Editor {
        let o = match_offset(line as int, self.content_height() as int, self.total_lines as int, floor);
        Editor {
            offset: o as usize,
            cursor_y: sat_sub(line, o as usize),
            cursor_x: col,
            render: RenderState { cursor_moved: true, ..self.render },
            ..self
        }
    }

    /// Whether centring on a match at `line` stays within the numbers the
    /// computation uses, and, unless `floor` is set, does not move the
    /// view before the first line.
    pub open spec fn can_centre(self, line: usize, floor: bool) -> bool {
        let ch = self.content_height();
        &&& line < 0x4000_0000
        &&& ch < 0x4000_0000
        &&& self.total_lines < 0x4000_0000
        &&& (!floor && line >= ch / 2 && line - ch / 2 + ch > self.total_lines ==> self.total_lines
            >= ch)
    }

    /// The start of the search: the position saved when the search began,
    /// or else the cursor.
    pub open spec fn search_start(self) -> (int, usize) {
        match (self.editor_state.search_original_cursor, self.editor_state.search_original_offset) {
            (Some((y, x)), Some(o)) => (o + y, x),
            _ => (self.current_line_int(), self.cursor_x),
        }
    }

    /// The document line of the cursor.
    pub open spec fn current_line_int(self) -> int {
        self.offset + self.cursor_y
    }

    /// This editor with the shared match set to `m`.
    pub open spec fn with_match(self, m: Option<(usize, usize, usize)>) -> Editor {
        Editor { editor_state: EditorState { current_match: m, ..self.editor_state }, ..self }
    }

    /// This editor with the match shown while typing set to `m`.
    pub open spec fn with_preview(self, m: Option<(usize, usize, usize)>) -> Editor {
        Editor { editor_state: EditorState { search_preview_match: m, ..self.editor_state }, ..self }
    }
}

impl Editor {
    /// This editor back at the position saved when the search began, if
    /// one was saved.
    pub open spec fn back_to_search_start(self) -> Editor {
        match (self.editor_state.search_original_cursor, self.editor_state.search_original_offset) {
            (Some((y, x)), Some(o)) => Editor {
                offset: o,
                cursor_y: y,
                cursor_x: x,
                render: RenderState { cursor_moved: true, ..self.render },
                ..self
            },
            _ => self,
        }
    }

    /// The match shown while typing `query`: searching from where the
    /// search began, on that line first (with the end counted by the
    /// query's own length there), then on the other lines, wrapping around.
    pub open spec fn preview_for(self, query: Seq<char>, forward: bool) -> Option<(nat, nat, nat)> {
        let (line, x) = self.search_start();
        let q = spec_to_lowercase(query);
        let ls = strings_view(self.lines@);
        match cursor_line_hit(ls, line as nat, x as nat, q, query.len(), forward) {
            Some(h) => Some(h),
            None => other_lines_hit(ls, q, q.len(), line as nat, forward, false),
        }
    }

    /// Whether `post` is this editor showing the match for `query` while it
    /// is typed: the match (also given to the active buffer) with the view
    /// centred on it, or, with no match, none and the view back where the
    /// search began. An empty query only clears the shown match.
    pub open spec fn previewed(self, query: Seq<char>, forward: bool, post: Editor) -> bool {
        if query.len() == 0 {
            post == self.with_preview(None)
        } else {
            let m = as_match(self.preview_for(query, forward));
            &&& post.buffers@ == with_buffer_match(self.buffers@, self.active_buffer, m)
            &&& match m {
                Some((l, c, _)) => post == (Editor {
                    buffers: post.buffers,
                    ..self.with_preview(m).centred_on(l, c, true)
                }),
                None => post == (Editor {
                    buffers: post.buffers,
                    ..self.with_preview(None).back_to_search_start()
                }),
            }
        }
    }

    /// Whether a match shown while typing can be centred on: the document,
    /// the text area and the line count are below 2^30, and the position
    /// the search began at is a line number.
    pub open spec fn can_preview(self) -> bool {
        &&& self.lines@.len() < 0x4000_0000
        &&& self.content_height() < 0x4000_0000
        &&& self.total_lines < 0x4000_0000
        &&& self.search_start().0 < usize::MAX
    }
}

impl Editor {
    /// Whether `post` is this editor centred on its current match (see
    /// `centred_on`), or unchanged without one.
    pub open spec fn centred_on_match(self, post: Editor) -> bool {
        match self.editor_state.current_match {
            Some((l, c, _)) => post == self.centred_on(l, c, false),
            None => post == self,
        }
    }

    /// The match after (or, backward, before) the current match's line, or
    /// the cursor's line without one, wrapping around; within a line the
    /// first match, or the last searching backward.
    pub open spec fn next_match(self, forward: bool) -> Option<(nat, nat, nat)> {
        self.next_match_for(self.editor_state.search_query@, forward)
    }

    /// `next_match` for the query `query` in place of the search query.
    pub open spec fn next_match_for(self, query: Seq<char>, forward: bool) -> Option<(nat, nat, nat)> {
        let q = spec_to_lowercase(query);
        let ls = strings_view(self.lines@);
        let start = match self.editor_state.current_match {
            Some((l, _, _)) => l as nat,
            None => self.current_line_int() as nat,
        };
        other_lines_hit(ls, q, q.len(), start, forward, true)
    }

    /// Whether `post` is this editor moved on to the next match (see
    /// `next_match`), which becomes the current match and the active
    /// buffer's; unchanged when there is none or the query is empty.
    pub open spec fn next_match_found(self, forward: bool, post: Editor) -> bool {
        let m = self.next_match(forward);
        if self.editor_state.search_query@.len() > 0 && m is Some {
            &&& post.buffers@ == with_buffer_match(self.buffers@, self.active_buffer, as_match(m))
            &&& post == (Editor { buffers: post.buffers, ..self.with_match(as_match(m)) })
        } else {
            post == self
        }
    }
}

/// A match found on the lines lies on one of them.
pub proof fn lemma_first_line_hit_bound(ls: Seq<Seq<char>>, q: Seq<char>, qlen: nat, lo: nat, hi: nat)
    requires
        hi <= ls.len(),
    ensures
        first_line_hit(ls, q, qlen, lo, hi) matches Some((l, _, _)) ==> l < ls.len(),
    decreases hi - lo,
{
    if lo < hi {
        lemma_first_line_hit_bound(ls, q, qlen, lo + 1, hi);
    }
}

/// A match found on the lines lies on one of them.
pub proof fn lemma_last_line_hit_bound(
    ls: Seq<Seq<char>>,
    q: Seq<char>,
    qlen: nat,
    lo: nat,
    hi: nat,
    last: bool,
)
    requires
        hi <= ls.len(),
    ensures
        last_line_hit(ls, q, qlen, lo, hi, last) matches Some((l, _, _)) ==> l < ls.len(),
    decreases hi - lo,
{
    if lo < hi {
        lemma_last_line_hit_bound(ls, q, qlen, lo, (hi - 1) as nat, last);
    }
}

/// A match found on the other lines lies on one of them.
pub proof fn lemma_other_lines_hit_bound(
    ls: Seq<Seq<char>>,
    q: Seq<char>,
    qlen: nat,
    cur: nat,
    forward: bool,
    last: bool,
)
    ensures
        other_lines_hit(ls, q, qlen, cur, forward, last) matches Some((l, _, _)) ==> l < ls.len(),
{
    lemma_first_line_hit_bound(ls, q, qlen, cur + 1, ls.len());
    lemma_first_line_hit_bound(ls, q, qlen, 0, min_nat(cur + 1, ls.len()));
    lemma_last_line_hit_bound(ls, q, qlen, 0, min_nat(cur, ls.len()), last);
    lemma_last_line_hit_bound(ls, q, qlen, cur, ls.len(), last);
}

impl Editor {
    /// Centres the view on the current match and puts the cursor on it;
    /// without a match nothing changes.
    pub fn center_on_match(&mut self)
        requires
            old(self).editor_state.current_match matches Some((l, _, _)) ==> old(self).can_centre(
                l,
                false,
            ),
        ensures
            old(self).centred_on_match(*final(self)),
    {
        if let Some((line_idx, col_idx, _)) = self.editor_state.current_match {
            let o = self.centred_offset(line_idx, false);
            self.offset = o;
            self.cursor_y = if line_idx >= o {
                line_idx - o
            } else {
                0
            };
            self.cursor_x = col_idx;
            self.render.cursor_moved = true;
        }
    }

    /// Centres the view on the match shown while typing and puts the cursor
    /// on it; without one nothing changes.
    pub fn center_on_preview_match(&mut self)
        requires
            old(self).editor_state.search_preview_match matches Some((l, _, _)) ==> old(
                self,
            ).can_centre(l, true),
        ensures
            old(self).editor_state.search_preview_match is None ==> *final(self) == *old(self),
            old(self).editor_state.search_preview_match matches Some((l, c, _)) ==> *final(self)
                == old(self).centred_on(l, c, true),
    {
        if let Some((line_idx, col_idx, _)) = self.editor_state.search_preview_match {
            let o = self.centred_offset(line_idx, true);
            self.offset = o;
            self.cursor_y = if line_idx >= o {
                line_idx - o
            } else {
                0
            };
            self.cursor_x = col_idx;
            self.render.cursor_moved = true;
        }
    }

    /// `match_offset` for line `line`.
    fn centred_offset(&self, line: usize, floor: bool) -> (o: usize)
        requires
            self.can_centre(line, floor),
        ensures
            o as int == match_offset(
                line as int,
                self.content_height() as int,
                self.total_lines as int,
                floor,
            ),
    {
        let ch = if self.height >= 1 {
            self.height - 1
        } else {
            0
        };
        let half = ch / 2;
        if line < half {
            0
        } else if line - half + ch > self.total_lines {
            if floor && self.total_lines < ch {
                0
            } else {
                self.total_lines - ch
            }
        } else {
            line - half
        }
    }

    /// Whether screen row `line_index` shows the match: the one shown while
    /// typing during a search, the current one otherwise.
    pub fn has_search_match_on_line(&self, line_index: usize) -> (r: bool)
        ensures
            r == (match (if self.editor_state.search_preview_active {
                self.editor_state.search_preview_match
            } else {
                self.editor_state.current_match
            }) {
                Some((l, _, _)) => l == self.offset + line_index,
                None => false,
            }),
    {
        let m = if self.editor_state.search_preview_active {
            self.editor_state.search_preview_match
        } else {
            self.editor_state.current_match
        };
        match m {
            Some((l, _, _)) => self.offset <= l && line_index == l - self.offset,
            None => false,
        }
    }

    /// Starts a search for the query from the cursor: on the cursor's line
    /// first (from the cursor on, or before it searching backward), then on
    /// the other lines, wrapping around. The match found, or none, becomes
    /// the current match; a match on another line is also given to the
    /// active buffer. An empty query changes nothing.
    pub fn find_first_match(&mut self, forward: bool)
        requires
            old(self).current_line_int() < usize::MAX,
        ensures
            old(self).editor_state.search_query@.len() == 0 ==> *final(self) == *old(self),
            old(self).editor_state.search_query@.len() > 0 ==> {
                let q = spec_to_lowercase(old(self).editor_state.search_query@);
                let ls = strings_view(old(self).lines@);
                let cur = old(self).current_line_int() as nat;
                let on_line = cursor_line_hit(ls, cur, old(self).cursor_x as nat, q, q.len(), forward);
                let other = other_lines_hit(ls, q, q.len(), cur, forward, false);
                if on_line is Some {
                    *final(self) == old(self).with_match(as_match(on_line))
                } else {
                    &&& final(self).buffers@ == (if other is Some {
                        with_buffer_match(old(self).buffers@, old(self).active_buffer, as_match(other))
                    } else {
                        old(self).buffers@
                    })
                    &&& *final(self) == (Editor {
                        buffers: final(self).buffers,
                        ..old(self).with_match(as_match(other))
                    })
                }
            },
    {
        if self.editor_state.search_query.as_str().unicode_len() == 0 {
            return ;
        }
        let q = lower_chars(self.editor_state.search_query.as_str());
        let qlen = q.len();
        let current = self.offset + self.cursor_y;
        self.editor_state.current_match = None;
        match cursor_line_hit_exec(&self.lines, current, self.cursor_x, &q, qlen, forward) {
            Some(m) => {
                self.editor_state.current_match = Some(m);
            },
            None => {
                let found = other_lines_hit_exec(&self.lines, &q, qlen, current, forward, false);
                self.editor_state.current_match = found;
                if found.is_some() {
                    let i = self.active_buffer;
                    if i < self.buffers.len() {
                        self.buffers[i].current_match = found;
                    }
                }
            },
        }
    }

    /// Moves to the next match after (or, backward, before) the current
    /// match's line, or the cursor's line without one, wrapping around;
    /// within a line the first match, or the last searching backward. The
    /// match found becomes the current match and the active buffer's; when
    /// there is none, or the query is empty, nothing changes.
    pub fn find_next_match(&mut self, forward: bool)
        requires
            old(self).editor_state.current_match is None ==> old(self).current_line_int()
                < usize::MAX,
            old(self).editor_state.current_match matches Some((l, _, _)) ==> l < usize::MAX,
        ensures
            old(self).next_match_found(forward, *final(self)),
    {
        if self.editor_state.search_query.as_str().unicode_len() == 0 {
            return ;
        }
        let q = lower_chars(self.editor_state.search_query.as_str());
        let qlen = q.len();
        let start = match self.editor_state.current_match {
            Some((l, _, _)) => l,
            None => self.offset + self.cursor_y,
        };
        let found = other_lines_hit_exec(&self.lines, &q, qlen, start, forward, true);
        if found.is_some() {
            self.editor_state.current_match = found;
            let i = self.active_buffer;
            if i < self.buffers.len() {
                self.buffers[i].current_match = found;
            }
        }
    }
    /// The match `find_next_match` would move to (see `next_match`),
    /// without moving; none for an empty query.
    pub fn next_match_of(&self, forward: bool) -> (r: Option<(usize, usize, usize)>)
        requires
            self.editor_state.current_match is None ==> self.current_line_int() < usize::MAX,
            self.editor_state.current_match matches Some((l, _, _)) ==> l < usize::MAX,
        ensures
            r == (if self.editor_state.search_query@.len() > 0 {
                as_match(self.next_match(forward))
            } else {
                None
            }),
    {
        self.next_match_for_query(self.editor_state.search_query.as_str(), forward)
    }

    /// The match `find_next_match` would move to with `query` as the search
    /// query (see `next_match_for`); none for an empty query.
    pub fn next_match_for_query(&self, query: &str, forward: bool) -> (r: Option<(usize, usize, usize)>)
        requires
            self.editor_state.current_match is None ==> self.current_line_int() < usize::MAX,
            self.editor_state.current_match matches Some((l, _, _)) ==> l < usize::MAX,
        ensures
            r == (if query@.len() > 0 {
                as_match(self.next_match_for(query@, forward))
            } else {
                None
            }),
    {
        if query.unicode_len() == 0 {
            return None;
        }
        let q = lower_chars(query);
        let qlen = q.len();
        let start = match self.editor_state.current_match {
            Some((l, _, _)) => l,
            None => self.offset + self.cursor_y,
        };
        other_lines_hit_exec(&self.lines, &q, qlen, start, forward, true)
    }

    /// The match for `query` while it is typed (see `preview_for`).
    fn preview_hit(&self, query: &str, forward: bool) -> (r: Option<(usize, usize, usize)>)
        requires
            self.search_start().0 < usize::MAX,
        ensures
            r == as_match(self.preview_for(query@, forward)),
            r matches Some((l, _, _)) ==> l < self.lines@.len(),
    {
        let q = lower_chars(query);
        let (line, x) = match (
            self.editor_state.search_original_cursor,
            self.editor_state.search_original_offset,
        ) {
            (Some((y, x)), Some(o)) => (o + y, x),
            _ => (self.offset + self.cursor_y, self.cursor_x),
        };
        let on_line = cursor_line_hit_exec(&self.lines, line, x, &q, query.unicode_len(), forward);
        match on_line {
            Some(h) => Some(h),
            None => other_lines_hit_exec(&self.lines, &q, q.len(), line, forward, false),
        }
    }

    /// Shows the match for `query` while it is typed (see `previewed`).
    #[verifier::spinoff_prover]
    #[verifier::rlimit(80)]
    pub fn find_preview_match(&mut self, query: &str, forward: bool)
        requires
            old(self).can_preview(),
        ensures
            old(self).previewed(query@, forward, *final(self)),
    {
        if query.unicode_len() == 0 {
            self.editor_state.search_preview_match = None;
            return ;
        }
        let found = self.preview_hit(query, forward);
        self.editor_state.search_preview_match = found;
        let i = self.active_buffer;
        set_buffer_match(&mut self.buffers, i, found);
        match found {
            Some((l, _, _)) => {
                assert(l < old(self).lines@.len());
                self.center_on_preview_match();
            },
            None => {
                self.return_to_search_start();
            },
        }
    }

    /// Goes back to the position saved when the search began (see
    /// `back_to_search_start`).
    fn return_to_search_start(&mut self)
        ensures
            *final(self) == old(self).back_to_search_start(),
    {
        match (self.editor_state.search_original_cursor, self.editor_state.search_original_offset) {
            (Some((y, x)), Some(o)) => {
                self.offset = o;
                self.cursor_y = y;
                self.cursor_x = x;
                self.render.cursor_moved = true;
            },
            _ => {},
        }
    }
}

} // verus!
