//! What holds of typing a search from its start to Esc.

use vstd::prelude::*;
use crate::core_types::EditorMode;
use crate::editor::Editor;
use crate::keys::{Key, KeyCode};
use crate::justify::strings_view;
use crate::search::{
    find_from, first_line_hit, hit_in, last_line_hit, min_nat, occurs_at, rfind_from, sat_add,
    str_find, str_rfind, other_lines_hit, cursor_line_hit,
};
use crate::text::spec_to_lowercase;

verus! {

impl Editor {
    /// Whether this editor is in a search begun at `start`: the position
    /// saved when it began is `start`'s, and the committed search query is
    /// still `start`'s.
    pub open spec fn searching_from(self, start: Editor) -> bool {
        &&& self.editor_state.search_original_cursor == Some((start.cursor_y, start.cursor_x))
        &&& self.editor_state.search_original_offset == Some(start.offset)
        &&& self.editor_state.search_query@ == start.editor_state.search_query@
    }
}

/// `/` begins a search from where the editor is.
pub proof fn lemma_slash_starts_search(pre: Editor, key: Key, next: Option<Key>, r: Option<bool>, post: Editor)
    requires
        key.code == KeyCode::Char('/'),
        pre.search_visual_key_done(key, next, r, post),
    ensures
        post.searching_from(pre),
{
}

/// Typing a character into the query, or deleting one with Backspace,
/// keeps the start of the search and the committed query.
pub proof fn lemma_typing_keeps_search_start(
    pre: Editor,
    start: Editor,
    key: Key,
    r: bool,
    post: Editor,
)
    requires
        pre.searching_from(start),
        pre.search_key_done(key, r, post),
        (key.code is Char && !(key.ctrl && key.code == KeyCode::Char('c'))) || (key.code
            == KeyCode::Backspace && pre.editor_state.command_buffer@.len() > 0),
    ensures
        post.searching_from(start),
{
    let cmd = if key.code == KeyCode::Backspace {
        pre.editor_state.command_buffer@.drop_last()
    } else {
        match key.code {
            KeyCode::Char(c) => pre.editor_state.command_buffer@.push(c),
            _ => seq![],
        }
    };
    let mc = key.code == KeyCode::Backspace;
    assert(pre.query_edited(cmd, mc, post));
    let (mid, shown) = choose|mid: Editor, shown: Editor|
        #[trigger] pre.query_changed(cmd, mc, mid) && #[trigger] mid.previewed(
            cmd,
            pre.editor_state.search_direction,
            shown,
        ) && post == (Editor {
            render: crate::editor::RenderState { needs_redraw: true, ..shown.render },
            ..shown
        });
    assert(mid.editor_state@.search_original_cursor == pre.editor_state@.search_original_cursor);
    assert(mid.editor_state@.search_query == pre.editor_state@.search_query);
}

/// Esc ends a search back where it began, in normal mode, with no match
/// shown and the committed query unchanged: what was typed is not kept.
pub proof fn lemma_escape_restores_search_start(
    pre: Editor,
    start: Editor,
    key: Key,
    r: bool,
    post: Editor,
)
    requires
        pre.searching_from(start),
        key.code == KeyCode::Esc,
        pre.search_key_done(key, r, post),
    ensures
        post.offset == start.offset,
        post.cursor_x == start.cursor_x,
        post.cursor_y == start.cursor_y,
        post.editor_state.mode == EditorMode::Normal,
        !post.editor_state.search_preview_active,
        post.editor_state.search_preview_match is None,
        post.editor_state.search_query@ == start.editor_state.search_query@,
{
    assert(post.editor_state@.search_query == pre.editor_state@.search_query);
}

/// Whether `key` types a character into the search query, or deletes one
/// with Backspace from a query that is not empty.
pub open spec fn edits_query(pre: Editor, key: Key) -> bool {
    ||| (key.code is Char && !(key.ctrl && key.code == KeyCode::Char('c')))
    ||| (key.code == KeyCode::Backspace && pre.editor_state.command_buffer@.len() > 0)
}

/// Whether `states` is a run of the search line over `keys`: the state
/// after each key is what handling it gives (with the results `rs`), and
/// each key types a character or deletes one (see `edits_query`).
pub open spec fn editing_run(states: Seq<Editor>, keys: Seq<Key>, rs: Seq<bool>) -> bool {
    &&& states.len() == keys.len() + 1
    &&& rs.len() == keys.len()
    &&& forall|i: int|
        #![trigger states[i], keys[i]]
        0 <= i < keys.len() ==> edits_query(states[i], keys[i]) && states[i].search_key_done(
            keys[i],
            rs[i],
            states[i + 1],
        )
}

/// Any number of typed or deleted characters keep the start of the
/// search and the committed query.
pub proof fn lemma_editing_run_keeps_search_start(
    start: Editor,
    states: Seq<Editor>,
    keys: Seq<Key>,
    rs: Seq<bool>,
    n: int,
)
    requires
        editing_run(states, keys, rs),
        states[0].searching_from(start),
        0 <= n <= keys.len(),
    ensures
        states[n].searching_from(start),
    decreases n,
{
    if n > 0 {
        lemma_editing_run_keeps_search_start(start, states, keys, rs, n - 1);
        let i = n - 1;
        assert(edits_query(states[i], keys[i]) && states[i].search_key_done(keys[i], rs[i], states[i + 1]));
        lemma_typing_keeps_search_start(states[i], start, keys[i], rs[i], states[i + 1]);
    }
}

/// `/`, then any number of typed or deleted characters, then Esc: the
/// search ends back where it began, in normal mode, with no match shown,
/// and the committed query is the one from before `/`; the keys all give
/// `false` (the editor goes on).
pub proof fn lemma_escape_after_typing(
    start: Editor,
    slash: Key,
    next: Option<Key>,
    r0: Option<bool>,
    states: Seq<Editor>,
    keys: Seq<Key>,
    rs: Seq<bool>,
    esc: Key,
    r: bool,
    post: Editor,
)
    requires
        slash.code == KeyCode::Char('/'),
        start.search_visual_key_done(slash, next, r0, states[0]),
        editing_run(states, keys, rs),
        esc.code == KeyCode::Esc,
        states[keys.len() as int].search_key_done(esc, r, post),
    ensures
        r0 == Some(false),
        forall|i: int| 0 <= i < rs.len() ==> !#[trigger] rs[i],
        !r,
        post.offset == start.offset,
        post.cursor_x == start.cursor_x,
        post.cursor_y == start.cursor_y,
        post.editor_state.mode == EditorMode::Normal,
        !post.editor_state.search_preview_active,
        post.editor_state.search_preview_match is None,
        post.editor_state.search_query@ == start.editor_state.search_query@,
{
    lemma_slash_starts_search(start, slash, next, r0, states[0]);
    lemma_editing_run_keeps_search_start(start, states, keys, rs, keys.len() as int);
    lemma_escape_restores_search_start(states[keys.len() as int], start, esc, r, post);
    assert forall|i: int| 0 <= i < rs.len() implies !#[trigger] rs[i] by {
        assert(edits_query(states[i], keys[i]));
    }
}

/// The first occurrence found from `i` has none before it from `i` on;
/// with none found, there is none from `i` on.
proof fn lemma_find_from(h: Seq<char>, n: Seq<char>, i: nat)
    ensures
        match find_from(h, n, i) {
            Some(p) => i <= p && occurs_at(h, n, p as int) && forall|j: int|
                i <= j < p ==> !#[trigger] occurs_at(h, n, j),
            None => forall|j: int| i <= j ==> !#[trigger] occurs_at(h, n, j),
        },
    decreases h.len() + 1 - i,
{
    if i + n.len() <= h.len() {
        lemma_find_from(h, n, i + 1);
    }
}

/// The last occurrence found at or before `i` has none after it up to
/// `i`; with none found, there is none up to `i`.
proof fn lemma_rfind_from(h: Seq<char>, n: Seq<char>, i: int)
    ensures
        match rfind_from(h, n, i) {
            Some(p) => p <= i && occurs_at(h, n, p as int) && forall|j: int|
                p < j <= i ==> !#[trigger] occurs_at(h, n, j),
            None => forall|j: int| j <= i ==> !#[trigger] occurs_at(h, n, j),
        },
    decreases i + 1,
{
    if i >= 0 {
        lemma_rfind_from(h, n, i - 1);
    }
}

/// Whether `q` occurs nowhere in `h`.
pub open spec fn occurs_nowhere(h: Seq<char>, q: Seq<char>) -> bool {
    forall|j: int| !#[trigger] occurs_at(h, q, j)
}

/// A match in a line is an occurrence, ending `qlen` after its start (as
/// far as a `usize` goes): the first one, or the last with `last`. No match
/// means no occurrence.
proof fn lemma_hit_in(h: Seq<char>, q: Seq<char>, qlen: nat, last: bool)
    ensures
        match hit_in(h, q, qlen, last) {
            Some((s, e)) => {
                &&& occurs_at(h, q, s as int)
                &&& e == sat_add(s as int, qlen as int)
                &&& !last ==> forall|j: int| j < s ==> !#[trigger] occurs_at(h, q, j)
                &&& last ==> forall|j: int| j > s ==> !#[trigger] occurs_at(h, q, j)
            },
            None => occurs_nowhere(h, q),
        },
{
    lemma_find_from(h, q, 0);
    lemma_rfind_from(h, q, h.len() - q.len());
    assert(str_find(h, q) == find_from(h, q, 0));
    assert(str_rfind(h, q) == rfind_from(h, q, h.len() - q.len()));
}

/// The lower-cased line `k`.
pub open spec fn lower_line(ls: Seq<Seq<char>>, k: int) -> Seq<char> {
    spec_to_lowercase(ls[k])
}

/// The first line among `lo..hi` with a match has it, and the lines before
/// it have none.
proof fn lemma_first_line_hit(ls: Seq<Seq<char>>, q: Seq<char>, qlen: nat, lo: nat, hi: nat)
    ensures
        match first_line_hit(ls, q, qlen, lo, hi) {
            Some((l, s, e)) => lo <= l < hi && hit_in(lower_line(ls, l as int), q, qlen, false)
                == Some((s, e)) && forall|k: int|
                lo <= k < l ==> occurs_nowhere(#[trigger] lower_line(ls, k), q),
            None => forall|k: int| lo <= k < hi ==> occurs_nowhere(#[trigger] lower_line(ls, k), q),
        },
    decreases hi - lo,
{
    if lo < hi {
        lemma_hit_in(lower_line(ls, lo as int), q, qlen, false);
        lemma_first_line_hit(ls, q, qlen, lo + 1, hi);
    }
}

/// The last line among `lo..hi` with a match has it, and the lines after
/// it have none.
proof fn lemma_last_line_hit(ls: Seq<Seq<char>>, q: Seq<char>, qlen: nat, lo: nat, hi: nat, last: bool)
    ensures
        match last_line_hit(ls, q, qlen, lo, hi, last) {
            Some((l, s, e)) => lo <= l < hi && hit_in(lower_line(ls, l as int), q, qlen, last)
                == Some((s, e)) && forall|k: int|
                l < k < hi ==> occurs_nowhere(#[trigger] lower_line(ls, k), q),
            None => forall|k: int| lo <= k < hi ==> occurs_nowhere(#[trigger] lower_line(ls, k), q),
        },
    decreases hi - lo,
{
    if lo < hi {
        lemma_hit_in(lower_line(ls, hi - 1), q, qlen, last);
        lemma_last_line_hit(ls, q, qlen, lo, (hi - 1) as nat, last);
    }
}

/// A match on another line (see `other_lines_hit`) searching from line
/// `cur`: an occurrence of `q` in a lower-cased line, ending `qlen` after
/// its start; the first in its line, or, searching backward with `last`,
/// the last. The line is
/// the nearest with an occurrence in the search's direction, wrapping
/// around: no line passed over has one. With no match, no line has one.
pub proof fn lemma_other_lines_hit_nearest(
    ls: Seq<Seq<char>>,
    q: Seq<char>,
    qlen: nat,
    cur: nat,
    forward: bool,
    last: bool,
)
    ensures
        match other_lines_hit(ls, q, qlen, cur, forward, last) {
            Some((l, s, end)) => {
                let h = lower_line(ls, l as int);
                &&& l < ls.len()
                &&& occurs_at(h, q, s as int)
                &&& end == sat_add(s as int, qlen as int)
                &&& (forward || !last) ==> forall|j: int| j < s ==> !#[trigger] occurs_at(h, q, j)
                &&& (!forward && last) ==> forall|j: int| j > s ==> !#[trigger] occurs_at(h, q, j)
                &&& (forward && l > cur) ==> forall|k: int|
                    cur < k < l ==> occurs_nowhere(#[trigger] lower_line(ls, k), q)
                &&& (forward && l <= cur) ==> forall|k: int|
                    (cur < k < ls.len() || 0 <= k < l) ==> occurs_nowhere(
                        #[trigger] lower_line(ls, k),
                        q,
                    )
                &&& (!forward && l < cur) ==> forall|k: int|
                    l < k < cur && k < ls.len() ==> occurs_nowhere(#[trigger] lower_line(ls, k), q)
                &&& (!forward && l >= cur) ==> forall|k: int|
                    (0 <= k < cur || l < k < ls.len()) ==> occurs_nowhere(
                        #[trigger] lower_line(ls, k),
                        q,
                    )
            },
            None => forall|k: int| 0 <= k < ls.len() ==> occurs_nowhere(#[trigger] lower_line(ls, k), q),
        },
{
    if forward {
        lemma_first_line_hit(ls, q, qlen, cur + 1, ls.len());
        lemma_first_line_hit(ls, q, qlen, 0, min_nat(cur + 1, ls.len()));
    } else {
        lemma_last_line_hit(ls, q, qlen, 0, min_nat(cur, ls.len()), last);
        lemma_last_line_hit(ls, q, qlen, cur, ls.len(), last);
    }
    match other_lines_hit(ls, q, qlen, cur, forward, last) {
        Some((l, s, end)) => {
            lemma_hit_in(lower_line(ls, l as int), q, qlen, !forward && last);
        },
        None => {
            assert forall|k: int| 0 <= k < ls.len() implies occurs_nowhere(
                #[trigger] lower_line(ls, k),
                q,
            ) by {
                if forward {
                    if k > cur {
                        assert(cur + 1 <= k < ls.len());
                    } else {
                        assert(0 <= k < min_nat(cur + 1, ls.len()));
                    }
                } else {
                    if k < cur {
                        assert(0 <= k < min_nat(cur, ls.len()));
                    } else {
                        assert(cur <= k < ls.len());
                    }
                }
            }
        },
    }
}

/// `n` (forward) and `N` (backward) land on an occurrence of the
/// lower-cased query in a lower-cased line, ending the query's length
/// after its start: forward on the first occurrence in that line, backward
/// on the last. The line is the nearest with an occurrence from the line
/// the step starts from (the current match's, or the cursor's), in the
/// step's direction and wrapping around: no line passed over has one.
pub proof fn lemma_next_match_lands_on_occurrence(e: Editor, forward: bool)
    ensures
        e.next_match(forward) matches Some((l, s, end)) ==> {
            let ls = strings_view(e.lines@);
            let q = spec_to_lowercase(e.editor_state.search_query@);
            let h = lower_line(ls, l as int);
            let start: int = match e.editor_state.current_match {
                Some((m, _, _)) => m as int,
                None => e.current_line_int(),
            };
            &&& l < ls.len()
            &&& occurs_at(h, q, s as int)
            &&& end == sat_add(s as int, q.len() as int)
            &&& forward ==> forall|j: int| j < s ==> !#[trigger] occurs_at(h, q, j)
            &&& !forward ==> forall|j: int| j > s ==> !#[trigger] occurs_at(h, q, j)
            &&& (forward && l > start) ==> forall|k: int|
                start < k < l ==> occurs_nowhere(#[trigger] lower_line(ls, k), q)
            &&& (forward && l <= start) ==> forall|k: int|
                (start < k < ls.len() || 0 <= k < l) ==> occurs_nowhere(
                    #[trigger] lower_line(ls, k),
                    q,
                )
            &&& (!forward && l < start) ==> forall|k: int|
                l < k < start && k < ls.len() ==> occurs_nowhere(#[trigger] lower_line(ls, k), q)
            &&& (!forward && l >= start) ==> forall|k: int|
                (0 <= k < start || l < k < ls.len()) ==> occurs_nowhere(
                    #[trigger] lower_line(ls, k),
                    q,
                )
        },
{
    let ls = strings_view(e.lines@);
    let q = spec_to_lowercase(e.editor_state.search_query@);
    let start: nat = match e.editor_state.current_match {
        Some((m, _, _)) => m as nat,
        None => e.current_line_int() as nat,
    };
    lemma_other_lines_hit_nearest(ls, q, q.len(), start, forward, true);
}

/// A match on the cursor's line (see `cursor_line_hit`) from column `x`:
/// forward, the first occurrence in the lower-cased rest of the line from
/// `x`, counted from `x`; backward, the last occurrence in the lower-cased
/// part of the line before `x`. Its end lies `qlen` after its start.
pub proof fn lemma_cursor_line_hit_nearest(
    ls: Seq<Seq<char>>,
    cur: nat,
    x: nat,
    q: Seq<char>,
    qlen: nat,
    forward: bool,
)
    ensures
        cursor_line_hit(ls, cur, x, q, qlen, forward) matches Some((l, s, end)) ==> {
            &&& l == cur < ls.len()
            &&& end == sat_add(s as int, qlen as int)
            &&& forward ==> {
                let h = spec_to_lowercase(ls[cur as int].skip(x as int));
                &&& x < ls[cur as int].len()
                &&& exists|p: nat|
                    s == sat_add(x as int, p as int) && occurs_at(h, q, p as int) && forall|j: int|
                        j < p ==> !#[trigger] occurs_at(h, q, j)
            }
            &&& !forward ==> {
                let h = spec_to_lowercase(
                    ls[cur as int].take(min_nat(x, ls[cur as int].len()) as int),
                );
                &&& x > 0
                &&& occurs_at(h, q, s as int)
                &&& forall|j: int| j > s ==> !#[trigger] occurs_at(h, q, j)
            }
        },
{
    if cur < ls.len() {
        if forward {
            let h = spec_to_lowercase(ls[cur as int].skip(x as int));
            lemma_find_from(h, q, 0);
            assert(str_find(h, q) == find_from(h, q, 0));
        } else {
            let h = spec_to_lowercase(
                ls[cur as int].take(min_nat(x, ls[cur as int].len()) as int),
            );
            lemma_rfind_from(h, q, h.len() - q.len());
            assert(str_rfind(h, q) == rfind_from(h, q, h.len() - q.len()));
        }
    }
}

/// The match shown while a query is typed: on the line where the search
/// began, the match from where it began (see
/// `lemma_cursor_line_hit_nearest`) when there is one there; otherwise an
/// occurrence of the lower-cased query on the nearest other line in the
/// search's direction, wrapping around, and the first occurrence in that
/// line whichever the direction. With no match, no line has an occurrence.
pub proof fn lemma_preview_lands_on_occurrence(e: Editor, query: Seq<char>, forward: bool)
    ensures
        ({
            let ls = strings_view(e.lines@);
            let q = spec_to_lowercase(query);
            let (line, x) = e.search_start();
            let on_line = cursor_line_hit(ls, line as nat, x as nat, q, query.len(), forward);
            &&& on_line is Some ==> e.preview_for(query, forward) == on_line
            &&& on_line is None ==> match e.preview_for(query, forward) {
                Some((l, s, end)) => {
                    let h = lower_line(ls, l as int);
                    &&& l < ls.len()
                    &&& occurs_at(h, q, s as int)
                    &&& end == sat_add(s as int, q.len() as int)
                    &&& forall|j: int| j < s ==> !#[trigger] occurs_at(h, q, j)
                    &&& (forward && l > line) ==> forall|k: int|
                        line < k < l ==> occurs_nowhere(#[trigger] lower_line(ls, k), q)
                    &&& (forward && l <= line) ==> forall|k: int|
                        (line < k < ls.len() || 0 <= k < l) ==> occurs_nowhere(
                            #[trigger] lower_line(ls, k),
                            q,
                        )
                    &&& (!forward && l < line) ==> forall|k: int|
                        l < k < line && k < ls.len() ==> occurs_nowhere(
                            #[trigger] lower_line(ls, k),
                            q,
                        )
                    &&& (!forward && l >= line) ==> forall|k: int|
                        (0 <= k < line || l < k < ls.len()) ==> occurs_nowhere(
                            #[trigger] lower_line(ls, k),
                            q,
                        )
                },
                None => forall|k: int|
                    0 <= k < ls.len() ==> occurs_nowhere(#[trigger] lower_line(ls, k), q),
            }
        }),
{
    let ls = strings_view(e.lines@);
    let q = spec_to_lowercase(query);
    let (line, x) = e.search_start();
    if line >= 0 {
        lemma_other_lines_hit_nearest(ls, q, q.len(), line as nat, forward, false);
    }
}

} // verus!
