//! Properties of justification that hold for every text and width.

use vstd::prelude::*;
use crate::text::{
    byte_len, lemma_byte_len_bounds, lemma_byte_len_concat, lemma_byte_len_spaces, spaces,
    spec_is_whitespace,
};
use crate::justify::{
    all_chunks, all_whitespace, chunks, fill, gap, join, justify_line_spec, justify_spec,
    paragraph_lines, paragraphs, paragraphs_lines, split_blank_acc, spread, words, words_acc,
    words_byte_len,
};

verus! {

/// The characters of `s` that are not whitespace, in order.
pub open spec fn letters(s: Seq<char>) -> Seq<char>
    decreases s.len(),
{
    if s.len() == 0 {
        seq![]
    } else if spec_is_whitespace(s.last()) {
        letters(s.drop_last())
    } else {
        letters(s.drop_last()).push(s.last())
    }
}

/// All strings of a sequence, one after the other.
pub open spec fn concat(ss: Seq<Seq<char>>) -> Seq<char>
    decreases ss.len(),
{
    if ss.len() == 0 {
        seq![]
    } else {
        concat(ss.drop_last()) + ss.last()
    }
}

// ---------------------------------------------------------------------------
// Helpers on `letters` and `concat`
// ---------------------------------------------------------------------------

proof fn lemma_letters_concat(a: Seq<char>, b: Seq<char>)
    ensures
        letters(a + b) == letters(a) + letters(b),
    decreases b.len(),
{
    if b.len() == 0 {
        assert(a + b == a);
        assert(letters(a) + letters(b) == letters(a));
    } else {
        lemma_letters_concat(a, b.drop_last());
        assert((a + b).drop_last() == a + b.drop_last());
        assert((a + b).last() == b.last());
        if !spec_is_whitespace(b.last()) {
            assert(letters(a) + letters(b.drop_last()).push(b.last()) == (letters(a) + letters(
                b.drop_last(),
            )).push(b.last()));
        }
    }
}

proof fn lemma_letters_single(c: char)
    ensures
        letters(seq![c]) == (if spec_is_whitespace(c) {
            Seq::<char>::empty()
        } else {
            seq![c]
        }),
{
    assert(seq![c].drop_last() == Seq::<char>::empty());
    assert(letters(Seq::<char>::empty()) == Seq::<char>::empty());
    assert(Seq::<char>::empty().push(c) == seq![c]);
}

proof fn lemma_letters_spaces(n: nat)
    ensures
        letters(spaces(n)) == Seq::<char>::empty(),
    decreases n,
{
    if n > 0 {
        lemma_letters_spaces((n - 1) as nat);
        assert(spaces(n).drop_last() == spaces((n - 1) as nat));
    }
}

proof fn lemma_letters_no_whitespace(s: Seq<char>)
    requires
        forall|i: int| 0 <= i < s.len() ==> !spec_is_whitespace(#[trigger] s[i]),
    ensures
        letters(s) == s,
    decreases s.len(),
{
    if s.len() > 0 {
        lemma_letters_no_whitespace(s.drop_last());
        assert(s.drop_last().push(s.last()) == s);
    }
}

proof fn lemma_letters_whitespace(s: Seq<char>)
    requires
        all_whitespace(s),
    ensures
        letters(s) == Seq::<char>::empty(),
    decreases s.len(),
{
    if s.len() > 0 {
        assert(spec_is_whitespace(s[s.len() - 1]));
        lemma_letters_whitespace(s.drop_last());
    }
}

proof fn lemma_concat_add(x: Seq<Seq<char>>, y: Seq<Seq<char>>)
    ensures
        concat(x + y) == concat(x) + concat(y),
    decreases y.len(),
{
    if y.len() == 0 {
        assert(x + y == x);
        assert(concat(x) + concat(y) == concat(x));
    } else {
        lemma_concat_add(x, y.drop_last());
        assert((x + y).drop_last() == x + y.drop_last());
        assert(concat(x) + (concat(y.drop_last()) + y.last()) == (concat(x) + concat(
            y.drop_last(),
        )) + y.last());
    }
}

proof fn lemma_concat_single(a: Seq<char>)
    ensures
        concat(seq![a]) == a,
{
    assert(seq![a].drop_last() == Seq::<Seq<char>>::empty());
    assert(concat(Seq::<Seq<char>>::empty()) == Seq::<char>::empty());
    assert(Seq::<char>::empty() + a == a);
}

proof fn lemma_concat_prepend(a: Seq<char>, y: Seq<Seq<char>>)
    ensures
        concat(seq![a] + y) == a + concat(y),
{
    lemma_concat_add(seq![a], y);
    lemma_concat_single(a);
}

proof fn lemma_concat_push(x: Seq<Seq<char>>, a: Seq<char>)
    ensures
        concat(x.push(a)) == concat(x) + a,
{
    assert(x.push(a).drop_last() == x);
}

// ---------------------------------------------------------------------------
// Each stage keeps the non-whitespace characters
// ---------------------------------------------------------------------------

proof fn lemma_split_blank_letters(s: Seq<char>, cur: Seq<char>)
    ensures
        letters(concat(split_blank_acc(s, cur))) == letters(cur) + letters(s),
    decreases s.len(),
{
    if s.len() == 0 {
        lemma_concat_single(cur);
        assert(letters(s) == Seq::<char>::empty());
        assert(letters(cur) + letters(s) == letters(cur));
    } else if s.len() >= 2 && s[0] == '\n' && s[1] == '\n' {
        let e: Seq<char> = seq![];
        lemma_split_blank_letters(s.skip(2), e);
        lemma_concat_prepend(cur, split_blank_acc(s.skip(2), e));
        lemma_letters_concat(cur, concat(split_blank_acc(s.skip(2), e)));
        assert(letters(e) == e);
        assert(s == seq!['\n', '\n'] + s.skip(2));
        lemma_letters_concat(seq!['\n', '\n'], s.skip(2));
        assert(seq!['\n', '\n'] == seq!['\n'] + seq!['\n']);
        lemma_letters_concat(seq!['\n'], seq!['\n']);
        lemma_letters_single('\n');
        assert(letters(seq!['\n', '\n']) == e);
        assert(e + letters(s.skip(2)) == letters(s.skip(2)));
    } else {
        lemma_split_blank_letters(s.drop_first(), cur.push(s[0]));
        assert(s == seq![s[0]] + s.drop_first());
        lemma_letters_concat(seq![s[0]], s.drop_first());
        assert(cur.push(s[0]) == cur + seq![s[0]]);
        lemma_letters_concat(cur, seq![s[0]]);
    }
}

proof fn lemma_paragraphs_letters(text: Seq<char>)
    ensures
        letters(concat(paragraphs(text))) == letters(text),
{
    let e: Seq<char> = seq![];
    lemma_split_blank_letters(text, e);
    assert(letters(e) == e);
    assert(e + letters(text) == letters(text));
}

proof fn lemma_words_letters(s: Seq<char>, cur: Seq<char>)
    requires
        forall|i: int| 0 <= i < cur.len() ==> !spec_is_whitespace(#[trigger] cur[i]),
    ensures
        concat(words_acc(s, cur)) == cur + letters(s),
    decreases s.len(),
{
    let e: Seq<char> = seq![];
    if s.len() == 0 {
        if cur.len() > 0 {
            lemma_concat_single(cur);
        } else {
            assert(cur == e);
        }
        assert(cur + letters(s) == cur);
    } else {
        assert(s == seq![s[0]] + s.drop_first());
        lemma_letters_concat(seq![s[0]], s.drop_first());
        lemma_letters_single(s[0]);
        if spec_is_whitespace(s[0]) {
            lemma_words_letters(s.drop_first(), e);
            let rest = words_acc(s.drop_first(), e);
            assert(letters(seq![s[0]]) == e);
            if cur.len() > 0 {
                lemma_concat_prepend(cur, rest);
            } else {
                assert(Seq::<Seq<char>>::empty() + rest == rest);
                assert(cur == e);
            }
            assert(e + letters(s.drop_first()) == letters(s.drop_first()));
        } else {
            assert forall|i: int| 0 <= i < cur.push(s[0]).len() implies !spec_is_whitespace(
                #[trigger] cur.push(s[0])[i],
            ) by {
                if i < cur.len() {
                    assert(cur.push(s[0])[i] == cur[i]);
                }
            }
            lemma_words_letters(s.drop_first(), cur.push(s[0]));
            assert(letters(seq![s[0]]) == seq![s[0]]);
            assert(cur.push(s[0]) + letters(s.drop_first()) == cur + (seq![s[0]] + letters(
                s.drop_first(),
            )));
        }
    }
}

proof fn lemma_chunks_concat(w: Seq<char>, n: nat)
    ensures
        concat(chunks(w, n)) == w,
    decreases w.len(),
{
    if n > 0 && w.len() > n {
        lemma_chunks_concat(w.skip(n as int), n);
        lemma_concat_prepend(w.take(n as int), chunks(w.skip(n as int), n));
        assert(w.take(n as int) + w.skip(n as int) == w);
    } else {
        lemma_concat_single(w);
    }
}

proof fn lemma_all_chunks_concat(ws: Seq<Seq<char>>, n: nat)
    ensures
        concat(all_chunks(ws, n)) == concat(ws),
    decreases ws.len(),
{
    if ws.len() > 0 {
        lemma_all_chunks_concat(ws.drop_last(), n);
        lemma_concat_add(all_chunks(ws.drop_last(), n), chunks(ws.last(), n));
        lemma_chunks_concat(ws.last(), n);
    }
}

proof fn lemma_join_letters(line: Seq<Seq<char>>)
    ensures
        letters(join(line)) == letters(concat(line)),
    decreases line.len(),
{
    if line.len() == 1 {
        lemma_concat_single(line[0]);
        assert(line == seq![line[0]]);
    } else if line.len() >= 2 {
        lemma_join_letters(line.drop_last());
        lemma_letters_concat(join(line.drop_last()) + seq![' '], line.last());
        lemma_letters_concat(join(line.drop_last()), seq![' ']);
        lemma_letters_single(' ');
        lemma_letters_concat(concat(line.drop_last()), line.last());
        assert(letters(join(line.drop_last())) + Seq::<char>::empty() == letters(
            join(line.drop_last()),
        ));
    }
}

proof fn lemma_spread_letters(line: Seq<Seq<char>>, each: nat, extra: nat)
    ensures
        letters(spread(line, each, extra)) == letters(concat(line)),
    decreases line.len(),
{
    if line.len() == 1 {
        lemma_concat_single(line[0]);
        assert(line == seq![line[0]]);
    } else if line.len() >= 2 {
        let g = gap(line.len() - 2, each, extra);
        lemma_spread_letters(line.drop_last(), each, extra);
        lemma_letters_concat(spread(line.drop_last(), each, extra) + spaces(g), line.last());
        lemma_letters_concat(spread(line.drop_last(), each, extra), spaces(g));
        lemma_letters_spaces(g);
        lemma_letters_concat(concat(line.drop_last()), line.last());
        assert(letters(spread(line.drop_last(), each, extra)) + Seq::<char>::empty() == letters(
            spread(line.drop_last(), each, extra),
        ));
    }
}

proof fn lemma_justify_line_letters(line: Seq<Seq<char>>, width: nat)
    ensures
        letters(justify_line_spec(line, width)) == letters(concat(line)),
{
    lemma_join_letters(line);
    if line.len() > 1 {
        let gaps = (line.len() - 1) as nat;
        let room = (width - words_byte_len(line)) as nat;
        lemma_spread_letters(line, room / gaps, room % gaps);
    }
}

proof fn lemma_fill_letters(ws: Seq<Seq<char>>, width: nat, line: Seq<Seq<char>>, len: nat)
    ensures
        letters(concat(fill(ws, width, line, len))) == letters(concat(line)) + letters(
            concat(ws),
        ),
    decreases ws.len(),
{
    let e: Seq<char> = seq![];
    if ws.len() == 0 {
        if line.len() > 0 {
            lemma_concat_single(join(line));
            lemma_join_letters(line);
        } else {
            assert(concat(line) == e);
            assert(letters(e) == e);
        }
        assert(letters(concat(ws)) == e);
        assert(letters(concat(line)) + e == letters(concat(line)));
    } else {
        let w = ws[0];
        let wl = byte_len(w);
        let space: nat = if line.len() == 0 {
            0
        } else {
            1
        };
        let new_len = len + space + wl;
        assert(ws == seq![w] + ws.drop_first());
        lemma_concat_prepend(w, ws.drop_first());
        lemma_letters_concat(w, concat(ws.drop_first()));
        if new_len > width && line.len() > 0 {
            lemma_fill_letters(ws.drop_first(), width, seq![w], wl);
            let rest = fill(ws.drop_first(), width, seq![w], wl);
            lemma_concat_prepend(justify_line_spec(line, width), rest);
            lemma_letters_concat(justify_line_spec(line, width), concat(rest));
            lemma_justify_line_letters(line, width);
            lemma_concat_single(w);
        } else {
            let nl = if line.len() == 0 {
                wl
            } else {
                new_len
            };
            lemma_fill_letters(ws.drop_first(), width, line.push(w), nl);
            lemma_concat_push(line, w);
            lemma_letters_concat(concat(line), w);
        }
    }
}

proof fn lemma_paragraph_letters(p: Seq<char>, width: nat)
    ensures
        letters(concat(paragraph_lines(p, width))) == letters(p),
{
    let e: Seq<char> = seq![];
    let ws = all_chunks(words(p), width);
    lemma_fill_letters(ws, width, seq![], 0);
    assert(concat(Seq::<Seq<char>>::empty()) == e);
    assert(letters(e) == e);
    lemma_concat_push(fill(ws, width, seq![], 0), e);
    assert(concat(fill(ws, width, seq![], 0)) + e == concat(fill(ws, width, seq![], 0)));
    lemma_all_chunks_concat(words(p), width);
    lemma_words_letters(p, e);
    lemma_letters_no_whitespace(e);
    assert(e + letters(p) == letters(p));
    assert(e + letters(concat(ws)) == letters(concat(ws)));
    assert(letters(concat(ws)) == letters(e + letters(p)));
    lemma_letters_idempotent(p);
}

proof fn lemma_letters_idempotent(s: Seq<char>)
    ensures
        letters(letters(s)) == letters(s),
    decreases s.len(),
{
    if s.len() > 0 {
        lemma_letters_idempotent(s.drop_last());
        if !spec_is_whitespace(s.last()) {
            assert(letters(s).drop_last() == letters(s.drop_last()));
        }
    }
}

proof fn lemma_paragraphs_lines_letters(ps: Seq<Seq<char>>, width: nat)
    ensures
        letters(concat(paragraphs_lines(ps, width))) == letters(concat(ps)),
    decreases ps.len(),
{
    let e: Seq<char> = seq![];
    if ps.len() == 0 {
        assert(letters(e) == e);
    } else {
        lemma_paragraphs_lines_letters(ps.drop_first(), width);
        lemma_concat_add(paragraph_lines(ps[0], width), paragraphs_lines(ps.drop_first(), width));
        lemma_letters_concat(
            concat(paragraph_lines(ps[0], width)),
            concat(paragraphs_lines(ps.drop_first(), width)),
        );
        lemma_paragraph_letters(ps[0], width);
        assert(ps == seq![ps[0]] + ps.drop_first());
        lemma_concat_prepend(ps[0], ps.drop_first());
        lemma_letters_concat(ps[0], concat(ps.drop_first()));
    }
}

/// Justification loses and adds no visible character: the non-whitespace
/// characters of all output lines, read in order, are those of the text.
pub proof fn lemma_justify_keeps_letters(text: Seq<char>, width: nat)
    ensures
        letters(concat(justify_spec(text, width))) == letters(text),
{
    lemma_paragraphs_lines_letters(paragraphs(text), width);
    lemma_paragraphs_letters(text);
}

// ---------------------------------------------------------------------------
// Widths
// ---------------------------------------------------------------------------

proof fn lemma_join_byte_len(line: Seq<Seq<char>>)
    requires
        line.len() >= 1,
    ensures
        byte_len(join(line)) == words_byte_len(line) + line.len() - 1,
    decreases line.len(),
{
    if line.len() == 1 {
        assert(line.drop_last() == Seq::<Seq<char>>::empty());
        assert(words_byte_len(Seq::<Seq<char>>::empty()) == 0);
    } else {
        lemma_join_byte_len(line.drop_last());
        lemma_byte_len_spaces(1);
        assert(spaces(1) == seq![' ']);
        lemma_byte_len_concat(join(line.drop_last()) + seq![' '], line.last());
        lemma_byte_len_concat(join(line.drop_last()), seq![' ']);
        assert(seq![' '].drop_last() == Seq::<char>::empty());
    }
}

proof fn lemma_spread_byte_len(line: Seq<Seq<char>>, each: nat, extra: nat)
    requires
        line.len() >= 1,
        extra <= line.len() - 1,
    ensures
        byte_len(spread(line, each, extra)) == words_byte_len(line) + (line.len() - 1) * each
            + extra,
    decreases line.len(),
{
    if line.len() == 1 {
        assert(line.drop_last() == Seq::<Seq<char>>::empty());
        assert(words_byte_len(Seq::<Seq<char>>::empty()) == 0);
    } else {
        let n = line.len();
        let g = gap(n - 2, each, extra);
        if extra == n - 1 {
            lemma_spread_byte_len(line.drop_last(), each, (extra - 1) as nat);
            assert(spread(line.drop_last(), each, extra) == spread(
                line.drop_last(),
                each,
                (extra - 1) as nat,
            )) by {
                lemma_spread_same_gaps(line.drop_last(), each, extra, (extra - 1) as nat);
            }
        } else {
            lemma_spread_byte_len(line.drop_last(), each, extra);
        }
        lemma_byte_len_concat(spread(line.drop_last(), each, extra) + spaces(g), line.last());
        lemma_byte_len_concat(spread(line.drop_last(), each, extra), spaces(g));
        lemma_byte_len_spaces(g);
        assert((n - 1) * each == (n - 2) * each + each) by (nonlinear_arith);
    }
}

/// `spread` only looks at the gaps between the words it has.
proof fn lemma_spread_same_gaps(line: Seq<Seq<char>>, each: nat, e1: nat, e2: nat)
    requires
        forall|i: int| 0 <= i < line.len() - 1 ==> gap(i, each, e1) == gap(i, each, e2),
    ensures
        spread(line, each, e1) == spread(line, each, e2),
    decreases line.len(),
{
    if line.len() >= 2 {
        lemma_spread_same_gaps(line.drop_last(), each, e1, e2);
        assert(gap(line.len() - 2, each, e1) == gap(line.len() - 2, each, e2));
    }
}

/// A line whose words fit the width when joined by single spaces, and which
/// holds at least two words, is stretched to exactly `width` bytes.
pub proof fn lemma_justified_line_width(line: Seq<Seq<char>>, width: nat)
    requires
        line.len() >= 2,
        words_byte_len(line) + line.len() - 1 <= width,
    ensures
        byte_len(justify_line_spec(line, width)) == width,
{
    let wl = words_byte_len(line);
    let gaps = (line.len() - 1) as nat;
    let room = (width - wl) as nat;
    assert(wl < width);
    let each = room / gaps;
    let extra = room % gaps;
    assert(gaps * each + extra == room) by (nonlinear_arith)
        requires
            gaps > 0,
            each == room / gaps,
            extra == room % gaps,
    ;
    assert(extra < gaps) by (nonlinear_arith)
        requires
            gaps > 0,
            extra == room % gaps,
    ;
    lemma_spread_byte_len(line, each, extra);
}

proof fn lemma_chunks_fit(w: Seq<char>, n: nat)
    requires
        n > 0,
    ensures
        forall|k: int| 0 <= k < chunks(w, n).len() ==> (#[trigger] chunks(w, n)[k]).len() <= n,
    decreases w.len(),
{
    if w.len() > n {
        lemma_chunks_fit(w.skip(n as int), n);
        let rest = chunks(w.skip(n as int), n);
        assert forall|k: int| 0 <= k < chunks(w, n).len() implies (#[trigger] chunks(
            w,
            n,
        )[k]).len() <= n by {
            if k > 0 {
                assert(chunks(w, n)[k] == rest[k - 1]);
            }
        }
    }
}

proof fn lemma_all_chunks_fit(ws: Seq<Seq<char>>, n: nat)
    requires
        n > 0,
    ensures
        forall|k: int| 0 <= k < all_chunks(ws, n).len() ==> (#[trigger] all_chunks(ws, n)[k]).len()
            <= n,
    decreases ws.len(),
{
    if ws.len() > 0 {
        lemma_all_chunks_fit(ws.drop_last(), n);
        lemma_chunks_fit(ws.last(), n);
        let a = all_chunks(ws.drop_last(), n);
        let c = chunks(ws.last(), n);
        assert forall|k: int| 0 <= k < all_chunks(ws, n).len() implies (#[trigger] all_chunks(
            ws,
            n,
        )[k]).len() <= n by {
            if k < a.len() {
                assert(all_chunks(ws, n)[k] == a[k]);
            } else {
                assert(all_chunks(ws, n)[k] == c[k - a.len()]);
            }
        }
    }
}

/// The state of the greedy layout between two words.
spec fn layout_state_ok(width: nat, line: Seq<Seq<char>>, len: nat) -> bool {
    &&& forall|k: int| 0 <= k < line.len() ==> (#[trigger] line[k]).len() <= width
    &&& line.len() > 0 ==> len == words_byte_len(line) + line.len() - 1
    &&& line.len() >= 2 ==> len <= width
}

proof fn lemma_line_fits(line: Seq<Seq<char>>, width: nat, len: nat)
    requires
        line.len() > 0,
        layout_state_ok(width, line, len),
    ensures
        join(line).len() <= width,
        justify_line_spec(line, width).len() <= width,
{
    lemma_join_byte_len(line);
    lemma_byte_len_bounds(join(line));
    if line.len() == 1 {
        assert(join(line) == line[0]);
    } else {
        lemma_justified_line_width(line, width);
        lemma_byte_len_bounds(justify_line_spec(line, width));
    }
}

proof fn lemma_fill_fits(ws: Seq<Seq<char>>, width: nat, line: Seq<Seq<char>>, len: nat)
    requires
        forall|k: int| 0 <= k < ws.len() ==> (#[trigger] ws[k]).len() <= width,
        layout_state_ok(width, line, len),
    ensures
        forall|k: int|
            0 <= k < fill(ws, width, line, len).len() ==> (#[trigger] fill(ws, width, line, len)[k]).len()
                <= width,
    decreases ws.len(),
{
    if ws.len() == 0 {
        if line.len() > 0 {
            lemma_line_fits(line, width, len);
            assert(fill(ws, width, line, len) == seq![join(line)]);
        } else {
            assert(fill(ws, width, line, len) == Seq::<Seq<char>>::empty());
        }
    } else {
        let w = ws[0];
        let wl = byte_len(w);
        let space: nat = if line.len() == 0 {
            0
        } else {
            1
        };
        let new_len = len + space + wl;
        assert(w.len() <= width);
        assert forall|k: int| 0 <= k < ws.drop_first().len() implies (
        #[trigger] ws.drop_first()[k]).len() <= width by {
            assert(ws.drop_first()[k] == ws[k + 1]);
        }
        if new_len > width && line.len() > 0 {
            assert(layout_state_ok(width, seq![w], wl)) by {
                assert(seq![w].drop_last() == Seq::<Seq<char>>::empty());
                assert(words_byte_len(Seq::<Seq<char>>::empty()) == 0);
            }
            lemma_fill_fits(ws.drop_first(), width, seq![w], wl);
            lemma_line_fits(line, width, len);
            let rest = fill(ws.drop_first(), width, seq![w], wl);
            assert forall|k: int|
                0 <= k < fill(ws, width, line, len).len() implies (#[trigger] fill(
                ws,
                width,
                line,
                len,
            )[k]).len() <= width by {
                if k > 0 {
                    assert(fill(ws, width, line, len)[k] == rest[k - 1]);
                }
            }
        } else {
            let nl = if line.len() == 0 {
                wl
            } else {
                new_len
            };
            assert(layout_state_ok(width, line.push(w), nl)) by {
                assert(line.push(w).drop_last() == line);
                assert forall|k: int| 0 <= k < line.push(w).len() implies (
                #[trigger] line.push(w)[k]).len() <= width by {
                    if k < line.len() {
                        assert(line.push(w)[k] == line[k]);
                    }
                }
            }
            lemma_fill_fits(ws.drop_first(), width, line.push(w), nl);
            assert(fill(ws, width, line, len) == fill(ws.drop_first(), width, line.push(w), nl));
        }
    }
}

proof fn lemma_paragraphs_lines_fit(ps: Seq<Seq<char>>, width: nat)
    requires
        width > 0 || forall|k: int| 0 <= k < ps.len() ==> all_whitespace(#[trigger] ps[k]),
    ensures
        forall|k: int|
            0 <= k < paragraphs_lines(ps, width).len() ==> (#[trigger] paragraphs_lines(
                ps,
                width,
            )[k]).len() <= width,
    decreases ps.len(),
{
    if ps.len() > 0 {
        assert(width > 0 || forall|k: int|
            0 <= k < ps.drop_first().len() ==> all_whitespace(#[trigger] ps.drop_first()[k])) by {
            if width == 0 {
                assert forall|k: int| 0 <= k < ps.drop_first().len() implies all_whitespace(
                    #[trigger] ps.drop_first()[k],
                ) by {
                    assert(ps.drop_first()[k] == ps[k + 1]);
                }
            }
        }
        lemma_paragraphs_lines_fit(ps.drop_first(), width);
        let ws = all_chunks(words(ps[0]), width);
        if width > 0 {
            lemma_all_chunks_fit(words(ps[0]), width);
        } else {
            assert(all_whitespace(ps[0]));
            lemma_words_empty(ps[0]);
            assert(ws == Seq::<Seq<char>>::empty());
        }
        assert(layout_state_ok(width, seq![], 0));
        lemma_fill_fits(ws, width, seq![], 0);
        let first = paragraph_lines(ps[0], width);
        let rest = paragraphs_lines(ps.drop_first(), width);
        assert forall|k: int|
            0 <= k < paragraphs_lines(ps, width).len() implies (#[trigger] paragraphs_lines(
            ps,
            width,
        )[k]).len() <= width by {
            if k < first.len() {
                assert(paragraphs_lines(ps, width)[k] == first[k]);
                if k < first.len() - 1 {
                    assert(first[k] == fill(ws, width, seq![], 0)[k]);
                }
            } else {
                assert(paragraphs_lines(ps, width)[k] == rest[k - first.len()]);
            }
        }
    }
}

proof fn lemma_words_empty(s: Seq<char>)
    requires
        all_whitespace(s),
    ensures
        words(s).len() == 0,
    decreases s.len(),
{
    if s.len() > 0 {
        assert(spec_is_whitespace(s[0]));
        assert(all_whitespace(s.drop_first())) by {
            assert forall|i: int| 0 <= i < s.drop_first().len() implies spec_is_whitespace(
                #[trigger] s.drop_first()[i],
            ) by {
                assert(s.drop_first()[i] == s[i + 1]);
            }
        }
        lemma_words_empty(s.drop_first());
    }
}

proof fn lemma_split_blank_all_whitespace(s: Seq<char>, cur: Seq<char>)
    requires
        all_whitespace(s),
        all_whitespace(cur),
    ensures
        forall|k: int|
            0 <= k < split_blank_acc(s, cur).len() ==> all_whitespace(
                #[trigger] split_blank_acc(s, cur)[k],
            ),
    decreases s.len(),
{
    if s.len() == 0 {
        assert(split_blank_acc(s, cur) == seq![cur]);
    } else if s.len() >= 2 && s[0] == '\n' && s[1] == '\n' {
        let e: Seq<char> = seq![];
        assert(all_whitespace(s.skip(2))) by {
            assert forall|i: int| 0 <= i < s.skip(2).len() implies spec_is_whitespace(
                #[trigger] s.skip(2)[i],
            ) by {
                assert(s.skip(2)[i] == s[i + 2]);
            }
        }
        lemma_split_blank_all_whitespace(s.skip(2), e);
        let rest = split_blank_acc(s.skip(2), e);
        assert forall|k: int|
            0 <= k < split_blank_acc(s, cur).len() implies all_whitespace(
                #[trigger] split_blank_acc(s, cur)[k],
            ) by {
            if k > 0 {
                assert(split_blank_acc(s, cur)[k] == rest[k - 1]);
            }
        }
    } else {
        assert(all_whitespace(s.drop_first())) by {
            assert forall|i: int| 0 <= i < s.drop_first().len() implies spec_is_whitespace(
                #[trigger] s.drop_first()[i],
            ) by {
                assert(s.drop_first()[i] == s[i + 1]);
            }
        }
        assert(all_whitespace(cur.push(s[0]))) by {
            assert forall|i: int| 0 <= i < cur.push(s[0]).len() implies spec_is_whitespace(
                #[trigger] cur.push(s[0])[i],
            ) by {
                if i < cur.len() {
                    assert(cur.push(s[0])[i] == cur[i]);
                } else {
                    assert(cur.push(s[0])[i] == s[0]);
                }
            }
        }
        lemma_split_blank_all_whitespace(s.drop_first(), cur.push(s[0]));
        assert(split_blank_acc(s, cur) == split_blank_acc(s.drop_first(), cur.push(s[0])));
    }
}

/// No output line is longer than the width, counted in characters: long
/// words are cut, and lines of several words fit the width in bytes.
pub proof fn lemma_justify_lines_fit(text: Seq<char>, width: nat)
    requires
        width > 0 || all_whitespace(text),
    ensures
        forall|k: int|
            0 <= k < justify_spec(text, width).len() ==> (#[trigger] justify_spec(text, width)[k]).len()
                <= width,
{
    if width == 0 {
        lemma_split_blank_all_whitespace(text, seq![]);
    }
    lemma_paragraphs_lines_fit(paragraphs(text), width);
}

/// Every paragraph's lines end with an empty line, so the output of a
/// non-empty layout ends with an empty line.
pub proof fn lemma_justify_ends_with_blank(text: Seq<char>, width: nat)
    ensures
        justify_spec(text, width).len() > 0,
        justify_spec(text, width).last() == Seq::<char>::empty(),
{
    lemma_paragraphs_nonempty(text, seq![]);
    lemma_paragraphs_lines_last(paragraphs(text), width);
}

proof fn lemma_paragraphs_nonempty(s: Seq<char>, cur: Seq<char>)
    ensures
        split_blank_acc(s, cur).len() > 0,
    decreases s.len(),
{
    if s.len() >= 2 && s[0] == '\n' && s[1] == '\n' {
        lemma_paragraphs_nonempty(s.skip(2), seq![]);
    } else if s.len() > 0 {
        lemma_paragraphs_nonempty(s.drop_first(), cur.push(s[0]));
    }
}

proof fn lemma_paragraphs_lines_last(ps: Seq<Seq<char>>, width: nat)
    requires
        ps.len() > 0,
    ensures
        paragraphs_lines(ps, width).len() > 0,
        paragraphs_lines(ps, width).last() == Seq::<char>::empty(),
    decreases ps.len(),
{
    if ps.len() > 1 {
        lemma_paragraphs_lines_last(ps.drop_first(), width);
    } else {
        assert(ps.drop_first().len() == 0);
        assert(paragraphs_lines(ps.drop_first(), width) == Seq::<Seq<char>>::empty());
        assert(paragraphs_lines(ps, width) == paragraph_lines(ps[0], width) + Seq::<
            Seq<char>,
        >::empty());
    }
}

} // verus!
