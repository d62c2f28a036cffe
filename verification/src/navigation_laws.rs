//! What the paragraph motions `}` and `{` land on, stated over which lines
//! are blank.

use vstd::prelude::*;
use crate::movement::non_ws_from;
use crate::navigation::{
    blank, first_blank_from, first_nonblank_from, is_sentence_end, last_blank_before,
    last_nonblank_before, last_position, last_word_start, next_line_start, next_line_start_from,
    next_sentence_from, prev_sentence_from, skip_back_punct, skip_back_word, skip_back_ws,
    paragraph_boundary, sentence_start_after,
};
use crate::movement::lemma_non_ws_from;
use crate::text::{spec_is_whitespace, spec_is_word_char};
use crate::text_object_laws::fwd_stream;

verus! {

/// The first blank line at or after `i`, if any, has only non-blank lines
/// before it from `i` on; with none, every line from `i` on is non-blank.
proof fn lemma_first_blank_from(ls: Seq<Seq<char>>, i: nat)
    ensures
        match first_blank_from(ls, i) {
            Some(b) => i <= b < ls.len() && blank(ls[b as int]) && forall|k: int|
                i <= k < b ==> !#[trigger] blank(ls[k]),
            None => forall|k: int| i <= k < ls.len() ==> !#[trigger] blank(ls[k]),
        },
    decreases ls.len() - i,
{
    if i < ls.len() {
        lemma_first_blank_from(ls, i + 1);
    }
}

/// The first non-blank line at or after `i`, if any, has only blank lines
/// before it from `i` on; with none, every line from `i` on is blank.
proof fn lemma_first_nonblank_from(ls: Seq<Seq<char>>, i: nat)
    ensures
        match first_nonblank_from(ls, i) {
            Some(n) => i <= n < ls.len() && !blank(ls[n as int]) && forall|k: int|
                i <= k < n ==> #[trigger] blank(ls[k]),
            None => forall|k: int| i <= k < ls.len() ==> #[trigger] blank(ls[k]),
        },
    decreases ls.len() - i,
{
    if i < ls.len() {
        lemma_first_nonblank_from(ls, i + 1);
    }
}

/// The last blank line before `i`, if any, has only non-blank lines after
/// it up to `i`; with none, every line before `i` is non-blank.
proof fn lemma_last_blank_before(ls: Seq<Seq<char>>, i: nat)
    requires
        i <= ls.len(),
    ensures
        match last_blank_before(ls, i) {
            Some(b) => b < i && blank(ls[b as int]) && forall|k: int|
                b < k < i ==> !#[trigger] blank(ls[k]),
            None => forall|k: int| 0 <= k < i ==> !#[trigger] blank(ls[k]),
        },
    decreases i,
{
    if i > 0 {
        lemma_last_blank_before(ls, (i - 1) as nat);
    }
}

/// The last non-blank line before `i`, if any, has only blank lines after
/// it up to `i`; with none, every line before `i` is blank.
proof fn lemma_last_nonblank_before(ls: Seq<Seq<char>>, i: nat)
    requires
        i <= ls.len(),
    ensures
        match last_nonblank_before(ls, i) {
            Some(p) => p < i && !blank(ls[p as int]) && forall|k: int|
                p < k < i ==> #[trigger] blank(ls[k]),
            None => forall|k: int| 0 <= k < i ==> #[trigger] blank(ls[k]),
        },
    decreases i,
{
    if i > 0 {
        lemma_last_nonblank_before(ls, (i - 1) as nat);
    }
}

/// `}` from line `cur` lands at column 0 of a line at or after `cur`. With
/// no blank line after `cur` it lands on the last line. Otherwise, with `b`
/// the first blank line after `cur`, it lands on the first non-blank line
/// after `b` (only blank lines lie between), or on `b` itself when every
/// line after `b` is blank.
pub proof fn lemma_paragraph_forward(ls: Seq<Seq<char>>, cur: nat)
    requires
        cur < ls.len(),
    ensures
        ({
            let (t, c) = paragraph_boundary(ls, cur, true);
            &&& c == 0
            &&& cur <= t < ls.len()
            &&& (forall|k: int| cur < k < ls.len() ==> !#[trigger] blank(ls[k])) ==> t == ls.len()
                - 1
            &&& (exists|k: int| cur < k < ls.len() && #[trigger] blank(ls[k])) ==> exists|b: nat|
                {
                    &&& cur < b <= t
                    &&& #[trigger] blank(ls[b as int])
                    &&& forall|k: int| cur < k < b ==> !#[trigger] blank(ls[k])
                    &&& forall|k: int| b < k < t ==> #[trigger] blank(ls[k])
                    &&& (t == b ==> forall|k: int| b < k < ls.len() ==> #[trigger] blank(ls[k]))
                    &&& (t != b ==> !blank(ls[t as int]))
                }
        }),
{
    lemma_first_blank_from(ls, cur + 1);
    match first_blank_from(ls, cur + 1) {
        Some(b) => {
            lemma_first_nonblank_from(ls, b + 1);
            assert(blank(ls[b as int]));
        },
        None => {},
    }
}

/// `{` from line `cur` lands at column 0 of a line at or before `cur`:
/// line 0 from line 0 or when no blank line lies before `cur`. Otherwise,
/// with `b` the last blank line before `cur`, it lands on the first line of
/// the run of blank lines that ends at `b`: every line from the target to
/// `b` is blank, and the line before the target, if any, is not.
pub proof fn lemma_paragraph_backward(ls: Seq<Seq<char>>, cur: nat)
    requires
        cur < ls.len(),
    ensures
        ({
            let (t, c) = paragraph_boundary(ls, cur, false);
            &&& c == 0
            &&& t <= cur
            &&& (forall|k: int| 0 <= k < cur ==> !#[trigger] blank(ls[k])) ==> t == 0
            &&& (exists|k: int| 0 <= k < cur && #[trigger] blank(ls[k])) ==> exists|b: nat|
                {
                    &&& t <= b < cur
                    &&& #[trigger] blank(ls[b as int])
                    &&& forall|k: int| b < k < cur ==> !#[trigger] blank(ls[k])
                    &&& forall|k: int| t <= k < b ==> #[trigger] blank(ls[k])
                    &&& (t > 0 ==> !blank(ls[t - 1]))
                }
        }),
{
    if cur > 0 {
        lemma_last_blank_before(ls, cur);
        match last_blank_before(ls, cur) {
            Some(b) => {
                lemma_last_nonblank_before(ls, b);
                assert(blank(ls[b as int]));
            },
            None => {},
        }
    }
}

/// The first non-whitespace character from column `c` of line `l` on,
/// reading on through the lines after.
spec fn non_ws_pos_from(ls: Seq<Seq<char>>, l: nat, c: nat) -> Option<(nat, nat)> {
    if l >= ls.len() {
        None
    } else {
        match non_ws_from(ls[l as int], c) {
            Some(k) => Some((l, k)),
            None => next_line_start_from(ls, l + 1),
        }
    }
}

/// Whether index `m` of `t` holds the first non-whitespace character of
/// `t`.
pub open spec fn first_non_ws_at(t: Seq<(char, nat, nat)>, m: int) -> bool {
    &&& 0 <= m < t.len()
    &&& !spec_is_whitespace(t[m].0)
    &&& forall|i: int| 0 <= i < m ==> spec_is_whitespace(#[trigger] t[i].0)
}

/// `non_ws_pos_from` finds the first non-whitespace character of the
/// text read on from `(l, c)`, and nothing when there is none.
proof fn lemma_non_ws_pos_from(ls: Seq<Seq<char>>, l: nat, c: nat)
    ensures
        ({
            let t = fwd_stream(ls, l, c);
            match non_ws_pos_from(ls, l, c) {
                Some(p) => exists|m: int|
                    #[trigger] first_non_ws_at(t, m) && t[m].1 == p.0 && t[m].2 == p.1,
                None => forall|m: int| 0 <= m < t.len() ==> spec_is_whitespace(#[trigger] t[m].0),
            }
        }),
    decreases ls.len() - l, ls[l as int].len() - c,
{
    if l >= ls.len() {
    } else if c >= ls[l as int].len() {
        lemma_non_ws_pos_from(ls, l + 1, 0);
        assert(fwd_stream(ls, l, c) == fwd_stream(ls, l + 1, 0));
        assert(non_ws_pos_from(ls, l, c) == non_ws_pos_from(ls, l + 1, 0));
    } else {
        let x = (ls[l as int][c as int], l, c);
        let r = fwd_stream(ls, l, c + 1);
        let t = fwd_stream(ls, l, c);
        assert(t == seq![x] + r);
        assert(t[0] == x);
        if !spec_is_whitespace(x.0) {
            assert(first_non_ws_at(t, 0));
        } else {
            lemma_non_ws_pos_from(ls, l, c + 1);
            assert(non_ws_pos_from(ls, l, c) == non_ws_pos_from(ls, l, c + 1));
            match non_ws_pos_from(ls, l, c) {
                Some(p) => {
                    let m = choose|m: int| #[trigger] first_non_ws_at(r, m) && r[m].1 == p.0 && r[m].2 == p.1;
                    assert(t[m + 1] == r[m]);
                    assert forall|i: int| 0 <= i < m + 1 implies spec_is_whitespace(#[trigger] t[i].0) by {
                        if i > 0 {
                            assert(t[i] == r[i - 1]);
                        }
                    }
                    assert(first_non_ws_at(t, m + 1));
                },
                None => {
                    assert forall|m: int| 0 <= m < t.len() implies spec_is_whitespace(#[trigger] t[m].0) by {
                        if m > 0 {
                            assert(t[m] == r[m - 1]);
                        }
                    }
                },
            }
        }
    }
}

/// Whether the character read at `e` ends a sentence.
pub open spec fn ends_sentence(ls: Seq<Seq<char>>, e: (char, nat, nat)) -> bool {
    is_sentence_end(ls[e.1 as int], e.2)
}

/// Whether index `k` of `s` holds the first sentence end of `s`.
pub open spec fn first_sentence_end_at(ls: Seq<Seq<char>>, s: Seq<(char, nat, nat)>, k: int) -> bool {
    &&& 0 <= k < s.len()
    &&& ends_sentence(ls, s[k])
    &&& forall|i: int| 0 <= i < k ==> !ends_sentence(ls, #[trigger] s[i])
}

/// `)` searching from `(l, c)`: reading on from there, at the first
/// sentence end (a `.`, `!` or `?` at the end of its line or before
/// whitespace) it lands on the first non-whitespace character read after
/// that end, or on the end itself when only whitespace follows. With no
/// sentence end ahead it lands on the last character of the text.
pub proof fn lemma_next_sentence(ls: Seq<Seq<char>>, l: nat, c: nat)
    ensures
        ({
            let s = fwd_stream(ls, l, c);
            let r = next_sentence_from(ls, l, c);
            &&& (forall|k: int| 0 <= k < s.len() ==> !ends_sentence(ls, #[trigger] s[k])) ==> r
                == last_position(ls)
            &&& forall|k: int|
                #[trigger] first_sentence_end_at(ls, s, k) ==> {
                    let t = fwd_stream(ls, s[k].1, s[k].2 + 1);
                    &&& (forall|m: int| 0 <= m < t.len() ==> spec_is_whitespace(#[trigger] t[m].0))
                        ==> r == (s[k].1, s[k].2)
                    &&& forall|m: int| #[trigger] first_non_ws_at(t, m) ==> r == (t[m].1, t[m].2)
                }
        }),
    decreases ls.len() - l, ls[l as int].len() - c,
{
    let s = fwd_stream(ls, l, c);
    if l >= ls.len() {
    } else if c >= ls[l as int].len() {
        lemma_next_sentence(ls, l + 1, 0);
        assert(s == fwd_stream(ls, l + 1, 0));
    } else {
        let x = (ls[l as int][c as int], l, c);
        let rs = fwd_stream(ls, l, c + 1);
        assert(s == seq![x] + rs);
        assert(s[0] == x);
        if is_sentence_end(ls[l as int], c) {
            let t = fwd_stream(ls, l, c + 1);
            lemma_non_ws_pos_from(ls, l, c + 1);
            assert(ends_sentence(ls, s[0]));
            assert forall|k: int| #[trigger] first_sentence_end_at(ls, s, k) implies k == 0 by {
                if k > 0 {
                    assert(!ends_sentence(ls, s[0]));
                }
            }
            assert forall|m1: int, m2: int|
                #[trigger] first_non_ws_at(t, m1) && #[trigger] first_non_ws_at(t, m2) implies m1
                == m2 by {
                if m1 < m2 {
                    assert(spec_is_whitespace(t[m1].0));
                } else if m2 < m1 {
                    assert(spec_is_whitespace(t[m2].0));
                }
            }
        } else {
            lemma_next_sentence(ls, l, c + 1);
            assert(!ends_sentence(ls, s[0]));
            assert forall|k: int| 0 < k < s.len() implies first_sentence_end_at(ls, s, k)
                == first_sentence_end_at(ls, rs, k - 1) && s[k] == rs[k - 1] by {
                assert(s[k] == rs[k - 1]);
                if first_sentence_end_at(ls, rs, k - 1) {
                    assert forall|i: int| 0 <= i < k implies !ends_sentence(ls, #[trigger] s[i]) by {
                        if i > 0 {
                            assert(s[i] == rs[i - 1]);
                        }
                    }
                }
                if first_sentence_end_at(ls, s, k) {
                    assert forall|i: int| 0 <= i < k - 1 implies !ends_sentence(ls, #[trigger] rs[i]) by {
                        assert(s[i + 1] == rs[i]);
                    }
                }
            }
            assert((forall|k: int| 0 <= k < s.len() ==> !ends_sentence(ls, #[trigger] s[k])) ==> (
            forall|k: int| 0 <= k < rs.len() ==> !ends_sentence(ls, #[trigger] rs[k]))) by {
                assert forall|k: int| 0 <= k < rs.len() implies s[k + 1] == rs[k] by {}
            }
            assert forall|k: int| #[trigger] first_sentence_end_at(ls, s, k) implies k > 0
                && first_sentence_end_at(ls, rs, k - 1) by {}
        }
    }
}

/// The positions `(` looks at, in the order it looks at them: from column
/// `c` of line `l` back to column 1, then each line before from its last
/// column back to column 1. Column 0 of a line is never looked at.
pub open spec fn sentence_back_positions(ls: Seq<Seq<char>>, l: nat, c: nat) -> Seq<(nat, nat)>
    decreases l, c,
{
    if c > 0 {
        seq![(l, c)] + sentence_back_positions(ls, l, (c - 1) as nat)
    } else if l == 0 {
        seq![]
    } else {
        sentence_back_positions(
            ls,
            (l - 1) as nat,
            if ls[l - 1].len() >= 1 {
                (ls[l - 1].len() - 1) as nat
            } else {
                0
            },
        )
    }
}

/// `(` searching back from `(l, c)`: at the first sentence end it looks at
/// (see `sentence_back_positions`) it lands just after that end, on the
/// same line; with none it lands on the start of the text.
pub proof fn lemma_prev_sentence(ls: Seq<Seq<char>>, l: nat, c: nat)
    ensures
        ({
            let p = sentence_back_positions(ls, l, c);
            let r = prev_sentence_from(ls, l, c);
            &&& (forall|k: int| 0 <= k < p.len() ==> !is_sentence_end(ls[p[k].0 as int], #[trigger] p[k].1))
                ==> r == (0nat, 0nat)
            &&& forall|k: int|
                0 <= k < p.len() && is_sentence_end(ls[p[k].0 as int], #[trigger] p[k].1) && (forall|
                    i: int,
                | 0 <= i < k ==> !is_sentence_end(ls[p[i].0 as int], #[trigger] p[i].1)) ==> r == (
                    p[k].0,
                    p[k].1 + 1,
                )
        }),
    decreases l, c,
{
    let p = sentence_back_positions(ls, l, c);
    if c > 0 {
        let rest = sentence_back_positions(ls, l, (c - 1) as nat);
        assert(p == seq![(l, c)] + rest);
        assert(p[0] == (l, c));
        if is_sentence_end(ls[l as int], c) {
            assert(is_sentence_end(ls[p[0].0 as int], p[0].1));
            assert forall|k: int|
                0 <= k < p.len() && is_sentence_end(ls[p[k].0 as int], #[trigger] p[k].1) && (forall|
                    i: int,
                | 0 <= i < k ==> !is_sentence_end(ls[p[i].0 as int], #[trigger] p[i].1)) implies k
                == 0 by {
                if k > 0 {
                    assert(!is_sentence_end(ls[p[0].0 as int], p[0].1));
                }
            }
        } else {
            lemma_prev_sentence(ls, l, (c - 1) as nat);
            assert forall|k: int| 0 < k < p.len() implies p[k] == rest[k - 1] by {}
            assert forall|k: int|
                0 <= k < p.len() && is_sentence_end(ls[p[k].0 as int], #[trigger] p[k].1) && (forall|
                    i: int,
                | 0 <= i < k ==> !is_sentence_end(ls[p[i].0 as int], #[trigger] p[i].1)) implies
                prev_sentence_from(ls, l, c) == (p[k].0, p[k].1 + 1) by {
                assert(k > 0);
                assert(p[k] == rest[k - 1]);
                assert forall|i: int| 0 <= i < k - 1 implies !is_sentence_end(
                    ls[rest[i].0 as int],
                    #[trigger] rest[i].1,
                ) by {
                    assert(p[i + 1] == rest[i]);
                }
            }
            assert((forall|k: int| 0 <= k < p.len() ==> !is_sentence_end(ls[p[k].0 as int], #[trigger] p[k].1))
                ==> (forall|k: int| 0 <= k < rest.len() ==> !is_sentence_end(ls[rest[k].0 as int], #[trigger] rest[k].1))) by {
                assert forall|k: int| 0 <= k < rest.len() implies p[k + 1] == rest[k] by {}
            }
        }
    } else if l == 0 {
    } else {
        let c2 = if ls[l - 1].len() >= 1 {
            (ls[l - 1].len() - 1) as nat
        } else {
            0
        };
        lemma_prev_sentence(ls, (l - 1) as nat, c2);
        assert(p == sentence_back_positions(ls, (l - 1) as nat, c2));
    }
}

/// The first line from `l` on with a non-whitespace character, and that
/// character's column, follow only blank lines.
proof fn lemma_next_line_start_from(ls: Seq<Seq<char>>, l: nat)
    ensures
        match next_line_start_from(ls, l) {
            Some((m, k)) => {
                &&& l <= m < ls.len()
                &&& k < ls[m as int].len()
                &&& !spec_is_whitespace(ls[m as int][k as int])
                &&& forall|j: int| 0 <= j < k ==> spec_is_whitespace(#[trigger] ls[m as int][j])
                &&& forall|i: int| l <= i < m ==> #[trigger] blank(ls[i])
            },
            None => forall|i: int| l <= i < ls.len() ==> #[trigger] blank(ls[i]),
        },
    decreases ls.len() - l,
{
    if l < ls.len() {
        lemma_non_ws_from(ls[l as int], 0);
        lemma_next_line_start_from(ls, l + 1);
    }
}

/// Going to the start of the text from line `start`: the first
/// non-whitespace character on the first line from `start` on that has
/// one, every line before it from `start` on being blank; when every line
/// from `start` on is blank, column 0 of `start`, or of the last line when
/// `start` lies past the end.
pub proof fn lemma_next_line_start(ls: Seq<Seq<char>>, start: nat)
    ensures
        ({
            let (m, k) = next_line_start(ls, start);
            &&& (exists|i: int| start <= i < ls.len() && !#[trigger] blank(ls[i])) ==> {
                &&& start <= m < ls.len()
                &&& k < ls[m as int].len()
                &&& !spec_is_whitespace(ls[m as int][k as int])
                &&& forall|j: int| 0 <= j < k ==> spec_is_whitespace(#[trigger] ls[m as int][j])
                &&& forall|i: int| start <= i < m ==> #[trigger] blank(ls[i])
            }
            &&& (forall|i: int| start <= i < ls.len() ==> #[trigger] blank(ls[i])) ==> k == 0 && (if start
                < ls.len() {
                m == start
            } else {
                m == (if ls.len() >= 1 {
                    ls.len() - 1
                } else {
                    0
                })
            })
        }),
{
    lemma_next_line_start_from(ls, start);
    match next_line_start_from(ls, start) {
        Some((m, k)) => {
            assert(!blank(ls[m as int]));
        },
        None => {},
    }
}

/// Moving back from column `e` over whitespace stops after the last
/// non-whitespace character before `e`.
proof fn lemma_skip_back_ws(s: Seq<char>, e: nat)
    requires
        e <= s.len(),
    ensures
        skip_back_ws(s, e) <= e,
        forall|j: int| skip_back_ws(s, e) <= j < e ==> spec_is_whitespace(#[trigger] s[j]),
        skip_back_ws(s, e) > 0 ==> !spec_is_whitespace(s[skip_back_ws(s, e) - 1]),
    decreases e,
{
    if e > 0 && spec_is_whitespace(s[e - 1]) {
        lemma_skip_back_ws(s, (e - 1) as nat);
    }
}

/// Moving back from column `e` over word characters stops at the start
/// of their run.
proof fn lemma_skip_back_word(s: Seq<char>, e: nat)
    requires
        e <= s.len(),
    ensures
        skip_back_word(s, e) <= e,
        forall|j: int| skip_back_word(s, e) <= j < e ==> spec_is_word_char(#[trigger] s[j]),
        skip_back_word(s, e) > 0 ==> !spec_is_word_char(s[skip_back_word(s, e) - 1]),
    decreases e,
{
    if e > 0 && spec_is_word_char(s[e - 1]) {
        lemma_skip_back_word(s, (e - 1) as nat);
    }
}

/// Whether `c` is punctuation: neither whitespace nor a word character.
pub open spec fn is_punct(c: char) -> bool {
    !spec_is_whitespace(c) && !spec_is_word_char(c)
}

/// Moving back from column `e` over punctuation stops at the start of its
/// run.
proof fn lemma_skip_back_punct(s: Seq<char>, e: nat)
    requires
        e <= s.len(),
    ensures
        skip_back_punct(s, e) <= e,
        forall|j: int| skip_back_punct(s, e) <= j < e ==> is_punct(#[trigger] s[j]),
        skip_back_punct(s, e) > 0 ==> !is_punct(s[skip_back_punct(s, e) - 1]),
    decreases e,
{
    if e > 0 && is_punct(s[e - 1]) {
        lemma_skip_back_punct(s, (e - 1) as nat);
    }
}

/// The column the end of a line goes to is the start of its last word:
/// with `e` the end of the line's text (only whitespace after it), the
/// characters from the result up to `e` are all word characters or all
/// punctuation, as the last one is, and the character before the result,
/// if any, is not of that kind. A blank line gives column 0.
pub proof fn lemma_last_word_start(s: Seq<char>)
    ensures
        ({
            let e = skip_back_ws(s, s.len());
            let a = last_word_start(s);
            &&& a <= e <= s.len()
            &&& forall|j: int| e <= j < s.len() ==> spec_is_whitespace(#[trigger] s[j])
            &&& e == 0 ==> a == 0
            &&& e > 0 ==> {
                &&& !spec_is_whitespace(s[e - 1])
                &&& spec_is_word_char(s[e - 1]) ==> (forall|j: int|
                    a <= j < e ==> spec_is_word_char(#[trigger] s[j])) && (a == 0
                    || !spec_is_word_char(s[a - 1]))
                &&& !spec_is_word_char(s[e - 1]) ==> (forall|j: int|
                    a <= j < e ==> is_punct(#[trigger] s[j])) && (a == 0 || !is_punct(s[a - 1]))
            }
        }),
{
    let e = skip_back_ws(s, s.len());
    lemma_skip_back_ws(s, s.len());
    if e > 0 {
        lemma_skip_back_word(s, e);
        lemma_skip_back_punct(s, e);
    }
    assert(last_word_start(s) <= e <= s.len());
}

} // verus!
