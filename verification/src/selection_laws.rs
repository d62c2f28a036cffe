//! What the text of a selection is, whichever way it was made.

use vstd::prelude::*;
use crate::selection::{
    around_word_range, back_while, fwd_while, in_class, inner_word_range, run_class, min_of, selected_text, word_range_at, CharClass,
};
use crate::text::{spec_is_whitespace, spec_is_word_char};
use crate::command_translation::join_with;

verus! {

/// The selected text does not depend on which end the selection was
/// started from: a selection made upward gives the text of the same
/// selection made downward.
pub proof fn lemma_selected_text_symmetric(
    ls: Seq<Seq<char>>,
    line_mode: bool,
    a: (usize, usize),
    b: (usize, usize),
)
    ensures
        selected_text(ls, line_mode, a, b) == selected_text(ls, line_mode, b, a),
{
}

/// A character selection over several lines, with `a` on the earlier line
/// and `b` on a later line of the document, starts with the rest of `a`'s
/// line from `a`'s column and a newline, and ends with `b`'s line up to
/// `b`'s column; each taken with either end first.
pub proof fn lemma_selected_text_ends(ls: Seq<Seq<char>>, a: (usize, usize), b: (usize, usize))
    requires
        a.0 < b.0 < ls.len(),
    ensures
        ({
            let first = ls[a.0 as int].skip(min_of(a.1 as nat, ls[a.0 as int].len()) as int)
                + seq!['\n'];
            let last = ls[b.0 as int].take(min_of(b.1 as nat, ls[b.0 as int].len()) as int);
            let t = selected_text(ls, false, a, b);
            &&& t == selected_text(ls, false, b, a)
            &&& first.len() + last.len() <= t.len()
            &&& t.take(first.len() as int) == first
            &&& t.skip(t.len() - last.len()) == last
        }),
{
    let first = ls[a.0 as int].skip(min_of(a.1 as nat, ls[a.0 as int].len()) as int) + seq!['\n'];
    let last = ls[b.0 as int].take(min_of(b.1 as nat, ls[b.0 as int].len()) as int);
    let t = selected_text(ls, false, a, b);
    let mid = crate::selection::middle_lines(ls, (a.0 + 1) as nat, b.0 as nat);
    assert(t == first + mid + last);
    assert(t.take(first.len() as int) =~= first);
    assert(t.skip(t.len() - last.len()) =~= last);
}

/// Moving back from column `i` stops at the start of the run of class `k`
/// that ends at `i`.
proof fn lemma_back_while_run(s: Seq<char>, i: nat, k: CharClass)
    requires
        i <= s.len(),
    ensures
        back_while(s, i, k) <= i,
        forall|j: int| back_while(s, i, k) <= j < i ==> #[trigger] in_class(k, s[j]),
        back_while(s, i, k) == 0 || !in_class(k, s[back_while(s, i, k) - 1]),
    decreases i,
{
    if i > 0 && in_class(k, s[i - 1]) {
        lemma_back_while_run(s, (i - 1) as nat, k);
    }
}

/// Moving forward from column `i` stops at the end of the run of class
/// `k` that starts at `i`.
proof fn lemma_fwd_while_run(s: Seq<char>, i: nat, k: CharClass)
    requires
        i <= s.len(),
    ensures
        i <= fwd_while(s, i, k) <= s.len(),
        forall|j: int| i <= j < fwd_while(s, i, k) ==> #[trigger] in_class(k, s[j]),
        fwd_while(s, i, k) == s.len() || !in_class(k, s[fwd_while(s, i, k) as int]),
    decreases s.len() - i,
{
    if i < s.len() && in_class(k, s[i as int]) {
        lemma_fwd_while_run(s, i + 1, k);
    }
}

/// The column a word selection looks at: `col`, kept on the line.
pub open spec fn kept_on_line(s: Seq<char>, col: nat) -> nat {
    if col < s.len() {
        col
    } else {
        (s.len() - 1) as nat
    }
}

/// The inner word under column `col` is the whole run around that column
/// of characters of one kind: non-whitespace for a big word; otherwise
/// word characters, or punctuation, as the character under the column is.
/// The run covers the column, and the characters just outside it, if any,
/// are of another kind. There is none exactly on an empty line or on
/// whitespace.
pub proof fn lemma_inner_word_is_run(s: Seq<char>, col: nat, big: bool)
    ensures
        inner_word_range(s, col, big) is None <==> (s.len() == 0 || spec_is_whitespace(
            s[kept_on_line(s, col) as int],
        )),
        inner_word_range(s, col, big) matches Some((a, b)) ==> {
            let c = kept_on_line(s, col);
            let k = if big {
                CharClass::NonSpace
            } else if spec_is_word_char(s[c as int]) {
                CharClass::Word
            } else {
                CharClass::Punct
            };
            &&& a <= c < b <= s.len()
            &&& forall|j: int| a <= j < b ==> #[trigger] in_class(k, s[j])
            &&& (a == 0 || !in_class(k, s[a - 1]))
            &&& (b == s.len() || !in_class(k, s[b as int]))
        },
{
    if s.len() > 0 {
        let c = kept_on_line(s, col);
        let k = if big {
            CharClass::NonSpace
        } else if spec_is_word_char(s[c as int]) {
            CharClass::Word
        } else {
            CharClass::Punct
        };
        lemma_back_while_run(s, c, k);
        lemma_fwd_while_run(s, c + 1, k);
    }
}

/// The word `*` and `#` search for is the whole run of word characters
/// around the cursor's column (kept on the line); there is none exactly on
/// an empty line or on a character that is not a word character.
pub proof fn lemma_word_at_column_is_run(s: Seq<char>, col: nat)
    ensures
        word_range_at(s, col) is None <==> (s.len() == 0 || !spec_is_word_char(
            s[kept_on_line(s, col) as int],
        )),
        word_range_at(s, col) matches Some((a, b)) ==> {
            let c = kept_on_line(s, col);
            &&& a <= c < b <= s.len()
            &&& forall|j: int| a <= j < b ==> #[trigger] spec_is_word_char(s[j])
            &&& (a == 0 || !spec_is_word_char(s[a - 1]))
            &&& (b == s.len() || !spec_is_word_char(s[b as int]))
        },
{
    if s.len() > 0 {
        let c = kept_on_line(s, col);
        lemma_back_while_run(s, c, CharClass::Word);
        lemma_fwd_while_run(s, c + 1, CharClass::Word);
        match word_range_at(s, col) {
            Some((a, b)) => {
                assert forall|j: int| a <= j < b implies #[trigger] spec_is_word_char(s[j]) by {
                    assert(in_class(CharClass::Word, s[j]));
                }
            },
            None => {},
        }
    }
}

/// Over a stretch of characters of class `k`, moving forward ends at the
/// same place from either end of the stretch.
proof fn lemma_fwd_while_skip(s: Seq<char>, i: nat, j: nat, k: CharClass)
    requires
        i <= j <= s.len(),
        forall|m: int| i <= m < j ==> #[trigger] in_class(k, s[m]),
    ensures
        fwd_while(s, i, k) == fwd_while(s, j, k),
    decreases j - i,
{
    if i < j {
        lemma_fwd_while_skip(s, i + 1, j, k);
    }
}

/// Selecting around a word: the selection ends where the whitespace after
/// the word ends (at the end of the line or before a non-whitespace
/// character). On a word, the selection holds the inner word (see
/// `inner_word_range`) with only whitespace added around it: all the
/// whitespace after it, and, when some follows it or the word starts the
/// line, all the whitespace before it; otherwise none before it.
pub proof fn lemma_around_word_contains_inner(s: Seq<char>, col: nat, big: bool)
    requires
        col < s.len(),
    ensures
        ({
            let (a, b) = around_word_range(s, col, big);
            &&& a <= b <= s.len()
            &&& (b == s.len() || !spec_is_whitespace(s[b as int]))
            &&& !spec_is_whitespace(s[col as int]) ==> {
                let (ia, ib) = inner_word_range(s, col, big).unwrap();
                &&& inner_word_range(s, col, big) is Some
                &&& a <= ia <= col < ib <= b
                &&& forall|j: int| a <= j < ia ==> spec_is_whitespace(#[trigger] s[j])
                &&& forall|j: int| ib <= j < b ==> spec_is_whitespace(#[trigger] s[j])
                &&& (b < s.len() || ia == 0) ==> (a == 0 || !spec_is_whitespace(s[a - 1]))
                &&& !(b < s.len() || ia == 0) ==> a == ia
            }
        }),
{
    let st0 = if col < s.len() && spec_is_whitespace(s[col as int]) {
        let bb = back_while(s, col, CharClass::Space);
        lemma_back_while_run(s, col, CharClass::Space);
        if bb > 0 {
            (bb - 1) as nat
        } else {
            bb
        }
    } else {
        col
    };
    assert(st0 <= s.len());
    let st1 = if st0 < s.len() {
        match run_class(s[st0 as int], big) {
            Some(k) => {
                lemma_back_while_run(s, st0, k);
                back_while(s, st0, k)
            },
            None => st0,
        }
    } else {
        st0
    };
    let e0 = if st1 < s.len() {
        match run_class(s[st1 as int], big) {
            Some(k) => {
                lemma_fwd_while_run(s, st1, k);
                fwd_while(s, st1, k)
            },
            None => st1,
        }
    } else {
        st1
    };
    lemma_fwd_while_run(s, e0, CharClass::Space);
    lemma_back_while_run(s, st1, CharClass::Space);
    let e1 = fwd_while(s, e0, CharClass::Space);
    let st2 = if e1 < s.len() || st1 == 0 {
        back_while(s, st1, CharClass::Space)
    } else {
        st1
    };
    assert(around_word_range(s, col, big) == (st2, e1));
    assert forall|j: int| e0 <= j < e1 implies spec_is_whitespace(#[trigger] s[j]) by {
        assert(in_class(CharClass::Space, s[j]));
    }
    assert forall|j: int| st2 <= j < st1 implies spec_is_whitespace(#[trigger] s[j]) by {
        assert(in_class(CharClass::Space, s[j]));
    }
    assert(e1 == s.len() || !in_class(CharClass::Space, s[e1 as int]));
    assert(st2 == 0 || st2 == st1 || !in_class(CharClass::Space, s[st2 - 1]));
    if !spec_is_whitespace(s[col as int]) {
        lemma_inner_word_is_run(s, col, big);
        let k = if big {
            CharClass::NonSpace
        } else if spec_is_word_char(s[col as int]) {
            CharClass::Word
        } else {
            CharClass::Punct
        };
        assert(kept_on_line(s, col) == col);
        assert(run_class(s[col as int], big) == Some(k));
        let (ia, ib) = inner_word_range(s, col, big).unwrap();
        assert(st1 == ia);
        assert(in_class(k, s[ia as int]));
        assert(run_class(s[ia as int], big) == Some(k));
        lemma_fwd_while_skip(s, ia, col + 1, k);
        assert(e0 == ib);
    }
}

/// In line mode the columns of a selection's ends do not matter.
pub proof fn lemma_line_selection_ignores_columns(
    ls: Seq<Seq<char>>,
    l1: usize,
    x1: usize,
    y1: usize,
    l2: usize,
    x2: usize,
    y2: usize,
)
    ensures
        selected_text(ls, true, (l1, x1), (l2, x2)) == selected_text(ls, true, (l1, y1), (l2, y2)),
{
}

/// Strings joined with a separator start with the first string, followed
/// by the separator when another string follows, and end with the last.
proof fn lemma_join_ends(ss: Seq<Seq<char>>, sep: Seq<char>)
    requires
        ss.len() >= 1,
    ensures
        ss[0].len() <= join_with(ss, sep).len(),
        join_with(ss, sep).take(ss[0].len() as int) == ss[0],
        ss.len() >= 2 ==> ss[0].len() + sep.len() <= join_with(ss, sep).len() && join_with(
            ss,
            sep,
        ).take((ss[0].len() + sep.len()) as int) == ss[0] + sep,
        ss.last().len() <= join_with(ss, sep).len(),
        join_with(ss, sep).skip(join_with(ss, sep).len() - ss.last().len()) == ss.last(),
    decreases ss.len(),
{
    let j = join_with(ss, sep);
    if ss.len() == 1 {
        assert(j.take(ss[0].len() as int) =~= ss[0]);
        assert(j.skip(0) =~= j);
    } else {
        let d = ss.drop_last();
        lemma_join_ends(d, sep);
        let jd = join_with(d, sep);
        assert(j == jd + sep + ss.last());
        assert(d[0] == ss[0]);
        assert(j.take(ss[0].len() as int) =~= jd.take(ss[0].len() as int));
        if ss.len() == 2 {
            assert(jd == ss[0]);
            assert(j.take((ss[0].len() + sep.len()) as int) =~= ss[0] + sep);
        } else {
            assert(j.take((ss[0].len() + sep.len()) as int) =~= jd.take((ss[0].len() + sep.len()) as int));
        }
        assert(j.skip(j.len() - ss.last().len()) =~= ss.last());
    }
}

/// In line mode the selected text is made of whole lines: it starts with
/// the whole earlier line (then a newline when the selection spans more
/// than one line) and ends with the whole later line.
pub proof fn lemma_line_selection_whole_lines(ls: Seq<Seq<char>>, a: (usize, usize), b: (usize, usize))
    requires
        a.0 <= b.0 < ls.len(),
    ensures
        ({
            let t = selected_text(ls, true, a, b);
            let first = ls[a.0 as int];
            let last = ls[b.0 as int];
            &&& first.len() <= t.len()
            &&& t.take(first.len() as int) == first
            &&& a.0 < b.0 ==> first.len() + 1 <= t.len() && t[first.len() as int] == '\n'
            &&& last.len() <= t.len()
            &&& t.skip(t.len() - last.len()) == last
        }),
{
    let ss = ls.subrange(a.0 as int, b.0 + 1);
    lemma_join_ends(ss, seq!['\n']);
    assert(ss[0] == ls[a.0 as int]);
    assert(ss.last() == ls[b.0 as int]);
    let t = selected_text(ls, true, a, b);
    assert(t == join_with(ss, seq!['\n']));
    if a.0 < b.0 {
        let first = ls[a.0 as int];
        assert(t.take(first.len() as int + 1)[first.len() as int] == t[first.len() as int]);
        assert((first + seq!['\n'])[first.len() as int] == '\n');
    }
}

} // verus!
