//! What the delimiter searches of the text objects find, stated over the
//! characters they pass: the delimiter found is the nearest one whose
//! stretch up to the cursor is balanced.

use vstd::prelude::*;
use crate::selection::{middle_lines, selected_text};
use crate::text_objects::{delim_back, delim_fwd, delimited_selection};

verus! {

/// The characters a backward search reads, in the order it reads them,
/// each with its line and column: the first `c` characters of line `l`
/// from the last one back, then each line before from its end. Lines past
/// the end give none.
pub open spec fn back_stream(ls: Seq<Seq<char>>, l: int, c: nat) -> Seq<(char, nat, nat)>
    decreases l + 1, c,
{
    if l < 0 {
        seq![]
    } else if c == 0 || l >= ls.len() {
        back_stream(
            ls,
            l - 1,
            if 0 <= l - 1 < ls.len() {
                ls[l - 1].len()
            } else {
                0
            },
        )
    } else {
        seq![(ls[l][c - 1], l as nat, (c - 1) as nat)] + back_stream(ls, l, (c - 1) as nat)
    }
}

/// The characters a forward search reads, in order, each with its line and
/// column: line `l` from column `c` on, then each line after from its
/// start.
pub open spec fn fwd_stream(ls: Seq<Seq<char>>, l: nat, c: nat) -> Seq<(char, nat, nat)>
    decreases ls.len() - l, ls[l as int].len() - c,
{
    if l >= ls.len() {
        seq![]
    } else if c >= ls[l as int].len() {
        fwd_stream(ls, l + 1, 0)
    } else {
        seq![(ls[l as int][c as int], l, c)] + fwd_stream(ls, l, c + 1)
    }
}

/// How many of the characters in `s` are `ch`.
pub open spec fn count_char(s: Seq<(char, nat, nat)>, ch: char) -> nat
    decreases s.len(),
{
    if s.len() == 0 {
        0
    } else {
        (if s[0].0 == ch {
            1nat
        } else {
            0nat
        }) + count_char(s.subrange(1, s.len() as int), ch)
    }
}

/// The number of `opposite` characters still waiting for a `target` after
/// the first `j` characters of `s`, starting with `nest` waiting: each
/// `opposite` adds one, each `target` takes one away.
pub open spec fn depth(s: Seq<(char, nat, nat)>, opposite: char, target: char, nest: nat, j: int) -> int {
    nest + count_char(s.take(j), opposite) - count_char(s.take(j), target)
}

/// Whether the `target` at index `k` of `s` closes the stretch before it:
/// no prefix of the stretch has more `target`s than waiting `opposite`s,
/// and the whole stretch has as many.
pub open spec fn balanced_at(s: Seq<(char, nat, nat)>, opposite: char, target: char, nest: nat, k: int) -> bool {
    &&& 0 <= k < s.len()
    &&& s[k].0 == target
    &&& depth(s, opposite, target, nest, k) == 0
    &&& forall|j: int| 0 <= j <= k ==> #[trigger] depth(s, opposite, target, nest, j) >= 0
}

/// Counting over the first `j + 1` characters of `x` followed by `r` is
/// counting `x`, then over the first `j` of `r`.
proof fn lemma_count_cons(x: (char, nat, nat), r: Seq<(char, nat, nat)>, j: int, ch: char)
    requires
        0 <= j <= r.len(),
    ensures
        count_char((seq![x] + r).take(j + 1), ch) == (if x.0 == ch {
            1nat
        } else {
            0nat
        }) + count_char(r.take(j), ch),
{
    let t = (seq![x] + r).take(j + 1);
    assert(t.subrange(1, t.len() as int) =~= r.take(j));
    assert(t[0] == x);
}

/// Depths along `x` followed by `r` are depths along `r`, one character
/// later, started with the depth after `x`.
proof fn lemma_depth_cons(
    x: (char, nat, nat),
    r: Seq<(char, nat, nat)>,
    opposite: char,
    target: char,
    nest: nat,
    nest2: nat,
)
    requires
        opposite != target,
        nest2 == nest + (if x.0 == opposite {
            1int
        } else {
            0
        }) - (if x.0 == target {
            1int
        } else {
            0
        }),
    ensures
        forall|j: int|
            0 <= j <= r.len() ==> #[trigger] depth(seq![x] + r, opposite, target, nest, j + 1)
                == depth(r, opposite, target, nest2, j),
        depth(seq![x] + r, opposite, target, nest, 0) == nest,
{
    assert forall|j: int| 0 <= j <= r.len() implies #[trigger] depth(
        seq![x] + r,
        opposite,
        target,
        nest,
        j + 1,
    ) == depth(r, opposite, target, nest2, j) by {
        lemma_count_cons(x, r, j, opposite);
        lemma_count_cons(x, r, j, target);
    }
    assert((seq![x] + r).take(0) =~= Seq::<(char, nat, nat)>::empty());
}

/// Balance at index `k + 1` of `x` followed by `r` is balance at `k` of
/// `r` from the depth after `x`.
proof fn lemma_balanced_cons(
    x: (char, nat, nat),
    r: Seq<(char, nat, nat)>,
    opposite: char,
    target: char,
    nest: nat,
    nest2: nat,
    k: int,
)
    requires
        opposite != target,
        0 <= k < r.len(),
        nest2 == nest + (if x.0 == opposite {
            1int
        } else {
            0
        }) - (if x.0 == target {
            1int
        } else {
            0
        }),
    ensures
        balanced_at(seq![x] + r, opposite, target, nest, k + 1) == balanced_at(
            r,
            opposite,
            target,
            nest2,
            k,
        ),
{
    let s = seq![x] + r;
    lemma_depth_cons(x, r, opposite, target, nest, nest2);
    assert(s[k + 1] == r[k]);
    if balanced_at(r, opposite, target, nest2, k) {
        assert forall|j: int| 0 <= j <= k + 1 implies #[trigger] depth(s, opposite, target, nest, j)
            >= 0 by {
            if j > 0 {
                assert(depth(s, opposite, target, nest, (j - 1) + 1) == depth(
                    r,
                    opposite,
                    target,
                    nest2,
                    j - 1,
                ));
            }
        }
    }
    if balanced_at(s, opposite, target, nest, k + 1) {
        assert forall|j: int| 0 <= j <= k implies #[trigger] depth(r, opposite, target, nest2, j)
            >= 0 by {
            assert(depth(s, opposite, target, nest, j + 1) >= 0);
        }
    }
}

/// The backward search finds the first `target` in its stream at which
/// the stretch before it is balanced; with none such, it finds nothing.
proof fn lemma_delim_back_stream(
    ls: Seq<Seq<char>>,
    target: char,
    opposite: char,
    l: int,
    c: nat,
    nest: nat,
)
    requires
        target != opposite,
    ensures
        ({
            let s = back_stream(ls, l, c);
            match delim_back(ls, target, opposite, l, c, nest) {
                Some((fl, fc)) => exists|k: int|
                    #[trigger] balanced_at(s, opposite, target, nest, k) && s[k] == (target, fl, fc)
                        && forall|i: int|
                        0 <= i < k ==> !#[trigger] balanced_at(s, opposite, target, nest, i),
                None => forall|k: int| !#[trigger] balanced_at(s, opposite, target, nest, k),
            }
        }),
    decreases l + 1, c,
{
    if l < 0 {
    } else if c == 0 || l >= ls.len() {
        let c2 = if 0 <= l - 1 < ls.len() {
            ls[l - 1].len()
        } else {
            0
        };
        lemma_delim_back_stream(ls, target, opposite, l - 1, c2, nest);
        assert(back_stream(ls, l, c) == back_stream(ls, l - 1, c2));
    } else {
        let ch = ls[l][c - 1];
        let x = (ch, l as nat, (c - 1) as nat);
        let r = back_stream(ls, l, (c - 1) as nat);
        let s = back_stream(ls, l, c);
        assert(s == seq![x] + r);
        let nest2: int = nest + (if ch == opposite {
            1int
        } else {
            0
        }) - (if ch == target {
            1int
        } else {
            0
        });
        if ch == target && nest == 0 {
            assert(s[0] == x);
            assert(s.take(0) =~= Seq::<(char, nat, nat)>::empty());
            assert(depth(s, opposite, target, nest, 0) == 0);
            assert(balanced_at(s, opposite, target, nest, 0));
        } else {
            let n2 = nest2 as nat;
            lemma_depth_cons(x, r, opposite, target, nest, n2);
            lemma_delim_back_stream(ls, target, opposite, l, (c - 1) as nat, n2);
            assert(!balanced_at(s, opposite, target, nest, 0));
            assert forall|k: int| 0 <= k < r.len() implies balanced_at(
                s,
                opposite,
                target,
                nest,
                k + 1,
            ) == balanced_at(r, opposite, target, n2, k) by {
                lemma_balanced_cons(x, r, opposite, target, nest, n2, k);
            }
            match delim_back(ls, target, opposite, l, c, nest) {
                Some((fl, fc)) => {
                    let k = choose|k: int|
                        #[trigger] balanced_at(r, opposite, target, n2, k) && r[k] == (target, fl, fc)
                            && forall|i: int|
                            0 <= i < k ==> !#[trigger] balanced_at(r, opposite, target, n2, i);
                    assert(balanced_at(s, opposite, target, nest, k + 1));
                    assert(s[k + 1] == r[k]);
                    assert forall|i: int| 0 <= i < k + 1 implies !#[trigger] balanced_at(
                        s,
                        opposite,
                        target,
                        nest,
                        i,
                    ) by {
                        if i > 0 {
                            assert(balanced_at(s, opposite, target, nest, (i - 1) + 1)
                                == balanced_at(r, opposite, target, n2, i - 1));
                        }
                    }
                },
                None => {
                    assert forall|k: int| !#[trigger] balanced_at(s, opposite, target, nest, k) by {
                        if 0 < k < s.len() {
                            assert(balanced_at(s, opposite, target, nest, (k - 1) + 1)
                                == balanced_at(r, opposite, target, n2, k - 1));
                        }
                    }
                },
            }
        }
    }
}

/// Every character a backward search from a position on a line reads is
/// the character at its position, which lies before the start.
proof fn lemma_back_stream_positions(ls: Seq<Seq<char>>, l: int, c: nat)
    requires
        0 <= l < ls.len() ==> c <= ls[l].len(),
    ensures
        forall|k: int|
            0 <= k < back_stream(ls, l, c).len() ==> {
                let e = #[trigger] back_stream(ls, l, c)[k];
                &&& e.1 < ls.len()
                &&& e.2 < ls[e.1 as int].len()
                &&& e.0 == ls[e.1 as int][e.2 as int]
                &&& e.1 <= l
                &&& (e.1 == l ==> e.2 < c)
            },
    decreases l + 1, c,
{
    if l < 0 {
    } else if c == 0 || l >= ls.len() {
        let c2 = if 0 <= l - 1 < ls.len() {
            ls[l - 1].len()
        } else {
            0
        };
        lemma_back_stream_positions(ls, l - 1, c2);
        assert(back_stream(ls, l, c) == back_stream(ls, l - 1, c2));
    } else {
        lemma_back_stream_positions(ls, l, (c - 1) as nat);
        let x = (ls[l][c - 1], l as nat, (c - 1) as nat);
        let r = back_stream(ls, l, (c - 1) as nat);
        assert(back_stream(ls, l, c) == seq![x] + r);
        assert forall|k: int| 0 <= k < back_stream(ls, l, c).len() implies {
            let e = #[trigger] back_stream(ls, l, c)[k];
            &&& e.1 < ls.len()
            &&& e.2 < ls[e.1 as int].len()
            &&& e.0 == ls[e.1 as int][e.2 as int]
            &&& e.1 <= l
            &&& (e.1 == l ==> e.2 < c)
        } by {
            if k > 0 {
                assert(back_stream(ls, l, c)[k] == r[k - 1]);
            }
        }
    }
}

/// The opening delimiter a text object is taken from, searched backward
/// from the first `c` characters of line `l` with no pair open: when one is
/// found it is an `open` character on a line, and, reading back from the
/// start, the stretch before it never holds more `open`s than `close`s
/// and holds as many in all (every pair closed before the cursor is passed
/// over, and no unmatched `close` is crossed); no nearer `open` does so.
/// When none is found, no `open` does so.
pub proof fn lemma_opening_delimiter_balanced(
    ls: Seq<Seq<char>>,
    open: char,
    close: char,
    l: int,
    c: nat,
)
    requires
        open != close,
        0 <= l < ls.len() ==> c <= ls[l].len(),
    ensures
        ({
            let s = back_stream(ls, l, c);
            match delim_back(ls, open, close, l, c, 0) {
                Some((fl, fc)) => {
                    &&& fl < ls.len()
                    &&& fc < ls[fl as int].len()
                    &&& ls[fl as int][fc as int] == open
                    &&& exists|k: int|
                        #[trigger] balanced_at(s, close, open, 0, k) && s[k] == (open, fl, fc)
                            && forall|i: int|
                            0 <= i < k ==> !#[trigger] balanced_at(s, close, open, 0, i)
                },
                None => forall|k: int| !#[trigger] balanced_at(s, close, open, 0, k),
            }
        }),
{
    lemma_delim_back_stream(ls, open, close, l, c, 0);
    lemma_back_stream_positions(ls, l, c);
    let s = back_stream(ls, l, c);
    match delim_back(ls, open, close, l, c, 0) {
        Some((fl, fc)) => {
            let k = choose|k: int|
                #[trigger] balanced_at(s, close, open, 0, k) && s[k] == (open, fl, fc) && forall|
                    i: int,
                | 0 <= i < k ==> !#[trigger] balanced_at(s, close, open, 0, i);
            assert(s[k] == (open, fl, fc));
        },
        None => {},
    }
}

/// The forward search finds the first `target` in its stream at which the
/// stretch before it is balanced; with none such, it finds nothing.
proof fn lemma_delim_fwd_stream(
    ls: Seq<Seq<char>>,
    target: char,
    opposite: char,
    l: nat,
    c: nat,
    nest: nat,
)
    requires
        target != opposite,
    ensures
        ({
            let s = fwd_stream(ls, l, c);
            match delim_fwd(ls, target, opposite, l, c, nest) {
                Some((fl, fc)) => exists|k: int|
                    #[trigger] balanced_at(s, opposite, target, nest, k) && s[k] == (target, fl, fc)
                        && forall|i: int|
                        0 <= i < k ==> !#[trigger] balanced_at(s, opposite, target, nest, i),
                None => forall|k: int| !#[trigger] balanced_at(s, opposite, target, nest, k),
            }
        }),
    decreases ls.len() - l, ls[l as int].len() - c,
{
    if l >= ls.len() {
    } else if c >= ls[l as int].len() {
        lemma_delim_fwd_stream(ls, target, opposite, l + 1, 0, nest);
        assert(fwd_stream(ls, l, c) == fwd_stream(ls, l + 1, 0));
    } else {
        let ch = ls[l as int][c as int];
        let x = (ch, l, c);
        let r = fwd_stream(ls, l, c + 1);
        let s = fwd_stream(ls, l, c);
        assert(s == seq![x] + r);
        let nest2: int = nest + (if ch == opposite {
            1int
        } else {
            0
        }) - (if ch == target {
            1int
        } else {
            0
        });
        if ch == target && nest == 0 {
            assert(s[0] == x);
            assert(s.take(0) =~= Seq::<(char, nat, nat)>::empty());
            assert(depth(s, opposite, target, nest, 0) == 0);
            assert(balanced_at(s, opposite, target, nest, 0));
        } else {
            let n2 = nest2 as nat;
            lemma_depth_cons(x, r, opposite, target, nest, n2);
            lemma_delim_fwd_stream(ls, target, opposite, l, c + 1, n2);
            assert(!balanced_at(s, opposite, target, nest, 0));
            assert forall|k: int| 0 <= k < r.len() implies balanced_at(
                s,
                opposite,
                target,
                nest,
                k + 1,
            ) == balanced_at(r, opposite, target, n2, k) by {
                lemma_balanced_cons(x, r, opposite, target, nest, n2, k);
            }
            match delim_fwd(ls, target, opposite, l, c, nest) {
                Some((fl, fc)) => {
                    let k = choose|k: int|
                        #[trigger] balanced_at(r, opposite, target, n2, k) && r[k] == (target, fl, fc)
                            && forall|i: int|
                            0 <= i < k ==> !#[trigger] balanced_at(r, opposite, target, n2, i);
                    assert(balanced_at(s, opposite, target, nest, k + 1));
                    assert(s[k + 1] == r[k]);
                    assert forall|i: int| 0 <= i < k + 1 implies !#[trigger] balanced_at(
                        s,
                        opposite,
                        target,
                        nest,
                        i,
                    ) by {
                        if i > 0 {
                            assert(balanced_at(s, opposite, target, nest, (i - 1) + 1)
                                == balanced_at(r, opposite, target, n2, i - 1));
                        }
                    }
                },
                None => {
                    assert forall|k: int| !#[trigger] balanced_at(s, opposite, target, nest, k) by {
                        if 0 < k < s.len() {
                            assert(balanced_at(s, opposite, target, nest, (k - 1) + 1)
                                == balanced_at(r, opposite, target, n2, k - 1));
                        }
                    }
                },
            }
        }
    }
}

/// Every character a forward search reads is the character at its
/// position, which lies at or after the start.
proof fn lemma_fwd_stream_positions(ls: Seq<Seq<char>>, l: nat, c: nat)
    ensures
        forall|k: int|
            0 <= k < fwd_stream(ls, l, c).len() ==> {
                let e = #[trigger] fwd_stream(ls, l, c)[k];
                &&& e.1 < ls.len()
                &&& e.2 < ls[e.1 as int].len()
                &&& e.0 == ls[e.1 as int][e.2 as int]
                &&& e.1 >= l
                &&& (e.1 == l ==> e.2 >= c)
            },
    decreases ls.len() - l, ls[l as int].len() - c,
{
    if l >= ls.len() {
    } else if c >= ls[l as int].len() {
        lemma_fwd_stream_positions(ls, l + 1, 0);
        assert(fwd_stream(ls, l, c) == fwd_stream(ls, l + 1, 0));
    } else {
        lemma_fwd_stream_positions(ls, l, c + 1);
        let x = (ls[l as int][c as int], l, c);
        let r = fwd_stream(ls, l, c + 1);
        assert(fwd_stream(ls, l, c) == seq![x] + r);
        assert forall|k: int| 0 <= k < fwd_stream(ls, l, c).len() implies {
            let e = #[trigger] fwd_stream(ls, l, c)[k];
            &&& e.1 < ls.len()
            &&& e.2 < ls[e.1 as int].len()
            &&& e.0 == ls[e.1 as int][e.2 as int]
            &&& e.1 >= l
            &&& (e.1 == l ==> e.2 >= c)
        } by {
            if k > 0 {
                assert(fwd_stream(ls, l, c)[k] == r[k - 1]);
            }
        }
    }
}

/// The closing delimiter a text object is taken to, searched forward from
/// column `c` of line `l` with no pair open: when one is found it is a
/// `close` character on a line, and, reading on from the start, the
/// stretch before it never holds more `close`s than `open`s and holds as
/// many in all; no nearer `close` does so. When none is found, no `close`
/// does so.
pub proof fn lemma_closing_delimiter_balanced(ls: Seq<Seq<char>>, open: char, close: char, l: nat, c: nat)
    requires
        open != close,
    ensures
        ({
            let s = fwd_stream(ls, l, c);
            match delim_fwd(ls, close, open, l, c, 0) {
                Some((fl, fc)) => {
                    &&& fl < ls.len()
                    &&& fc < ls[fl as int].len()
                    &&& ls[fl as int][fc as int] == close
                    &&& exists|k: int|
                        #[trigger] balanced_at(s, open, close, 0, k) && s[k] == (close, fl, fc)
                            && forall|i: int|
                            0 <= i < k ==> !#[trigger] balanced_at(s, open, close, 0, i)
                },
                None => forall|k: int| !#[trigger] balanced_at(s, open, close, 0, k),
            }
        }),
{
    lemma_delim_fwd_stream(ls, close, open, l, c, 0);
    lemma_fwd_stream_positions(ls, l, c);
    let s = fwd_stream(ls, l, c);
    match delim_fwd(ls, close, open, l, c, 0) {
        Some((fl, fc)) => {
            let k = choose|k: int|
                #[trigger] balanced_at(s, open, close, 0, k) && s[k] == (close, fl, fc) && forall|
                    i: int,
                | 0 <= i < k ==> !#[trigger] balanced_at(s, open, close, 0, i);
            assert(s[k] == (close, fl, fc));
        },
        None => {},
    }
}

/// Whether `(l, c)` is a character of the text.
pub open spec fn on_text(ls: Seq<Seq<char>>, p: (nat, nat)) -> bool {
    p.0 < ls.len() && p.1 < ls[p.0 as int].len()
}

/// Between an opening delimiter at `o` and a closing one at `c` after it,
/// selecting with the delimiters always selects something, and its text is
/// the opening delimiter, the text selected without them, and the closing
/// delimiter; without them nothing is selected only when the two are
/// adjacent on one line, and the text with them is then just the two.
pub proof fn lemma_around_is_inner_with_delimiters(ls: Seq<Seq<char>>, o: (nat, nat), c: (nat, nat))
    requires
        on_text(ls, o),
        on_text(ls, c),
        o.0 < c.0 || (o.0 == c.0 && o.1 < c.1),
        c.1 + 1 <= usize::MAX,
        o.1 + 1 <= usize::MAX,
        o.0 <= usize::MAX,
        c.0 <= usize::MAX,
    ensures
        delimited_selection(o, c, true) is Some,
        ({
            let (s1, e1) = delimited_selection(o, c, true).unwrap();
            let around = selected_text(ls, false, s1, e1);
            let open = ls[o.0 as int][o.1 as int];
            let close = ls[c.0 as int][c.1 as int];
            match delimited_selection(o, c, false) {
                Some((s2, e2)) => around == seq![open] + selected_text(ls, false, s2, e2) + seq![
                    close,
                ],
                None => o.0 == c.0 && c.1 == o.1 + 1 && around == seq![open, close],
            }
        }),
{
    let lo = ls[o.0 as int];
    let lc = ls[c.0 as int];
    let (s1, e1) = delimited_selection(o, c, true).unwrap();
    let around = selected_text(ls, false, s1, e1);
    if o.0 == c.0 {
        assert(around =~= lo.subrange(o.1 as int, c.1 as int + 1));
        match delimited_selection(o, c, false) {
            Some((s2, e2)) => {
                assert(selected_text(ls, false, s2, e2) =~= lo.subrange(o.1 as int + 1, c.1 as int));
                assert(around =~= seq![lo[o.1 as int]] + lo.subrange(o.1 as int + 1, c.1 as int) + seq![
                    lo[c.1 as int],
                ]);
            },
            None => {
                assert(around =~= seq![lo[o.1 as int], lo[c.1 as int]]);
            },
        }
    } else {
        let mid = middle_lines(ls, (o.0 + 1) as nat, c.0 as nat);
        assert(around =~= lo.skip(o.1 as int) + seq!['\n'] + mid + lc.take(c.1 as int + 1));
        let (s2, e2) = delimited_selection(o, c, false).unwrap();
        assert(selected_text(ls, false, s2, e2) =~= lo.skip(o.1 as int + 1) + seq!['\n'] + mid + lc.take(
            c.1 as int,
        ));
        assert(lo.skip(o.1 as int) =~= seq![lo[o.1 as int]] + lo.skip(o.1 as int + 1));
        assert(lc.take(c.1 as int + 1) =~= lc.take(c.1 as int) + seq![lc[c.1 as int]]);
        assert(around =~= seq![lo[o.1 as int]] + (lo.skip(o.1 as int + 1) + seq!['\n'] + mid + lc.take(
            c.1 as int,
        )) + seq![lc[c.1 as int]]);
    }
}

} // verus!
