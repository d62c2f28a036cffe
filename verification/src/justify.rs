//! Full justification of plain text into lines of a fixed byte width.
//!
//! Paragraphs are separated by blank lines (`"\n\n"`). Each paragraph is cut
//! into words; a word longer than the width (counted in characters) is cut
//! into pieces of at most that many characters. Words are then laid out
//! greedily: a line holds as many words as fit when joined by single spaces
//! (counted in UTF-8 bytes). Every full line is stretched to the width by
//! spreading extra spaces from the left; the last line of a paragraph is left
//! ragged, and each paragraph is followed by an empty line.

use vstd::prelude::*;
use crate::text::{
    byte_len, chars_byte_len, chars_of, is_whitespace, lemma_byte_len_bounds, push_char, push_chars,
    push_spaces, spaces, spec_is_whitespace, string_from_chars,
};

verus! {

// ---------------------------------------------------------------------------
// Specification
// ---------------------------------------------------------------------------

/// The pieces of `s` between occurrences of `"\n\n"`, scanning from the left,
/// with `cur` the piece read so far (as `str::split("\n\n")` gives them).
pub open spec fn split_blank_acc(s: Seq<char>, cur: Seq<char>) -> Seq<Seq<char>>
    decreases s.len(),
{
    if s.len() == 0 {
        seq![cur]
    } else if s.len() >= 2 && s[0] == '\n' && s[1] == '\n' {
        seq![cur] + split_blank_acc(s.skip(2), seq![])
    } else {
        split_blank_acc(s.drop_first(), cur.push(s[0]))
    }
}

/// The paragraphs of a text.
pub open spec fn paragraphs(s: Seq<char>) -> Seq<Seq<char>> {
    split_blank_acc(s, seq![])
}

/// The maximal runs of non-whitespace characters of `s`, with `cur` the run
/// read so far (as `str::split_whitespace` gives them).
pub open spec fn words_acc(s: Seq<char>, cur: Seq<char>) -> Seq<Seq<char>>
    decreases s.len(),
{
    if s.len() == 0 {
        if cur.len() > 0 {
            seq![cur]
        } else {
            seq![]
        }
    } else if spec_is_whitespace(s[0]) {
        (if cur.len() > 0 {
            seq![cur]
        } else {
            seq![]
        }) + words_acc(s.drop_first(), seq![])
    } else {
        words_acc(s.drop_first(), cur.push(s[0]))
    }
}

/// The whitespace-separated words of `s`.
pub open spec fn words(s: Seq<char>) -> Seq<Seq<char>> {
    words_acc(s, seq![])
}

/// A word cut into pieces of `n` characters, the last piece holding the rest.
pub open spec fn chunks(w: Seq<char>, n: nat) -> Seq<Seq<char>>
    decreases w.len(),
{
    if n > 0 && w.len() > n {
        seq![w.take(n as int)] + chunks(w.skip(n as int), n)
    } else {
        seq![w]
    }
}

/// All words cut into pieces of at most `n` characters, in order.
pub open spec fn all_chunks(ws: Seq<Seq<char>>, n: nat) -> Seq<Seq<char>>
    decreases ws.len(),
{
    if ws.len() == 0 {
        seq![]
    } else {
        all_chunks(ws.drop_last(), n) + chunks(ws.last(), n)
    }
}

/// Words joined by single spaces.
pub open spec fn join(line: Seq<Seq<char>>) -> Seq<char>
    decreases line.len(),
{
    if line.len() == 0 {
        seq![]
    } else if line.len() == 1 {
        line[0]
    } else {
        join(line.drop_last()) + seq![' '] + line.last()
    }
}

/// The total number of bytes of the words of a line, spaces excluded.
pub open spec fn words_byte_len(line: Seq<Seq<char>>) -> nat
    decreases line.len(),
{
    if line.len() == 0 {
        0
    } else {
        words_byte_len(line.drop_last()) + byte_len(line.last())
    }
}

/// The number of spaces after word `i` when `each` spaces go into every gap
/// and one more into each of the first `extra` gaps.
pub open spec fn gap(i: int, each: nat, extra: nat) -> nat {
    if i < extra {
        each + 1
    } else {
        each
    }
}

/// Words separated by the gaps that `gap` gives.
pub open spec fn spread(line: Seq<Seq<char>>, each: nat, extra: nat) -> Seq<char>
    decreases line.len(),
{
    if line.len() == 0 {
        seq![]
    } else if line.len() == 1 {
        line[0]
    } else {
        spread(line.drop_last(), each, extra) + spaces(gap(line.len() - 2, each, extra))
            + line.last()
    }
}

/// A line of words stretched to `width` bytes. A line of one word, or whose
/// words already take `width` bytes, is only joined with single spaces.
pub open spec fn justify_line_spec(line: Seq<Seq<char>>, width: nat) -> Seq<char> {
    let wl = words_byte_len(line);
    if wl >= width || line.len() <= 1 {
        join(line)
    } else {
        let gaps = (line.len() - 1) as nat;
        let room = (width - wl) as nat;
        spread(line, room / gaps, room % gaps)
    }
}

/// The lines that the greedy layout gives for `ws`, where `line` holds the
/// words already placed on the current line and `len` its length in bytes.
pub open spec fn fill(ws: Seq<Seq<char>>, width: nat, line: Seq<Seq<char>>, len: nat) -> Seq<
    Seq<char>,
>
    decreases ws.len(),
{
    if ws.len() == 0 {
        if line.len() > 0 {
            seq![join(line)]
        } else {
            seq![]
        }
    } else {
        let w = ws[0];
        let wl = byte_len(w);
        let space: nat = if line.len() == 0 {
            0
        } else {
            1
        };
        let new_len = len + space + wl;
        if new_len > width && line.len() > 0 {
            seq![justify_line_spec(line, width)] + fill(ws.drop_first(), width, seq![w], wl)
        } else {
            fill(
                ws.drop_first(),
                width,
                line.push(w),
                if line.len() == 0 {
                    wl
                } else {
                    new_len
                },
            )
        }
    }
}

/// The lines of one paragraph, followed by an empty line.
pub open spec fn paragraph_lines(p: Seq<char>, width: nat) -> Seq<Seq<char>> {
    fill(all_chunks(words(p), width), width, seq![], 0).push(seq![])
}

/// The lines of a sequence of paragraphs.
pub open spec fn paragraphs_lines(ps: Seq<Seq<char>>, width: nat) -> Seq<Seq<char>>
    decreases ps.len(),
{
    if ps.len() == 0 {
        seq![]
    } else {
        paragraph_lines(ps[0], width) + paragraphs_lines(ps.drop_first(), width)
    }
}

/// The justified lines of a text.
pub open spec fn justify_spec(text: Seq<char>, width: nat) -> Seq<Seq<char>> {
    paragraphs_lines(paragraphs(text), width)
}

/// Whether a text holds nothing but whitespace.
pub open spec fn all_whitespace(s: Seq<char>) -> bool {
    forall|i: int| 0 <= i < s.len() ==> spec_is_whitespace(#[trigger] s[i])
}

/// The characters of each string of a sequence.
pub open spec fn strings_view(v: Seq<String>) -> Seq<Seq<char>> {
    v.map_values(|s: String| s@)
}

/// The characters of each vector of a sequence.
pub open spec fn char_vecs_view(v: Seq<Vec<char>>) -> Seq<Seq<char>> {
    v.map_values(|w: Vec<char>| w@)
}

// ---------------------------------------------------------------------------
// Lemmas used by the implementation
// ---------------------------------------------------------------------------

proof fn lemma_words_byte_len_prefix(line: Seq<Seq<char>>, i: int)
    requires
        0 <= i <= line.len(),
    ensures
        words_byte_len(line.take(i)) <= words_byte_len(line),
    decreases line.len() - i,
{
    if i < line.len() {
        lemma_words_byte_len_prefix(line, i + 1);
        assert(line.take(i + 1).drop_last() == line.take(i));
    } else {
        assert(line.take(i) == line);
    }
}

proof fn lemma_words_byte_len_push(line: Seq<Seq<char>>, w: Seq<char>)
    ensures
        words_byte_len(line.push(w)) == words_byte_len(line) + byte_len(w),
{
    assert(line.push(w).drop_last() == line);
}

/// Pieces of all-whitespace text hold only whitespace.
proof fn lemma_split_blank_whitespace(s: Seq<char>, cur: Seq<char>)
    requires
        all_whitespace(s),
        all_whitespace(cur),
    ensures
        forall|k: int|
            0 <= k < split_blank_acc(s, cur).len() ==> all_whitespace(
                #[trigger] split_blank_acc(s, cur)[k],
            ),
    decreases s.len(),
{
    if s.len() == 0 {
        assert(split_blank_acc(s, cur) == seq![cur]);
    } else if s.len() >= 2 && s[0] == '\n' && s[1] == '\n' {
        let e: Seq<char> = seq![];
        assert(all_whitespace(s.skip(2))) by {
            assert forall|i: int| 0 <= i < s.skip(2).len() implies spec_is_whitespace(
                #[trigger] s.skip(2)[i],
            ) by {
                assert(s.skip(2)[i] == s[i + 2]);
            }
        }
        lemma_split_blank_whitespace(s.skip(2), e);
        let rest = split_blank_acc(s.skip(2), e);
        assert forall|k: int|
            0 <= k < split_blank_acc(s, cur).len() implies all_whitespace(
                #[trigger] split_blank_acc(s, cur)[k],
            ) by {
            if k > 0 {
                assert(split_blank_acc(s, cur)[k] == rest[k - 1]);
            }
        }
    } else {
        assert(all_whitespace(s.drop_first())) by {
            assert forall|i: int| 0 <= i < s.drop_first().len() implies spec_is_whitespace(
                #[trigger] s.drop_first()[i],
            ) by {
                assert(s.drop_first()[i] == s[i + 1]);
            }
        }
        assert(all_whitespace(cur.push(s[0]))) by {
            assert forall|i: int| 0 <= i < cur.push(s[0]).len() implies spec_is_whitespace(
                #[trigger] cur.push(s[0])[i],
            ) by {
                if i < cur.len() {
                    assert(cur.push(s[0])[i] == cur[i]);
                } else {
                    assert(cur.push(s[0])[i] == s[0]);
                }
            }
        }
        lemma_split_blank_whitespace(s.drop_first(), cur.push(s[0]));
        assert(split_blank_acc(s, cur) == split_blank_acc(s.drop_first(), cur.push(s[0])));
    }
}

/// All-whitespace text has no words.
proof fn lemma_words_whitespace(s: Seq<char>)
    requires
        all_whitespace(s),
    ensures
        words_acc(s, seq![]).len() == 0,
    decreases s.len(),
{
    if s.len() > 0 {
        assert(spec_is_whitespace(s[0]));
        assert(all_whitespace(s.drop_first())) by {
            assert forall|i: int| 0 <= i < s.drop_first().len() implies spec_is_whitespace(
                #[trigger] s.drop_first()[i],
            ) by {
                assert(s.drop_first()[i] == s[i + 1]);
            }
        }
        lemma_words_whitespace(s.drop_first());
    }
}

// ---------------------------------------------------------------------------
// Implementation
// ---------------------------------------------------------------------------

/// Splits `s` after `n` characters when it holds more than `n` characters.
fn split_at_char(s: &[char], n: usize) -> (r: (Vec<char>, Option<Vec<char>>))
    ensures
        s@.len() > n ==> r.0@ == s@.take(n as int) && (r.1 matches Some(rest) && rest@ == s@.skip(
            n as int,
        )),
        s@.len() <= n ==> r.0@ == s@ && r.1 is None,
{
    if s.len() > n {
        let mut first: Vec<char> = Vec::new();
        let mut i: usize = 0;
        while i < n
            invariant
                i <= n < s@.len(),
                first@ == s@.take(i as int),
            decreases n - i,
        {
            first.push(s[i]);
            i = i + 1;
            assert(first@ == s@.take(i as int));
        }
        let mut rest: Vec<char> = Vec::new();
        while i < s.len()
            invariant
                n <= i <= s@.len(),
                rest@ == s@.subrange(n as int, i as int),
            decreases s@.len() - i,
        {
            rest.push(s[i]);
            i = i + 1;
            assert(rest@ == s@.subrange(n as int, i as int));
        }
        (first, Some(rest))
    } else {
        let mut all: Vec<char> = Vec::new();
        let mut i: usize = 0;
        while i < s.len()
            invariant
                i <= s@.len(),
                all@ == s@.take(i as int),
            decreases s@.len() - i,
        {
            all.push(s[i]);
            i = i + 1;
            assert(all@ == s@.take(i as int));
        }
        assert(s@.take(s@.len() as int) == s@);
        (all, None)
    }
}

/// Splits a text into paragraphs at each `"\n\n"`.
fn split_paragraphs(s: &Vec<char>) -> (ps: Vec<Vec<char>>)
    ensures
        char_vecs_view(ps@) == paragraphs(s@),
{
    let mut ps: Vec<Vec<char>> = Vec::new();
    let mut cur: Vec<char> = Vec::new();
    let mut i: usize = 0;
    assert(s@.skip(0) == s@);
    assert(char_vecs_view(ps@) + split_blank_acc(s@, cur@) == split_blank_acc(s@, cur@));
    while i < s.len()
        invariant
            i <= s@.len(),
            char_vecs_view(ps@) + split_blank_acc(s@.skip(i as int), cur@) == paragraphs(s@),
        decreases s@.len() - i,
    {
        let ghost rest = s@.skip(i as int);
        if i + 1 < s.len() && s[i] == '\n' && s[i + 1] == '\n' {
            let ghost old_ps = char_vecs_view(ps@);
            let ghost old_cur = cur@;
            assert(rest.skip(2) == s@.skip(i + 2));
            ps.push(cur);
            cur = Vec::new();
            i = i + 2;
            assert(char_vecs_view(ps@) == old_ps.push(old_cur));
            assert(old_ps + (seq![old_cur] + split_blank_acc(s@.skip(i as int), cur@))
                == char_vecs_view(ps@) + split_blank_acc(s@.skip(i as int), cur@));
        } else {
            assert(rest.drop_first() == s@.skip(i + 1));
            cur.push(s[i]);
            i = i + 1;
        }
    }
    let ghost old_ps = char_vecs_view(ps@);
    let ghost old_cur = cur@;
    assert(s@.skip(i as int).len() == 0);
    ps.push(cur);
    assert(char_vecs_view(ps@) == old_ps.push(old_cur));
    ps
}

/// Splits a paragraph into its whitespace-separated words.
pub(crate) fn split_words(s: &Vec<char>) -> (ws: Vec<Vec<char>>)
    ensures
        char_vecs_view(ws@) == words(s@),
{
    let mut ws: Vec<Vec<char>> = Vec::new();
    let mut cur: Vec<char> = Vec::new();
    let mut i: usize = 0;
    assert(s@.skip(0) == s@);
    assert(char_vecs_view(ws@) + words_acc(s@, cur@) == words_acc(s@, cur@));
    while i < s.len()
        invariant
            i <= s@.len(),
            char_vecs_view(ws@) + words_acc(s@.skip(i as int), cur@) == words(s@),
        decreases s@.len() - i,
    {
        let ghost rest = s@.skip(i as int);
        assert(rest.drop_first() == s@.skip(i + 1));
        let c = s[i];
        if is_whitespace(c) {
            let ghost old_ws = char_vecs_view(ws@);
            let ghost old_cur = cur@;
            if cur.len() > 0 {
                ws.push(cur);
                assert(char_vecs_view(ws@) == old_ws.push(old_cur));
                assert(old_ws + (seq![old_cur] + words_acc(s@.skip(i + 1), seq![]))
                    == char_vecs_view(ws@) + words_acc(s@.skip(i + 1), seq![]));
            } else {
                assert(old_ws + (Seq::<Seq<char>>::empty() + words_acc(s@.skip(i + 1), seq![]))
                    == old_ws + words_acc(s@.skip(i + 1), seq![]));
            }
            cur = Vec::new();
        } else {
            cur.push(c);
        }
        i = i + 1;
    }
    assert(s@.skip(i as int).len() == 0);
    if cur.len() > 0 {
        let ghost old_ws = char_vecs_view(ws@);
        let ghost old_cur = cur@;
        ws.push(cur);
        assert(char_vecs_view(ws@) == old_ws.push(old_cur));
    } else {
        assert(char_vecs_view(ws@) + Seq::<Seq<char>>::empty() == char_vecs_view(ws@));
    }
    ws
}

/// The whitespace-separated words of `s`, as `str::split_whitespace` yields them.
pub fn split_whitespace(s: &str) -> (ws: Vec<String>)
    ensures
        strings_view(ws@) == words(s@),
{
    let cs = chars_of(s);
    let parts = split_words(&cs);
    let mut ws: Vec<String> = Vec::new();
    let mut i: usize = 0;
    while i < parts.len()
        invariant
            i <= parts@.len(),
            strings_view(ws@) == char_vecs_view(parts@).take(i as int),
        decreases parts@.len() - i,
    {
        let w = string_from_chars(parts[i].as_slice());
        let ghost old_ws = strings_view(ws@);
        ws.push(w);
        assert(strings_view(ws@) == old_ws.push(parts@[i as int]@));
        i = i + 1;
        assert(char_vecs_view(parts@).take(i as int) == char_vecs_view(parts@).take(i - 1).push(
            parts@[i - 1]@,
        ));
    }
    assert(char_vecs_view(parts@).take(i as int) == char_vecs_view(parts@));
    ws
}

/// Cuts every word into pieces of at most `n` characters.
fn chunk_words(ws: &Vec<Vec<char>>, n: usize) -> (pieces: Vec<Vec<char>>)
    requires
        n > 0 || ws@.len() == 0,
    ensures
        char_vecs_view(pieces@) == all_chunks(char_vecs_view(ws@), n as nat),
{
    let mut pieces: Vec<Vec<char>> = Vec::new();
    let mut k: usize = 0;
    assert(char_vecs_view(ws@).take(0) == Seq::<Seq<char>>::empty());
    while k < ws.len()
        invariant
            n > 0 || ws@.len() == 0,
            k <= ws@.len(),
            char_vecs_view(pieces@) == all_chunks(char_vecs_view(ws@).take(k as int), n as nat),
        decreases ws@.len() - k,
    {
        let ghost before = char_vecs_view(pieces@);
        let mut word: Vec<char> = ws[k].clone();
        assert(word@ == ws@[k as int]@);
        let ghost w0 = word@;
        loop
            invariant_except_break
                n > 0,
                char_vecs_view(pieces@) + chunks(word@, n as nat) == before + chunks(w0, n as nat),
            ensures
                char_vecs_view(pieces@) == before + chunks(w0, n as nat),
            decreases word@.len(),
        {
            let (w1, rest) = split_at_char(word.as_slice(), n);
            match rest {
                Some(w2) => {
                    let ghost old_p = char_vecs_view(pieces@);
                    let ghost old_w = word@;
                    pieces.push(w1);
                    word = w2;
                    assert(char_vecs_view(pieces@) == old_p.push(old_w.take(n as int)));
                    assert(old_p + (seq![old_w.take(n as int)] + chunks(word@, n as nat))
                        == char_vecs_view(pieces@) + chunks(word@, n as nat));
                },
                None => {
                    let ghost old_p = char_vecs_view(pieces@);
                    assert(chunks(word@, n as nat) == seq![word@]);
                    pieces.push(w1);
                    assert(char_vecs_view(pieces@) == old_p.push(word@));
                    assert(old_p + seq![word@] == old_p.push(word@));
                    break ;
                },
            }
        }
        k = k + 1;
        assert(char_vecs_view(ws@).take(k as int).drop_last() == char_vecs_view(ws@).take(
            k - 1,
        ));
        assert(char_vecs_view(ws@).take(k as int).last() == w0);
    }
    assert(char_vecs_view(ws@).take(k as int) == char_vecs_view(ws@));
    pieces
}

/// Words joined by single spaces.
fn join_words(line: &Vec<Vec<char>>) -> (s: String)
    ensures
        s@ == join(char_vecs_view(line@)),
{
    let ghost lv = char_vecs_view(line@);
    let mut s = String::new();
    let mut i: usize = 0;
    while i < line.len()
        invariant
            i <= line@.len(),
            lv == char_vecs_view(line@),
            s@ == join(lv.take(i as int)),
        decreases line@.len() - i,
    {
        if i > 0 {
            push_char(&mut s, ' ');
        }
        push_chars(&mut s, line[i].as_slice());
        i = i + 1;
        assert(lv.take(i as int).drop_last() == lv.take(i - 1));
        assert(lv.take(i as int).last() == line@[i - 1]@);
    }
    assert(lv.take(i as int) == lv);
    s
}

/// A line of words stretched to `width` bytes (see `justify_line_spec`).
fn justify_line(line: &Vec<Vec<char>>, width: usize) -> (s: String)
    requires
        words_byte_len(char_vecs_view(line@)) <= width + 4 * usize::MAX,
    ensures
        s@ == justify_line_spec(char_vecs_view(line@), width as nat),
{
    let ghost lv = char_vecs_view(line@);
    let mut word_len: u128 = 0;
    let mut i: usize = 0;
    while i < line.len()
        invariant
            i <= line@.len(),
            lv == char_vecs_view(line@),
            words_byte_len(lv) <= width + 4 * usize::MAX,
            word_len == words_byte_len(lv.take(i as int)),
        decreases line@.len() - i,
    {
        proof {
            lemma_words_byte_len_prefix(lv, i + 1);
            assert(lv.take(i + 1).drop_last() == lv.take(i as int));
            assert(lv.take(i + 1).last() == line@[i as int]@);
        }
        word_len = word_len + chars_byte_len(line[i].as_slice());
        i = i + 1;
    }
    assert(lv.take(i as int) == lv);
    if word_len >= width as u128 || line.len() <= 1 {
        return join_words(line);
    }
    let room: usize = width - word_len as usize;
    let gaps: usize = line.len() - 1;
    let each: usize = room / gaps;
    let extra: usize = room % gaps;
    proof {
        if gaps >= 2 {
            assert(each <= usize::MAX / 2) by (nonlinear_arith)
                requires
                    gaps >= 2,
                    each == room / gaps,
            ;
        }
    }
    let mut s = String::new();
    let mut k: usize = 0;
    while k < line.len()
        invariant
            k <= line@.len(),
            line@.len() >= 2,
            gaps == line@.len() - 1,
            extra < gaps,
            gaps >= 2 ==> each <= usize::MAX / 2,
            lv == char_vecs_view(line@),
            s@ == spread(lv.take(k as int), each as nat, extra as nat),
        decreases line@.len() - k,
    {
        if k > 0 {
            let n: usize = if k - 1 < extra {
                each + 1
            } else {
                each
            };
            push_spaces(&mut s, n);
        }
        push_chars(&mut s, line[k].as_slice());
        k = k + 1;
        assert(lv.take(k as int).drop_last() == lv.take(k - 1));
        assert(lv.take(k as int).last() == line@[k - 1]@);
    }
    assert(lv.take(k as int) == lv);
    s
}

/// Lays out the pieces of one paragraph and appends its lines to `out`.
fn fill_paragraph(ws: &Vec<Vec<char>>, width: usize, out: &mut Vec<String>)
    ensures
        strings_view(final(out)@) == strings_view(old(out)@) + fill(
            char_vecs_view(ws@),
            width as nat,
            seq![],
            0,
        ),
{
    let ghost wv = char_vecs_view(ws@);
    let ghost start = strings_view(out@);
    let mut line: Vec<Vec<char>> = Vec::new();
    let mut len: u128 = 0;
    let mut i: usize = 0;
    assert(wv.skip(0) == wv);
    assert(strings_view(out@) == start);
    assert(char_vecs_view(line@) == Seq::<Seq<char>>::empty());
    while i < ws.len()
        invariant
            i <= ws@.len(),
            wv == char_vecs_view(ws@),
            len <= width + 4 * usize::MAX,
            line@.len() > 0 ==> len == words_byte_len(char_vecs_view(line@)) + line@.len() - 1,
            line@.len() == 0 ==> len == 0,
            strings_view(out@) + fill(
                wv.skip(i as int),
                width as nat,
                char_vecs_view(line@),
                len as nat,
            ) == start + fill(wv, width as nat, seq![], 0),
        decreases ws@.len() - i,
    {
        let ghost lv = char_vecs_view(line@);
        let ghost rest = wv.skip(i as int);
        let ghost w = ws@[i as int]@;
        let ghost old_out = strings_view(out@);
        let ghost old_len = len;
        assert(rest[0] == w);
        assert(rest.drop_first() == wv.skip(i + 1));
        let word_chars = ws[i].len();
        let word_len = chars_byte_len(ws[i].as_slice());
        proof {
            lemma_byte_len_bounds(w);
        }
        let space_len: u128 = if line.len() == 0 {
            0
        } else {
            1
        };
        let new_len = len + space_len + word_len;
        let flush = new_len > width as u128 && line.len() > 0;
        if flush {
            proof {
                lemma_words_byte_len_prefix(lv, lv.len() as int);
                assert(lv.take(lv.len() as int) == lv);
            }
            let j = justify_line(&line, width);
            out.push(j);
            line = Vec::new();
            len = 0;
            assert(strings_view(out@) == old_out.push(justify_line_spec(lv, width as nat)));
        }
        let ghost lv2 = char_vecs_view(line@);
        line.push(ws[i].clone());
        assert(char_vecs_view(line@) == lv2.push(w));
        proof {
            lemma_words_byte_len_push(lv2, w);
        }
        len = if line.len() == 1 {
            word_len
        } else {
            len + space_len + word_len
        };
        i = i + 1;
        proof {
            if flush {
                assert(lv2 == Seq::<Seq<char>>::empty());
                assert(lv2.push(w) == seq![w]);
                assert(fill(rest, width as nat, lv, old_len as nat) == seq![
                    justify_line_spec(lv, width as nat),
                ] + fill(rest.drop_first(), width as nat, seq![w], byte_len(w)));
                assert(strings_view(out@) + fill(
                    rest.drop_first(),
                    width as nat,
                    seq![w],
                    byte_len(w),
                ) == old_out + fill(rest, width as nat, lv, old_len as nat));
            } else {
                assert(lv2 == lv);
                assert(fill(rest, width as nat, lv, old_len as nat) == fill(
                    rest.drop_first(),
                    width as nat,
                    lv.push(w),
                    len as nat,
                ));
            }
        }
    }
    assert(wv.skip(i as int).len() == 0);
    if line.len() > 0 {
        let ghost old_out = strings_view(out@);
        let j = join_words(&line);
        out.push(j);
        assert(strings_view(out@) == old_out.push(join(char_vecs_view(line@))));
    } else {
        assert(strings_view(out@) + Seq::<Seq<char>>::empty() == strings_view(out@));
    }
}

/// Justifies `text` to lines of `line_width` bytes (see `justify_spec`).
///
/// The text must hold no word when the width is zero: a word can then not be
/// cut into pieces that fit.
pub fn justify(text: &str, line_width: usize) -> (lines: Vec<String>)
    requires
        line_width > 0 || all_whitespace(text@),
    ensures
        strings_view(lines@) == justify_spec(text@, line_width as nat),
{
    let chars = chars_of(text);
    let paragraphs_v = split_paragraphs(&chars);
    let ghost pv = char_vecs_view(paragraphs_v@);
    proof {
        if line_width == 0 {
            lemma_split_blank_whitespace(text@, seq![]);
        }
    }
    let mut lines: Vec<String> = Vec::new();
    let mut p: usize = 0;
    assert(pv.skip(0) == pv);
    assert(strings_view(lines@) + paragraphs_lines(pv, line_width as nat) == paragraphs_lines(
        pv,
        line_width as nat,
    ));
    while p < paragraphs_v.len()
        invariant
            p <= paragraphs_v@.len(),
            pv == char_vecs_view(paragraphs_v@),
            pv == paragraphs(text@),
            line_width == 0 ==> forall|k: int| 0 <= k < pv.len() ==> all_whitespace(#[trigger] pv[k]),
            strings_view(lines@) + paragraphs_lines(pv.skip(p as int), line_width as nat)
                == justify_spec(text@, line_width as nat),
        decreases paragraphs_v@.len() - p,
    {
        let ghost rest = pv.skip(p as int);
        assert(rest[0] == paragraphs_v@[p as int]@);
        assert(rest.drop_first() == pv.skip(p + 1));
        let ghost old_lines = strings_view(lines@);
        let ws = split_words(&paragraphs_v[p]);
        proof {
            if line_width == 0 {
                assert(all_whitespace(pv[p as int]));
                lemma_words_whitespace(paragraphs_v@[p as int]@);
            }
        }
        let pieces = chunk_words(&ws, line_width);
        fill_paragraph(&pieces, line_width, &mut lines);
        let ghost mid = strings_view(lines@);
        let ghost para = fill(char_vecs_view(pieces@), line_width as nat, seq![], 0);
        assert(mid == old_lines + para);
        let empty = String::new();
        lines.push(empty);
        assert(strings_view(lines@) == mid.push(Seq::<char>::empty()));
        assert(old_lines + para.push(Seq::<char>::empty()) == mid.push(Seq::<char>::empty()));
        assert(strings_view(lines@) == old_lines + paragraph_lines(rest[0], line_width as nat));
        p = p + 1;
    }
    assert(pv.skip(p as int).len() == 0);
    assert(strings_view(lines@) + Seq::<Seq<char>>::empty() == strings_view(lines@));
    lines
}

} // verus!
