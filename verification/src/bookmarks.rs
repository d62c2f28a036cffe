//! Bookmarks: marks named by a letter, each at a `(line, column)` of the
//! document, and jumping to them.

use vstd::prelude::*;
use crate::editor::{Editor, NavState, TutorialState};
use crate::text::{decimal, push_str, u64_to_decimal};

verus! {

/// A mark: its letter and its `(line, column)`.
pub type Mark = (char, (usize, usize));

/// No letter is used by two marks.
pub open spec fn distinct_marks(m: Seq<Mark>) -> bool {
    forall|i: int, j: int| 0 <= i < j < m.len() ==> m[i].0 != m[j].0
}

/// The index of the mark with letter `c`, searching from the end.
pub open spec fn mark_index(m: Seq<Mark>, c: char) -> Option<nat>
    decreases m.len(),
{
    if m.len() == 0 {
        None
    } else if m.last().0 == c {
        Some((m.len() - 1) as nat)
    } else {
        mark_index(m.drop_last(), c)
    }
}

/// The position of the mark with letter `c`.
pub open spec fn mark_lookup(m: Seq<Mark>, c: char) -> Option<(usize, usize)> {
    match mark_index(m, c) {
        Some(i) => Some(m[i as int].1),
        None => None,
    }
}

/// The marks with letter `c` at `p`: its mark moved, or a new one added.
pub open spec fn marks_with(m: Seq<Mark>, c: char, p: (usize, usize)) -> Seq<Mark> {
    match mark_index(m, c) {
        Some(i) => m.update(i as int, (c, p)),
        None => m.push((c, p)),
    }
}

/// The bookmarks saved for a document.
#[derive(Debug)]
pub struct BookmarkData {
    pub marks: Vec<Mark>,
}

/// `mark_index` finds a mark with the letter, and when it finds none no
/// mark has it.
pub proof fn lemma_mark_index(m: Seq<Mark>, c: char)
    ensures
        mark_index(m, c) matches Some(i) ==> i < m.len() && m[i as int].0 == c,
        mark_index(m, c) is None ==> forall|k: int| 0 <= k < m.len() ==> m[k].0 != c,
    decreases m.len(),
{
    if m.len() > 0 && m.last().0 != c {
        lemma_mark_index(m.drop_last(), c);
        assert forall|k: int| 0 <= k < m.len() - 1 implies m[k] == m.drop_last()[k] by {}
    }
}

/// With distinct letters, the mark found for `c` is the only one with `c`.
pub proof fn lemma_mark_index_unique(m: Seq<Mark>, c: char, k: int)
    requires
        distinct_marks(m),
        0 <= k < m.len(),
        m[k].0 == c,
    ensures
        mark_index(m, c) == Some(k as nat),
{
    lemma_mark_index(m, c);
}

/// The index of the mark with letter `c` (see `mark_index`).
pub fn find_mark_index(marks: &Vec<Mark>, c: char) -> (r: Option<usize>)
    ensures
        r matches Some(i) ==> mark_index(marks@, c) == Some(i as nat),
        r is None ==> mark_index(marks@, c) is None,
{
    let mut i = marks.len();
    assert(marks@.take(i as int) =~= marks@);
    while i > 0
        invariant
            i <= marks@.len(),
            mark_index(marks@, c) == mark_index(marks@.take(i as int), c),
        decreases i,
    {
        assert(marks@.take(i as int).drop_last() =~= marks@.take(i - 1));
        if marks[i - 1].0 == c {
            return Some(i - 1);
        }
        i = i - 1;
    }
    None
}

/// The position of the mark with letter `c`.
pub fn find_mark(marks: &Vec<Mark>, c: char) -> (r: Option<(usize, usize)>)
    ensures
        r == mark_lookup(marks@, c),
{
    proof {
        lemma_mark_index(marks@, c);
    }
    match find_mark_index(marks, c) {
        Some(i) => Some(marks[i].1),
        None => None,
    }
}

/// Puts the mark with letter `c` at `p` (see `marks_with`).
pub fn set_mark(marks: &mut Vec<Mark>, c: char, p: (usize, usize))
    ensures
        final(marks)@ == marks_with(old(marks)@, c, p),
{
    proof {
        lemma_mark_index(marks@, c);
    }
    match find_mark_index(marks, c) {
        Some(i) => {
            marks.set(i, (c, p));
        },
        None => {
            marks.push((c, p));
        },
    }
}

/// After a mark is put at `p`, its letter leads to `p`, every other letter
/// leads where it led before, and letters stay distinct.
pub proof fn lemma_set_then_lookup(m: Seq<Mark>, c: char, p: (usize, usize), d: char)
    requires
        distinct_marks(m),
    ensures
        mark_lookup(marks_with(m, c, p), c) == Some(p),
        d != c ==> mark_lookup(marks_with(m, c, p), d) == mark_lookup(m, d),
        distinct_marks(marks_with(m, c, p)),
{
    lemma_mark_index(m, c);
    lemma_mark_index(m, d);
    let n = marks_with(m, c, p);
    lemma_mark_index(n, d);
    match mark_index(m, c) {
        Some(i) => {
            lemma_mark_index_unique(n, c, i as int);
            if d != c {
                match mark_index(m, d) {
                    Some(j) => {
                        lemma_mark_index_unique(n, d, j as int);
                    },
                    None => {},
                }
            }
        },
        None => {
            assert(distinct_marks(n));
            lemma_mark_index_unique(n, c, m.len() as int);
            if d != c {
                match mark_index(m, d) {
                    Some(j) => {
                        lemma_mark_index_unique(n, d, j as int);
                    },
                    None => {},
                }
            }
        },
    }
}

impl BookmarkData {
    /// No bookmarks.
    pub fn new() -> (b: Self)
        ensures
            b.marks@.len() == 0,
    {
        BookmarkData { marks: Vec::new() }
    }
}

/// The name of the file holding a document's bookmarks: the document's
/// hash and `.json`.
pub fn bookmarks_file_name(document_hash: u64) -> (r: String)
    ensures
        r@ == decimal(document_hash as nat) + ".json"@,
{
    let mut r = u64_to_decimal(document_hash);
    push_str(&mut r, ".json");
    r
}

impl Editor {
    /// Where a jump with `c` goes: the previous position for `'`, the mark
    /// for a lowercase ASCII letter.
    pub open spec fn jump_target(self, c: char) -> Option<(usize, usize)> {
        if c == '\'' {
            self.nav.previous_position
        } else if 'a' <= c <= 'z' {
            mark_lookup(self.nav.marks@, c)
        } else {
            None
        }
    }

    /// This editor remembering the cursor's position as the previous one.
    pub open spec fn left_for_jump(self) -> Editor {
        Editor {
            nav: NavState { previous_position: Some((self.cursor_line(), self.cursor_x)), ..self.nav },
            ..self
        }
    }

    /// This editor after a jump with `c`: a jump to a mark during the
    /// tutorial is counted.
    pub open spec fn after_jump(self, c: char, tutorial_active: bool) -> Editor {
        if c != '\'' && tutorial_active {
            Editor { tutorial: TutorialState { bookmark_jumped: true, ..self.tutorial }, ..self }
        } else {
            self
        }
    }

    /// Puts mark `c`, a lowercase ASCII letter, at the cursor's position
    /// and returns `true` (the marks are then to be saved); any other
    /// character changes nothing and gives `false`.
    pub fn set_mark_at_cursor(&mut self, c: char) -> (changed: bool)
        ensures
            changed == ('a' <= c <= 'z'),
            changed ==> final(self).nav.marks@ == marks_with(
                old(self).nav.marks@,
                c,
                (old(self).cursor_line(), old(self).cursor_x),
            ),
            changed ==> *final(self) == (Editor {
                nav: NavState { marks: final(self).nav.marks, ..old(self).nav },
                ..*old(self)
            }),
            !changed ==> *final(self) == *old(self),
    {
        if 'a' <= c && c <= 'z' {
            let pos = self.get_cursor_position();
            set_mark(&mut self.nav.marks, c, pos);
            true
        } else {
            false
        }
    }

    /// Jumps to mark `c` (a lowercase ASCII letter), or with `'` to the
    /// position before the last jump: the position left becomes the
    /// previous position, and the cursor moves as `move_to_position` does;
    /// a jump to a mark counts for the tutorial. Without such a mark or
    /// previous position nothing changes.
    pub fn jump_to_mark(&mut self, c: char)
        ensures
            match old(self).jump_target(c) {
                Some((l, col)) => exists|moved: Editor|
                    #[trigger] old(self).left_for_jump().moved_to(l, col, moved) && *final(self)
                        == moved.after_jump(c, old(self).tutorial.active),
                None => *final(self) == *old(self),
            },
    {
        let target = if c == '\'' {
            self.nav.previous_position
        } else if 'a' <= c && c <= 'z' {
            find_mark(&self.nav.marks, c)
        } else {
            None
        };
        match target {
            Some((l, col)) => {
                let pos = self.get_cursor_position();
                self.nav.previous_position = Some(pos);
                let ghost left = *self;
                self.move_to_position(l, col);
                let ghost moved = *self;
                if c != '\'' && self.tutorial.active {
                    self.tutorial.bookmark_jumped = true;
                }
                assert(left == old(self).left_for_jump());
                assert(left.moved_to(l, col, moved));
                assert(*self == moved.after_jump(c, old(self).tutorial.active));
            },
            None => {},
        }
    }
}

} // verus!
