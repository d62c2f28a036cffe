//! Playing a demo back: each call takes the steps that are due at the
//! caller's clock and hands back the key press to act on, if any.

use vstd::prelude::*;
use crate::buffers::loaded_position;
use crate::core_types::{BufferState, BufferView, EditorMode, EditorStateView, ViewMode};
use crate::editor::{DemoState, Editor, NavState, RenderState, TutorialState, sat_sub};
use crate::keys::{Key, KeyCode};
use crate::core_types::{clone_lines, opt_string_view};
use crate::demo_script::DemoAction;
use crate::text::eq_str;
use crate::demo::{demo_spec, get_demo_by_id, get_demo_content_by_id, marketing_text};
use crate::demo_script::DemoActionView;
use crate::justify::strings_view;
use crate::shell::{push_text_lines, split_nl, text_lines};

verus! {

/// The key presses of a vim motion: each character pressed alone.
pub open spec fn motion_keys(m: Seq<char>) -> Seq<Key> {
    m.map_values(|c: char| char_key(c))
}

/// A character key pressed alone.
pub open spec fn char_key(c: char) -> Key {
    Key { code: KeyCode::Char(c), ctrl: false, alt: false, shift: false }
}

/// The keys of a motion: one for each character.
proof fn lemma_motion_keys(m: Seq<char>)
    ensures
        motion_keys(m).len() == m.len(),
        forall|j: int|
            0 <= j < m.len() ==> #[trigger] motion_keys(m)[j] == char_key(m[j]),
{
}

/// The keys of a prefix of a motion, one character longer than another.
proof fn lemma_motion_keys_prefix(m: Seq<char>, i: int)
    requires
        0 <= i < m.len() || i == 0,
    ensures
        motion_keys(m.take(0)) == Seq::<Key>::empty(),
        i < m.len() ==> motion_keys(m.take(i + 1)) == motion_keys(m.take(i)).push(char_key(m[i])),
{
    let e = m.take(0);
    lemma_motion_keys(e);
    assert(motion_keys(e) =~= Seq::<Key>::empty());
    if i < m.len() {
        let a = m.take(i + 1);
        let b = m.take(i);
        let k = char_key(m[i]);
        lemma_motion_keys(a);
        lemma_motion_keys(b);
        assert forall|j: int| 0 <= j < i + 1 implies #[trigger] motion_keys(a)[j] == motion_keys(b).push(k)[j] by {
            assert(a[j] == m[j]);
            if j < i {
                assert(b[j] == m[j]);
            }
        }
        assert(motion_keys(a) =~= motion_keys(b).push(k));
    }
}

/// Milliseconds from `last` to `now`, or none when `now` is earlier.
pub open spec fn elapsed(last: u64, now: u64) -> int {
    if now >= last {
        now - last
    } else {
        0
    }
}

/// `a + b`, or the largest `u64` when that is larger.
pub open spec fn sat_add(a: u64, b: u64) -> u64 {
    if a + b > u64::MAX {
        u64::MAX
    } else {
        (a + b) as u64
    }
}

/// Whether step `a`, begun at `last` with `typed` characters of it typed,
/// is over at `now` without handing a key out: a pause that has run its
/// time, a text fully typed once its delay has passed, or a checkpoint.
pub open spec fn step_done(a: DemoActionView, typed: nat, last: u64, now: u64) -> bool {
    match a {
        DemoActionView::Wait(d) => now >= last + d,
        DemoActionView::TypeString(text, delay) => elapsed(last, now) >= delay && typed >= text.len(),
        DemoActionView::Checkpoint(_) => true,
        _ => false,
    }
}

/// From step `i` on, the steps that are over are passed, each passed step
/// restarting the clock at `now`: the step at which play stops, the
/// characters typed of it, when it began, and whether a passed pause asked
/// for a redraw.
pub open spec fn settle(a: Seq<DemoActionView>, i: nat, typed: nat, last: u64, now: u64) -> (
    nat,
    nat,
    u64,
    bool,
)
    decreases a.len() - i,
{
    if i < a.len() && step_done(a[i as int], typed, last, now) {
        let s = settle(a, i + 1, 0, now, now);
        (s.0, s.1, s.2, s.3 || a[i as int] is Wait)
    } else {
        (i, typed, last, false)
    }
}

/// What a step asks for, read out of the script.
enum Due {
    Wait(u64),
    Press(Key),
    /// The next character to type, if any is left, and the delay.
    Type(Option<char>, u64),
    Hint(String, u64),
    Mark,
    Motion(String),
}

/// The length of the longest of `ps`.
pub open spec fn max_piece_len(ps: Seq<Seq<char>>) -> nat
    decreases ps.len(),
{
    if ps.len() == 0 {
        0
    } else {
        let m = max_piece_len(ps.drop_last());
        if ps.last().len() > m {
            ps.last().len()
        } else {
            m
        }
    }
}

/// The blank columns left and right of a hint line `len` characters long
/// in a box for lines up to `max` long: the line centred, two columns of
/// margin on each side, and a border column.
pub fn hint_line_padding(max: usize, len: usize) -> (r: (usize, usize))
    requires
        len <= max,
        max + 6 <= usize::MAX,
    ensures
        r.0 == (max - len) / 2 + 2,
        r.1 == max + 6 - len - r.0 - 2,
{
    let left = (max - len) / 2 + 2;
    let right = max + 6 - len - left - 2;
    (left, right)
}

/// Gives the main buffer the given lines.
fn set_main_lines(bs: &mut Vec<BufferState>, lines: Vec<String>)
    requires
        old(bs)@.len() > 0,
    ensures
        final(bs)@ == old(bs)@.update(0, BufferState { lines, ..old(bs)@[0] }),
{
    bs[0].lines = lines;
}

/// Clears the selection, search and command line of the main buffer.
fn clear_main_buffer(bs: &mut Vec<BufferState>)
    requires
        old(bs)@.len() > 0,
    ensures
        final(bs)@.len() == old(bs)@.len(),
        final(bs)@[0]@ == (BufferView {
            selection_start: None,
            selection_end: None,
            search_query: seq![],
            current_match: None,
            command_buffer: seq![],
            command_cursor_pos: 0,
            ..old(bs)@[0]@
        }),
        final(bs)@[0].lines == old(bs)@[0].lines,
{
    bs[0].selection_start = None;
    bs[0].selection_end = None;
    bs[0].search_query = String::new();
    bs[0].current_match = None;
    bs[0].command_buffer = String::new();
    bs[0].command_cursor_pos = 0;
}

impl Editor {
    /// Whether `post` is this editor once the demo is over: the demo, its
    /// hint and pending keys are gone, with `index` kept as the step reached;
    /// the selection, yanked text, search, count, character find and
    /// previous position are cleared; only the main buffer is left, with its
    /// selection, search and command line cleared, and it is loaded (see
    /// `loaded_from`) in the normal view; the screen is cleared and redrawn.
    pub open spec fn demo_completed(self, index: usize, post: Editor) -> bool {
        let has_main = self.buffers@.len() > 0;
        let b = self.buffers@[0]@;
        let b0 = BufferView {
            selection_start: None,
            selection_end: None,
            search_query: seq![],
            current_match: None,
            command_buffer: seq![],
            command_cursor_pos: 0,
            ..b
        };
        let (o, y) = loaded_position(
            b0.offset,
            b0.cursor_y,
            sat_sub(self.height, 1),
            self.buffers@[0].lines@.len() as usize,
        );
        &&& post.buffers@.len() == (if has_main {
            1int
        } else {
            0int
        })
        &&& has_main ==> post.buffers@[0]@ == b0 && post.lines@ == self.buffers@[0].lines@
        &&& post.editor_state@ == (EditorStateView {
            yank_buffer: seq![],
            search_query: seq![],
            current_match: None,
            selection_start: None,
            selection_end: None,
            visual_selection_active: false,
            previous_visual_mode: None,
            mode: if has_main {
                b.mode
            } else {
                EditorMode::Normal
            },
            command_buffer: seq![],
            command_cursor_pos: 0,
            ..self.editor_state@
        })
        &&& post.nav.number_prefix@.len() == 0
        &&& post.demo.pending_keys@.len() == 0
        &&& post == (Editor {
            lines: if has_main {
                post.lines
            } else {
                self.lines
            },
            total_lines: if has_main {
                self.buffers@[0].lines@.len() as usize
            } else {
                self.total_lines
            },
            offset: if has_main {
                o
            } else {
                self.offset
            },
            cursor_x: if has_main {
                b.cursor_x
            } else {
                self.cursor_x
            },
            cursor_y: if has_main {
                y
            } else {
                self.cursor_y
            },
            editor_state: post.editor_state,
            buffers: post.buffers,
            active_buffer: 0,
            view_mode: ViewMode::Normal,
            active_pane: 0,
            nav: NavState {
                last_find_char: None,
                last_find_forward: false,
                last_find_till: false,
                previous_position: None,
                number_prefix: post.nav.number_prefix,
                ..self.nav
            },
            render: RenderState { needs_redraw: true, force_clear: true, ..self.render },
            tutorial: TutorialState { demo_mode: false, ..self.tutorial },
            demo: DemoState {
                script: None,
                action_index: index,
                last_action_time: None,
                hint_text: None,
                hint_until: None,
                typing_char_index: 0,
                pending_keys: post.demo.pending_keys,
                start_time: self.demo.start_time,
            },
            ..self
        })
    }

    /// Whether `post` is this editor with the demo and everything it left
    /// behind cleared, before the main buffer is loaded again (see
    /// `demo_completed`).
    pub open spec fn demo_cleared(self, index: usize, post: Editor) -> bool {
        let has_main = self.buffers@.len() > 0;
        &&& post.buffers@.len() == (if has_main {
            1int
        } else {
            0int
        })
        &&& has_main ==> post.buffers@[0]@ == (BufferView {
            selection_start: None,
            selection_end: None,
            search_query: seq![],
            current_match: None,
            command_buffer: seq![],
            command_cursor_pos: 0,
            ..self.buffers@[0]@
        }) && post.buffers@[0].lines == self.buffers@[0].lines
        &&& post.editor_state@ == (EditorStateView {
            yank_buffer: seq![],
            search_query: seq![],
            current_match: None,
            selection_start: None,
            selection_end: None,
            visual_selection_active: false,
            previous_visual_mode: None,
            mode: EditorMode::Normal,
            command_buffer: seq![],
            command_cursor_pos: 0,
            ..self.editor_state@
        })
        &&& post.nav.number_prefix@.len() == 0
        &&& post.demo.pending_keys@.len() == 0
        &&& post == (Editor {
            editor_state: post.editor_state,
            buffers: post.buffers,
            active_buffer: 0,
            view_mode: ViewMode::Normal,
            active_pane: 0,
            nav: NavState {
                last_find_char: None,
                last_find_forward: false,
                last_find_till: false,
                previous_position: None,
                number_prefix: post.nav.number_prefix,
                ..self.nav
            },
            tutorial: TutorialState { demo_mode: false, ..self.tutorial },
            demo: DemoState {
                script: None,
                action_index: index,
                last_action_time: None,
                hint_text: None,
                hint_until: None,
                typing_char_index: 0,
                pending_keys: post.demo.pending_keys,
                start_time: self.demo.start_time,
            },
            ..self
        })
    }

    /// Clears the demo and what it left behind (see `demo_cleared`).
    #[verifier::rlimit(40)]
    fn clear_demo(&mut self)
        ensures
            old(self).demo_cleared(old(self).demo.action_index, *final(self)),
    {
        self.tutorial.demo_mode = false;
        self.demo.script = None;
        self.demo.hint_text = None;
        self.demo.hint_until = None;
        self.demo.typing_char_index = 0;
        self.demo.pending_keys.clear();
        self.demo.last_action_time = None;
        self.clear_selection();
        self.editor_state.yank_buffer = String::new();
        self.editor_state.search_query = String::new();
        self.editor_state.current_match = None;
        if self.buffers.len() > 1 {
            self.buffers.truncate(1);
        }
        self.active_buffer = 0;
        self.active_pane = 0;
        self.view_mode = ViewMode::Normal;
        self.nav.number_prefix = String::new();
        self.nav.last_find_char = None;
        self.nav.last_find_forward = false;
        self.nav.last_find_till = false;
        self.nav.previous_position = None;
        self.editor_state.mode = EditorMode::Normal;
        self.editor_state.command_buffer = String::new();
        self.editor_state.command_cursor_pos = 0;
        if self.buffers.len() > 0 {
            clear_main_buffer(&mut self.buffers);
        }
    }

    /// Ends the demo and clears what it left behind (see `demo_completed`);
    /// the step reached is kept, so that `should_exit_after_demo` can tell
    /// that a demo ran to its end.
    fn complete_demo(&mut self)
        ensures
            old(self).demo_completed(old(self).demo.action_index, *final(self)),
    {
        self.clear_demo();
        let ghost cleared = *self;
        self.load_buffer_state(0);
        self.mark_dirty();
        self.render.force_clear = true;
        proof {
            if old(self).buffers@.len() > 0 {
                assert(cleared.buffers@[0]@.lines == old(self).buffers@[0]@.lines);
            }
        }
    }

    /// Whether `post` is this editor showing the demo text: its lines (see
    /// `text_lines`) in the editor and the main buffer, from the top, the
    /// cursor in the middle row, and a redraw asked for.
    pub open spec fn demo_content_loaded(self, post: Editor) -> bool {
        &&& strings_view(post.lines@) == text_lines(marketing_text())
        &&& post.buffers@ == self.buffers@.update(
            0,
            BufferState { lines: post.buffers@[0].lines, ..self.buffers@[0] },
        )
        &&& post.buffers@[0].lines@ == post.lines@
        &&& post == (Editor {
            lines: post.lines,
            total_lines: post.lines@.len() as usize,
            offset: 0,
            cursor_y: self.height / 2,
            buffers: post.buffers,
            render: RenderState { needs_redraw: true, ..self.render },
            ..self
        })
    }

    /// Shows the text of demo `demo_id` (see `demo_content_loaded`).
    fn load_demo_content(&mut self, demo_id: usize)
        requires
            old(self).buffers@.len() > 0,
        ensures
            old(self).demo_content_loaded(*final(self)),
    {
        let text = get_demo_content_by_id(demo_id);
        let mut lines: Vec<String> = Vec::new();
        push_text_lines(&mut lines, text.as_str());
        assert(strings_view(Seq::<String>::empty()) =~= Seq::<Seq<char>>::empty());
        assert(strings_view(lines@) =~= text_lines(marketing_text()));
        set_main_lines(&mut self.buffers, clone_lines(&lines));
        self.total_lines = lines.len();
        self.lines = lines;
        self.offset = 0;
        self.cursor_y = self.height / 2;
        self.mark_dirty();
    }

    /// Whether `post` is this editor once demo `id` started at `now`: a
    /// document of fewer than ten lines is replaced by the demo text (see
    /// `demo_content_loaded`); a known demo is loaded at its first step, in
    /// demo mode and out of the tutorial, with the clock set; an unknown id
    /// starts nothing.
    pub open spec fn demo_started(self, id: usize, now: u64, post: Editor) -> bool {
        let short = self.lines@.len() < 10;
        let shown = Editor {
            lines: post.lines,
            total_lines: post.total_lines,
            offset: post.offset,
            cursor_y: post.cursor_y,
            buffers: post.buffers,
            render: post.render,
            ..self
        };
        &&& short ==> self.demo_content_loaded(shown)
        &&& !short ==> shown == self
        &&& match demo_spec(id) {
            Some(acts) => {
                &&& post.demo.script matches Some(s) && s@ == acts
                &&& post == (Editor {
                    tutorial: TutorialState { demo_mode: true, active: false, ..self.tutorial },
                    demo: DemoState {
                        script: post.demo.script,
                        action_index: 0,
                        last_action_time: Some(now),
                        typing_char_index: 0,
                        start_time: Some(now),
                        ..self.demo
                    },
                    ..shown
                })
            },
            None => post == shown,
        }
    }

    /// Starts demo `demo_id` at `now` (see `demo_started`).
    pub fn start_demo_mode(&mut self, demo_id: usize, now: u64)
        requires
            old(self).lines@.len() < 10 ==> old(self).buffers@.len() > 0,
        ensures
            old(self).demo_started(demo_id, now, *final(self)),
    {
        if self.lines.is_empty() || self.lines.len() < 10 {
            self.load_demo_content(demo_id);
        }
        match get_demo_by_id(demo_id) {
            Some(demo) => {
                self.demo.script = Some(demo);
                self.demo.action_index = 0;
                self.demo.last_action_time = Some(now);
                self.demo.typing_char_index = 0;
                self.tutorial.demo_mode = true;
                self.demo.start_time = Some(now);
                self.tutorial.active = false;
            },
            None => {},
        }
    }

    /// The steps of the demo being played.
    pub open spec fn demo_actions(self) -> Seq<DemoActionView> {
        match self.demo.script {
            Some(s) => s@,
            None => Seq::empty(),
        }
    }

    /// This editor at step `index` of the demo, with `typed` characters of
    /// it typed, the step begun at `last`, and `redraw` as the redraw
    /// request.
    pub open spec fn demo_at(self, index: nat, typed: nat, last: u64, redraw: bool) -> Editor {
        Editor {
            render: RenderState { needs_redraw: redraw, ..self.render },
            demo: DemoState {
                action_index: index as usize,
                typing_char_index: typed as usize,
                last_action_time: Some(last),
                ..self.demo
            },
            ..self
        }
    }

    /// Whether play stops at step `j` (begun at `last`, `typed` characters
    /// typed) with result `r` and editor `post`: a pause waits; a key is
    /// handed out and play moves on; a text hands out its next character
    /// once its delay has passed; a hint is shown until `now` plus its time,
    /// with a redraw when it differs from the hint shown; a motion hands out
    /// its first key and keeps the others pending. Moving on restarts the
    /// clock at `now`. `dirty` says whether passed pauses asked for a redraw.
    pub open spec fn stepped_demo(
        self,
        now: u64,
        j: nat,
        typed: nat,
        last: u64,
        dirty: bool,
        r: Option<Key>,
        post: Editor,
    ) -> bool {
        let redraw = self.render.needs_redraw || dirty;
        match self.demo_actions()[j as int] {
            DemoActionView::Wait(_) => r is None && post == self.demo_at(j, typed, last, redraw),
            DemoActionView::Key(c) => r == Some(Key { code: c, ctrl: false, alt: false, shift: false })
                && post == self.demo_at(j + 1, 0, now, redraw),
            DemoActionView::KeyWithModifiers(k) => r == Some(k) && post == self.demo_at(
                j + 1,
                0,
                now,
                redraw,
            ),
            DemoActionView::TypeString(text, delay) => if elapsed(last, now) >= delay {
                r == Some(char_key(text[typed as int])) && post == self.demo_at(
                    j,
                    typed + 1,
                    now,
                    redraw,
                )
            } else {
                r is None && post == self.demo_at(j, typed, last, redraw)
            },
            DemoActionView::ShowHint(h, d) => {
                let moved = self.demo_at(
                    j + 1,
                    0,
                    now,
                    redraw || opt_string_view(self.demo.hint_text) != Some(h),
                );
                &&& r is None
                &&& opt_string_view(post.demo.hint_text) == Some(h)
                &&& post == (Editor {
                    demo: DemoState {
                        hint_text: post.demo.hint_text,
                        hint_until: Some(sat_add(now, d)),
                        ..moved.demo
                    },
                    ..moved
                })
            },
            DemoActionView::Checkpoint(_) => r is None && post == self.demo_at(j + 1, 0, now, redraw),
            DemoActionView::VimMotion(m) => {
                let moved = self.demo_at(j + 1, 0, now, redraw);
                &&& r == (if m.len() > 0 {
                    Some(char_key(m[0]))
                } else {
                    None
                })
                &&& post.demo.pending_keys@ == (if m.len() > 0 {
                    motion_keys(m).drop_first()
                } else {
                    Seq::empty()
                })
                &&& post == (Editor {
                    demo: DemoState { pending_keys: post.demo.pending_keys, ..moved.demo },
                    ..moved
                })
            },
        }
    }

    /// Whether `post` and `r` are what one round of play at `now` gives:
    /// outside demo mode nothing; a pending key of a motion is handed out
    /// first; without a script nothing; at the end of the script the demo
    /// is completed (see `demo_completed`); without a clock nothing;
    /// otherwise the steps that are over are passed (see `settle`), and play
    /// ends the demo when it runs past the last step or stops at a step
    /// (see `stepped_demo`).
    pub open spec fn demo_progressed(self, now: u64, r: Option<Key>, post: Editor) -> bool {
        let a = self.demo_actions();
        if !self.tutorial.demo_mode {
            r is None && post == self
        } else if self.demo.pending_keys@.len() > 0 {
            &&& r == Some(self.demo.pending_keys@[0])
            &&& post.demo.pending_keys@ == self.demo.pending_keys@.drop_first()
            &&& post == (Editor {
                demo: DemoState { pending_keys: post.demo.pending_keys, ..self.demo },
                ..self
            })
        } else if self.demo.script is None {
            r is None && post == self
        } else if self.demo.action_index >= a.len() {
            r is None && self.demo_completed(self.demo.action_index, post)
        } else if self.demo.last_action_time is None {
            r is None && post == self
        } else {
            let s = settle(
                a,
                self.demo.action_index as nat,
                self.demo.typing_char_index as nat,
                self.demo.last_action_time.unwrap(),
                now,
            );
            if s.0 >= a.len() {
                r is None && self.demo_completed(s.0 as usize, post)
            } else {
                self.stepped_demo(now, s.0, s.1, s.2, s.3, r, post)
            }
        }
    }

    /// Step `i` of the script, read out with `typed` characters of it typed.
    fn due_at(&self, i: usize, typed: usize) -> (d: Due)
        requires
            self.demo.script is Some,
            i < self.demo_actions().len(),
        ensures
            match (self.demo_actions()[i as int], d) {
                (DemoActionView::Wait(x), Due::Wait(y)) => x == y,
                (DemoActionView::Key(c), Due::Press(k)) => k == (Key {
                    code: c,
                    ctrl: false,
                    alt: false,
                    shift: false,
                }),
                (DemoActionView::KeyWithModifiers(k1), Due::Press(k2)) => k1 == k2,
                (DemoActionView::TypeString(t, x), Due::Type(c, y)) => x == y && t.len() <= usize::MAX && c == (if typed < t.len() {
                    Some(t[typed as int])
                } else {
                    None
                }),
                (DemoActionView::ShowHint(h, x), Due::Hint(g, y)) => h == g@ && x == y,
                (DemoActionView::Checkpoint(_), Due::Mark) => true,
                (DemoActionView::VimMotion(m), Due::Motion(g)) => m == g@,
                _ => false,
            },
    {
        match &self.demo.script {
            Some(s) => {
                assert(self.demo_actions()[i as int] == s.actions@[i as int]@);
                match &s.actions[i] {
                    DemoAction::Wait(d) => Due::Wait(*d),
                    DemoAction::Key(c) => Due::Press(Key::plain(*c)),
                    DemoAction::KeyWithModifiers(k) => Due::Press(*k),
                    DemoAction::TypeString(t, d) => {
                        let n = t.as_str().unicode_len();
                        if typed < n {
                            Due::Type(Some(t.as_str().get_char(typed)), *d)
                        } else {
                            Due::Type(None, *d)
                        }
                    },
                    DemoAction::ShowHint(h, d) => Due::Hint(h.clone(), *d),
                    DemoAction::Checkpoint(_) => Due::Mark,
                    DemoAction::VimMotion(m) => Due::Motion(m.clone()),
                }
            },
            None => Due::Mark,
        }
    }

    /// Plays the demo at `now`: takes the steps that are due and hands back
    /// the key press to act on, if any (see `demo_progressed`).
    #[verifier::rlimit(60)]
    pub fn check_demo_progress(&mut self, now: u64) -> (r: Option<Key>)
        ensures
            old(self).demo_progressed(now, r, *final(self)),
    {
        if !self.tutorial.demo_mode {
            return None;
        }
        if self.demo.pending_keys.len() > 0 {
            let k = self.demo.pending_keys.remove(0);
            assert(self.demo.pending_keys@ =~= old(self).demo.pending_keys@.drop_first());
            return Some(k);
        }
        let n = match &self.demo.script {
            Some(s) => s.actions.len(),
            None => {
                return None;
            },
        };
        assert(n == self.demo_actions().len());
        if self.demo.action_index >= n {
            self.complete_demo();
            self.mark_dirty();
            return None;
        }
        if self.demo.last_action_time.is_none() {
            return None;
        }
        let ghost pre = *self;
        let ghost a = pre.demo_actions();
        let ghost goal = settle(
            a,
            pre.demo.action_index as nat,
            pre.demo.typing_char_index as nat,
            pre.demo.last_action_time.unwrap(),
            now,
        );
        loop
            invariant
                pre == *old(self),
                pre.tutorial.demo_mode,
                pre.demo.pending_keys@.len() == 0,
                pre.demo.script is Some,
                pre.demo.last_action_time is Some,
                pre.demo.action_index < n,
                a == pre.demo_actions(),
                n == a.len(),
                goal == settle(
                    a,
                    pre.demo.action_index as nat,
                    pre.demo.typing_char_index as nat,
                    pre.demo.last_action_time.unwrap(),
                    now,
                ),
                self.demo.action_index <= n,
                self.demo.last_action_time is Some,
                *self == pre.demo_at(
                    self.demo.action_index as nat,
                    self.demo.typing_char_index as nat,
                    self.demo.last_action_time.unwrap(),
                    self.render.needs_redraw,
                ),
                ({
                    let s = settle(
                        a,
                        self.demo.action_index as nat,
                        self.demo.typing_char_index as nat,
                        self.demo.last_action_time.unwrap(),
                        now,
                    );
                    &&& s.0 == goal.0
                    &&& s.1 == goal.1
                    &&& s.2 == goal.2
                    &&& (self.render.needs_redraw || s.3) == (pre.render.needs_redraw || goal.3)
                }),
            decreases n - self.demo.action_index,
        {
            let i = self.demo.action_index;
            if i >= n {
                self.complete_demo();
                self.mark_dirty();
                return None;
            }
            let last = match self.demo.last_action_time {
                Some(t) => t,
                None => 0,
            };
            let typed = self.demo.typing_char_index;
            let due = self.due_at(i, typed);
            match due {
                Due::Wait(d) => {
                    if now >= last && now - last >= d {
                        self.demo.action_index = i + 1;
                        self.demo.typing_char_index = 0;
                        self.demo.last_action_time = Some(now);
                        self.mark_dirty();
                    } else {
                        return None;
                    }
                },
                Due::Press(k) => {
                    self.demo.action_index = i + 1;
                    self.demo.typing_char_index = 0;
                    self.demo.last_action_time = Some(now);
                    return Some(k);
                },
                Due::Type(next, delay) => {
                    let waited = if now >= last {
                        now - last
                    } else {
                        0
                    };
                    if waited >= delay {
                        match next {
                            Some(c) => {
                                self.demo.typing_char_index = typed + 1;
                                self.demo.last_action_time = Some(now);
                                return Some(Key::plain(KeyCode::Char(c)));
                            },
                            None => {
                                self.demo.action_index = i + 1;
                                self.demo.typing_char_index = 0;
                                self.demo.last_action_time = Some(now);
                            },
                        }
                    } else {
                        return None;
                    }
                },
                Due::Hint(h, d) => {
                    let changed = match &self.demo.hint_text {
                        Some(t) => !eq_str(t.as_str(), h.as_str()),
                        None => true,
                    };
                    self.demo.hint_text = Some(h);
                    self.demo.hint_until = Some(now.saturating_add(d));
                    self.demo.action_index = i + 1;
                    self.demo.typing_char_index = 0;
                    self.demo.last_action_time = Some(now);
                    if changed {
                        self.mark_dirty();
                    }
                    return None;
                },
                Due::Mark => {
                    self.demo.action_index = i + 1;
                    self.demo.typing_char_index = 0;
                    self.demo.last_action_time = Some(now);
                },
                Due::Motion(m) => {
                    let keys = self.parse_vim_motion(m.as_str());
                    self.demo.pending_keys = keys;
                    self.demo.action_index = i + 1;
                    self.demo.typing_char_index = 0;
                    self.demo.last_action_time = Some(now);
                    if self.demo.pending_keys.len() > 0 {
                        let k = self.demo.pending_keys.remove(0);
                        proof {
                            lemma_motion_keys(m@);
                            assert(self.demo.pending_keys@ =~= motion_keys(m@).drop_first());
                        }
                        return Some(k);
                    }
                    proof {
                        lemma_motion_keys(m@);
                        assert(self.demo.pending_keys@ =~= Seq::<Key>::empty());
                    }
                    return None;
                },
            }
        }
    }

    /// Whether a demo was played to its end, so that the reader should
    /// exit.
    pub fn should_exit_after_demo(&self) -> (r: bool)
        ensures
            r == (!self.tutorial.demo_mode && self.demo.script is None
                && self.demo.action_index > 0),
    {
        !self.tutorial.demo_mode && self.demo.script.is_none() && self.demo.action_index > 0
    }

    /// The key presses of a vim motion such as `vip`: one per character,
    /// without modifiers.
    pub fn parse_vim_motion(&self, motion: &str) -> (r: Vec<Key>)
        ensures
            r@ == motion_keys(motion@),
    {
        let n = motion.unicode_len();
        let mut events: Vec<Key> = Vec::new();
        let mut i: usize = 0;
        proof {
            lemma_motion_keys_prefix(motion@, 0);
        }
        while i < n
            invariant
                n == motion@.len(),
                i <= n,
                events@ == motion_keys(motion@.take(i as int)),
            decreases n - i,
        {
            let c = motion.get_char(i);
            events.push(Key::plain(KeyCode::Char(c)));
            proof {
                lemma_motion_keys_prefix(motion@, i as int);
            }
            i += 1;
        }
        proof {
            assert(motion@.take(n as int) =~= motion@);
        }
        events
    }

    /// Where the demo hint box goes on a screen `width` by `height`:
    /// `(column, row, box width, box height)`. The box holds the hint's
    /// lines with two columns of margin and a border around, centred
    /// across and two rows above the bottom; none without a hint.
    pub fn demo_hint_box(&self, width: usize, height: usize) -> (r: Option<(usize, usize, usize, usize)>)
        requires
            self.demo.hint_text matches Some(t) ==> t@.len() + 6 <= usize::MAX,
        ensures
            r == (match self.demo.hint_text {
                Some(t) => if t@.len() > 0 {
                    let ps = split_nl(t@);
                    let bw = (max_piece_len(ps) + 6) as usize;
                    let bh = (ps.len() + 2) as usize;
                    Some((sat_sub(width, bw) / 2, sat_sub(height, (bh + 2) as usize), bw, bh))
                } else {
                    None
                },
                None => None,
            }),
    {
        match &self.demo.hint_text {
            Some(text) => {
                let n = text.as_str().unicode_len();
                if n == 0 {
                    return None;
                }
                let mut pieces: usize = 1;
                let mut cur: usize = 0;
                let mut longest: usize = 0;
                let mut i: usize = 0;
                while i < n
                    invariant
                        n == text@.len(),
                        n + 6 <= usize::MAX,
                        i <= n,
                        pieces == split_nl(text@.take(i as int)).len(),
                        pieces <= i + 1,
                        cur == split_nl(text@.take(i as int)).last().len(),
                        longest == max_piece_len(split_nl(text@.take(i as int)).drop_last()),
                        cur <= i,
                        longest <= i,
                    decreases n - i,
                {
                    let c = text.as_str().get_char(i);
                    let ghost p = split_nl(text@.take(i as int));
                    proof {
                        assert(text@.take(i + 1).drop_last() =~= text@.take(i as int));
                        assert(text@.take(i + 1).last() == c);
                        crate::shell::lemma_split_nl_len(text@.take(i as int));
                    }
                    if c == '\n' {
                        proof {
                            let q = split_nl(text@.take(i + 1));
                            assert(q == p.push(seq![]));
                            assert(q.drop_last() =~= p);
                        }
                        if cur > longest {
                            longest = cur;
                        }
                        cur = 0;
                        pieces += 1;
                    } else {
                        proof {
                            let q = split_nl(text@.take(i + 1));
                            assert(q == p.update(p.len() - 1, p.last().push(c)));
                            assert(q.drop_last() =~= p.drop_last());
                        }
                        cur += 1;
                    }
                    i += 1;
                }
                proof {
                    assert(text@.take(n as int) =~= text@);
                    crate::shell::lemma_split_nl_len(text@);
                }
                let widest = if cur > longest {
                    cur
                } else {
                    longest
                };
                let bw = widest + 6;
                let bh = pieces + 2;
                let x = if width >= bw {
                    (width - bw) / 2
                } else {
                    0
                };
                let y = if height >= bh + 2 {
                    height - (bh + 2)
                } else {
                    0
                };
                Some((x, y, bw, bh))
            },
            None => None,
        }
    }

    /// The rows the demo hint takes: its lines and a border above and
    /// below, or none without a hint.
    pub fn calculate_demo_hint_height(&self) -> (h: usize)
        requires
            self.demo.hint_text matches Some(t) ==> t@.len() + 3 <= usize::MAX,
        ensures
            h == (match self.demo.hint_text {
                Some(t) => if t@.len() > 0 {
                    split_nl(t@).len() + 2
                } else {
                    0
                },
                None => 0,
            }),
    {
        match &self.demo.hint_text {
            Some(text) => {
                let n = text.unicode_len();
                if n == 0 {
                    return 0;
                }
                let mut pieces: usize = 1;
                let mut i: usize = 0;
                while i < n
                    invariant
                        n == text@.len(),
                        n + 3 <= usize::MAX,
                        i <= n,
                        pieces == split_nl(text@.take(i as int)).len(),
                        pieces <= i + 1,
                    decreases n - i,
                {
                    let c = text.get_char(i);
                    proof {
                        assert(text@.take(i + 1).drop_last() =~= text@.take(i as int));
                        crate::shell::lemma_split_nl_len(text@.take(i as int));
                    }
                    if c == '\n' {
                        pieces += 1;
                    }
                    i += 1;
                }
                proof {
                    assert(text@.take(n as int) =~= text@);
                }
                pieces + 2
            },
            None => 0,
        }
    }
}

} // verus!
