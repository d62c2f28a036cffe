//! Normal-mode keys: the key is offered to the handlers in turn, and the
//! first that takes it acts on it.

use vstd::prelude::*;
use crate::core_types::EditorState;
use crate::editor::{Editor, NavState};
use crate::keys::{Key, KeyCode};
use crate::normal_keys::{is_ascii_digit, search_visual_key};

verus! {

/// The keys that end a pane command after Control-Space.
pub open spec fn tmux_claims(key: Key) -> bool {
    key.code == KeyCode::Char('j') || key.code == KeyCode::Down || key.code == KeyCode::Char('k')
        || key.code == KeyCode::Up || key.code == KeyCode::Char('x') || key.code == KeyCode::Char(
        'q',
    )
}

/// The control, mode and count keys.
pub open spec fn control_claims(key: Key) -> bool {
    match key.code {
        KeyCode::Char(c) => (key.ctrl && (c == ' ' || c == 'c' || c == 'f' || c == 'a')) || (key.alt
            && (c == 'h' || c == 'l' || c == 'j' || c == 'k')) || c == ':' || is_ascii_digit(c),
        _ => false,
    }
}

/// The keys that start a search, a selection or a yank, or move to a
/// match (see `search_visual_key`).
pub open spec fn search_visual_claims(key: Key) -> bool {
    search_visual_key(key)
}

/// The keys that move the cursor by a line or a character.
pub open spec fn movement_claims(key: Key) -> bool {
    key.code == KeyCode::Char('j') || key.code == KeyCode::Down || key.code == KeyCode::Char('k')
        || key.code == KeyCode::Up || key.code == KeyCode::Char('h') || key.code == KeyCode::Left
        || key.code == KeyCode::Char('l') || key.code == KeyCode::Right
}

/// The keys that move by a page or half a page.
pub open spec fn page_claims(key: Key) -> bool {
    key.code == KeyCode::PageDown || key.code == KeyCode::PageUp || (key.ctrl && (key.code
        == KeyCode::Char('u') || key.code == KeyCode::Char('d')))
}

/// The keys that jump within the document or the line; `g` only with a
/// key after it.
pub open spec fn jump_claims(key: Key, next: Option<Key>) -> bool {
    (key.code == KeyCode::Char('g') && next is Some) || key.code == KeyCode::Char('G')
        || key.code == KeyCode::Char('0') || key.code == KeyCode::Char('$') || key.code
        == KeyCode::Char('^')
}

/// The keys that move by paragraph, sentence or screen position.
pub open spec fn text_object_claims(key: Key) -> bool {
    key.code == KeyCode::Char('{') || key.code == KeyCode::Char('}') || key.code == KeyCode::Char(
        '(',
    ) || key.code == KeyCode::Char(')') || key.code == KeyCode::Char('H') || key.code
        == KeyCode::Char('M') || key.code == KeyCode::Char('L')
}

/// The keys that set or jump to a mark, with the key after them.
pub open spec fn mark_claims(key: Key, next: Option<Key>) -> bool {
    (key.code == KeyCode::Char('m') || key.code == KeyCode::Char('\'')) && next is Some
}

impl Editor {
    /// Whether `post` and `saved` are what `handle_navigation_keys` gives
    /// for `key` and the key after it: the first of the movement, page,
    /// jump, text-object and mark handlers that takes the key acts;
    /// `saved` says whether the marks changed.
    pub open spec fn navigation_key_done(self, key: Key, next: Option<Key>, saved: bool, post: Editor) -> bool {
        if movement_claims(key) {
            !saved && self.movement_key_done(key, Some(false), post)
        } else if page_claims(key) {
            !saved && self.page_key_done(key, Some(false), post)
        } else if jump_claims(key, next) {
            !saved && self.jump_key_done(key, next, Some(false), post)
        } else if text_object_claims(key) {
            !saved && self.text_object_key_done(key, Some(false), post)
        } else if mark_claims(key, next) {
            self.mark_key_done(key, next, (Some(false), saved), post)
        } else {
            !saved && post == self
        }
    }

    /// Whether `r` and `post` are what `handle_operator_pending` gives: a
    /// pending operator takes the key and ends; without one nothing is
    /// taken.
    pub open spec fn operator_key_done(self, r: Option<bool>, post: Editor) -> bool {
        if self.editor_state.operator_pending is Some {
            r == Some(false) && post == (Editor {
                editor_state: EditorState { operator_pending: None, ..self.editor_state },
                ..self
            })
        } else {
            r is None && post == self
        }
    }

    /// The key after an operator such as `y`: it ends the operator (see
    /// `operator_key_done`). The yanks `yy` and `yw` themselves are not part
    /// of this library.
    pub fn handle_operator_pending(&mut self, key: Key) -> (r: Option<bool>)
        ensures
            old(self).operator_key_done(r, *final(self)),
    {
        if self.editor_state.operator_pending.is_some() {
            self.editor_state.operator_pending = None;
            Some(false)
        } else {
            None
        }
    }

    /// Whether `post` and `saved` are what the control, operator, search
    /// and navigation handlers give for `key`, tried in that order.
    pub open spec fn normal_key_dispatched(self, key: Key, next: Option<Key>, saved: bool, post: Editor) -> bool {
        if control_claims(key) {
            !saved && self.control_key_done(key, Some(false), post)
        } else if self.editor_state.operator_pending is Some {
            !saved && self.operator_key_done(Some(false), post)
        } else if search_visual_claims(key) {
            !saved && self.search_visual_key_done(key, next, Some(false), post)
        } else {
            self.navigation_key_done(key, next, saved, post)
        }
    }

    /// Whether `r` and `post` are what `handle_normal_mode_event` gives:
    /// the count is cleared as `handle_number_prefix_clearing` does; a
    /// pending pane command takes the key if it can and ends either way;
    /// then the handlers are tried (see `normal_key_dispatched`). Normal
    /// mode never leaves the reader: `r.0` is false; `r.1` says whether
    /// the marks changed.
    pub open spec fn normal_key_done(self, key: Key, next: Option<Key>, r: (bool, bool), post: Editor) -> bool {
        &&& !r.0
        &&& exists|m: Editor|
            #[trigger] self.prefix_cleared(key, m) && if m.nav.tmux_prefix_active {
                if tmux_claims(key) {
                    !r.1 && m.tmux_key_done(key, Some(false), post)
                } else {
                    (Editor { nav: NavState { tmux_prefix_active: false, ..m.nav }, ..m }).normal_key_dispatched(
                        key,
                        next,
                        r.1,
                        post,
                    )
                }
            } else {
                m.normal_key_dispatched(key, next, r.1, post)
            }
    }

    /// Page Down, Page Up, Control-U and Control-D (see
    /// `handle_page_navigation`).
    pub fn handle_page_movement_keys(&mut self, key: Key) -> (r: Option<bool>)
        requires
            old(self).current_line() <= usize::MAX,
        ensures
            old(self).page_key_done(key, r, *final(self)),
    {
        self.handle_page_navigation(key)
    }

    /// Navigation keys in normal mode (see `navigation_key_done`): `Some`
    /// when a handler took the key, with whether the marks changed.
    pub fn handle_navigation_keys(&mut self, key: Key, next: Option<Key>) -> (r: (Option<bool>, bool))
        requires
            old(self).current_line() <= usize::MAX,
            key.code == KeyCode::Char('(') ==> old(self).lines@.len() > 0,
            key.code == KeyCode::Char(')') ==> old(self).cursor_x < usize::MAX,
        ensures
            r.0 == (if movement_claims(key) || page_claims(key) || jump_claims(key, next)
                || text_object_claims(key) || mark_claims(key, next) {
                Some(false)
            } else {
                None
            }),
            old(self).navigation_key_done(key, next, r.1, *final(self)),
    {
        let b = self.handle_basic_movement_keys(key);
        if b.is_some() {
            return (b, false);
        }
        let p = self.handle_page_movement_keys(key);
        if p.is_some() {
            return (p, false);
        }
        let j = self.handle_jump_keys(key, next);
        if j.is_some() {
            return (j, false);
        }
        let t = self.handle_text_object_keys(key);
        if t.is_some() {
            return (t, false);
        }
        self.handle_mark_keys(key, next)
    }

    /// A key in normal mode (see `normal_key_done`): returns whether to
    /// leave the reader, which is never, and whether the marks changed and
    /// are to be saved.
    pub fn handle_normal_mode_event(&mut self, key: Key, next: Option<Key>) -> (r: (bool, bool))
        requires
            old(self).current_line() <= usize::MAX,
            key.code == KeyCode::Char('n') ==> old(self).can_centre_matches(old(self).editor_state.search_direction),
            key.code == KeyCode::Char('N') ==> old(self).can_centre_matches(!old(self).editor_state.search_direction),
            key.code == KeyCode::Char('*') ==> old(self).can_search_word(true),
            key.code == KeyCode::Char('#') ==> old(self).can_search_word(false),
            key.code == KeyCode::Char('(') ==> old(self).lines@.len() > 0,
            key.code == KeyCode::Char(')') ==> old(self).cursor_x < usize::MAX,
        ensures
            old(self).normal_key_done(key, next, r, *final(self)),
    {
        self.handle_number_prefix_clearing(key);
        let ghost m = *self;
        assert(old(self).prefix_cleared(key, m));
        if self.nav.tmux_prefix_active {
            let t = self.handle_tmux_prefix(key);
            if t.is_some() {
                return (false, false);
            }
        }
        let c = self.handle_control_keys(key);
        if c.is_some() {
            return (false, false);
        }
        let o = self.handle_operator_pending(key);
        if o.is_some() {
            return (false, false);
        }
        let s = self.handle_search_visual_keys(key, next);
        if s.is_some() {
            return (false, false);
        }
        let (n, saved) = self.handle_navigation_keys(key, next);
        if n.is_some() {
            return (false, saved);
        }
        (false, false)
    }
}

} // verus!
