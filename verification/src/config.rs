//! The reader's settings and the text of its settings file.

use vstd::prelude::*;
use crate::text::{push_str, string_of};

verus! {

/// Settings as read from or written to the settings file; `None` leaves a
/// setting as it was.
#[derive(Clone, Copy, Debug, PartialEq, Eq, Structural)]
pub struct AppConfig {
    pub enable_tutorial: Option<bool>,
    pub enable_line_highlighter: Option<bool>,
    pub show_cursor: Option<bool>,
    pub show_progress: Option<bool>,
    pub tutorial_shown: Option<bool>,
}

impl Default for AppConfig {
    /// No setting given.
    fn default() -> (r: Self)
        ensures
            r == (AppConfig {
                enable_tutorial: None,
                enable_line_highlighter: None,
                show_cursor: None,
                show_progress: None,
                tutorial_shown: None,
            }),
    {
        AppConfig {
            enable_tutorial: None,
            enable_line_highlighter: None,
            show_cursor: None,
            show_progress: None,
            tutorial_shown: None,
        }
    }
}

/// The setting given, else the one already saved, else `d`.
pub open spec fn setting(given: Option<bool>, saved: Option<bool>, d: bool) -> bool {
    match given {
        Some(b) => b,
        None => match saved {
            Some(b) => b,
            None => d,
        },
    }
}

/// `true` or `false`, as `bool`'s `Display` writes it.
pub open spec fn bool_text(b: bool) -> Seq<char> {
    if b {
        "true"@
    } else {
        "false"@
    }
}

/// The settings file holding the five settings, one `NAME=value` line each.
pub open spec fn config_text(tutorial: bool, highlighter: bool, cursor: bool, progress: bool, shown: bool) -> Seq<
    char,
> {
    "ENABLE_TUTORIAL="@ + bool_text(tutorial) + "\nENABLE_LINE_HIGHLIGHTER="@ + bool_text(
        highlighter,
    ) + "\nSHOW_CURSOR="@ + bool_text(cursor) + "\nSHOW_PROGRESS="@ + bool_text(progress)
        + "\nTUTORIAL_SHOWN="@ + bool_text(shown) + "\n"@
}

/// The settings file written when `config` is saved over `existing`: each
/// setting given, else the saved one, else its default (the tutorial, the
/// line highlighter and the cursor on; progress off; the tutorial not yet
/// shown).
pub open spec fn merged_text(config: AppConfig, existing: AppConfig) -> Seq<char> {
    config_text(
        setting(config.enable_tutorial, existing.enable_tutorial, true),
        setting(config.enable_line_highlighter, existing.enable_line_highlighter, true),
        setting(config.show_cursor, existing.show_cursor, true),
        setting(config.show_progress, existing.show_progress, false),
        setting(config.tutorial_shown, existing.tutorial_shown, false),
    )
}

/// The settings of a new settings file.
pub open spec fn default_config_text() -> Seq<char> {
    "ENABLE_TUTORIAL=true\nENABLE_LINE_HIGHLIGHTER=true\nSHOW_CURSOR=true\nSHOW_PROGRESS=false\nTUTORIAL_SHOWN=false\n"@
}

/// Appends `true` or `false`.
fn push_bool(s: &mut String, b: bool)
    ensures
        final(s)@ == old(s)@ + bool_text(b),
{
    if b {
        push_str(s, "true");
    } else {
        push_str(s, "false");
    }
}

/// The setting given, else the one saved, else `d`.
pub fn choose_setting(given: Option<bool>, saved: Option<bool>, d: bool) -> (r: bool)
    ensures
        r == setting(given, saved, d),
{
    match given {
        Some(b) => b,
        None => match saved {
            Some(b) => b,
            None => d,
        },
    }
}

/// The settings file for `config` saved over `existing` (see
/// `merged_text`).
pub fn merged_config_content(config: &AppConfig, existing: &AppConfig) -> (r: String)
    ensures
        r@ == merged_text(*config, *existing),
{
    let mut s = string_of("ENABLE_TUTORIAL=");
    push_bool(&mut s, choose_setting(config.enable_tutorial, existing.enable_tutorial, true));
    push_str(&mut s, "\nENABLE_LINE_HIGHLIGHTER=");
    push_bool(
        &mut s,
        choose_setting(config.enable_line_highlighter, existing.enable_line_highlighter, true),
    );
    push_str(&mut s, "\nSHOW_CURSOR=");
    push_bool(&mut s, choose_setting(config.show_cursor, existing.show_cursor, true));
    push_str(&mut s, "\nSHOW_PROGRESS=");
    push_bool(&mut s, choose_setting(config.show_progress, existing.show_progress, false));
    push_str(&mut s, "\nTUTORIAL_SHOWN=");
    push_bool(&mut s, choose_setting(config.tutorial_shown, existing.tutorial_shown, false));
    push_str(&mut s, "\n");
    s
}

/// The settings of a new settings file.
pub fn default_config_content() -> (r: String)
    ensures
        r@ == default_config_text(),
{
    string_of(
        "ENABLE_TUTORIAL=true\nENABLE_LINE_HIGHLIGHTER=true\nSHOW_CURSOR=true\nSHOW_PROGRESS=false\nTUTORIAL_SHOWN=false\n",
    )
}

/// A setting's value as `str::parse::<bool>` reads it: exactly `true` or
/// `false`.
pub fn parse_bool_setting(value: &str) -> (r: Option<bool>)
    ensures
        r == (if value@ == "true"@ {
            Some(true)
        } else if value@ == "false"@ {
            Some(false)
        } else {
            None
        }),
{
    if crate::text::eq_str(value, "true") {
        Some(true)
    } else if crate::text::eq_str(value, "false") {
        Some(false)
    } else {
        None
    }
}

/// Saving nothing over an empty settings file writes the default settings.
pub proof fn lemma_empty_save_writes_defaults(none: AppConfig)
    requires
        none == (AppConfig {
            enable_tutorial: None,
            enable_line_highlighter: None,
            show_cursor: None,
            show_progress: None,
            tutorial_shown: None,
        }),
    ensures
        merged_text(none, none) == default_config_text(),
{
    reveal_strlit("true");
    reveal_strlit("false");
    reveal_strlit("ENABLE_TUTORIAL=");
    reveal_strlit("\nENABLE_LINE_HIGHLIGHTER=");
    reveal_strlit("\nSHOW_CURSOR=");
    reveal_strlit("\nSHOW_PROGRESS=");
    reveal_strlit("\nTUTORIAL_SHOWN=");
    reveal_strlit("\n");
    reveal_strlit(
        "ENABLE_TUTORIAL=true\nENABLE_LINE_HIGHLIGHTER=true\nSHOW_CURSOR=true\nSHOW_PROGRESS=false\nTUTORIAL_SHOWN=false\n",
    );
    assert(merged_text(none, none) =~= default_config_text());
}

} // verus!
