//! The building blocks of the demos: short scripted scenes, each showing
//! one feature of the reader, found by their ids.

use vstd::prelude::*;
use crate::demo_script::{ComponentView, DemoAction, DemoActionView, DemoComponent, actions_view};
use crate::keys::{Key, KeyCode};
use crate::text::{eq_str, string_of};

verus! {

/// The scene `basic_navigation`: Basic j/k/h/l movements.
pub open spec fn basic_navigation_spec() -> ComponentView {
    ComponentView {
        id: "basic_navigation"@,
        name: "Basic Navigation"@,
        description: "Basic j/k/h/l movements"@,
        actions: seq![
            DemoActionView::ShowHint("navigate with vim keys\nj=down k=up h=left l=right"@, 3000),
            DemoActionView::Wait(500),
            DemoActionView::Key(KeyCode::Char('j')),
            DemoActionView::Wait(300),
            DemoActionView::Key(KeyCode::Char('j')),
            DemoActionView::Wait(300),
            DemoActionView::Key(KeyCode::Char('k')),
            DemoActionView::Wait(300),
            DemoActionView::Key(KeyCode::Char('l')),
            DemoActionView::Wait(300),
            DemoActionView::Key(KeyCode::Char('h')),
            DemoActionView::Wait(500),
        ],
    }
}

/// The scene `word_navigation`: w/b/e word movements.
pub open spec fn word_navigation_spec() -> ComponentView {
    ComponentView {
        id: "word_navigation"@,
        name: "Word Navigation"@,
        description: "w/b/e word movements"@,
        actions: seq![
            DemoActionView::ShowHint("jump between words\nw=next b=back e=end"@, 3000),
            DemoActionView::Wait(500),
            DemoActionView::Key(KeyCode::Char('w')),
            DemoActionView::Wait(300),
            DemoActionView::Key(KeyCode::Char('w')),
            DemoActionView::Wait(300),
            DemoActionView::Key(KeyCode::Char('b')),
            DemoActionView::Wait(300),
            DemoActionView::Key(KeyCode::Char('e')),
            DemoActionView::Wait(500),
        ],
    }
}

/// The scene `paragraph_navigation`: { } paragraph jumps.
pub open spec fn paragraph_navigation_spec() -> ComponentView {
    ComponentView {
        id: "paragraph_navigation"@,
        name: "Paragraph Navigation"@,
        description: "{ } paragraph jumps"@,
        actions: seq![
            DemoActionView::ShowHint("jump between paragraphs\n{ = previous } = next"@, 3000),
            DemoActionView::Wait(500),
            DemoActionView::Key(KeyCode::Char('}')),
            DemoActionView::Wait(500),
            DemoActionView::Key(KeyCode::Char('}')),
            DemoActionView::Wait(500),
            DemoActionView::Key(KeyCode::Char('{')),
            DemoActionView::Wait(500),
        ],
    }
}

/// The scene `search_navigation`: / search and n/N navigation.
pub open spec fn search_navigation_spec() -> ComponentView {
    ComponentView {
        id: "search_navigation"@,
        name: "Search Navigation"@,
        description: "/ search and n/N navigation"@,
        actions: seq![
            DemoActionView::ShowHint("search for text\n/ to search, n/N to navigate"@, 3000),
            DemoActionView::Wait(500),
            DemoActionView::Key(KeyCode::Char('/')),
            DemoActionView::Wait(250),
            DemoActionView::TypeString("reader"@, 100),
            DemoActionView::Wait(250),
            DemoActionView::Key(KeyCode::Enter),
            DemoActionView::Wait(500),
            DemoActionView::Key(KeyCode::Char('n')),
            DemoActionView::Wait(500),
            DemoActionView::Key(KeyCode::Char('N')),
            DemoActionView::Wait(500),
        ],
    }
}

/// The scene `select_word`: viw to select word.
pub open spec fn select_word_spec() -> ComponentView {
    ComponentView {
        id: "select_word"@,
        name: "Select Word"@,
        description: "viw to select word"@,
        actions: seq![
            DemoActionView::ShowHint("select entire words\nwith text objects"@, 3000),
            DemoActionView::Wait(500),
            DemoActionView::VimMotion("viw"@),
            DemoActionView::Wait(1000),
            DemoActionView::Key(KeyCode::Esc),
            DemoActionView::Wait(500),
        ],
    }
}

/// The scene `select_paragraph`: vip to select paragraph.
pub open spec fn select_paragraph_spec() -> ComponentView {
    ComponentView {
        id: "select_paragraph"@,
        name: "Select Paragraph"@,
        description: "vip to select paragraph"@,
        actions: seq![
            DemoActionView::ShowHint("select entire paragraphs\nwith a single command"@, 3500),
            DemoActionView::Wait(500),
            DemoActionView::VimMotion("vip"@),
            DemoActionView::Wait(2000),
        ],
    }
}

/// The scene `select_line`: V line selection.
pub open spec fn select_line_spec() -> ComponentView {
    ComponentView {
        id: "select_line"@,
        name: "Select Line"@,
        description: "V line selection"@,
        actions: seq![
            DemoActionView::ShowHint("select entire lines\nwith visual line mode"@, 3000),
            DemoActionView::Wait(500),
            DemoActionView::Key(KeyCode::Char('V')),
            DemoActionView::Wait(500),
            DemoActionView::Key(KeyCode::Char('j')),
            DemoActionView::Wait(500),
            DemoActionView::Key(KeyCode::Char('j')),
            DemoActionView::Wait(1000),
        ],
    }
}

/// The scene `visual_char_mode`: v + character selection.
pub open spec fn visual_char_mode_spec() -> ComponentView {
    ComponentView {
        id: "visual_char_mode"@,
        name: "Visual Character Mode"@,
        description: "v + character selection"@,
        actions: seq![
            DemoActionView::ShowHint("precise character selection\nwith visual mode"@, 3000),
            DemoActionView::Wait(500),
            DemoActionView::Key(KeyCode::Char('v')),
            DemoActionView::Wait(500),
            DemoActionView::Key(KeyCode::Char('w')),
            DemoActionView::Wait(300),
            DemoActionView::Key(KeyCode::Char('w')),
            DemoActionView::Wait(300),
            DemoActionView::Key(KeyCode::Char('e')),
            DemoActionView::Wait(1000),
        ],
    }
}

/// The scene `yank_line`: yy to yank line.
pub open spec fn yank_line_spec() -> ComponentView {
    ComponentView {
        id: "yank_line"@,
        name: "Yank Line"@,
        description: "yy to yank line"@,
        actions: seq![
            DemoActionView::ShowHint("copy entire lines\nwith yy command"@, 3000),
            DemoActionView::Wait(500),
            DemoActionView::Key(KeyCode::Char('y')),
            DemoActionView::Wait(250),
            DemoActionView::Key(KeyCode::Char('y')),
            DemoActionView::Wait(1000),
        ],
    }
}

/// The scene `yank_selection`: y to yank selection.
pub open spec fn yank_selection_spec() -> ComponentView {
    ComponentView {
        id: "yank_selection"@,
        name: "Yank Selection"@,
        description: "y to yank selection"@,
        actions: seq![
            DemoActionView::ShowHint("copy selected text\nwith y command"@, 3000),
            DemoActionView::Wait(500),
            DemoActionView::Key(KeyCode::Char('y')),
            DemoActionView::Wait(1000),
        ],
    }
}

/// The scene `highlight_selection`: :h to highlight.
pub open spec fn highlight_selection_spec() -> ComponentView {
    ComponentView {
        id: "highlight_selection"@,
        name: "Highlight Selection"@,
        description: ":h to highlight"@,
        actions: seq![
            DemoActionView::ShowHint("highlight selected text"@, 3500),
            DemoActionView::Wait(500),
            DemoActionView::Key(KeyCode::Char(':')),
            DemoActionView::Wait(250),
            DemoActionView::Key(KeyCode::Char('h')),
            DemoActionView::Wait(500),
            DemoActionView::Key(KeyCode::Enter),
            DemoActionView::Wait(1500),
        ],
    }
}

/// The scene `clear_highlights`: :ch to clear highlights.
pub open spec fn clear_highlights_spec() -> ComponentView {
    ComponentView {
        id: "clear_highlights"@,
        name: "Clear Highlights"@,
        description: ":ch to clear highlights"@,
        actions: seq![
            DemoActionView::ShowHint("clear all highlights\nwith :ch command"@, 3000),
            DemoActionView::Wait(500),
            DemoActionView::Key(KeyCode::Char(':')),
            DemoActionView::Wait(250),
            DemoActionView::Key(KeyCode::Char('c')),
            DemoActionView::Wait(250),
            DemoActionView::Key(KeyCode::Char('h')),
            DemoActionView::Wait(500),
            DemoActionView::Key(KeyCode::Enter),
            DemoActionView::Wait(1000),
        ],
    }
}

/// The scene `execute_ls`: List files with :!ls.
pub open spec fn execute_ls_spec() -> ComponentView {
    ComponentView {
        id: "execute_ls"@,
        name: "Execute ls Command"@,
        description: "List files with :!ls"@,
        actions: seq![
            DemoActionView::ShowHint("execute any command\ndirectly from your reader"@, 3500),
            DemoActionView::Wait(500),
            DemoActionView::Key(KeyCode::Char(':')),
            DemoActionView::Wait(250),
            DemoActionView::Key(KeyCode::Char('!')),
            DemoActionView::Wait(250),
            DemoActionView::Key(KeyCode::Char('l')),
            DemoActionView::Wait(250),
            DemoActionView::Key(KeyCode::Char('s')),
            DemoActionView::Wait(500),
            DemoActionView::Key(KeyCode::Enter),
            DemoActionView::Wait(1000),
        ],
    }
}

/// The scene `execute_cat`: :!cat filename.
pub open spec fn execute_cat_spec() -> ComponentView {
    ComponentView {
        id: "execute_cat"@,
        name: "Execute cat Command"@,
        description: ":!cat filename"@,
        actions: seq![
            DemoActionView::ShowHint("view file contents\nwith :!cat command"@, 3500),
            DemoActionView::Wait(500),
            DemoActionView::Key(KeyCode::Char(':')),
            DemoActionView::Wait(250),
            DemoActionView::Key(KeyCode::Char('!')),
            DemoActionView::Wait(250),
            DemoActionView::TypeString("cat README.md"@, 100),
            DemoActionView::Wait(500),
            DemoActionView::Key(KeyCode::Enter),
            DemoActionView::Wait(1500),
        ],
    }
}

/// The scene `execute_grep`: :!grep pattern file.
pub open spec fn execute_grep_spec() -> ComponentView {
    ComponentView {
        id: "execute_grep"@,
        name: "Execute grep Command"@,
        description: ":!grep pattern file"@,
        actions: seq![
            DemoActionView::ShowHint("search file contents\nwith :!grep command"@, 3500),
            DemoActionView::Wait(500),
            DemoActionView::Key(KeyCode::Char(':')),
            DemoActionView::Wait(250),
            DemoActionView::Key(KeyCode::Char('!')),
            DemoActionView::Wait(250),
            DemoActionView::TypeString("grep TODO *.md"@, 100),
            DemoActionView::Wait(500),
            DemoActionView::Key(KeyCode::Enter),
            DemoActionView::Wait(1500),
        ],
    }
}

/// The scene `yank_and_execute`: Yank then paste in command.
pub open spec fn yank_and_execute_spec() -> ComponentView {
    ComponentView {
        id: "yank_and_execute"@,
        name: "Yank and Execute"@,
        description: "Yank then paste in command"@,
        actions: seq![
            DemoActionView::ShowHint("paste yanked text\ninto commands with Ctrl+V"@, 3500),
            DemoActionView::Wait(500),
            DemoActionView::Key(KeyCode::Char(':')),
            DemoActionView::Wait(250),
            DemoActionView::Key(KeyCode::Char('!')),
            DemoActionView::Wait(250),
            DemoActionView::Key(KeyCode::Char('c')),
            DemoActionView::Wait(250),
            DemoActionView::Key(KeyCode::Char('a')),
            DemoActionView::Wait(250),
            DemoActionView::Key(KeyCode::Char('t')),
            DemoActionView::Wait(250),
            DemoActionView::Key(KeyCode::Char(' ')),
            DemoActionView::Wait(250),
            DemoActionView::KeyWithModifiers(Key { code: KeyCode::Char('v'), ctrl: true, alt: false, shift: false }),
            DemoActionView::Wait(500),
            DemoActionView::Key(KeyCode::Enter),
            DemoActionView::Wait(2000),
        ],
    }
}

/// The scene `execute_cat_with_paste`: :!cat with Ctrl+V to paste yanked text.
pub open spec fn execute_cat_with_paste_spec() -> ComponentView {
    ComponentView {
        id: "execute_cat_with_paste"@,
        name: "Execute cat with Paste"@,
        description: ":!cat with Ctrl+V to paste yanked text"@,
        actions: seq![
            DemoActionView::ShowHint("view any file's contents\nby pasting its name"@, 3500),
            DemoActionView::Wait(500),
            DemoActionView::Key(KeyCode::Char(':')),
            DemoActionView::Wait(250),
            DemoActionView::Key(KeyCode::Char('!')),
            DemoActionView::Wait(250),
            DemoActionView::TypeString("cat "@, 100),
            DemoActionView::Wait(250),
            DemoActionView::KeyWithModifiers(Key { code: KeyCode::Char('v'), ctrl: true, alt: false, shift: false }),
            DemoActionView::Wait(500),
            DemoActionView::Key(KeyCode::Enter),
            DemoActionView::Wait(2000),
        ],
    }
}

/// The scene `simple_jjj_navigation`: Just 3 j movements down.
pub open spec fn simple_jjj_navigation_spec() -> ComponentView {
    ComponentView {
        id: "simple_jjj_navigation"@,
        name: "Simple JJJ Navigation"@,
        description: "Just 3 j movements down"@,
        actions: seq![
            DemoActionView::ShowHint("navigate to the file listing\nusing j to move down"@, 3000),
            DemoActionView::Wait(500),
            DemoActionView::Key(KeyCode::Char('j')),
            DemoActionView::Wait(300),
            DemoActionView::Key(KeyCode::Char('j')),
            DemoActionView::Wait(300),
            DemoActionView::Key(KeyCode::Char('j')),
            DemoActionView::Wait(500),
        ],
    }
}

/// The scene `search_cargo`: Search for Cargo.toml with /Cargo.
pub open spec fn search_cargo_spec() -> ComponentView {
    ComponentView {
        id: "search_cargo"@,
        name: "Search for Cargo"@,
        description: "Search for Cargo.toml with /Cargo"@,
        actions: seq![
            DemoActionView::ShowHint("search for specific files\nwith the / command"@, 3000),
            DemoActionView::Wait(500),
            DemoActionView::Key(KeyCode::Char('/')),
            DemoActionView::Wait(250),
            DemoActionView::TypeString("Cargo"@, 100),
            DemoActionView::Wait(500),
            DemoActionView::Key(KeyCode::Enter),
            DemoActionView::Wait(1000),
        ],
    }
}

/// The scene `advanced_navigation`: gg/G/Ctrl-f/Ctrl-b movements.
pub open spec fn advanced_navigation_spec() -> ComponentView {
    ComponentView {
        id: "advanced_navigation"@,
        name: "Advanced Navigation"@,
        description: "gg/G/Ctrl-f/Ctrl-b movements"@,
        actions: seq![
            DemoActionView::ShowHint("advanced navigation\ngg=top G=bottom Ctrl-f/b=page"@, 3500),
            DemoActionView::Wait(500),
            DemoActionView::VimMotion("gg"@),
            DemoActionView::Wait(500),
            DemoActionView::Key(KeyCode::Char('G')),
            DemoActionView::Wait(500),
            DemoActionView::KeyWithModifiers(Key { code: KeyCode::Char('f'), ctrl: true, alt: false, shift: false }),
            DemoActionView::Wait(500),
            DemoActionView::KeyWithModifiers(Key { code: KeyCode::Char('b'), ctrl: true, alt: false, shift: false }),
            DemoActionView::Wait(500),
        ],
    }
}

/// The scene `multi_select`: Multiple visual selections demo.
pub open spec fn multi_select_spec() -> ComponentView {
    ComponentView {
        id: "multi_select"@,
        name: "Multi Select"@,
        description: "Multiple visual selections demo"@,
        actions: seq![
            DemoActionView::ShowHint("select multiple sections\nwith visual mode"@, 3000),
            DemoActionView::Wait(500),
            DemoActionView::Key(KeyCode::Char('v')),
            DemoActionView::Wait(300),
            DemoActionView::Key(KeyCode::Char('}')),
            DemoActionView::Wait(500),
            DemoActionView::Key(KeyCode::Char('}')),
            DemoActionView::Wait(500),
            DemoActionView::Key(KeyCode::Esc),
            DemoActionView::Wait(500),
        ],
    }
}

/// The scene `split_view`: Demo split view after command execution.
pub open spec fn split_view_spec() -> ComponentView {
    ComponentView {
        id: "split_view"@,
        name: "Split View"@,
        description: "Demo split view after command execution"@,
        actions: seq![
            DemoActionView::ShowHint("command output appears\nin a split view"@, 3000),
            DemoActionView::Wait(500),
            DemoActionView::Key(KeyCode::Char('j')),
            DemoActionView::Wait(300),
            DemoActionView::Key(KeyCode::Char('k')),
            DemoActionView::Wait(500),
        ],
    }
}

/// The scene `intro_message`: Opening message.
pub open spec fn intro_message_spec() -> ComponentView {
    ComponentView {
        id: "intro_message"@,
        name: "Intro Message"@,
        description: "Opening message"@,
        actions: seq![
            DemoActionView::Wait(2000),
        ],
    }
}

/// The scene `final_message`: Closing with github link.
pub open spec fn final_message_spec() -> ComponentView {
    ComponentView {
        id: "final_message"@,
        name: "Final Message"@,
        description: "Closing with github link"@,
        actions: seq![
            DemoActionView::ShowHint("hygg - simplifying the way you read\n\nTransform your terminal into a powerful document reader\n\ngithub.com/kruserr/hygg"@, 5000),
            DemoActionView::Wait(4000),
        ],
    }
}

/// The scene `final_message_short`: Short closing message.
pub open spec fn final_message_short_spec() -> ComponentView {
    ComponentView {
        id: "final_message_short"@,
        name: "Final Message Short"@,
        description: "Short closing message"@,
        actions: seq![
            DemoActionView::ShowHint("hygg - simplifying the way you read\n\ngithub.com/kruserr/hygg"@, 3000),
            DemoActionView::Wait(2000),
        ],
    }
}

/// The scenes in the order in which they are listed.
pub open spec fn all_component_specs() -> Seq<ComponentView> {
    seq![
        basic_navigation_spec(),
        word_navigation_spec(),
        paragraph_navigation_spec(),
        search_navigation_spec(),
        select_word_spec(),
        select_paragraph_spec(),
        select_line_spec(),
        visual_char_mode_spec(),
        yank_line_spec(),
        yank_selection_spec(),
        highlight_selection_spec(),
        clear_highlights_spec(),
        execute_ls_spec(),
        execute_cat_spec(),
        execute_grep_spec(),
        yank_and_execute_spec(),
        execute_cat_with_paste_spec(),
        simple_jjj_navigation_spec(),
        search_cargo_spec(),
        advanced_navigation_spec(),
        multi_select_spec(),
        split_view_spec(),
        intro_message_spec(),
        final_message_spec(),
        final_message_short_spec(),
    ]
}

/// The scene with the given id, if there is one.
pub open spec fn component_spec(id: Seq<char>) -> Option<ComponentView> {
    if id == "basic_navigation"@ {
        Some(basic_navigation_spec())
    } else if id == "word_navigation"@ {
        Some(word_navigation_spec())
    } else if id == "paragraph_navigation"@ {
        Some(paragraph_navigation_spec())
    } else if id == "search_navigation"@ {
        Some(search_navigation_spec())
    } else if id == "select_word"@ {
        Some(select_word_spec())
    } else if id == "select_paragraph"@ {
        Some(select_paragraph_spec())
    } else if id == "select_line"@ {
        Some(select_line_spec())
    } else if id == "visual_char_mode"@ {
        Some(visual_char_mode_spec())
    } else if id == "yank_line"@ {
        Some(yank_line_spec())
    } else if id == "yank_selection"@ {
        Some(yank_selection_spec())
    } else if id == "highlight_selection"@ {
        Some(highlight_selection_spec())
    } else if id == "clear_highlights"@ {
        Some(clear_highlights_spec())
    } else if id == "execute_ls"@ {
        Some(execute_ls_spec())
    } else if id == "execute_cat"@ {
        Some(execute_cat_spec())
    } else if id == "execute_grep"@ {
        Some(execute_grep_spec())
    } else if id == "yank_and_execute"@ {
        Some(yank_and_execute_spec())
    } else if id == "execute_cat_with_paste"@ {
        Some(execute_cat_with_paste_spec())
    } else if id == "simple_jjj_navigation"@ {
        Some(simple_jjj_navigation_spec())
    } else if id == "search_cargo"@ {
        Some(search_cargo_spec())
    } else if id == "advanced_navigation"@ {
        Some(advanced_navigation_spec())
    } else if id == "multi_select"@ {
        Some(multi_select_spec())
    } else if id == "split_view"@ {
        Some(split_view_spec())
    } else if id == "intro_message"@ {
        Some(intro_message_spec())
    } else if id == "final_message"@ {
        Some(final_message_spec())
    } else if id == "final_message_short"@ {
        Some(final_message_short_spec())
    } else {
        None
    }
}

fn basic_navigation_component() -> (c: DemoComponent)
    ensures
        c@ == basic_navigation_spec(),
{
    let mut actions: Vec<DemoAction> = Vec::new();
    actions.push(DemoAction::ShowHint(string_of("navigate with vim keys\nj=down k=up h=left l=right"), 3000));
    actions.push(DemoAction::Wait(500));
    actions.push(DemoAction::Key(KeyCode::Char('j')));
    actions.push(DemoAction::Wait(300));
    actions.push(DemoAction::Key(KeyCode::Char('j')));
    actions.push(DemoAction::Wait(300));
    actions.push(DemoAction::Key(KeyCode::Char('k')));
    actions.push(DemoAction::Wait(300));
    actions.push(DemoAction::Key(KeyCode::Char('l')));
    actions.push(DemoAction::Wait(300));
    actions.push(DemoAction::Key(KeyCode::Char('h')));
    actions.push(DemoAction::Wait(500));
    let c = DemoComponent {
        id: "basic_navigation",
        name: "Basic Navigation",
        description: "Basic j/k/h/l movements",
        actions,
    };
    assert(c@.actions =~= basic_navigation_spec().actions);
    c
}

fn word_navigation_component() -> (c: DemoComponent)
    ensures
        c@ == word_navigation_spec(),
{
    let mut actions: Vec<DemoAction> = Vec::new();
    actions.push(DemoAction::ShowHint(string_of("jump between words\nw=next b=back e=end"), 3000));
    actions.push(DemoAction::Wait(500));
    actions.push(DemoAction::Key(KeyCode::Char('w')));
    actions.push(DemoAction::Wait(300));
    actions.push(DemoAction::Key(KeyCode::Char('w')));
    actions.push(DemoAction::Wait(300));
    actions.push(DemoAction::Key(KeyCode::Char('b')));
    actions.push(DemoAction::Wait(300));
    actions.push(DemoAction::Key(KeyCode::Char('e')));
    actions.push(DemoAction::Wait(500));
    let c = DemoComponent {
        id: "word_navigation",
        name: "Word Navigation",
        description: "w/b/e word movements",
        actions,
    };
    assert(c@.actions =~= word_navigation_spec().actions);
    c
}

fn paragraph_navigation_component() -> (c: DemoComponent)
    ensures
        c@ == paragraph_navigation_spec(),
{
    let mut actions: Vec<DemoAction> = Vec::new();
    actions.push(DemoAction::ShowHint(string_of("jump between paragraphs\n{ = previous } = next"), 3000));
    actions.push(DemoAction::Wait(500));
    actions.push(DemoAction::Key(KeyCode::Char('}')));
    actions.push(DemoAction::Wait(500));
    actions.push(DemoAction::Key(KeyCode::Char('}')));
    actions.push(DemoAction::Wait(500));
    actions.push(DemoAction::Key(KeyCode::Char('{')));
    actions.push(DemoAction::Wait(500));
    let c = DemoComponent {
        id: "paragraph_navigation",
        name: "Paragraph Navigation",
        description: "{ } paragraph jumps",
        actions,
    };
    assert(c@.actions =~= paragraph_navigation_spec().actions);
    c
}

fn search_navigation_component() -> (c: DemoComponent)
    ensures
        c@ == search_navigation_spec(),
{
    let mut actions: Vec<DemoAction> = Vec::new();
    actions.push(DemoAction::ShowHint(string_of("search for text\n/ to search, n/N to navigate"), 3000));
    actions.push(DemoAction::Wait(500));
    actions.push(DemoAction::Key(KeyCode::Char('/')));
    actions.push(DemoAction::Wait(250));
    actions.push(DemoAction::TypeString(string_of("reader"), 100));
    actions.push(DemoAction::Wait(250));
    actions.push(DemoAction::Key(KeyCode::Enter));
    actions.push(DemoAction::Wait(500));
    actions.push(DemoAction::Key(KeyCode::Char('n')));
    actions.push(DemoAction::Wait(500));
    actions.push(DemoAction::Key(KeyCode::Char('N')));
    actions.push(DemoAction::Wait(500));
    let c = DemoComponent {
        id: "search_navigation",
        name: "Search Navigation",
        description: "/ search and n/N navigation",
        actions,
    };
    assert(c@.actions =~= search_navigation_spec().actions);
    c
}

fn select_word_component() -> (c: DemoComponent)
    ensures
        c@ == select_word_spec(),
{
    let mut actions: Vec<DemoAction> = Vec::new();
    actions.push(DemoAction::ShowHint(string_of("select entire words\nwith text objects"), 3000));
    actions.push(DemoAction::Wait(500));
    actions.push(DemoAction::VimMotion(string_of("viw")));
    actions.push(DemoAction::Wait(1000));
    actions.push(DemoAction::Key(KeyCode::Esc));
    actions.push(DemoAction::Wait(500));
    let c = DemoComponent {
        id: "select_word",
        name: "Select Word",
        description: "viw to select word",
        actions,
    };
    assert(c@.actions =~= select_word_spec().actions);
    c
}

fn select_paragraph_component() -> (c: DemoComponent)
    ensures
        c@ == select_paragraph_spec(),
{
    let mut actions: Vec<DemoAction> = Vec::new();
    actions.push(DemoAction::ShowHint(string_of("select entire paragraphs\nwith a single command"), 3500));
    actions.push(DemoAction::Wait(500));
    actions.push(DemoAction::VimMotion(string_of("vip")));
    actions.push(DemoAction::Wait(2000));
    let c = DemoComponent {
        id: "select_paragraph",
        name: "Select Paragraph",
        description: "vip to select paragraph",
        actions,
    };
    assert(c@.actions =~= select_paragraph_spec().actions);
    c
}

fn select_line_component() -> (c: DemoComponent)
    ensures
        c@ == select_line_spec(),
{
    let mut actions: Vec<DemoAction> = Vec::new();
    actions.push(DemoAction::ShowHint(string_of("select entire lines\nwith visual line mode"), 3000));
    actions.push(DemoAction::Wait(500));
    actions.push(DemoAction::Key(KeyCode::Char('V')));
    actions.push(DemoAction::Wait(500));
    actions.push(DemoAction::Key(KeyCode::Char('j')));
    actions.push(DemoAction::Wait(500));
    actions.push(DemoAction::Key(KeyCode::Char('j')));
    actions.push(DemoAction::Wait(1000));
    let c = DemoComponent {
        id: "select_line",
        name: "Select Line",
        description: "V line selection",
        actions,
    };
    assert(c@.actions =~= select_line_spec().actions);
    c
}

fn visual_char_mode_component() -> (c: DemoComponent)
    ensures
        c@ == visual_char_mode_spec(),
{
    let mut actions: Vec<DemoAction> = Vec::new();
    actions.push(DemoAction::ShowHint(string_of("precise character selection\nwith visual mode"), 3000));
    actions.push(DemoAction::Wait(500));
    actions.push(DemoAction::Key(KeyCode::Char('v')));
    actions.push(DemoAction::Wait(500));
    actions.push(DemoAction::Key(KeyCode::Char('w')));
    actions.push(DemoAction::Wait(300));
    actions.push(DemoAction::Key(KeyCode::Char('w')));
    actions.push(DemoAction::Wait(300));
    actions.push(DemoAction::Key(KeyCode::Char('e')));
    actions.push(DemoAction::Wait(1000));
    let c = DemoComponent {
        id: "visual_char_mode",
        name: "Visual Character Mode",
        description: "v + character selection",
        actions,
    };
    assert(c@.actions =~= visual_char_mode_spec().actions);
    c
}

fn yank_line_component() -> (c: DemoComponent)
    ensures
        c@ == yank_line_spec(),
{
    let mut actions: Vec<DemoAction> = Vec::new();
    actions.push(DemoAction::ShowHint(string_of("copy entire lines\nwith yy command"), 3000));
    actions.push(DemoAction::Wait(500));
    actions.push(DemoAction::Key(KeyCode::Char('y')));
    actions.push(DemoAction::Wait(250));
    actions.push(DemoAction::Key(KeyCode::Char('y')));
    actions.push(DemoAction::Wait(1000));
    let c = DemoComponent {
        id: "yank_line",
        name: "Yank Line",
        description: "yy to yank line",
        actions,
    };
    assert(c@.actions =~= yank_line_spec().actions);
    c
}

fn yank_selection_component() -> (c: DemoComponent)
    ensures
        c@ == yank_selection_spec(),
{
    let mut actions: Vec<DemoAction> = Vec::new();
    actions.push(DemoAction::ShowHint(string_of("copy selected text\nwith y command"), 3000));
    actions.push(DemoAction::Wait(500));
    actions.push(DemoAction::Key(KeyCode::Char('y')));
    actions.push(DemoAction::Wait(1000));
    let c = DemoComponent {
        id: "yank_selection",
        name: "Yank Selection",
        description: "y to yank selection",
        actions,
    };
    assert(c@.actions =~= yank_selection_spec().actions);
    c
}

fn highlight_selection_component() -> (c: DemoComponent)
    ensures
        c@ == highlight_selection_spec(),
{
    let mut actions: Vec<DemoAction> = Vec::new();
    actions.push(DemoAction::ShowHint(string_of("highlight selected text"), 3500));
    actions.push(DemoAction::Wait(500));
    actions.push(DemoAction::Key(KeyCode::Char(':')));
    actions.push(DemoAction::Wait(250));
    actions.push(DemoAction::Key(KeyCode::Char('h')));
    actions.push(DemoAction::Wait(500));
    actions.push(DemoAction::Key(KeyCode::Enter));
    actions.push(DemoAction::Wait(1500));
    let c = DemoComponent {
        id: "highlight_selection",
        name: "Highlight Selection",
        description: ":h to highlight",
        actions,
    };
    assert(c@.actions =~= highlight_selection_spec().actions);
    c
}

fn clear_highlights_component() -> (c: DemoComponent)
    ensures
        c@ == clear_highlights_spec(),
{
    let mut actions: Vec<DemoAction> = Vec::new();
    actions.push(DemoAction::ShowHint(string_of("clear all highlights\nwith :ch command"), 3000));
    actions.push(DemoAction::Wait(500));
    actions.push(DemoAction::Key(KeyCode::Char(':')));
    actions.push(DemoAction::Wait(250));
    actions.push(DemoAction::Key(KeyCode::Char('c')));
    actions.push(DemoAction::Wait(250));
    actions.push(DemoAction::Key(KeyCode::Char('h')));
    actions.push(DemoAction::Wait(500));
    actions.push(DemoAction::Key(KeyCode::Enter));
    actions.push(DemoAction::Wait(1000));
    let c = DemoComponent {
        id: "clear_highlights",
        name: "Clear Highlights",
        description: ":ch to clear highlights",
        actions,
    };
    assert(c@.actions =~= clear_highlights_spec().actions);
    c
}

fn execute_ls_component() -> (c: DemoComponent)
    ensures
        c@ == execute_ls_spec(),
{
    let mut actions: Vec<DemoAction> = Vec::new();
    actions.push(DemoAction::ShowHint(string_of("execute any command\ndirectly from your reader"), 3500));
    actions.push(DemoAction::Wait(500));
    actions.push(DemoAction::Key(KeyCode::Char(':')));
    actions.push(DemoAction::Wait(250));
    actions.push(DemoAction::Key(KeyCode::Char('!')));
    actions.push(DemoAction::Wait(250));
    actions.push(DemoAction::Key(KeyCode::Char('l')));
    actions.push(DemoAction::Wait(250));
    actions.push(DemoAction::Key(KeyCode::Char('s')));
    actions.push(DemoAction::Wait(500));
    actions.push(DemoAction::Key(KeyCode::Enter));
    actions.push(DemoAction::Wait(1000));
    let c = DemoComponent {
        id: "execute_ls",
        name: "Execute ls Command",
        description: "List files with :!ls",
        actions,
    };
    assert(c@.actions =~= execute_ls_spec().actions);
    c
}

fn execute_cat_component() -> (c: DemoComponent)
    ensures
        c@ == execute_cat_spec(),
{
    let mut actions: Vec<DemoAction> = Vec::new();
    actions.push(DemoAction::ShowHint(string_of("view file contents\nwith :!cat command"), 3500));
    actions.push(DemoAction::Wait(500));
    actions.push(DemoAction::Key(KeyCode::Char(':')));
    actions.push(DemoAction::Wait(250));
    actions.push(DemoAction::Key(KeyCode::Char('!')));
    actions.push(DemoAction::Wait(250));
    actions.push(DemoAction::TypeString(string_of("cat README.md"), 100));
    actions.push(DemoAction::Wait(500));
    actions.push(DemoAction::Key(KeyCode::Enter));
    actions.push(DemoAction::Wait(1500));
    let c = DemoComponent {
        id: "execute_cat",
        name: "Execute cat Command",
        description: ":!cat filename",
        actions,
    };
    assert(c@.actions =~= execute_cat_spec().actions);
    c
}

fn execute_grep_component() -> (c: DemoComponent)
    ensures
        c@ == execute_grep_spec(),
{
    let mut actions: Vec<DemoAction> = Vec::new();
    actions.push(DemoAction::ShowHint(string_of("search file contents\nwith :!grep command"), 3500));
    actions.push(DemoAction::Wait(500));
    actions.push(DemoAction::Key(KeyCode::Char(':')));
    actions.push(DemoAction::Wait(250));
    actions.push(DemoAction::Key(KeyCode::Char('!')));
    actions.push(DemoAction::Wait(250));
    actions.push(DemoAction::TypeString(string_of("grep TODO *.md"), 100));
    actions.push(DemoAction::Wait(500));
    actions.push(DemoAction::Key(KeyCode::Enter));
    actions.push(DemoAction::Wait(1500));
    let c = DemoComponent {
        id: "execute_grep",
        name: "Execute grep Command",
        description: ":!grep pattern file",
        actions,
    };
    assert(c@.actions =~= execute_grep_spec().actions);
    c
}

fn yank_and_execute_component() -> (c: DemoComponent)
    ensures
        c@ == yank_and_execute_spec(),
{
    let mut actions: Vec<DemoAction> = Vec::new();
    actions.push(DemoAction::ShowHint(string_of("paste yanked text\ninto commands with Ctrl+V"), 3500));
    actions.push(DemoAction::Wait(500));
    actions.push(DemoAction::Key(KeyCode::Char(':')));
    actions.push(DemoAction::Wait(250));
    actions.push(DemoAction::Key(KeyCode::Char('!')));
    actions.push(DemoAction::Wait(250));
    actions.push(DemoAction::Key(KeyCode::Char('c')));
    actions.push(DemoAction::Wait(250));
    actions.push(DemoAction::Key(KeyCode::Char('a')));
    actions.push(DemoAction::Wait(250));
    actions.push(DemoAction::Key(KeyCode::Char('t')));
    actions.push(DemoAction::Wait(250));
    actions.push(DemoAction::Key(KeyCode::Char(' ')));
    actions.push(DemoAction::Wait(250));
    actions.push(DemoAction::KeyWithModifiers(Key::with_ctrl(KeyCode::Char('v'))));
    actions.push(DemoAction::Wait(500));
    actions.push(DemoAction::Key(KeyCode::Enter));
    actions.push(DemoAction::Wait(2000));
    let c = DemoComponent {
        id: "yank_and_execute",
        name: "Yank and Execute",
        description: "Yank then paste in command",
        actions,
    };
    assert(c@.actions =~= yank_and_execute_spec().actions);
    c
}

fn execute_cat_with_paste_component() -> (c: DemoComponent)
    ensures
        c@ == execute_cat_with_paste_spec(),
{
    let mut actions: Vec<DemoAction> = Vec::new();
    actions.push(DemoAction::ShowHint(string_of("view any file's contents\nby pasting its name"), 3500));
    actions.push(DemoAction::Wait(500));
    actions.push(DemoAction::Key(KeyCode::Char(':')));
    actions.push(DemoAction::Wait(250));
    actions.push(DemoAction::Key(KeyCode::Char('!')));
    actions.push(DemoAction::Wait(250));
    actions.push(DemoAction::TypeString(string_of("cat "), 100));
    actions.push(DemoAction::Wait(250));
    actions.push(DemoAction::KeyWithModifiers(Key::with_ctrl(KeyCode::Char('v'))));
    actions.push(DemoAction::Wait(500));
    actions.push(DemoAction::Key(KeyCode::Enter));
    actions.push(DemoAction::Wait(2000));
    let c = DemoComponent {
        id: "execute_cat_with_paste",
        name: "Execute cat with Paste",
        description: ":!cat with Ctrl+V to paste yanked text",
        actions,
    };
    assert(c@.actions =~= execute_cat_with_paste_spec().actions);
    c
}

fn simple_jjj_navigation_component() -> (c: DemoComponent)
    ensures
        c@ == simple_jjj_navigation_spec(),
{
    let mut actions: Vec<DemoAction> = Vec::new();
    actions.push(DemoAction::ShowHint(string_of("navigate to the file listing\nusing j to move down"), 3000));
    actions.push(DemoAction::Wait(500));
    actions.push(DemoAction::Key(KeyCode::Char('j')));
    actions.push(DemoAction::Wait(300));
    actions.push(DemoAction::Key(KeyCode::Char('j')));
    actions.push(DemoAction::Wait(300));
    actions.push(DemoAction::Key(KeyCode::Char('j')));
    actions.push(DemoAction::Wait(500));
    let c = DemoComponent {
        id: "simple_jjj_navigation",
        name: "Simple JJJ Navigation",
        description: "Just 3 j movements down",
        actions,
    };
    assert(c@.actions =~= simple_jjj_navigation_spec().actions);
    c
}

fn search_cargo_component() -> (c: DemoComponent)
    ensures
        c@ == search_cargo_spec(),
{
    let mut actions: Vec<DemoAction> = Vec::new();
    actions.push(DemoAction::ShowHint(string_of("search for specific files\nwith the / command"), 3000));
    actions.push(DemoAction::Wait(500));
    actions.push(DemoAction::Key(KeyCode::Char('/')));
    actions.push(DemoAction::Wait(250));
    actions.push(DemoAction::TypeString(string_of("Cargo"), 100));
    actions.push(DemoAction::Wait(500));
    actions.push(DemoAction::Key(KeyCode::Enter));
    actions.push(DemoAction::Wait(1000));
    let c = DemoComponent {
        id: "search_cargo",
        name: "Search for Cargo",
        description: "Search for Cargo.toml with /Cargo",
        actions,
    };
    assert(c@.actions =~= search_cargo_spec().actions);
    c
}

fn advanced_navigation_component() -> (c: DemoComponent)
    ensures
        c@ == advanced_navigation_spec(),
{
    let mut actions: Vec<DemoAction> = Vec::new();
    actions.push(DemoAction::ShowHint(string_of("advanced navigation\ngg=top G=bottom Ctrl-f/b=page"), 3500));
    actions.push(DemoAction::Wait(500));
    actions.push(DemoAction::VimMotion(string_of("gg")));
    actions.push(DemoAction::Wait(500));
    actions.push(DemoAction::Key(KeyCode::Char('G')));
    actions.push(DemoAction::Wait(500));
    actions.push(DemoAction::KeyWithModifiers(Key::with_ctrl(KeyCode::Char('f'))));
    actions.push(DemoAction::Wait(500));
    actions.push(DemoAction::KeyWithModifiers(Key::with_ctrl(KeyCode::Char('b'))));
    actions.push(DemoAction::Wait(500));
    let c = DemoComponent {
        id: "advanced_navigation",
        name: "Advanced Navigation",
        description: "gg/G/Ctrl-f/Ctrl-b movements",
        actions,
    };
    assert(c@.actions =~= advanced_navigation_spec().actions);
    c
}

fn multi_select_component() -> (c: DemoComponent)
    ensures
        c@ == multi_select_spec(),
{
    let mut actions: Vec<DemoAction> = Vec::new();
    actions.push(DemoAction::ShowHint(string_of("select multiple sections\nwith visual mode"), 3000));
    actions.push(DemoAction::Wait(500));
    actions.push(DemoAction::Key(KeyCode::Char('v')));
    actions.push(DemoAction::Wait(300));
    actions.push(DemoAction::Key(KeyCode::Char('}')));
    actions.push(DemoAction::Wait(500));
    actions.push(DemoAction::Key(KeyCode::Char('}')));
    actions.push(DemoAction::Wait(500));
    actions.push(DemoAction::Key(KeyCode::Esc));
    actions.push(DemoAction::Wait(500));
    let c = DemoComponent {
        id: "multi_select",
        name: "Multi Select",
        description: "Multiple visual selections demo",
        actions,
    };
    assert(c@.actions =~= multi_select_spec().actions);
    c
}

fn split_view_component() -> (c: DemoComponent)
    ensures
        c@ == split_view_spec(),
{
    let mut actions: Vec<DemoAction> = Vec::new();
    actions.push(DemoAction::ShowHint(string_of("command output appears\nin a split view"), 3000));
    actions.push(DemoAction::Wait(500));
    actions.push(DemoAction::Key(KeyCode::Char('j')));
    actions.push(DemoAction::Wait(300));
    actions.push(DemoAction::Key(KeyCode::Char('k')));
    actions.push(DemoAction::Wait(500));
    let c = DemoComponent {
        id: "split_view",
        name: "Split View",
        description: "Demo split view after command execution",
        actions,
    };
    assert(c@.actions =~= split_view_spec().actions);
    c
}

fn intro_message_component() -> (c: DemoComponent)
    ensures
        c@ == intro_message_spec(),
{
    let mut actions: Vec<DemoAction> = Vec::new();
    actions.push(DemoAction::Wait(2000));
    let c = DemoComponent {
        id: "intro_message",
        name: "Intro Message",
        description: "Opening message",
        actions,
    };
    assert(c@.actions =~= intro_message_spec().actions);
    c
}

fn final_message_component() -> (c: DemoComponent)
    ensures
        c@ == final_message_spec(),
{
    let mut actions: Vec<DemoAction> = Vec::new();
    actions.push(DemoAction::ShowHint(string_of("hygg - simplifying the way you read\n\nTransform your terminal into a powerful document reader\n\ngithub.com/kruserr/hygg"), 5000));
    actions.push(DemoAction::Wait(4000));
    let c = DemoComponent {
        id: "final_message",
        name: "Final Message",
        description: "Closing with github link",
        actions,
    };
    assert(c@.actions =~= final_message_spec().actions);
    c
}

fn final_message_short_component() -> (c: DemoComponent)
    ensures
        c@ == final_message_short_spec(),
{
    let mut actions: Vec<DemoAction> = Vec::new();
    actions.push(DemoAction::ShowHint(string_of("hygg - simplifying the way you read\n\ngithub.com/kruserr/hygg"), 3000));
    actions.push(DemoAction::Wait(2000));
    let c = DemoComponent {
        id: "final_message_short",
        name: "Final Message Short",
        description: "Short closing message",
        actions,
    };
    assert(c@.actions =~= final_message_short_spec().actions);
    c
}

/// The scene with the given id, or `None` when no scene has it.
pub fn get_component(id: &str) -> (r: Option<DemoComponent>)
    ensures
        match r {
            Some(c) => component_spec(id@) == Some(c@),
            None => component_spec(id@) is None,
        },
{
    if eq_str(id, "basic_navigation") {
        Some(basic_navigation_component())
    } else if eq_str(id, "word_navigation") {
        Some(word_navigation_component())
    } else if eq_str(id, "paragraph_navigation") {
        Some(paragraph_navigation_component())
    } else if eq_str(id, "search_navigation") {
        Some(search_navigation_component())
    } else if eq_str(id, "select_word") {
        Some(select_word_component())
    } else if eq_str(id, "select_paragraph") {
        Some(select_paragraph_component())
    } else if eq_str(id, "select_line") {
        Some(select_line_component())
    } else if eq_str(id, "visual_char_mode") {
        Some(visual_char_mode_component())
    } else if eq_str(id, "yank_line") {
        Some(yank_line_component())
    } else if eq_str(id, "yank_selection") {
        Some(yank_selection_component())
    } else if eq_str(id, "highlight_selection") {
        Some(highlight_selection_component())
    } else if eq_str(id, "clear_highlights") {
        Some(clear_highlights_component())
    } else if eq_str(id, "execute_ls") {
        Some(execute_ls_component())
    } else if eq_str(id, "execute_cat") {
        Some(execute_cat_component())
    } else if eq_str(id, "execute_grep") {
        Some(execute_grep_component())
    } else if eq_str(id, "yank_and_execute") {
        Some(yank_and_execute_component())
    } else if eq_str(id, "execute_cat_with_paste") {
        Some(execute_cat_with_paste_component())
    } else if eq_str(id, "simple_jjj_navigation") {
        Some(simple_jjj_navigation_component())
    } else if eq_str(id, "search_cargo") {
        Some(search_cargo_component())
    } else if eq_str(id, "advanced_navigation") {
        Some(advanced_navigation_component())
    } else if eq_str(id, "multi_select") {
        Some(multi_select_component())
    } else if eq_str(id, "split_view") {
        Some(split_view_component())
    } else if eq_str(id, "intro_message") {
        Some(intro_message_component())
    } else if eq_str(id, "final_message") {
        Some(final_message_component())
    } else if eq_str(id, "final_message_short") {
        Some(final_message_short_component())
    } else {
        None
    }
}

/// Every scene, in the order of `all_component_specs`.
pub fn list_all_components() -> (r: Vec<DemoComponent>)
    ensures
        r@.map_values(|c: DemoComponent| c@) == all_component_specs(),
{
    let mut r: Vec<DemoComponent> = Vec::new();
    r.push(basic_navigation_component());
    r.push(word_navigation_component());
    r.push(paragraph_navigation_component());
    r.push(search_navigation_component());
    r.push(select_word_component());
    r.push(select_paragraph_component());
    r.push(select_line_component());
    r.push(visual_char_mode_component());
    r.push(yank_line_component());
    r.push(yank_selection_component());
    r.push(highlight_selection_component());
    r.push(clear_highlights_component());
    r.push(execute_ls_component());
    r.push(execute_cat_component());
    r.push(execute_grep_component());
    r.push(yank_and_execute_component());
    r.push(execute_cat_with_paste_component());
    r.push(simple_jjj_navigation_component());
    r.push(search_cargo_component());
    r.push(advanced_navigation_component());
    r.push(multi_select_component());
    r.push(split_view_component());
    r.push(intro_message_component());
    r.push(final_message_component());
    r.push(final_message_short_component());
    assert(r@.map_values(|c: DemoComponent| c@) =~= all_component_specs());
    r
}

/// Each listed scene is found by its id: no two scenes share an id.
pub proof fn lemma_listed_components_found(i: int)
    requires
        0 <= i < all_component_specs().len(),
    ensures
        component_spec(all_component_specs()[i].id) == Some(all_component_specs()[i]),
{
    reveal_strlit("basic_navigation");
    reveal_strlit("word_navigation");
    reveal_strlit("paragraph_navigation");
    reveal_strlit("search_navigation");
    reveal_strlit("select_word");
    reveal_strlit("select_paragraph");
    reveal_strlit("select_line");
    reveal_strlit("visual_char_mode");
    reveal_strlit("yank_line");
    reveal_strlit("yank_selection");
    reveal_strlit("highlight_selection");
    reveal_strlit("clear_highlights");
    reveal_strlit("execute_ls");
    reveal_strlit("execute_cat");
    reveal_strlit("execute_grep");
    reveal_strlit("yank_and_execute");
    reveal_strlit("execute_cat_with_paste");
    reveal_strlit("simple_jjj_navigation");
    reveal_strlit("search_cargo");
    reveal_strlit("advanced_navigation");
    reveal_strlit("multi_select");
    reveal_strlit("split_view");
    reveal_strlit("intro_message");
    reveal_strlit("final_message");
    reveal_strlit("final_message_short");
    if i == 0 {
    } else if i == 1 {
        assert("word_navigation"@.len() != "basic_navigation"@.len());
    } else if i == 2 {
        assert("paragraph_navigation"@.len() != "basic_navigation"@.len());
        assert("paragraph_navigation"@.len() != "word_navigation"@.len());
    } else if i == 3 {
        assert("search_navigation"@.len() != "basic_navigation"@.len());
        assert("search_navigation"@.len() != "word_navigation"@.len());
        assert("search_navigation"@.len() != "paragraph_navigation"@.len());
    } else if i == 4 {
        assert("select_word"@.len() != "basic_navigation"@.len());
        assert("select_word"@.len() != "word_navigation"@.len());
        assert("select_word"@.len() != "paragraph_navigation"@.len());
        assert("select_word"@.len() != "search_navigation"@.len());
    } else if i == 5 {
        assert("select_paragraph"@[0] != "basic_navigation"@[0]);
        assert("select_paragraph"@.len() != "word_navigation"@.len());
        assert("select_paragraph"@.len() != "paragraph_navigation"@.len());
        assert("select_paragraph"@.len() != "search_navigation"@.len());
        assert("select_paragraph"@.len() != "select_word"@.len());
    } else if i == 6 {
        assert("select_line"@.len() != "basic_navigation"@.len());
        assert("select_line"@.len() != "word_navigation"@.len());
        assert("select_line"@.len() != "paragraph_navigation"@.len());
        assert("select_line"@.len() != "search_navigation"@.len());
        assert("select_line"@[7] != "select_word"@[7]);
        assert("select_line"@.len() != "select_paragraph"@.len());
    } else if i == 7 {
        assert("visual_char_mode"@[0] != "basic_navigation"@[0]);
        assert("visual_char_mode"@.len() != "word_navigation"@.len());
        assert("visual_char_mode"@.len() != "paragraph_navigation"@.len());
        assert("visual_char_mode"@.len() != "search_navigation"@.len());
        assert("visual_char_mode"@.len() != "select_word"@.len());
        assert("visual_char_mode"@[0] != "select_paragraph"@[0]);
        assert("visual_char_mode"@.len() != "select_line"@.len());
    } else if i == 8 {
        assert("yank_line"@.len() != "basic_navigation"@.len());
        assert("yank_line"@.len() != "word_navigation"@.len());
        assert("yank_line"@.len() != "paragraph_navigation"@.len());
        assert("yank_line"@.len() != "search_navigation"@.len());
        assert("yank_line"@.len() != "select_word"@.len());
        assert("yank_line"@.len() != "select_paragraph"@.len());
        assert("yank_line"@.len() != "select_line"@.len());
        assert("yank_line"@.len() != "visual_char_mode"@.len());
    } else if i == 9 {
        assert("yank_selection"@.len() != "basic_navigation"@.len());
        assert("yank_selection"@.len() != "word_navigation"@.len());
        assert("yank_selection"@.len() != "paragraph_navigation"@.len());
        assert("yank_selection"@.len() != "search_navigation"@.len());
        assert("yank_selection"@.len() != "select_word"@.len());
        assert("yank_selection"@.len() != "select_paragraph"@.len());
        assert("yank_selection"@.len() != "select_line"@.len());
        assert("yank_selection"@.len() != "visual_char_mode"@.len());
        assert("yank_selection"@.len() != "yank_line"@.len());
    } else if i == 10 {
        assert("highlight_selection"@.len() != "basic_navigation"@.len());
        assert("highlight_selection"@.len() != "word_navigation"@.len());
        assert("highlight_selection"@.len() != "paragraph_navigation"@.len());
        assert("highlight_selection"@.len() != "search_navigation"@.len());
        assert("highlight_selection"@.len() != "select_word"@.len());
        assert("highlight_selection"@.len() != "select_paragraph"@.len());
        assert("highlight_selection"@.len() != "select_line"@.len());
        assert("highlight_selection"@.len() != "visual_char_mode"@.len());
        assert("highlight_selection"@.len() != "yank_line"@.len());
        assert("highlight_selection"@.len() != "yank_selection"@.len());
    } else if i == 11 {
        assert("clear_highlights"@[0] != "basic_navigation"@[0]);
        assert("clear_highlights"@.len() != "word_navigation"@.len());
        assert("clear_highlights"@.len() != "paragraph_navigation"@.len());
        assert("clear_highlights"@.len() != "search_navigation"@.len());
        assert("clear_highlights"@.len() != "select_word"@.len());
        assert("clear_highlights"@[0] != "select_paragraph"@[0]);
        assert("clear_highlights"@.len() != "select_line"@.len());
        assert("clear_highlights"@[0] != "visual_char_mode"@[0]);
        assert("clear_highlights"@.len() != "yank_line"@.len());
        assert("clear_highlights"@.len() != "yank_selection"@.len());
        assert("clear_highlights"@.len() != "highlight_selection"@.len());
    } else if i == 12 {
        assert("execute_ls"@.len() != "basic_navigation"@.len());
        assert("execute_ls"@.len() != "word_navigation"@.len());
        assert("execute_ls"@.len() != "paragraph_navigation"@.len());
        assert("execute_ls"@.len() != "search_navigation"@.len());
        assert("execute_ls"@.len() != "select_word"@.len());
        assert("execute_ls"@.len() != "select_paragraph"@.len());
        assert("execute_ls"@.len() != "select_line"@.len());
        assert("execute_ls"@.len() != "visual_char_mode"@.len());
        assert("execute_ls"@.len() != "yank_line"@.len());
        assert("execute_ls"@.len() != "yank_selection"@.len());
        assert("execute_ls"@.len() != "highlight_selection"@.len());
        assert("execute_ls"@.len() != "clear_highlights"@.len());
    } else if i == 13 {
        assert("execute_cat"@.len() != "basic_navigation"@.len());
        assert("execute_cat"@.len() != "word_navigation"@.len());
        assert("execute_cat"@.len() != "paragraph_navigation"@.len());
        assert("execute_cat"@.len() != "search_navigation"@.len());
        assert("execute_cat"@[0] != "select_word"@[0]);
        assert("execute_cat"@.len() != "select_paragraph"@.len());
        assert("execute_cat"@[0] != "select_line"@[0]);
        assert("execute_cat"@.len() != "visual_char_mode"@.len());
        assert("execute_cat"@.len() != "yank_line"@.len());
        assert("execute_cat"@.len() != "yank_selection"@.len());
        assert("execute_cat"@.len() != "highlight_selection"@.len());
        assert("execute_cat"@.len() != "clear_highlights"@.len());
        assert("execute_cat"@.len() != "execute_ls"@.len());
    } else if i == 14 {
        assert("execute_grep"@.len() != "basic_navigation"@.len());
        assert("execute_grep"@.len() != "word_navigation"@.len());
        assert("execute_grep"@.len() != "paragraph_navigation"@.len());
        assert("execute_grep"@.len() != "search_navigation"@.len());
        assert("execute_grep"@.len() != "select_word"@.len());
        assert("execute_grep"@.len() != "select_paragraph"@.len());
        assert("execute_grep"@.len() != "select_line"@.len());
        assert("execute_grep"@.len() != "visual_char_mode"@.len());
        assert("execute_grep"@.len() != "yank_line"@.len());
        assert("execute_grep"@.len() != "yank_selection"@.len());
        assert("execute_grep"@.len() != "highlight_selection"@.len());
        assert("execute_grep"@.len() != "clear_highlights"@.len());
        assert("execute_grep"@.len() != "execute_ls"@.len());
        assert("execute_grep"@.len() != "execute_cat"@.len());
    } else if i == 15 {
        assert("yank_and_execute"@[0] != "basic_navigation"@[0]);
        assert("yank_and_execute"@.len() != "word_navigation"@.len());
        assert("yank_and_execute"@.len() != "paragraph_navigation"@.len());
        assert("yank_and_execute"@.len() != "search_navigation"@.len());
        assert("yank_and_execute"@.len() != "select_word"@.len());
        assert("yank_and_execute"@[0] != "select_paragraph"@[0]);
        assert("yank_and_execute"@.len() != "select_line"@.len());
        assert("yank_and_execute"@[0] != "visual_char_mode"@[0]);
        assert("yank_and_execute"@.len() != "yank_line"@.len());
        assert("yank_and_execute"@.len() != "yank_selection"@.len());
        assert("yank_and_execute"@.len() != "highlight_selection"@.len());
        assert("yank_and_execute"@[0] != "clear_highlights"@[0]);
        assert("yank_and_execute"@.len() != "execute_ls"@.len());
        assert("yank_and_execute"@.len() != "execute_cat"@.len());
        assert("yank_and_execute"@.len() != "execute_grep"@.len());
    } else if i == 16 {
        assert("execute_cat_with_paste"@.len() != "basic_navigation"@.len());
        assert("execute_cat_with_paste"@.len() != "word_navigation"@.len());
        assert("execute_cat_with_paste"@.len() != "paragraph_navigation"@.len());
        assert("execute_cat_with_paste"@.len() != "search_navigation"@.len());
        assert("execute_cat_with_paste"@.len() != "select_word"@.len());
        assert("execute_cat_with_paste"@.len() != "select_paragraph"@.len());
        assert("execute_cat_with_paste"@.len() != "select_line"@.len());
        assert("execute_cat_with_paste"@.len() != "visual_char_mode"@.len());
        assert("execute_cat_with_paste"@.len() != "yank_line"@.len());
        assert("execute_cat_with_paste"@.len() != "yank_selection"@.len());
        assert("execute_cat_with_paste"@.len() != "highlight_selection"@.len());
        assert("execute_cat_with_paste"@.len() != "clear_highlights"@.len());
        assert("execute_cat_with_paste"@.len() != "execute_ls"@.len());
        assert("execute_cat_with_paste"@.len() != "execute_cat"@.len());
        assert("execute_cat_with_paste"@.len() != "execute_grep"@.len());
        assert("execute_cat_with_paste"@.len() != "yank_and_execute"@.len());
    } else if i == 17 {
        assert("simple_jjj_navigation"@.len() != "basic_navigation"@.len());
        assert("simple_jjj_navigation"@.len() != "word_navigation"@.len());
        assert("simple_jjj_navigation"@.len() != "paragraph_navigation"@.len());
        assert("simple_jjj_navigation"@.len() != "search_navigation"@.len());
        assert("simple_jjj_navigation"@.len() != "select_word"@.len());
        assert("simple_jjj_navigation"@.len() != "select_paragraph"@.len());
        assert("simple_jjj_navigation"@.len() != "select_line"@.len());
        assert("simple_jjj_navigation"@.len() != "visual_char_mode"@.len());
        assert("simple_jjj_navigation"@.len() != "yank_line"@.len());
        assert("simple_jjj_navigation"@.len() != "yank_selection"@.len());
        assert("simple_jjj_navigation"@.len() != "highlight_selection"@.len());
        assert("simple_jjj_navigation"@.len() != "clear_highlights"@.len());
        assert("simple_jjj_navigation"@.len() != "execute_ls"@.len());
        assert("simple_jjj_navigation"@.len() != "execute_cat"@.len());
        assert("simple_jjj_navigation"@.len() != "execute_grep"@.len());
        assert("simple_jjj_navigation"@.len() != "yank_and_execute"@.len());
        assert("simple_jjj_navigation"@.len() != "execute_cat_with_paste"@.len());
    } else if i == 18 {
        assert("search_cargo"@.len() != "basic_navigation"@.len());
        assert("search_cargo"@.len() != "word_navigation"@.len());
        assert("search_cargo"@.len() != "paragraph_navigation"@.len());
        assert("search_cargo"@.len() != "search_navigation"@.len());
        assert("search_cargo"@.len() != "select_word"@.len());
        assert("search_cargo"@.len() != "select_paragraph"@.len());
        assert("search_cargo"@.len() != "select_line"@.len());
        assert("search_cargo"@.len() != "visual_char_mode"@.len());
        assert("search_cargo"@.len() != "yank_line"@.len());
        assert("search_cargo"@.len() != "yank_selection"@.len());
        assert("search_cargo"@.len() != "highlight_selection"@.len());
        assert("search_cargo"@.len() != "clear_highlights"@.len());
        assert("search_cargo"@.len() != "execute_ls"@.len());
        assert("search_cargo"@.len() != "execute_cat"@.len());
        assert("search_cargo"@[0] != "execute_grep"@[0]);
        assert("search_cargo"@.len() != "yank_and_execute"@.len());
        assert("search_cargo"@.len() != "execute_cat_with_paste"@.len());
        assert("search_cargo"@.len() != "simple_jjj_navigation"@.len());
    } else if i == 19 {
        assert("advanced_navigation"@.len() != "basic_navigation"@.len());
        assert("advanced_navigation"@.len() != "word_navigation"@.len());
        assert("advanced_navigation"@.len() != "paragraph_navigation"@.len());
        assert("advanced_navigation"@.len() != "search_navigation"@.len());
        assert("advanced_navigation"@.len() != "select_word"@.len());
        assert("advanced_navigation"@.len() != "select_paragraph"@.len());
        assert("advanced_navigation"@.len() != "select_line"@.len());
        assert("advanced_navigation"@.len() != "visual_char_mode"@.len());
        assert("advanced_navigation"@.len() != "yank_line"@.len());
        assert("advanced_navigation"@.len() != "yank_selection"@.len());
        assert("advanced_navigation"@[0] != "highlight_selection"@[0]);
        assert("advanced_navigation"@.len() != "clear_highlights"@.len());
        assert("advanced_navigation"@.len() != "execute_ls"@.len());
        assert("advanced_navigation"@.len() != "execute_cat"@.len());
        assert("advanced_navigation"@.len() != "execute_grep"@.len());
        assert("advanced_navigation"@.len() != "yank_and_execute"@.len());
        assert("advanced_navigation"@.len() != "execute_cat_with_paste"@.len());
        assert("advanced_navigation"@.len() != "simple_jjj_navigation"@.len());
        assert("advanced_navigation"@.len() != "search_cargo"@.len());
    } else if i == 20 {
        assert("multi_select"@.len() != "basic_navigation"@.len());
        assert("multi_select"@.len() != "word_navigation"@.len());
        assert("multi_select"@.len() != "paragraph_navigation"@.len());
        assert("multi_select"@.len() != "search_navigation"@.len());
        assert("multi_select"@.len() != "select_word"@.len());
        assert("multi_select"@.len() != "select_paragraph"@.len());
        assert("multi_select"@.len() != "select_line"@.len());
        assert("multi_select"@.len() != "visual_char_mode"@.len());
        assert("multi_select"@.len() != "yank_line"@.len());
        assert("multi_select"@.len() != "yank_selection"@.len());
        assert("multi_select"@.len() != "highlight_selection"@.len());
        assert("multi_select"@.len() != "clear_highlights"@.len());
        assert("multi_select"@.len() != "execute_ls"@.len());
        assert("multi_select"@.len() != "execute_cat"@.len());
        assert("multi_select"@[0] != "execute_grep"@[0]);
        assert("multi_select"@.len() != "yank_and_execute"@.len());
        assert("multi_select"@.len() != "execute_cat_with_paste"@.len());
        assert("multi_select"@.len() != "simple_jjj_navigation"@.len());
        assert("multi_select"@[0] != "search_cargo"@[0]);
        assert("multi_select"@.len() != "advanced_navigation"@.len());
    } else if i == 21 {
        assert("split_view"@.len() != "basic_navigation"@.len());
        assert("split_view"@.len() != "word_navigation"@.len());
        assert("split_view"@.len() != "paragraph_navigation"@.len());
        assert("split_view"@.len() != "search_navigation"@.len());
        assert("split_view"@.len() != "select_word"@.len());
        assert("split_view"@.len() != "select_paragraph"@.len());
        assert("split_view"@.len() != "select_line"@.len());
        assert("split_view"@.len() != "visual_char_mode"@.len());
        assert("split_view"@.len() != "yank_line"@.len());
        assert("split_view"@.len() != "yank_selection"@.len());
        assert("split_view"@.len() != "highlight_selection"@.len());
        assert("split_view"@.len() != "clear_highlights"@.len());
        assert("split_view"@[0] != "execute_ls"@[0]);
        assert("split_view"@.len() != "execute_cat"@.len());
        assert("split_view"@.len() != "execute_grep"@.len());
        assert("split_view"@.len() != "yank_and_execute"@.len());
        assert("split_view"@.len() != "execute_cat_with_paste"@.len());
        assert("split_view"@.len() != "simple_jjj_navigation"@.len());
        assert("split_view"@.len() != "search_cargo"@.len());
        assert("split_view"@.len() != "advanced_navigation"@.len());
        assert("split_view"@.len() != "multi_select"@.len());
    } else if i == 22 {
        assert("intro_message"@.len() != "basic_navigation"@.len());
        assert("intro_message"@.len() != "word_navigation"@.len());
        assert("intro_message"@.len() != "paragraph_navigation"@.len());
        assert("intro_message"@.len() != "search_navigation"@.len());
        assert("intro_message"@.len() != "select_word"@.len());
        assert("intro_message"@.len() != "select_paragraph"@.len());
        assert("intro_message"@.len() != "select_line"@.len());
        assert("intro_message"@.len() != "visual_char_mode"@.len());
        assert("intro_message"@.len() != "yank_line"@.len());
        assert("intro_message"@.len() != "yank_selection"@.len());
        assert("intro_message"@.len() != "highlight_selection"@.len());
        assert("intro_message"@.len() != "clear_highlights"@.len());
        assert("intro_message"@.len() != "execute_ls"@.len());
        assert("intro_message"@.len() != "execute_cat"@.len());
        assert("intro_message"@.len() != "execute_grep"@.len());
        assert("intro_message"@.len() != "yank_and_execute"@.len());
        assert("intro_message"@.len() != "execute_cat_with_paste"@.len());
        assert("intro_message"@.len() != "simple_jjj_navigation"@.len());
        assert("intro_message"@.len() != "search_cargo"@.len());
        assert("intro_message"@.len() != "advanced_navigation"@.len());
        assert("intro_message"@.len() != "multi_select"@.len());
        assert("intro_message"@.len() != "split_view"@.len());
    } else if i == 23 {
        assert("final_message"@.len() != "basic_navigation"@.len());
        assert("final_message"@.len() != "word_navigation"@.len());
        assert("final_message"@.len() != "paragraph_navigation"@.len());
        assert("final_message"@.len() != "search_navigation"@.len());
        assert("final_message"@.len() != "select_word"@.len());
        assert("final_message"@.len() != "select_paragraph"@.len());
        assert("final_message"@.len() != "select_line"@.len());
        assert("final_message"@.len() != "visual_char_mode"@.len());
        assert("final_message"@.len() != "yank_line"@.len());
        assert("final_message"@.len() != "yank_selection"@.len());
        assert("final_message"@.len() != "highlight_selection"@.len());
        assert("final_message"@.len() != "clear_highlights"@.len());
        assert("final_message"@.len() != "execute_ls"@.len());
        assert("final_message"@.len() != "execute_cat"@.len());
        assert("final_message"@.len() != "execute_grep"@.len());
        assert("final_message"@.len() != "yank_and_execute"@.len());
        assert("final_message"@.len() != "execute_cat_with_paste"@.len());
        assert("final_message"@.len() != "simple_jjj_navigation"@.len());
        assert("final_message"@.len() != "search_cargo"@.len());
        assert("final_message"@.len() != "advanced_navigation"@.len());
        assert("final_message"@.len() != "multi_select"@.len());
        assert("final_message"@.len() != "split_view"@.len());
        assert("final_message"@[0] != "intro_message"@[0]);
    } else if i == 24 {
        assert("final_message_short"@.len() != "basic_navigation"@.len());
        assert("final_message_short"@.len() != "word_navigation"@.len());
        assert("final_message_short"@.len() != "paragraph_navigation"@.len());
        assert("final_message_short"@.len() != "search_navigation"@.len());
        assert("final_message_short"@.len() != "select_word"@.len());
        assert("final_message_short"@.len() != "select_paragraph"@.len());
        assert("final_message_short"@.len() != "select_line"@.len());
        assert("final_message_short"@.len() != "visual_char_mode"@.len());
        assert("final_message_short"@.len() != "yank_line"@.len());
        assert("final_message_short"@.len() != "yank_selection"@.len());
        assert("final_message_short"@[0] != "highlight_selection"@[0]);
        assert("final_message_short"@.len() != "clear_highlights"@.len());
        assert("final_message_short"@.len() != "execute_ls"@.len());
        assert("final_message_short"@.len() != "execute_cat"@.len());
        assert("final_message_short"@.len() != "execute_grep"@.len());
        assert("final_message_short"@.len() != "yank_and_execute"@.len());
        assert("final_message_short"@.len() != "execute_cat_with_paste"@.len());
        assert("final_message_short"@.len() != "simple_jjj_navigation"@.len());
        assert("final_message_short"@.len() != "search_cargo"@.len());
        assert("final_message_short"@[0] != "advanced_navigation"@[0]);
        assert("final_message_short"@.len() != "multi_select"@.len());
        assert("final_message_short"@.len() != "split_view"@.len());
        assert("final_message_short"@.len() != "intro_message"@.len());
        assert("final_message_short"@.len() != "final_message"@.len());
    }
}

/// No two listed scenes share an id.
#[verifier::rlimit(60)]
pub proof fn lemma_component_ids_distinct(i: int, j: int)
    requires
        0 <= i < j < all_component_specs().len(),
    ensures
        all_component_specs()[i].id != all_component_specs()[j].id,
{
    reveal_strlit("basic_navigation");
    reveal_strlit("word_navigation");
    reveal_strlit("paragraph_navigation");
    reveal_strlit("search_navigation");
    reveal_strlit("select_word");
    reveal_strlit("select_paragraph");
    reveal_strlit("select_line");
    reveal_strlit("visual_char_mode");
    reveal_strlit("yank_line");
    reveal_strlit("yank_selection");
    reveal_strlit("highlight_selection");
    reveal_strlit("clear_highlights");
    reveal_strlit("execute_ls");
    reveal_strlit("execute_cat");
    reveal_strlit("execute_grep");
    reveal_strlit("yank_and_execute");
    reveal_strlit("execute_cat_with_paste");
    reveal_strlit("simple_jjj_navigation");
    reveal_strlit("search_cargo");
    reveal_strlit("advanced_navigation");
    reveal_strlit("multi_select");
    reveal_strlit("split_view");
    reveal_strlit("intro_message");
    reveal_strlit("final_message");
    reveal_strlit("final_message_short");
    if j == 1 {
        if i == 0 {
            assert("word_navigation"@.len() != "basic_navigation"@.len());
        }
    } else if j == 2 {
        if i == 0 {
            assert("paragraph_navigation"@.len() != "basic_navigation"@.len());
        } else if i == 1 {
            assert("paragraph_navigation"@.len() != "word_navigation"@.len());
        }
    } else if j == 3 {
        if i == 0 {
            assert("search_navigation"@.len() != "basic_navigation"@.len());
        } else if i == 1 {
            assert("search_navigation"@.len() != "word_navigation"@.len());
        } else if i == 2 {
            assert("search_navigation"@.len() != "paragraph_navigation"@.len());
        }
    } else if j == 4 {
        if i == 0 {
            assert("select_word"@.len() != "basic_navigation"@.len());
        } else if i == 1 {
            assert("select_word"@.len() != "word_navigation"@.len());
        } else if i == 2 {
            assert("select_word"@.len() != "paragraph_navigation"@.len());
        } else if i == 3 {
            assert("select_word"@.len() != "search_navigation"@.len());
        }
    } else if j == 5 {
        if i == 0 {
            assert("select_paragraph"@[0] != "basic_navigation"@[0]);
        } else if i == 1 {
            assert("select_paragraph"@.len() != "word_navigation"@.len());
        } else if i == 2 {
            assert("select_paragraph"@.len() != "paragraph_navigation"@.len());
        } else if i == 3 {
            assert("select_paragraph"@.len() != "search_navigation"@.len());
        } else if i == 4 {
            assert("select_paragraph"@.len() != "select_word"@.len());
        }
    } else if j == 6 {
        if i == 0 {
            assert("select_line"@.len() != "basic_navigation"@.len());
        } else if i == 1 {
            assert("select_line"@.len() != "word_navigation"@.len());
        } else if i == 2 {
            assert("select_line"@.len() != "paragraph_navigation"@.len());
        } else if i == 3 {
            assert("select_line"@.len() != "search_navigation"@.len());
        } else if i == 4 {
            assert("select_line"@[7] != "select_word"@[7]);
        } else if i == 5 {
            assert("select_line"@.len() != "select_paragraph"@.len());
        }
    } else if j == 7 {
        if i == 0 {
            assert("visual_char_mode"@[0] != "basic_navigation"@[0]);
        } else if i == 1 {
            assert("visual_char_mode"@.len() != "word_navigation"@.len());
        } else if i == 2 {
            assert("visual_char_mode"@.len() != "paragraph_navigation"@.len());
        } else if i == 3 {
            assert("visual_char_mode"@.len() != "search_navigation"@.len());
        } else if i == 4 {
            assert("visual_char_mode"@.len() != "select_word"@.len());
        } else if i == 5 {
            assert("visual_char_mode"@[0] != "select_paragraph"@[0]);
        } else if i == 6 {
            assert("visual_char_mode"@.len() != "select_line"@.len());
        }
    } else if j == 8 {
        if i == 0 {
            assert("yank_line"@.len() != "basic_navigation"@.len());
        } else if i == 1 {
            assert("yank_line"@.len() != "word_navigation"@.len());
        } else if i == 2 {
            assert("yank_line"@.len() != "paragraph_navigation"@.len());
        } else if i == 3 {
            assert("yank_line"@.len() != "search_navigation"@.len());
        } else if i == 4 {
            assert("yank_line"@.len() != "select_word"@.len());
        } else if i == 5 {
            assert("yank_line"@.len() != "select_paragraph"@.len());
        } else if i == 6 {
            assert("yank_line"@.len() != "select_line"@.len());
        } else if i == 7 {
            assert("yank_line"@.len() != "visual_char_mode"@.len());
        }
    } else if j == 9 {
        if i == 0 {
            assert("yank_selection"@.len() != "basic_navigation"@.len());
        } else if i == 1 {
            assert("yank_selection"@.len() != "word_navigation"@.len());
        } else if i == 2 {
            assert("yank_selection"@.len() != "paragraph_navigation"@.len());
        } else if i == 3 {
            assert("yank_selection"@.len() != "search_navigation"@.len());
        } else if i == 4 {
            assert("yank_selection"@.len() != "select_word"@.len());
        } else if i == 5 {
            assert("yank_selection"@.len() != "select_paragraph"@.len());
        } else if i == 6 {
            assert("yank_selection"@.len() != "select_line"@.len());
        } else if i == 7 {
            assert("yank_selection"@.len() != "visual_char_mode"@.len());
        } else if i == 8 {
            assert("yank_selection"@.len() != "yank_line"@.len());
        }
    } else if j == 10 {
        if i == 0 {
            assert("highlight_selection"@.len() != "basic_navigation"@.len());
        } else if i == 1 {
            assert("highlight_selection"@.len() != "word_navigation"@.len());
        } else if i == 2 {
            assert("highlight_selection"@.len() != "paragraph_navigation"@.len());
        } else if i == 3 {
            assert("highlight_selection"@.len() != "search_navigation"@.len());
        } else if i == 4 {
            assert("highlight_selection"@.len() != "select_word"@.len());
        } else if i == 5 {
            assert("highlight_selection"@.len() != "select_paragraph"@.len());
        } else if i == 6 {
            assert("highlight_selection"@.len() != "select_line"@.len());
        } else if i == 7 {
            assert("highlight_selection"@.len() != "visual_char_mode"@.len());
        } else if i == 8 {
            assert("highlight_selection"@.len() != "yank_line"@.len());
        } else if i == 9 {
            assert("highlight_selection"@.len() != "yank_selection"@.len());
        }
    } else if j == 11 {
        if i == 0 {
            assert("clear_highlights"@[0] != "basic_navigation"@[0]);
        } else if i == 1 {
            assert("clear_highlights"@.len() != "word_navigation"@.len());
        } else if i == 2 {
            assert("clear_highlights"@.len() != "paragraph_navigation"@.len());
        } else if i == 3 {
            assert("clear_highlights"@.len() != "search_navigation"@.len());
        } else if i == 4 {
            assert("clear_highlights"@.len() != "select_word"@.len());
        } else if i == 5 {
            assert("clear_highlights"@[0] != "select_paragraph"@[0]);
        } else if i == 6 {
            assert("clear_highlights"@.len() != "select_line"@.len());
        } else if i == 7 {
            assert("clear_highlights"@[0] != "visual_char_mode"@[0]);
        } else if i == 8 {
            assert("clear_highlights"@.len() != "yank_line"@.len());
        } else if i == 9 {
            assert("clear_highlights"@.len() != "yank_selection"@.len());
        } else if i == 10 {
            assert("clear_highlights"@.len() != "highlight_selection"@.len());
        }
    } else if j == 12 {
        if i == 0 {
            assert("execute_ls"@.len() != "basic_navigation"@.len());
        } else if i == 1 {
            assert("execute_ls"@.len() != "word_navigation"@.len());
        } else if i == 2 {
            assert("execute_ls"@.len() != "paragraph_navigation"@.len());
        } else if i == 3 {
            assert("execute_ls"@.len() != "search_navigation"@.len());
        } else if i == 4 {
            assert("execute_ls"@.len() != "select_word"@.len());
        } else if i == 5 {
            assert("execute_ls"@.len() != "select_paragraph"@.len());
        } else if i == 6 {
            assert("execute_ls"@.len() != "select_line"@.len());
        } else if i == 7 {
            assert("execute_ls"@.len() != "visual_char_mode"@.len());
        } else if i == 8 {
            assert("execute_ls"@.len() != "yank_line"@.len());
        } else if i == 9 {
            assert("execute_ls"@.len() != "yank_selection"@.len());
        } else if i == 10 {
            assert("execute_ls"@.len() != "highlight_selection"@.len());
        } else if i == 11 {
            assert("execute_ls"@.len() != "clear_highlights"@.len());
        }
    } else if j == 13 {
        if i == 0 {
            assert("execute_cat"@.len() != "basic_navigation"@.len());
        } else if i == 1 {
            assert("execute_cat"@.len() != "word_navigation"@.len());
        } else if i == 2 {
            assert("execute_cat"@.len() != "paragraph_navigation"@.len());
        } else if i == 3 {
            assert("execute_cat"@.len() != "search_navigation"@.len());
        } else if i == 4 {
            assert("execute_cat"@[0] != "select_word"@[0]);
        } else if i == 5 {
            assert("execute_cat"@.len() != "select_paragraph"@.len());
        } else if i == 6 {
            assert("execute_cat"@[0] != "select_line"@[0]);
        } else if i == 7 {
            assert("execute_cat"@.len() != "visual_char_mode"@.len());
        } else if i == 8 {
            assert("execute_cat"@.len() != "yank_line"@.len());
        } else if i == 9 {
            assert("execute_cat"@.len() != "yank_selection"@.len());
        } else if i == 10 {
            assert("execute_cat"@.len() != "highlight_selection"@.len());
        } else if i == 11 {
            assert("execute_cat"@.len() != "clear_highlights"@.len());
        } else if i == 12 {
            assert("execute_cat"@.len() != "execute_ls"@.len());
        }
    } else if j == 14 {
        if i == 0 {
            assert("execute_grep"@.len() != "basic_navigation"@.len());
        } else if i == 1 {
            assert("execute_grep"@.len() != "word_navigation"@.len());
        } else if i == 2 {
            assert("execute_grep"@.len() != "paragraph_navigation"@.len());
        } else if i == 3 {
            assert("execute_grep"@.len() != "search_navigation"@.len());
        } else if i == 4 {
            assert("execute_grep"@.len() != "select_word"@.len());
        } else if i == 5 {
            assert("execute_grep"@.len() != "select_paragraph"@.len());
        } else if i == 6 {
            assert("execute_grep"@.len() != "select_line"@.len());
        } else if i == 7 {
            assert("execute_grep"@.len() != "visual_char_mode"@.len());
        } else if i == 8 {
            assert("execute_grep"@.len() != "yank_line"@.len());
        } else if i == 9 {
            assert("execute_grep"@.len() != "yank_selection"@.len());
        } else if i == 10 {
            assert("execute_grep"@.len() != "highlight_selection"@.len());
        } else if i == 11 {
            assert("execute_grep"@.len() != "clear_highlights"@.len());
        } else if i == 12 {
            assert("execute_grep"@.len() != "execute_ls"@.len());
        } else if i == 13 {
            assert("execute_grep"@.len() != "execute_cat"@.len());
        }
    } else if j == 15 {
        if i == 0 {
            assert("yank_and_execute"@[0] != "basic_navigation"@[0]);
        } else if i == 1 {
            assert("yank_and_execute"@.len() != "word_navigation"@.len());
        } else if i == 2 {
            assert("yank_and_execute"@.len() != "paragraph_navigation"@.len());
        } else if i == 3 {
            assert("yank_and_execute"@.len() != "search_navigation"@.len());
        } else if i == 4 {
            assert("yank_and_execute"@.len() != "select_word"@.len());
        } else if i == 5 {
            assert("yank_and_execute"@[0] != "select_paragraph"@[0]);
        } else if i == 6 {
            assert("yank_and_execute"@.len() != "select_line"@.len());
        } else if i == 7 {
            assert("yank_and_execute"@[0] != "visual_char_mode"@[0]);
        } else if i == 8 {
            assert("yank_and_execute"@.len() != "yank_line"@.len());
        } else if i == 9 {
            assert("yank_and_execute"@.len() != "yank_selection"@.len());
        } else if i == 10 {
            assert("yank_and_execute"@.len() != "highlight_selection"@.len());
        } else if i == 11 {
            assert("yank_and_execute"@[0] != "clear_highlights"@[0]);
        } else if i == 12 {
            assert("yank_and_execute"@.len() != "execute_ls"@.len());
        } else if i == 13 {
            assert("yank_and_execute"@.len() != "execute_cat"@.len());
        } else if i == 14 {
            assert("yank_and_execute"@.len() != "execute_grep"@.len());
        }
    } else if j == 16 {
        if i == 0 {
            assert("execute_cat_with_paste"@.len() != "basic_navigation"@.len());
        } else if i == 1 {
            assert("execute_cat_with_paste"@.len() != "word_navigation"@.len());
        } else if i == 2 {
            assert("execute_cat_with_paste"@.len() != "paragraph_navigation"@.len());
        } else if i == 3 {
            assert("execute_cat_with_paste"@.len() != "search_navigation"@.len());
        } else if i == 4 {
            assert("execute_cat_with_paste"@.len() != "select_word"@.len());
        } else if i == 5 {
            assert("execute_cat_with_paste"@.len() != "select_paragraph"@.len());
        } else if i == 6 {
            assert("execute_cat_with_paste"@.len() != "select_line"@.len());
        } else if i == 7 {
            assert("execute_cat_with_paste"@.len() != "visual_char_mode"@.len());
        } else if i == 8 {
            assert("execute_cat_with_paste"@.len() != "yank_line"@.len());
        } else if i == 9 {
            assert("execute_cat_with_paste"@.len() != "yank_selection"@.len());
        } else if i == 10 {
            assert("execute_cat_with_paste"@.len() != "highlight_selection"@.len());
        } else if i == 11 {
            assert("execute_cat_with_paste"@.len() != "clear_highlights"@.len());
        } else if i == 12 {
            assert("execute_cat_with_paste"@.len() != "execute_ls"@.len());
        } else if i == 13 {
            assert("execute_cat_with_paste"@.len() != "execute_cat"@.len());
        } else if i == 14 {
            assert("execute_cat_with_paste"@.len() != "execute_grep"@.len());
        } else if i == 15 {
            assert("execute_cat_with_paste"@.len() != "yank_and_execute"@.len());
        }
    } else if j == 17 {
        if i == 0 {
            assert("simple_jjj_navigation"@.len() != "basic_navigation"@.len());
        } else if i == 1 {
            assert("simple_jjj_navigation"@.len() != "word_navigation"@.len());
        } else if i == 2 {
            assert("simple_jjj_navigation"@.len() != "paragraph_navigation"@.len());
        } else if i == 3 {
            assert("simple_jjj_navigation"@.len() != "search_navigation"@.len());
        } else if i == 4 {
            assert("simple_jjj_navigation"@.len() != "select_word"@.len());
        } else if i == 5 {
            assert("simple_jjj_navigation"@.len() != "select_paragraph"@.len());
        } else if i == 6 {
            assert("simple_jjj_navigation"@.len() != "select_line"@.len());
        } else if i == 7 {
            assert("simple_jjj_navigation"@.len() != "visual_char_mode"@.len());
        } else if i == 8 {
            assert("simple_jjj_navigation"@.len() != "yank_line"@.len());
        } else if i == 9 {
            assert("simple_jjj_navigation"@.len() != "yank_selection"@.len());
        } else if i == 10 {
            assert("simple_jjj_navigation"@.len() != "highlight_selection"@.len());
        } else if i == 11 {
            assert("simple_jjj_navigation"@.len() != "clear_highlights"@.len());
        } else if i == 12 {
            assert("simple_jjj_navigation"@.len() != "execute_ls"@.len());
        } else if i == 13 {
            assert("simple_jjj_navigation"@.len() != "execute_cat"@.len());
        } else if i == 14 {
            assert("simple_jjj_navigation"@.len() != "execute_grep"@.len());
        } else if i == 15 {
            assert("simple_jjj_navigation"@.len() != "yank_and_execute"@.len());
        } else if i == 16 {
            assert("simple_jjj_navigation"@.len() != "execute_cat_with_paste"@.len());
        }
    } else if j == 18 {
        if i == 0 {
            assert("search_cargo"@.len() != "basic_navigation"@.len());
        } else if i == 1 {
            assert("search_cargo"@.len() != "word_navigation"@.len());
        } else if i == 2 {
            assert("search_cargo"@.len() != "paragraph_navigation"@.len());
        } else if i == 3 {
            assert("search_cargo"@.len() != "search_navigation"@.len());
        } else if i == 4 {
            assert("search_cargo"@.len() != "select_word"@.len());
        } else if i == 5 {
            assert("search_cargo"@.len() != "select_paragraph"@.len());
        } else if i == 6 {
            assert("search_cargo"@.len() != "select_line"@.len());
        } else if i == 7 {
            assert("search_cargo"@.len() != "visual_char_mode"@.len());
        } else if i == 8 {
            assert("search_cargo"@.len() != "yank_line"@.len());
        } else if i == 9 {
            assert("search_cargo"@.len() != "yank_selection"@.len());
        } else if i == 10 {
            assert("search_cargo"@.len() != "highlight_selection"@.len());
        } else if i == 11 {
            assert("search_cargo"@.len() != "clear_highlights"@.len());
        } else if i == 12 {
            assert("search_cargo"@.len() != "execute_ls"@.len());
        } else if i == 13 {
            assert("search_cargo"@.len() != "execute_cat"@.len());
        } else if i == 14 {
            assert("search_cargo"@[0] != "execute_grep"@[0]);
        } else if i == 15 {
            assert("search_cargo"@.len() != "yank_and_execute"@.len());
        } else if i == 16 {
            assert("search_cargo"@.len() != "execute_cat_with_paste"@.len());
        } else if i == 17 {
            assert("search_cargo"@.len() != "simple_jjj_navigation"@.len());
        }
    } else if j == 19 {
        if i == 0 {
            assert("advanced_navigation"@.len() != "basic_navigation"@.len());
        } else if i == 1 {
            assert("advanced_navigation"@.len() != "word_navigation"@.len());
        } else if i == 2 {
            assert("advanced_navigation"@.len() != "paragraph_navigation"@.len());
        } else if i == 3 {
            assert("advanced_navigation"@.len() != "search_navigation"@.len());
        } else if i == 4 {
            assert("advanced_navigation"@.len() != "select_word"@.len());
        } else if i == 5 {
            assert("advanced_navigation"@.len() != "select_paragraph"@.len());
        } else if i == 6 {
            assert("advanced_navigation"@.len() != "select_line"@.len());
        } else if i == 7 {
            assert("advanced_navigation"@.len() != "visual_char_mode"@.len());
        } else if i == 8 {
            assert("advanced_navigation"@.len() != "yank_line"@.len());
        } else if i == 9 {
            assert("advanced_navigation"@.len() != "yank_selection"@.len());
        } else if i == 10 {
            assert("advanced_navigation"@[0] != "highlight_selection"@[0]);
        } else if i == 11 {
            assert("advanced_navigation"@.len() != "clear_highlights"@.len());
        } else if i == 12 {
            assert("advanced_navigation"@.len() != "execute_ls"@.len());
        } else if i == 13 {
            assert("advanced_navigation"@.len() != "execute_cat"@.len());
        } else if i == 14 {
            assert("advanced_navigation"@.len() != "execute_grep"@.len());
        } else if i == 15 {
            assert("advanced_navigation"@.len() != "yank_and_execute"@.len());
        } else if i == 16 {
            assert("advanced_navigation"@.len() != "execute_cat_with_paste"@.len());
        } else if i == 17 {
            assert("advanced_navigation"@.len() != "simple_jjj_navigation"@.len());
        } else if i == 18 {
            assert("advanced_navigation"@.len() != "search_cargo"@.len());
        }
    } else if j == 20 {
        if i == 0 {
            assert("multi_select"@.len() != "basic_navigation"@.len());
        } else if i == 1 {
            assert("multi_select"@.len() != "word_navigation"@.len());
        } else if i == 2 {
            assert("multi_select"@.len() != "paragraph_navigation"@.len());
        } else if i == 3 {
            assert("multi_select"@.len() != "search_navigation"@.len());
        } else if i == 4 {
            assert("multi_select"@.len() != "select_word"@.len());
        } else if i == 5 {
            assert("multi_select"@.len() != "select_paragraph"@.len());
        } else if i == 6 {
            assert("multi_select"@.len() != "select_line"@.len());
        } else if i == 7 {
            assert("multi_select"@.len() != "visual_char_mode"@.len());
        } else if i == 8 {
            assert("multi_select"@.len() != "yank_line"@.len());
        } else if i == 9 {
            assert("multi_select"@.len() != "yank_selection"@.len());
        } else if i == 10 {
            assert("multi_select"@.len() != "highlight_selection"@.len());
        } else if i == 11 {
            assert("multi_select"@.len() != "clear_highlights"@.len());
        } else if i == 12 {
            assert("multi_select"@.len() != "execute_ls"@.len());
        } else if i == 13 {
            assert("multi_select"@.len() != "execute_cat"@.len());
        } else if i == 14 {
            assert("multi_select"@[0] != "execute_grep"@[0]);
        } else if i == 15 {
            assert("multi_select"@.len() != "yank_and_execute"@.len());
        } else if i == 16 {
            assert("multi_select"@.len() != "execute_cat_with_paste"@.len());
        } else if i == 17 {
            assert("multi_select"@.len() != "simple_jjj_navigation"@.len());
        } else if i == 18 {
            assert("multi_select"@[0] != "search_cargo"@[0]);
        } else if i == 19 {
            assert("multi_select"@.len() != "advanced_navigation"@.len());
        }
    } else if j == 21 {
        if i == 0 {
            assert("split_view"@.len() != "basic_navigation"@.len());
        } else if i == 1 {
            assert("split_view"@.len() != "word_navigation"@.len());
        } else if i == 2 {
            assert("split_view"@.len() != "paragraph_navigation"@.len());
        } else if i == 3 {
            assert("split_view"@.len() != "search_navigation"@.len());
        } else if i == 4 {
            assert("split_view"@.len() != "select_word"@.len());
        } else if i == 5 {
            assert("split_view"@.len() != "select_paragraph"@.len());
        } else if i == 6 {
            assert("split_view"@.len() != "select_line"@.len());
        } else if i == 7 {
            assert("split_view"@.len() != "visual_char_mode"@.len());
        } else if i == 8 {
            assert("split_view"@.len() != "yank_line"@.len());
        } else if i == 9 {
            assert("split_view"@.len() != "yank_selection"@.len());
        } else if i == 10 {
            assert("split_view"@.len() != "highlight_selection"@.len());
        } else if i == 11 {
            assert("split_view"@.len() != "clear_highlights"@.len());
        } else if i == 12 {
            assert("split_view"@[0] != "execute_ls"@[0]);
        } else if i == 13 {
            assert("split_view"@.len() != "execute_cat"@.len());
        } else if i == 14 {
            assert("split_view"@.len() != "execute_grep"@.len());
        } else if i == 15 {
            assert("split_view"@.len() != "yank_and_execute"@.len());
        } else if i == 16 {
            assert("split_view"@.len() != "execute_cat_with_paste"@.len());
        } else if i == 17 {
            assert("split_view"@.len() != "simple_jjj_navigation"@.len());
        } else if i == 18 {
            assert("split_view"@.len() != "search_cargo"@.len());
        } else if i == 19 {
            assert("split_view"@.len() != "advanced_navigation"@.len());
        } else if i == 20 {
            assert("split_view"@.len() != "multi_select"@.len());
        }
    } else if j == 22 {
        if i == 0 {
            assert("intro_message"@.len() != "basic_navigation"@.len());
        } else if i == 1 {
            assert("intro_message"@.len() != "word_navigation"@.len());
        } else if i == 2 {
            assert("intro_message"@.len() != "paragraph_navigation"@.len());
        } else if i == 3 {
            assert("intro_message"@.len() != "search_navigation"@.len());
        } else if i == 4 {
            assert("intro_message"@.len() != "select_word"@.len());
        } else if i == 5 {
            assert("intro_message"@.len() != "select_paragraph"@.len());
        } else if i == 6 {
            assert("intro_message"@.len() != "select_line"@.len());
        } else if i == 7 {
            assert("intro_message"@.len() != "visual_char_mode"@.len());
        } else if i == 8 {
            assert("intro_message"@.len() != "yank_line"@.len());
        } else if i == 9 {
            assert("intro_message"@.len() != "yank_selection"@.len());
        } else if i == 10 {
            assert("intro_message"@.len() != "highlight_selection"@.len());
        } else if i == 11 {
            assert("intro_message"@.len() != "clear_highlights"@.len());
        } else if i == 12 {
            assert("intro_message"@.len() != "execute_ls"@.len());
        } else if i == 13 {
            assert("intro_message"@.len() != "execute_cat"@.len());
        } else if i == 14 {
            assert("intro_message"@.len() != "execute_grep"@.len());
        } else if i == 15 {
            assert("intro_message"@.len() != "yank_and_execute"@.len());
        } else if i == 16 {
            assert("intro_message"@.len() != "execute_cat_with_paste"@.len());
        } else if i == 17 {
            assert("intro_message"@.len() != "simple_jjj_navigation"@.len());
        } else if i == 18 {
            assert("intro_message"@.len() != "search_cargo"@.len());
        } else if i == 19 {
            assert("intro_message"@.len() != "advanced_navigation"@.len());
        } else if i == 20 {
            assert("intro_message"@.len() != "multi_select"@.len());
        } else if i == 21 {
            assert("intro_message"@.len() != "split_view"@.len());
        }
    } else if j == 23 {
        if i == 0 {
            assert("final_message"@.len() != "basic_navigation"@.len());
        } else if i == 1 {
            assert("final_message"@.len() != "word_navigation"@.len());
        } else if i == 2 {
            assert("final_message"@.len() != "paragraph_navigation"@.len());
        } else if i == 3 {
            assert("final_message"@.len() != "search_navigation"@.len());
        } else if i == 4 {
            assert("final_message"@.len() != "select_word"@.len());
        } else if i == 5 {
            assert("final_message"@.len() != "select_paragraph"@.len());
        } else if i == 6 {
            assert("final_message"@.len() != "select_line"@.len());
        } else if i == 7 {
            assert("final_message"@.len() != "visual_char_mode"@.len());
        } else if i == 8 {
            assert("final_message"@.len() != "yank_line"@.len());
        } else if i == 9 {
            assert("final_message"@.len() != "yank_selection"@.len());
        } else if i == 10 {
            assert("final_message"@.len() != "highlight_selection"@.len());
        } else if i == 11 {
            assert("final_message"@.len() != "clear_highlights"@.len());
        } else if i == 12 {
            assert("final_message"@.len() != "execute_ls"@.len());
        } else if i == 13 {
            assert("final_message"@.len() != "execute_cat"@.len());
        } else if i == 14 {
            assert("final_message"@.len() != "execute_grep"@.len());
        } else if i == 15 {
            assert("final_message"@.len() != "yank_and_execute"@.len());
        } else if i == 16 {
            assert("final_message"@.len() != "execute_cat_with_paste"@.len());
        } else if i == 17 {
            assert("final_message"@.len() != "simple_jjj_navigation"@.len());
        } else if i == 18 {
            assert("final_message"@.len() != "search_cargo"@.len());
        } else if i == 19 {
            assert("final_message"@.len() != "advanced_navigation"@.len());
        } else if i == 20 {
            assert("final_message"@.len() != "multi_select"@.len());
        } else if i == 21 {
            assert("final_message"@.len() != "split_view"@.len());
        } else if i == 22 {
            assert("final_message"@[0] != "intro_message"@[0]);
        }
    } else if j == 24 {
        if i == 0 {
            assert("final_message_short"@.len() != "basic_navigation"@.len());
        } else if i == 1 {
            assert("final_message_short"@.len() != "word_navigation"@.len());
        } else if i == 2 {
            assert("final_message_short"@.len() != "paragraph_navigation"@.len());
        } else if i == 3 {
            assert("final_message_short"@.len() != "search_navigation"@.len());
        } else if i == 4 {
            assert("final_message_short"@.len() != "select_word"@.len());
        } else if i == 5 {
            assert("final_message_short"@.len() != "select_paragraph"@.len());
        } else if i == 6 {
            assert("final_message_short"@.len() != "select_line"@.len());
        } else if i == 7 {
            assert("final_message_short"@.len() != "visual_char_mode"@.len());
        } else if i == 8 {
            assert("final_message_short"@.len() != "yank_line"@.len());
        } else if i == 9 {
            assert("final_message_short"@.len() != "yank_selection"@.len());
        } else if i == 10 {
            assert("final_message_short"@[0] != "highlight_selection"@[0]);
        } else if i == 11 {
            assert("final_message_short"@.len() != "clear_highlights"@.len());
        } else if i == 12 {
            assert("final_message_short"@.len() != "execute_ls"@.len());
        } else if i == 13 {
            assert("final_message_short"@.len() != "execute_cat"@.len());
        } else if i == 14 {
            assert("final_message_short"@.len() != "execute_grep"@.len());
        } else if i == 15 {
            assert("final_message_short"@.len() != "yank_and_execute"@.len());
        } else if i == 16 {
            assert("final_message_short"@.len() != "execute_cat_with_paste"@.len());
        } else if i == 17 {
            assert("final_message_short"@.len() != "simple_jjj_navigation"@.len());
        } else if i == 18 {
            assert("final_message_short"@.len() != "search_cargo"@.len());
        } else if i == 19 {
            assert("final_message_short"@[0] != "advanced_navigation"@[0]);
        } else if i == 20 {
            assert("final_message_short"@.len() != "multi_select"@.len());
        } else if i == 21 {
            assert("final_message_short"@.len() != "split_view"@.len());
        } else if i == 22 {
            assert("final_message_short"@.len() != "intro_message"@.len());
        } else if i == 23 {
            assert("final_message_short"@.len() != "final_message"@.len());
        }
    }
}

/// Every listed scene has steps.
pub proof fn lemma_component_actions_nonempty(i: int)
    requires
        0 <= i < all_component_specs().len(),
    ensures
        all_component_specs()[i].actions.len() > 0,
{
    if i == 0 {
        assert(all_component_specs()[0] == basic_navigation_spec());
    } else if i == 1 {
        assert(all_component_specs()[1] == word_navigation_spec());
    } else if i == 2 {
        assert(all_component_specs()[2] == paragraph_navigation_spec());
    } else if i == 3 {
        assert(all_component_specs()[3] == search_navigation_spec());
    } else if i == 4 {
        assert(all_component_specs()[4] == select_word_spec());
    } else if i == 5 {
        assert(all_component_specs()[5] == select_paragraph_spec());
    } else if i == 6 {
        assert(all_component_specs()[6] == select_line_spec());
    } else if i == 7 {
        assert(all_component_specs()[7] == visual_char_mode_spec());
    } else if i == 8 {
        assert(all_component_specs()[8] == yank_line_spec());
    } else if i == 9 {
        assert(all_component_specs()[9] == yank_selection_spec());
    } else if i == 10 {
        assert(all_component_specs()[10] == highlight_selection_spec());
    } else if i == 11 {
        assert(all_component_specs()[11] == clear_highlights_spec());
    } else if i == 12 {
        assert(all_component_specs()[12] == execute_ls_spec());
    } else if i == 13 {
        assert(all_component_specs()[13] == execute_cat_spec());
    } else if i == 14 {
        assert(all_component_specs()[14] == execute_grep_spec());
    } else if i == 15 {
        assert(all_component_specs()[15] == yank_and_execute_spec());
    } else if i == 16 {
        assert(all_component_specs()[16] == execute_cat_with_paste_spec());
    } else if i == 17 {
        assert(all_component_specs()[17] == simple_jjj_navigation_spec());
    } else if i == 18 {
        assert(all_component_specs()[18] == search_cargo_spec());
    } else if i == 19 {
        assert(all_component_specs()[19] == advanced_navigation_spec());
    } else if i == 20 {
        assert(all_component_specs()[20] == multi_select_spec());
    } else if i == 21 {
        assert(all_component_specs()[21] == split_view_spec());
    } else if i == 22 {
        assert(all_component_specs()[22] == intro_message_spec());
    } else if i == 23 {
        assert(all_component_specs()[23] == final_message_spec());
    } else if i == 24 {
        assert(all_component_specs()[24] == final_message_short_spec());
    }
}

/// Only listed scenes are found: a scene found by an id is a listed one,
/// with that id.
pub proof fn lemma_found_components_listed(id: Seq<char>)
    ensures
        component_spec(id) matches Some(c) ==> c.id == id && exists|i: int|
            0 <= i < all_component_specs().len() && #[trigger] all_component_specs()[i] == c,
{
    if id == "basic_navigation"@ {
        assert(all_component_specs()[0] == basic_navigation_spec());
    } else if id == "word_navigation"@ {
        assert(all_component_specs()[1] == word_navigation_spec());
    } else if id == "paragraph_navigation"@ {
        assert(all_component_specs()[2] == paragraph_navigation_spec());
    } else if id == "search_navigation"@ {
        assert(all_component_specs()[3] == search_navigation_spec());
    } else if id == "select_word"@ {
        assert(all_component_specs()[4] == select_word_spec());
    } else if id == "select_paragraph"@ {
        assert(all_component_specs()[5] == select_paragraph_spec());
    } else if id == "select_line"@ {
        assert(all_component_specs()[6] == select_line_spec());
    } else if id == "visual_char_mode"@ {
        assert(all_component_specs()[7] == visual_char_mode_spec());
    } else if id == "yank_line"@ {
        assert(all_component_specs()[8] == yank_line_spec());
    } else if id == "yank_selection"@ {
        assert(all_component_specs()[9] == yank_selection_spec());
    } else if id == "highlight_selection"@ {
        assert(all_component_specs()[10] == highlight_selection_spec());
    } else if id == "clear_highlights"@ {
        assert(all_component_specs()[11] == clear_highlights_spec());
    } else if id == "execute_ls"@ {
        assert(all_component_specs()[12] == execute_ls_spec());
    } else if id == "execute_cat"@ {
        assert(all_component_specs()[13] == execute_cat_spec());
    } else if id == "execute_grep"@ {
        assert(all_component_specs()[14] == execute_grep_spec());
    } else if id == "yank_and_execute"@ {
        assert(all_component_specs()[15] == yank_and_execute_spec());
    } else if id == "execute_cat_with_paste"@ {
        assert(all_component_specs()[16] == execute_cat_with_paste_spec());
    } else if id == "simple_jjj_navigation"@ {
        assert(all_component_specs()[17] == simple_jjj_navigation_spec());
    } else if id == "search_cargo"@ {
        assert(all_component_specs()[18] == search_cargo_spec());
    } else if id == "advanced_navigation"@ {
        assert(all_component_specs()[19] == advanced_navigation_spec());
    } else if id == "multi_select"@ {
        assert(all_component_specs()[20] == multi_select_spec());
    } else if id == "split_view"@ {
        assert(all_component_specs()[21] == split_view_spec());
    } else if id == "intro_message"@ {
        assert(all_component_specs()[22] == intro_message_spec());
    } else if id == "final_message"@ {
        assert(all_component_specs()[23] == final_message_spec());
    } else if id == "final_message_short"@ {
        assert(all_component_specs()[24] == final_message_short_spec());
    }
}

} // verus!
