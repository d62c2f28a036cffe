//! The demos the reader can play, and the text they show.

use vstd::prelude::*;
use crate::demo_script::{
    DemoActionView, DemoScript, components_actions, marketing_ids, minimal_ids, power_user_ids,
    speed_ids, workflow_ids,
};
use crate::demo_components::{
    all_component_specs, final_message_short_spec, final_message_spec, lemma_listed_components_found,
};
use crate::text::string_of;

verus! {

/// The demos: id, name and description.
pub open spec fn demo_list() -> Seq<(usize, Seq<char>, Seq<char>)> {
    seq![
        (0usize, "Marketing Demo"@, "Comprehensive feature showcase"@),
        (1usize, "Speed Demo"@, "Quick demo for social media"@),
        (2usize, "Power User Demo"@, "Advanced features for developers"@),
        (3usize, "Minimal Demo"@, "Clean and simple reading experience"@),
        (4usize, "Workflow Demo"@, "Document processing workflow"@),
    ]
}

/// A demo entry with its texts taken as characters.
pub open spec fn demo_entry_view(e: (usize, &str, &str)) -> (usize, Seq<char>, Seq<char>) {
    (e.0, e.1@, e.2@)
}

/// The demos that can be played: id, name and description.
pub fn list_all_demos() -> (r: Vec<(usize, &'static str, &'static str)>)
    ensures
        r@.map_values(|e: (usize, &str, &str)| demo_entry_view(e)) == demo_list(),
{
    let mut r: Vec<(usize, &'static str, &'static str)> = Vec::new();
    r.push((0, "Marketing Demo", "Comprehensive feature showcase"));
    r.push((1, "Speed Demo", "Quick demo for social media"));
    r.push((2, "Power User Demo", "Advanced features for developers"));
    r.push((3, "Minimal Demo", "Clean and simple reading experience"));
    r.push((4, "Workflow Demo", "Document processing workflow"));
    assert(r@.map_values(|e: (usize, &str, &str)| demo_entry_view(e)) =~= demo_list());
    r
}

/// The text the demos show.
pub open spec fn marketing_text() -> Seq<char> {
    "# The Art of Reading in the Digital Age\n\nIn an era where information flows ceaselessly through countless channels, the simple act of reading has become both more crucial and more challenging than ever before. We find ourselves navigating between the need for deep, focused comprehension and the relentless pull of digital distractions.\n\nThe modern reader faces a paradox: while we have unprecedented access to the world's knowledge, our tools often work against our ability to truly absorb and understand what we read. Notifications interrupt our flow, advertisements compete for our attention, and interfaces designed for engagement rather than comprehension fragment our focus into ever-smaller pieces.\n\nThe modern reader faces a paradox: while we have unprecedented access to the world's knowledge, our tools often work against our ability to truly absorb and understand what we read. Notifications interrupt our flow, advertisements compete for our attention, and interfaces designed for engagement rather than comprehension fragment our focus into ever-smaller pieces.\n\nYet within this chaos, a movement toward intentional, mindful reading has emerged. Readers are rediscovering the power of simplicity, seeking tools that enhance rather than hinder their connection with text. They understand that true comprehension requires not just access to information, but an environment that respects the cognitive demands of deep reading.\n\n## The Evolution of Text Display\n\nThe journey from physical to digital text represents one of humanity's most profound technological shifts. What began as crude phosphorescent characters on monochrome monitors has evolved into a sophisticated ecosystem of reading technologies. Modern terminal-based readers, paradoxically, represent both a return to simplicity and an embrace of advanced text processing capabilities. They strip away the visual noise of contemporary interfaces while leveraging decades of refinement in text rendering, navigation paradigms, and user interaction models. This fusion of minimalism and power creates an environment where focus becomes the default state, where reading transforms from passive consumption to active engagement, and where the boundaries between reader and text dissolve into a seamless flow of information and understanding.\n\n\n\n\n### Terminal-Based Reading\n\nDespite the availability of graphical interfaces, terminal-based reading applications have maintained a dedicated following. The reasons include:\n\n- **Minimal distractions**: No ads, popups, or visual clutter\n- **Keyboard efficiency**: Navigate without reaching for the mouse\n- **Resource efficiency**: Low CPU and memory usage\n- **Universal compatibility**: Works on any system with a terminal\n- **Customization**: Complete control over appearance and behavior\n\n## Navigation Paradigms\n\nDifferent reading applications employ various navigation paradigms, each with its own philosophy and target audience. The most influential of these paradigms comes from the vi/vim text editor tradition.\n\n### The Vi Philosophy\n\nVi's modal editing approach, where different modes serve different purposes, translates beautifully to reading applications. In normal mode, every key becomes a navigation command, allowing for incredibly efficient movement through text without modifier keys.\n\nCommon navigation patterns include:\n\n- **Character movement**: h, j, k, l for left, down, up, right\n- **Word movement**: w (next word), b (previous word), e (end of word)\n- **Line movement**: 0 (start), $ (end), ^ (first non-blank)\n- **Screen movement**: H (top), M (middle), L (bottom)\n- **Document movement**: gg (beginning), G (end), Ctrl-f/b (page)\n\n## Document Formats and Processing\n\nModern document readers must handle a variety of formats, each with its own structure and rendering requirements. The most common formats include:\n\n### PDF (Portable Document Format)\n\nPDFs preserve exact layout and formatting, making them ideal for documents that need to maintain their appearance across different systems. However, extracting text from PDFs can be challenging due to:\n\n- Complex layout structures\n- Embedded fonts and encodings\n- Multi-column layouts\n- Headers, footers, and page numbers\n- Images and diagrams interspersed with text\n\n### EPUB (Electronic Publication)\n\nEPUB files are essentially ZIP archives containing HTML, CSS, and metadata. This format is designed specifically for e-readers and offers:\n\n- Reflowable text that adapts to screen size\n- Support for multiple chapters and navigation\n- Embedded fonts and styles\n- Metadata including author, title, and cover images\n\n## Text Processing Pipeline\n\nConverting documents for terminal display involves several stages:\n\n1. **Extraction**: Pulling raw text from the source format\n2. **Cleaning**: Removing artifacts and normalizing whitespace\n3. **Formatting**: Applying word wrapping and justification\n4. **Enhancement**: Adding navigation aids and bookmarks\n\n### Text Justification\n\nProper text justification improves readability by creating even margins and consistent spacing. The algorithm must balance several factors:\n\n- Minimizing rivers of whitespace\n- Avoiding excessive letter spacing\n- Handling hyphenation appropriately\n- Preserving paragraph structure\n\n## Reading Comprehension and Speed\n\nResearch has shown that reading speed and comprehension are influenced by numerous factors, including line length, font choice, and contrast ratio. Terminal-based readers can optimize these factors for individual preferences.\n\n### Optimal Line Length\n\nStudies suggest that line lengths between 50-75 characters provide the best balance between reading speed and comprehension. Shorter lines require more eye movements, while longer lines make it difficult to track from one line to the next.\n\n## Future Directions\n\nAs technology continues to evolve, terminal-based readers are incorporating new features while maintaining their core simplicity:\n\n- **Cloud synchronization**: Seamless reading across devices\n- **AI-powered summaries**: Quick document overview\n- **Voice integration**: Text-to-speech capabilities\n- **Collaborative annotations**: Shared notes and highlights\n- **Advanced search**: Semantic and fuzzy matching\n\nThe future of digital reading lies not in replacing traditional methods, but in providing readers with choices that match their preferences and workflows. Whether you prefer a feature-rich GUI application or a minimal terminal interface, the goal remains the same: efficient, enjoyable access to the world's written knowledge.\n\n## Conclusion\n\nTerminal-based document readers represent a unique approach to digital reading that prioritizes efficiency, minimalism, and keyboard-driven navigation. By embracing the constraints of the terminal environment, these applications offer a focused, distraction-free reading experience that many users find more productive than their graphical counterparts.\n\nAs we continue to navigate the digital transformation of reading, tools that respect user preferences and provide genuine value will endure. The terminal may seem like an anachronism in our graphical age, but for those who value efficiency and focus, it remains an ideal reading environment."@
}

/// The text the demos show: an essay on reading in the terminal.
pub fn get_marketing_demo_content() -> (r: String)
    ensures
        r@ == marketing_text(),
{
    string_of("# The Art of Reading in the Digital Age\n\nIn an era where information flows ceaselessly through countless channels, the simple act of reading has become both more crucial and more challenging than ever before. We find ourselves navigating between the need for deep, focused comprehension and the relentless pull of digital distractions.\n\nThe modern reader faces a paradox: while we have unprecedented access to the world's knowledge, our tools often work against our ability to truly absorb and understand what we read. Notifications interrupt our flow, advertisements compete for our attention, and interfaces designed for engagement rather than comprehension fragment our focus into ever-smaller pieces.\n\nThe modern reader faces a paradox: while we have unprecedented access to the world's knowledge, our tools often work against our ability to truly absorb and understand what we read. Notifications interrupt our flow, advertisements compete for our attention, and interfaces designed for engagement rather than comprehension fragment our focus into ever-smaller pieces.\n\nYet within this chaos, a movement toward intentional, mindful reading has emerged. Readers are rediscovering the power of simplicity, seeking tools that enhance rather than hinder their connection with text. They understand that true comprehension requires not just access to information, but an environment that respects the cognitive demands of deep reading.\n\n## The Evolution of Text Display\n\nThe journey from physical to digital text represents one of humanity's most profound technological shifts. What began as crude phosphorescent characters on monochrome monitors has evolved into a sophisticated ecosystem of reading technologies. Modern terminal-based readers, paradoxically, represent both a return to simplicity and an embrace of advanced text processing capabilities. They strip away the visual noise of contemporary interfaces while leveraging decades of refinement in text rendering, navigation paradigms, and user interaction models. This fusion of minimalism and power creates an environment where focus becomes the default state, where reading transforms from passive consumption to active engagement, and where the boundaries between reader and text dissolve into a seamless flow of information and understanding.\n\n\n\n\n### Terminal-Based Reading\n\nDespite the availability of graphical interfaces, terminal-based reading applications have maintained a dedicated following. The reasons include:\n\n- **Minimal distractions**: No ads, popups, or visual clutter\n- **Keyboard efficiency**: Navigate without reaching for the mouse\n- **Resource efficiency**: Low CPU and memory usage\n- **Universal compatibility**: Works on any system with a terminal\n- **Customization**: Complete control over appearance and behavior\n\n## Navigation Paradigms\n\nDifferent reading applications employ various navigation paradigms, each with its own philosophy and target audience. The most influential of these paradigms comes from the vi/vim text editor tradition.\n\n### The Vi Philosophy\n\nVi's modal editing approach, where different modes serve different purposes, translates beautifully to reading applications. In normal mode, every key becomes a navigation command, allowing for incredibly efficient movement through text without modifier keys.\n\nCommon navigation patterns include:\n\n- **Character movement**: h, j, k, l for left, down, up, right\n- **Word movement**: w (next word), b (previous word), e (end of word)\n- **Line movement**: 0 (start), $ (end), ^ (first non-blank)\n- **Screen movement**: H (top), M (middle), L (bottom)\n- **Document movement**: gg (beginning), G (end), Ctrl-f/b (page)\n\n## Document Formats and Processing\n\nModern document readers must handle a variety of formats, each with its own structure and rendering requirements. The most common formats include:\n\n### PDF (Portable Document Format)\n\nPDFs preserve exact layout and formatting, making them ideal for documents that need to maintain their appearance across different systems. However, extracting text from PDFs can be challenging due to:\n\n- Complex layout structures\n- Embedded fonts and encodings\n- Multi-column layouts\n- Headers, footers, and page numbers\n- Images and diagrams interspersed with text\n\n### EPUB (Electronic Publication)\n\nEPUB files are essentially ZIP archives containing HTML, CSS, and metadata. This format is designed specifically for e-readers and offers:\n\n- Reflowable text that adapts to screen size\n- Support for multiple chapters and navigation\n- Embedded fonts and styles\n- Metadata including author, title, and cover images\n\n## Text Processing Pipeline\n\nConverting documents for terminal display involves several stages:\n\n1. **Extraction**: Pulling raw text from the source format\n2. **Cleaning**: Removing artifacts and normalizing whitespace\n3. **Formatting**: Applying word wrapping and justification\n4. **Enhancement**: Adding navigation aids and bookmarks\n\n### Text Justification\n\nProper text justification improves readability by creating even margins and consistent spacing. The algorithm must balance several factors:\n\n- Minimizing rivers of whitespace\n- Avoiding excessive letter spacing\n- Handling hyphenation appropriately\n- Preserving paragraph structure\n\n## Reading Comprehension and Speed\n\nResearch has shown that reading speed and comprehension are influenced by numerous factors, including line length, font choice, and contrast ratio. Terminal-based readers can optimize these factors for individual preferences.\n\n### Optimal Line Length\n\nStudies suggest that line lengths between 50-75 characters provide the best balance between reading speed and comprehension. Shorter lines require more eye movements, while longer lines make it difficult to track from one line to the next.\n\n## Future Directions\n\nAs technology continues to evolve, terminal-based readers are incorporating new features while maintaining their core simplicity:\n\n- **Cloud synchronization**: Seamless reading across devices\n- **AI-powered summaries**: Quick document overview\n- **Voice integration**: Text-to-speech capabilities\n- **Collaborative annotations**: Shared notes and highlights\n- **Advanced search**: Semantic and fuzzy matching\n\nThe future of digital reading lies not in replacing traditional methods, but in providing readers with choices that match their preferences and workflows. Whether you prefer a feature-rich GUI application or a minimal terminal interface, the goal remains the same: efficient, enjoyable access to the world's written knowledge.\n\n## Conclusion\n\nTerminal-based document readers represent a unique approach to digital reading that prioritizes efficiency, minimalism, and keyboard-driven navigation. By embracing the constraints of the terminal environment, these applications offer a focused, distraction-free reading experience that many users find more productive than their graphical counterparts.\n\nAs we continue to navigate the digital transformation of reading, tools that respect user preferences and provide genuine value will endure. The terminal may seem like an anachronism in our graphical age, but for those who value efficiency and focus, it remains an ideal reading environment.")
}

/// The steps of demo `id`: 0 the marketing demo, 1 the short demo, 2 the
/// demo for experienced users, 3 the minimal demo, 4 the workflow demo.
pub open spec fn demo_spec(id: usize) -> Option<Seq<DemoActionView>> {
    if id == 0 {
        Some(components_actions(marketing_ids()))
    } else if id == 1 {
        Some(components_actions(speed_ids()))
    } else if id == 2 {
        Some(components_actions(power_user_ids()))
    } else if id == 3 {
        Some(components_actions(minimal_ids()))
    } else if id == 4 {
        Some(components_actions(workflow_ids()))
    } else {
        None
    }
}

/// The script of demo `id` (see `demo_spec`), or `None` for an unknown id.
pub fn get_demo_by_id(id: usize) -> (r: Option<DemoScript>)
    ensures
        match r {
            Some(s) => demo_spec(id) == Some(s@),
            None => demo_spec(id) is None,
        },
{
    if id == 0 {
        Some(DemoScript::marketing_demo())
    } else if id == 1 {
        Some(DemoScript::speed_demo())
    } else if id == 2 {
        Some(DemoScript::power_user_demo())
    } else if id == 3 {
        Some(DemoScript::minimal_demo())
    } else if id == 4 {
        Some(DemoScript::workflow_demo())
    } else {
        None
    }
}

/// The text shown by demo `id`: every demo shows the same text.
pub fn get_demo_content_by_id(id: usize) -> (r: String)
    ensures
        r@ == marketing_text(),
{
    get_marketing_demo_content()
}

/// Every listed demo has a script with steps, and only the listed ids
/// name a demo.
pub proof fn lemma_listed_demos_play(id: usize)
    ensures
        demo_spec(id) is Some <==> exists|k: int| 0 <= k < demo_list().len() && #[trigger] demo_list()[k].0 == id,
        demo_spec(id) matches Some(a) ==> a.len() > 0,
{
    if id < 5 {
        assert(demo_list()[id as int].0 == id);
    } else {
        assert forall|k: int| 0 <= k < demo_list().len() implies #[trigger] demo_list()[k].0 != id by {}
    }
    lemma_listed_components_found(23);
    lemma_listed_components_found(24);
    assert(all_component_specs()[23] == final_message_spec());
    assert(all_component_specs()[24] == final_message_short_spec());
    if id == 0 {
        assert(marketing_ids().last() == "final_message"@);
    } else if id == 1 {
        assert(speed_ids().last() == "final_message_short"@);
    } else if id == 2 {
        assert(power_user_ids().last() == "final_message"@);
    } else if id == 3 {
        assert(minimal_ids().last() == "final_message_short"@);
    } else if id == 4 {
        assert(workflow_ids().last() == "final_message"@);
    }
}

} // verus!
