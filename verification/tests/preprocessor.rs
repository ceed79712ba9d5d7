//! End-to-end tests of the section processor, the document walker, and the
//! preprocessor's identity.
use mdbook_svgbob::document::{walk, Document, WalkEvent};
use mdbook_svgbob::section::Section;
use mdbook_svgbob::settings::Settings;
use mdbook_svgbob::Bob;

#[test]
fn process_code_blocks() {
    let settings = Settings::default();
    let chapter = Section::new("test".to_owned(), "```bob\n-->\n```".to_owned());
    let result = mdbook_svgbob::section::process_code_blocks(&chapter, &settings).unwrap();
    assert!(result.contains("<svg"));
    assert!(result.contains("<line"));
    assert!(result.contains("#arrow"));
}

#[test]
fn no_fence_is_noop() {
    let settings = Settings::default();
    let text = "# Title\n\nhello *world*\n\n```rust\nlet x = 1;\n```";
    let section = Section::new("plain".to_owned(), text.to_owned());
    let result = mdbook_svgbob::section::process_code_blocks(&section, &settings).unwrap();
    let before: Vec<pulldown_cmark::Event> = pulldown_cmark::Parser::new(text).collect();
    let after: Vec<pulldown_cmark::Event> = pulldown_cmark::Parser::new(&result).collect();
    assert_eq!(before, after);
}

#[test]
fn single_fence_rewritten_in_place() {
    let settings = Settings::default();
    let text = "before text\n\n```bob\n-->\n```\n\nafter text";
    let section = Section::new("one".to_owned(), text.to_owned());
    let result = mdbook_svgbob::section::process_code_blocks(&section, &settings).unwrap();
    assert!(result.contains("before text"));
    assert!(result.contains("after text"));
    assert!(result.contains("<svg"));
    assert!(!result.contains("```"));
    assert!(!result.contains("```bob"));
}

#[test]
fn round_trip_preserves_untouched_tokens() {
    let settings = Settings::default();
    let text = "intro paragraph\n\n```bob\n-->\n```\n\n```rust\nlet y = 2;\n```";
    let section = Section::new("mixed".to_owned(), text.to_owned());
    let result = mdbook_svgbob::section::process_code_blocks(&section, &settings).unwrap();
    let before: Vec<pulldown_cmark::Event> = pulldown_cmark::Parser::new(text).collect();
    let after: Vec<pulldown_cmark::Event> = pulldown_cmark::Parser::new(&result).collect();
    // The three tokens before the fenced region and the three of the trailing
    // rust block are preserved through serialize-then-retokenize.
    assert_eq!(&before[..3], &after[..3]);
    assert_eq!(&before[before.len() - 3..], &after[after.len() - 3..]);
}

#[test]
fn other_fence_tags_pass_through() {
    let settings = Settings::default();
    for tag in ["bobx", "Bob", "BOB", ""] {
        let text = format!("```{}\n-->\n```", tag);
        let section = Section::new("other".to_owned(), text.clone());
        let result =
            mdbook_svgbob::section::process_code_blocks(&section, &settings).unwrap();
        assert!(!result.contains("<svg"), "tag {:?} must not be rewritten", tag);
        assert!(result.contains("-->"));
    }
}

#[test]
fn two_regions_both_rewritten() {
    let settings = Settings::default();
    let text = "```bob\n-->\n```\n\nbetween\n\n```bob\n<--\n```";
    let section = Section::new("two".to_owned(), text.to_owned());
    let result = mdbook_svgbob::section::process_code_blocks(&section, &settings).unwrap();
    assert_eq!(result.matches("<svg").count(), 2);
    assert!(result.contains("between"));
    assert!(!result.contains("```"));
}

#[test]
fn indented_code_not_rewritten() {
    let settings = Settings::default();
    let text = "paragraph\n\n    -->\n";
    let section = Section::new("indent".to_owned(), text.to_owned());
    let result = mdbook_svgbob::section::process_code_blocks(&section, &settings).unwrap();
    assert!(!result.contains("<svg"));
    assert!(result.contains("-->"));
}

#[test]
fn walk_rewrites_every_section() {
    let settings = Settings::default();
    let mut doc = Document {
        sections: vec![
            Section::new("a".to_owned(), "plain words".to_owned()),
            Section::new("b".to_owned(), "```bob\n-->\n```".to_owned()),
            Section::new("c".to_owned(), "more words".to_owned()),
        ],
    };
    let events = walk(&mut doc, &settings);
    assert_eq!(events.len(), 3);
    assert!(matches!(&events[0], WalkEvent::Processed { name } if name == "a"));
    assert!(matches!(&events[1], WalkEvent::Processed { name } if name == "b"));
    assert!(matches!(&events[2], WalkEvent::Processed { name } if name == "c"));
    assert_eq!(doc.sections.len(), 3);
    assert_eq!(doc.sections[0].name, "a");
    assert!(doc.sections[0].raw_text.contains("plain words"));
    assert!(doc.sections[1].raw_text.contains("<svg"));
    assert!(doc.sections[2].raw_text.contains("more words"));
}

#[test]
fn walk_of_empty_document() {
    let settings = Settings::default();
    let mut doc = Document { sections: Vec::new() };
    let events = walk(&mut doc, &settings);
    assert!(events.is_empty());
    assert!(doc.sections.is_empty());
}

#[test]
fn end_to_end_arrow_diagram() {
    let settings = Settings::default();
    let mut doc = Document {
        sections: vec![Section::new("diagram".to_owned(), "```bob\n-->\n```".to_owned())],
    };
    let events = walk(&mut doc, &settings);
    assert!(matches!(&events[0], WalkEvent::Processed { .. }));
    let text = &doc.sections[0].raw_text;
    assert!(text.contains("<svg"));
    assert!(text.contains("<line"));
    assert!(text.contains("#arrow"));
}

#[test]
fn preprocessor_identity() {
    let bob = Bob::new();
    assert_eq!(bob.name(), "svgbob");
    assert!(bob.supports_renderer("html"));
    assert!(bob.supports_renderer(""));
    assert!(bob.supports_renderer("epub"));
    assert!(bob.supports_renderer("not-supported-yet"));
    assert!(!bob.supports_renderer("not-supported"));
}
