//! Tests of the rewriter's directives, the settings construction, and the
//! version compatibility check on concrete values.
use mdbook_svgbob::rewrite::rewrite_tokens;
use mdbook_svgbob::settings::{from_config, ConfigEntry, ConfigValue, Settings};
use mdbook_svgbob::token::{Directive, FenceInfo, Token};
use mdbook_svgbob::version::{check_compat, CompatError, CompatOutcome};

fn marked_fence(tag: &str, borrowed: bool) -> FenceInfo {
    FenceInfo { fenced: true, borrowed, tag: tag.to_owned() }
}

#[test]
fn rewrite_marked_region_directives() {
    let settings = Settings::default();
    let tokens = vec![
        Token::Other,
        Token::StartBlock(marked_fence("bob", true)),
        Token::Text("-->".to_owned()),
        Token::EndBlock(marked_fence("bob", true)),
        Token::Other,
    ];
    let ds = rewrite_tokens(&tokens, &settings).unwrap();
    assert_eq!(ds.len(), 5);
    assert!(matches!(ds[0], Directive::Keep));
    assert!(matches!(ds[1], Directive::OpenBlock));
    assert!(matches!(&ds[2], Directive::Markup(svg) if svg.contains("<svg")));
    assert!(matches!(ds[3], Directive::CloseBlock));
    assert!(matches!(ds[4], Directive::Keep));
}

#[test]
fn rewrite_unmarked_tokens_all_kept() {
    let settings = Settings::default();
    let tokens = vec![
        Token::StartBlock(marked_fence("rust", true)),
        Token::Text("let x = 1;".to_owned()),
        Token::EndBlock(marked_fence("rust", true)),
        Token::StartBlock(marked_fence("bob", false)),
        Token::Text("not borrowed, not rewritten".to_owned()),
        Token::EndBlock(marked_fence("bob", false)),
    ];
    let ds = rewrite_tokens(&tokens, &settings).unwrap();
    assert_eq!(ds.len(), 6);
    for d in &ds {
        assert!(matches!(d, Directive::Keep));
    }
}

#[test]
fn rewrite_fence_without_text_falls_back() {
    let settings = Settings::default();
    // A marked start immediately followed by its end: the expected text is
    // missing, so the machine passes the end boundary through and resets.
    let tokens = vec![
        Token::StartBlock(marked_fence("bob", true)),
        Token::EndBlock(marked_fence("bob", true)),
        Token::Text("tail".to_owned()),
    ];
    let ds = rewrite_tokens(&tokens, &settings).unwrap();
    assert!(matches!(ds[0], Directive::OpenBlock));
    assert!(matches!(ds[1], Directive::Keep));
    assert!(matches!(ds[2], Directive::Keep));
}

#[test]
fn splice_keeps_tokens_where_directed() {
    let events = vec![
        pulldown_cmark::Event::Text("alpha".into()),
        pulldown_cmark::Event::Rule,
        pulldown_cmark::Event::Text("omega".into()),
    ];
    let directives = vec![Directive::Keep, Directive::Markup("<x/>".to_owned()), Directive::Keep];
    let out = mdbook_svgbob::section::splice(events.clone(), &directives);
    assert_eq!(out.len(), 3);
    assert_eq!(out[0], events[0]);
    assert_eq!(out[1], pulldown_cmark::Event::Html("<x/>".into()));
    assert_eq!(out[2], events[2]);
}

#[test]
fn settings_from_config_entries() {
    let entries = vec![
        ConfigEntry { key: "font_size".to_owned(), value: ConfigValue::Int(20) },
        ConfigEntry { key: "background".to_owned(), value: ConfigValue::Text("gray".to_owned()) },
        ConfigEntry { key: "unknown-option".to_owned(), value: ConfigValue::Flag(true) },
        ConfigEntry { key: "font_size".to_owned(), value: ConfigValue::Int(24) },
    ];
    let s = from_config(&entries);
    assert_eq!(s.font_size, Some(24));
    assert_eq!(s.background.as_deref(), Some("gray"));
    assert_eq!(s.font_family, None);
    assert_eq!(s.fill_color, None);
    assert_eq!(s.stroke_color, None);
}

#[test]
fn settings_ignore_ill_shaped_values() {
    let entries = vec![
        ConfigEntry { key: "font_size".to_owned(), value: ConfigValue::Int(-3) },
        ConfigEntry { key: "background".to_owned(), value: ConfigValue::Int(7) },
    ];
    let s = from_config(&entries);
    assert_eq!(s.font_size, None);
    assert_eq!(s.background, None);
}

#[test]
fn settings_default_is_all_unset() {
    let s = Settings::default();
    assert_eq!(s.font_size, None);
    assert_eq!(s.font_family, None);
    assert_eq!(s.fill_color, None);
    assert_eq!(s.background, None);
    assert_eq!(s.stroke_color, None);
}

#[test]
fn compat_equal_versions() {
    let r = check_compat(&"0.4.21".to_owned(), &"0.4.21".to_owned());
    assert!(matches!(r, Ok(CompatOutcome::Compatible)));
}

#[test]
fn compat_same_line_newer_patch() {
    let r = check_compat(&"0.4.22".to_owned(), &"0.4.21".to_owned());
    assert!(matches!(r, Ok(CompatOutcome::Compatible)));
}

#[test]
fn compat_older_patch_mismatch() {
    let r = check_compat(&"0.4.20".to_owned(), &"0.4.21".to_owned());
    assert!(matches!(r, Ok(CompatOutcome::Mismatch)));
}

#[test]
fn compat_different_minor_mismatch() {
    let r = check_compat(&"0.5.0".to_owned(), &"0.4.21".to_owned());
    assert!(matches!(r, Ok(CompatOutcome::Mismatch)));
    let r = check_compat(&"1.4.21".to_owned(), &"0.4.21".to_owned());
    assert!(matches!(r, Ok(CompatOutcome::Mismatch)));
}

#[test]
fn compat_prerelease_caller_mismatch() {
    let r = check_compat(&"0.4.21-alpha.1".to_owned(), &"0.4.21".to_owned());
    assert!(matches!(r, Ok(CompatOutcome::Mismatch)));
}

#[test]
fn compat_bad_caller_version() {
    let r = check_compat(&"not a version".to_owned(), &"0.4.21".to_owned());
    assert!(matches!(r, Err(CompatError::BadCallerVersion)));
}

#[test]
fn compat_bad_built_version() {
    let r = check_compat(&"0.4.21".to_owned(), &"oops".to_owned());
    assert!(matches!(r, Err(CompatError::BadBuiltVersion)));
}
