use gdshader_lsp::memory::Memory;
use gdshader_lsp::position::{Position, Range};
use gdshader_lsp::source_code::{Diagnostic, Severity, SourceDocument, TextChange};
use gdshader_lsp::lexer::TokenError;
use gdshader_lsp::{apply_change, calculate_new_end_position, get_byte_offset_from_position};

fn range(a: u32, b: u32, c: u32, d: u32) -> Range {
    Range::new(Position::new(a, b), Position::new(c, d))
}

fn change(r: Option<Range>, text: &str) -> TextChange {
    TextChange { range: r, text: text.to_string() }
}

fn edited(source: &str, r: Option<Range>, text: &str) -> String {
    let mut source = source.to_string();
    apply_change(&mut source, &change(r, text));
    source
}

#[test]
fn an_edit_replaces_its_range() {
    assert_eq!(edited("hello\nworld", Some(range(1, 0, 1, 5)), "there"), "hello\nthere");
    assert_eq!(edited("hello\nworld", Some(range(0, 5, 1, 0)), " "), "hello world");
    assert_eq!(edited("hello\nworld", Some(range(0, 0, 0, 0)), ">> "), ">> hello\nworld");
    assert_eq!(edited("hello\nworld", Some(range(1, 5, 1, 5)), "!"), "hello\nworld!");
    assert_eq!(edited("hello\nworld", Some(range(0, 1, 1, 4)), ""), "hd");
    assert_eq!(edited("ab\n", Some(range(1, 0, 1, 0)), "cd"), "ab\ncd");
    assert_eq!(edited("", Some(range(0, 0, 0, 0)), "x"), "x");
    assert_eq!(edited("héllo", Some(range(0, 1, 0, 2)), "e"), "hello");
}

#[test]
fn an_edit_that_names_no_span_changes_nothing() {
    assert_eq!(edited("hello\nworld", None, "there"), "hello\nworld");
    assert_eq!(edited("hello\nworld", Some(range(1, 0, 1, 6)), "x"), "hello\nworld");
    assert_eq!(edited("hello\nworld", Some(range(2, 0, 2, 0)), "x"), "hello\nworld");
    assert_eq!(edited("hello\nworld", Some(range(1, 3, 1, 2)), "x"), "hello\nworld");
    assert_eq!(edited("hello\nworld", Some(range(1, 0, 0, 0)), "x"), "hello\nworld");
}

#[test]
fn offsets_of_positions() {
    let source = "ab\ncd".to_string();
    assert_eq!(get_byte_offset_from_position(&source, Position::new(0, 0)), 0);
    assert_eq!(get_byte_offset_from_position(&source, Position::new(0, 2)), 2);
    assert_eq!(get_byte_offset_from_position(&source, Position::new(1, 1)), 4);
    assert_eq!(get_byte_offset_from_position(&source, Position::new(1, 9)), 12);
    assert_eq!(get_byte_offset_from_position(&source, Position::new(5, 0)), 6);
    assert_eq!(get_byte_offset_from_position(&"".to_string(), Position::new(0, 0)), 0);
    assert_eq!(get_byte_offset_from_position(&"a\n".to_string(), Position::new(1, 0)), 2);
}

#[test]
fn where_new_text_ends() {
    let end = |text: &str| calculate_new_end_position(Position::new(2, 3), text);
    assert_eq!(end("abc"), Position::new(2, 6));
    assert_eq!(end(""), Position::new(2, 3));
    assert_eq!(end("a\nbc"), Position::new(3, 2));
    assert_eq!(end("a\nbc\ndef"), Position::new(4, 3));
    assert_eq!(end("a\n"), Position::new(2, 5));
    assert_eq!(end("a\nbc\n"), Position::new(3, 2));
    assert_eq!(end("\n\n"), Position::new(3, 0));
    assert_eq!(
        calculate_new_end_position(Position::new(4294967295, 4294967295), "a\nb"),
        Position::new(4294967295, 1)
    );
    assert_eq!(
        calculate_new_end_position(Position::new(0, 4294967295), "ab"),
        Position::new(0, 4294967295)
    );
}

#[test]
fn a_document_keeps_its_diagnostics() {
    let mut document = SourceDocument::new("a\nb");
    assert_eq!(document.get_code(), "a\nb");
    assert!(document.get_diagnostics().is_empty());
    assert_eq!(document.push_error("first", range(0, 0, 0, 1), 7), 7);
    assert_eq!(document.push_eof_error(range(1, 0, 1, 1)), TokenError::EofError);
    let found: Vec<(String, Range, Severity)> = document
        .get_diagnostics()
        .iter()
        .map(|d| (d.message.clone(), d.range, d.severity))
        .collect();
    assert_eq!(
        found,
        vec![
            ("first".to_string(), range(0, 0, 0, 1), Severity::Error),
            ("Unexpected EOF".to_string(), range(1, 0, 1, 1), Severity::Error),
        ]
    );
    let more = vec![Diagnostic {
        range: range(0, 0, 0, 0),
        severity: Severity::Warning,
        message: "more".to_string(),
    }];
    document.add_diagnostics(more);
    assert_eq!(document.get_diagnostics().len(), 3);
    assert_eq!(document.get_diagnostics()[2].message, "more");
    document.apply_change(change(Some(range(1, 0, 1, 1)), "c\nd"));
    assert_eq!(document.get_code(), "a\nc\nd");
    assert_eq!(document.get_diagnostics().len(), 3);
    assert_eq!(document.text_at(range(1, 0, 2, 1)), "c\nd");
    assert_eq!(document.offset_at(Position::new(2, 1)), 5);
    document.force_change_diagnostics(Vec::new());
    assert!(document.get_diagnostics().is_empty());
}

#[test]
fn an_environment_follows_the_edits_of_its_document() {
    let mut memory = Memory::new("void f() { x; }", Some("root".to_string()));
    assert_eq!(memory.evaluate_new(None).len(), 1);
    memory.apply_change(change(Some(range(0, 11, 0, 12)), "PI"));
    assert_eq!(memory.get_source().get_code(), "void f() { PI; }");
    let mut fresh = Memory::new(memory.get_source().get_code(), memory.root_dir.clone());
    assert_eq!(fresh.evaluate_new(None).len(), 0);
}
