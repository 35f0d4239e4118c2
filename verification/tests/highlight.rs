use ricci_cli::renderer::highlight::Highlighter;

#[test]
fn highlighted_block_has_one_string_per_line() {
    let h = Highlighter::new();
    let block = h.highlight_code("rs", "fn main() {\n    let x = 1;\n}\n");
    assert!(block.highlighted);
    assert_eq!(block.language, "rs");
    assert_eq!(block.lines.len(), 3);
    assert!(block.lines[0].contains("fn"));
    assert!(block.lines[0].contains("\u{1b}[38;2;"));
    assert!(block.lines[1].contains("let"));
}

#[test]
fn syntax_is_found_by_name_before_extension() {
    let h = Highlighter::new();
    let by_name = h.highlight_code("Rust", "let a = \"s\";");
    let by_extension = h.highlight_code("rs", "let a = \"s\";");
    assert_eq!(by_name.lines, by_extension.lines);
    assert_ne!(by_name.lines[0], "let a = \"s\";");
}

#[test]
fn unknown_language_degrades_to_plain_text_colours() {
    let h = Highlighter::new();
    let block = h.highlight_code("no-such-language", "let a = 1;\nsecond line");
    assert_eq!(block.lines.len(), 2);
    let plain = h.highlight_code("Plain Text", "let a = 1;\nsecond line");
    assert_eq!(block.lines, plain.lines);
    assert!(block.lines[1].ends_with("second line"));
}

#[test]
fn empty_language_and_empty_code_are_fine() {
    let h = Highlighter::new();
    assert_eq!(h.highlight_code("", "").lines.len(), 0);
    assert_eq!(h.highlight_code("", "x").lines.len(), 1);
    assert_eq!(h.highlight_code("py", "a\r\nb\n\nc").lines.len(), 4);
}

#[test]
fn a_new_highlighter_has_its_theme() {
    let h = Highlighter::new();
    assert!(h.highlight_code("Plain Text", "a line").highlighted);
    assert!(h.highlight_code("no-such-language", "a line").highlighted);
    assert!(h.highlight_code("Rust", "fn f() {}").highlighted);
}
