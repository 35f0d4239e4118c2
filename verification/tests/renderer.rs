use ricci_cli::renderer::{MarkdownRenderer, Segment};

fn prose(text: &str) -> Segment {
    Segment::Prose(text.to_string())
}

fn code(language: &str, code: &str) -> Segment {
    Segment::Code { language: language.to_string(), code: code.to_string() }
}

fn stream(fragments: &[&str]) -> Vec<Segment> {
    let mut renderer = MarkdownRenderer::new();
    let mut out = Vec::new();
    for fragment in fragments {
        out.extend(renderer.render_chunk(fragment));
    }
    out.extend(renderer.finish());
    out
}

#[test]
fn prose_only_never_yields_code() {
    let out = stream(&["# Title\n", "some *text*\n"]);
    assert_eq!(out, vec![prose("# Title\nsome *text*\n")]);
}

#[test]
fn empty_answer_yields_nothing() {
    assert_eq!(stream(&[]), Vec::<Segment>::new());
    assert_eq!(stream(&[""]), Vec::<Segment>::new());
}

#[test]
fn fenced_block_is_code_with_its_language() {
    let out = stream(&["intro\n```rust\nfn main() {}\n```\noutro\n"]);
    assert_eq!(
        out,
        vec![prose("intro\n"), code("rust", "fn main() {}\n"), prose("outro\n")]
    );
}

#[test]
fn segments_do_not_depend_on_fragment_boundaries() {
    let text = "intro\n```rust\nfn main() {}\n```\noutro\n``` py \nx = 1\n";
    let whole = stream(&[text]);
    let chars: Vec<char> = text.chars().collect();
    for cut in 0..=chars.len() {
        let a: String = chars[..cut].iter().collect();
        let b: String = chars[cut..].iter().collect();
        assert_eq!(stream(&[&a, &b]), whole, "cut at {}", cut);
    }
    let singles: Vec<String> = chars.iter().map(|c| c.to_string()).collect();
    let refs: Vec<&str> = singles.iter().map(|s| s.as_str()).collect();
    assert_eq!(stream(&refs), whole);
    assert_eq!(MarkdownRenderer::render_with_code_blocks(text), whole);
}

#[test]
fn fence_split_across_fragments_is_still_a_fence() {
    let out = stream(&["a\n`", "``ru", "st\nlet x", " = 1;\n``", "`\n"]);
    assert_eq!(out, vec![prose("a\n"), code("rust", "let x = 1;\n")]);
}

#[test]
fn one_code_segment_per_complete_fence_in_order() {
    let out = stream(&["```a\n1\n```\nmid\n```b\n2\n```\n```\n3\n```\n"]);
    assert_eq!(
        out,
        vec![code("a", "1\n"), prose("mid\n"), code("b", "2\n"), code("", "3\n")]
    );
}

#[test]
fn unterminated_fence_still_yields_its_code_on_finish() {
    let mut renderer = MarkdownRenderer::new();
    let first = renderer.render_chunk("text\n```python\nprint(1)\nprint(2");
    assert_eq!(first, vec![prose("text\n")]);
    let rest = renderer.finish();
    assert_eq!(rest, vec![code("python", "print(1)\nprint(2\n")]);
}

#[test]
fn unterminated_fence_without_body_yields_no_code() {
    assert_eq!(stream(&["text\n```python\n"]), vec![prose("text\n")]);
}

#[test]
fn empty_block_is_still_a_code_segment() {
    assert_eq!(stream(&["```\n```\n"]), vec![code("", "")]);
}

#[test]
fn partial_line_waits_for_its_line_feed() {
    let mut renderer = MarkdownRenderer::new();
    assert_eq!(renderer.render_chunk("```sh\nls"), Vec::<Segment>::new());
    assert_eq!(renderer.render_chunk(" -l\n``"), Vec::<Segment>::new());
    assert_eq!(renderer.render_chunk("`"), Vec::<Segment>::new());
    assert_eq!(renderer.render_chunk("\n"), vec![code("sh", "ls -l\n")]);
    assert_eq!(renderer.finish(), Vec::<Segment>::new());
}

#[test]
fn last_line_without_line_feed_can_close_a_fence() {
    assert_eq!(stream(&["```rust\nlet a;\n```"]), vec![code("rust", "let a;\n")]);
}

#[test]
fn indented_fence_and_spaced_tag_are_recognised() {
    let out = stream(&["  ```  toml  \nk = 1\n\t```\n"]);
    assert_eq!(out, vec![code("toml", "k = 1\n")]);
}

#[test]
fn carriage_return_before_line_feed_is_dropped() {
    let out = stream(&["a\r\n```c\r\nint x;\r\n```\r\nb\r"]);
    assert_eq!(out, vec![prose("a\n"), code("c", "int x;\n"), prose("b\r\n")]);
}

#[test]
fn finish_resets_the_renderer() {
    let mut renderer = MarkdownRenderer::new();
    renderer.render_chunk("```x\nopen");
    renderer.finish();
    assert_eq!(renderer.render_chunk("plain\n"), Vec::<Segment>::new());
    assert_eq!(renderer.finish(), vec![prose("plain\n")]);
}

#[test]
fn backticks_inside_a_line_are_not_a_fence() {
    let out = stream(&["use ```not a fence\n"]);
    assert_eq!(out, vec![prose("use ```not a fence\n")]);
}

#[test]
fn renderer_draws_tables_and_progress() {
    let renderer = MarkdownRenderer::new();
    let rows = vec![vec!["a".to_string(), "b".to_string()]];
    assert_eq!(
        renderer.render_table(&vec!["x".to_string(), "y".to_string()], &rows),
        "+---+---+\n| x | y |\n+---+---+\n| a | b |\n+---+---+\n"
    );
    assert_eq!(
        renderer.render_progress("load", 50, false),
        format!("\rload: [{}{}] 50%", "█".repeat(25), "░".repeat(25))
    );
}
