use ricci_cli::assistant::diff::{check_diff, compute_diff, select_diff, ChangeTag, DiffLine};

fn line(tag: ChangeTag, text: &str) -> DiffLine {
    DiffLine { tag, text: text.to_string() }
}

fn rebuild(diff: &[DiffLine], drop: ChangeTag) -> String {
    diff.iter().filter(|l| l.tag != drop).map(|l| l.text.as_str()).collect()
}

#[test]
fn diff_marks_changed_line() {
    let diff = compute_diff("a\nb\nc", "a\nb\nC");
    assert_eq!(
        diff,
        vec![
            line(ChangeTag::Equal, "a\n"),
            line(ChangeTag::Equal, "b\n"),
            line(ChangeTag::Delete, "c"),
            line(ChangeTag::Insert, "C"),
        ]
    );
}

#[test]
fn diff_of_new_file_is_all_insertions() {
    let diff = compute_diff("", "x\ny\n");
    assert_eq!(diff, vec![line(ChangeTag::Insert, "x\n"), line(ChangeTag::Insert, "y\n")]);
}

#[test]
fn diff_of_equal_texts_has_no_change() {
    let diff = compute_diff("same\ntext\n", "same\ntext\n");
    assert!(diff.iter().all(|l| l.tag == ChangeTag::Equal));
    assert_eq!(diff.len(), 2);
}

#[test]
fn diff_reproduces_both_texts() {
    let cases = [
        ("", ""),
        ("a\n", ""),
        ("fn main() {\n    println!(\"Hello, world!\");\n}", "use std::env;\n\nfn main() {\n}\n"),
        ("x\ny\nz\n", "y\nx\nz\nw"),
        ("한글\n줄\n", "한글\n다른 줄\n"),
        ("a\r\nb\r\n", "a\r\nc\r\n"),
    ];
    for (a, b) in cases {
        let diff = compute_diff(a, b);
        assert_eq!(rebuild(&diff, ChangeTag::Delete), b);
        assert_eq!(rebuild(&diff, ChangeTag::Insert), a);
        assert!(check_diff(&diff, a, b));
    }
}

#[test]
fn check_diff_rejects_a_diff_of_other_texts() {
    let diff = vec![line(ChangeTag::Equal, "a\n"), line(ChangeTag::Insert, "b\n")];
    assert!(check_diff(&diff, "a\n", "a\nb\n"));
    assert!(!check_diff(&diff, "a\n", "a\n"));
    assert!(!check_diff(&diff, "", "a\nb\n"));
}

#[test]
fn select_diff_keeps_a_faithful_diff() {
    let raw = vec![line(ChangeTag::Delete, "a\n"), line(ChangeTag::Insert, "b\n")];
    assert_eq!(select_diff(raw.clone(), "a\n", "b\n"), raw);
}

#[test]
fn select_diff_replaces_an_unfaithful_diff() {
    let raw = vec![line(ChangeTag::Equal, "a\n")];
    let diff = select_diff(raw, "a\nb", "c\nd\n");
    assert_eq!(
        diff,
        vec![
            line(ChangeTag::Delete, "a\n"),
            line(ChangeTag::Delete, "b"),
            line(ChangeTag::Insert, "c\n"),
            line(ChangeTag::Insert, "d\n"),
        ]
    );
}

#[test]
fn diff_line_display_has_sign_and_space() {
    assert_eq!(line(ChangeTag::Delete, "old\n").display(), "- old\n");
    assert_eq!(line(ChangeTag::Insert, "new\n").display(), "+ new\n");
    assert_eq!(line(ChangeTag::Equal, "same\n").display(), "  same\n");
}
