use std::collections::HashMap;

use ricci_cli::assistant::batch::{
    BatchAction, BatchEvent, BatchResult, ChangeBatch, ChangeOutcome, FileChange, UserChoice,
};
use ricci_cli::assistant::file_modifier::{BackupCopy, FileModifier, SafeFileModifier};

fn change(path: &str, original: &str, new: &str) -> FileChange {
    FileChange {
        path: path.to_string(),
        original_content: original.to_string(),
        new_content: new.to_string(),
        description: format!("change {}", path),
    }
}

struct Run {
    files: HashMap<String, String>,
    prompts: usize,
    presented: Vec<usize>,
    result: BatchResult,
    batch: ChangeBatch,
}

/// Drives a batch over files held in memory. The user's answers are taken
/// from `choices` in order; an edit appends `edit_suffix` to the content.
fn drive(
    mut batch: ChangeBatch,
    mut files: HashMap<String, String>,
    choices: &[UserChoice],
    edit_suffix: &str,
    fail_write_at: Option<usize>,
) -> Run {
    let mut next_choice = 0;
    let mut prompts = 0;
    let mut presented = Vec::new();
    loop {
        match batch.action() {
            BatchAction::Present { index, .. } => {
                presented.push(index);
                batch = batch.handle(BatchEvent::Presented);
            }
            BatchAction::Prompt { .. } => {
                prompts += 1;
                let choice = choices[next_choice];
                next_choice += 1;
                batch = batch.handle(BatchEvent::Decided(choice));
            }
            BatchAction::Write { index, path, content } => {
                if fail_write_at == Some(index) {
                    batch = batch.handle(BatchEvent::Failed);
                } else {
                    files.insert(path, content);
                    batch = batch.handle(BatchEvent::Written);
                }
            }
            BatchAction::Edit { scratch_path, content, index } => {
                let path = &batch.changes()[index].path;
                assert_eq!(scratch_path, format!("{}.tmp", path));
                batch = batch.handle(BatchEvent::Edited(format!("{}{}", content, edit_suffix)));
            }
            BatchAction::Finish(result) => {
                return Run { files, prompts, presented, result, batch };
            }
        }
    }
}

fn files_of(entries: &[(&str, &str)]) -> HashMap<String, String> {
    entries.iter().map(|(k, v)| (k.to_string(), v.to_string())).collect()
}

#[test]
fn empty_batch_has_nothing_to_do() {
    let batch = FileModifier::new(false).apply_changes(Vec::new());
    assert_eq!(batch.action(), BatchAction::Finish(BatchResult::NothingToDo));
    assert_eq!(batch.result(), Some(BatchResult::NothingToDo));
}

#[test]
fn first_action_presents_first_change_with_diff() {
    let batch = FileModifier::new(false).apply_changes(vec![change("a", "", "x")]);
    assert_eq!(batch.action(), BatchAction::Present { index: 0, with_diff: true });
    assert_eq!(batch.result(), None);
}

#[test]
fn apply_writes_new_content() {
    let batch = FileModifier::new(false).apply_changes(vec![change("a.txt", "old", "new")]);
    let run = drive(batch, files_of(&[("a.txt", "old")]), &[UserChoice::Apply], "", None);
    assert_eq!(run.result, BatchResult::Completed);
    assert_eq!(run.files["a.txt"], "new");
    assert_eq!(run.prompts, 1);
    assert_eq!(run.batch.outcomes(), &vec![ChangeOutcome::Applied]);
    assert_eq!(run.batch.modified_count(), 1);
}

#[test]
fn skip_leaves_file_alone_and_goes_on() {
    let batch = FileModifier::new(false)
        .apply_changes(vec![change("a", "1", "2"), change("b", "3", "4")]);
    let run = drive(
        batch,
        files_of(&[("a", "1"), ("b", "3")]),
        &[UserChoice::Skip, UserChoice::Apply],
        "",
        None,
    );
    assert_eq!(run.result, BatchResult::Completed);
    assert_eq!(run.files, files_of(&[("a", "1"), ("b", "4")]));
    assert_eq!(run.presented, vec![0, 1]);
    assert_eq!(run.batch.outcomes(), &vec![ChangeOutcome::Skipped, ChangeOutcome::Applied]);
    assert_eq!(run.batch.modified_count(), 1);
}

#[test]
fn edit_writes_what_the_editor_left() {
    let batch = FileModifier::new(false).apply_changes(vec![change("src/a.rs", "", "fn a() {}")]);
    let run = drive(batch, HashMap::new(), &[UserChoice::Edit], "\n// edited", None);
    assert_eq!(run.result, BatchResult::Completed);
    assert_eq!(run.files["src/a.rs"], "fn a() {}\n// edited");
    assert_eq!(
        run.batch.outcomes(),
        &vec![ChangeOutcome::Edited("fn a() {}\n// edited".to_string())]
    );
}

#[test]
fn cancel_halts_remaining_work() {
    let changes = vec![
        change("one", "1", "1+"),
        change("two", "2", "2+"),
        change("three", "3", "3+"),
        change("four", "", "4+"),
    ];
    let before = files_of(&[("one", "1"), ("two", "2"), ("three", "3")]);
    let batch = FileModifier::new(false).apply_changes(changes);
    let run = drive(
        batch,
        before.clone(),
        &[UserChoice::Apply, UserChoice::Skip, UserChoice::Cancel],
        "",
        None,
    );
    assert_eq!(run.result, BatchResult::Cancelled);
    assert_eq!(run.files["one"], "1+");
    assert_eq!(run.files["two"], "2");
    assert_eq!(run.files["three"], "3");
    assert!(!run.files.contains_key("four"));
    assert_eq!(run.presented, vec![0, 1, 2]);
    assert_eq!(run.batch.outcomes(), &vec![ChangeOutcome::Applied, ChangeOutcome::Skipped]);
}

#[test]
fn cancelled_batch_ignores_later_events() {
    let mut batch = FileModifier::new(false).apply_changes(vec![change("a", "", "x")]);
    batch = batch.handle(BatchEvent::Presented);
    batch = batch.handle(BatchEvent::Decided(UserChoice::Cancel));
    for event in [
        BatchEvent::Presented,
        BatchEvent::Decided(UserChoice::Apply),
        BatchEvent::Written,
        BatchEvent::Edited("y".to_string()),
        BatchEvent::Failed,
    ] {
        batch = batch.handle(event);
        assert_eq!(batch.action(), BatchAction::Finish(BatchResult::Cancelled));
        assert!(batch.outcomes().is_empty());
    }
}

#[test]
fn event_that_does_not_answer_the_action_is_ignored() {
    let mut batch = FileModifier::new(false).apply_changes(vec![change("a", "", "x")]);
    batch = batch.handle(BatchEvent::Written);
    batch = batch.handle(BatchEvent::Decided(UserChoice::Apply));
    assert_eq!(batch.action(), BatchAction::Present { index: 0, with_diff: true });
    batch = batch.handle(BatchEvent::Presented);
    batch = batch.handle(BatchEvent::Written);
    assert_eq!(batch.action(), BatchAction::Prompt { index: 0 });
}

#[test]
fn write_failure_halts_the_batch() {
    let batch = FileModifier::new(false)
        .apply_changes(vec![change("a", "", "x"), change("b", "", "y"), change("c", "", "z")]);
    let run = drive(
        batch,
        HashMap::new(),
        &[UserChoice::Apply, UserChoice::Apply, UserChoice::Apply],
        "",
        Some(1),
    );
    assert_eq!(run.result, BatchResult::Failed);
    assert_eq!(run.files, files_of(&[("a", "x")]));
    assert_eq!(run.batch.modified_count(), 1);
    assert_eq!(run.presented, vec![0, 1]);
}

#[test]
fn auto_confirm_never_prompts_and_is_idempotent() {
    let changes = vec![change("a", "1", "A"), change("b", "", "B"), change("a", "A", "AA")];
    let first = drive(
        FileModifier::new(true).apply_changes(changes.clone()),
        files_of(&[("a", "1"), ("z", "keep")]),
        &[],
        "",
        None,
    );
    assert_eq!(first.result, BatchResult::Completed);
    assert_eq!(first.prompts, 0);
    assert_eq!(first.files, files_of(&[("a", "AA"), ("b", "B"), ("z", "keep")]));
    let second = drive(
        FileModifier::new(true).apply_changes(changes),
        first.files.clone(),
        &[],
        "",
        None,
    );
    assert_eq!(second.prompts, 0);
    assert_eq!(second.files, first.files);
}

#[test]
fn menu_selection_maps_to_choice() {
    assert_eq!(FileModifier::ask_user_choice(0), UserChoice::Apply);
    assert_eq!(FileModifier::ask_user_choice(1), UserChoice::Skip);
    assert_eq!(FileModifier::ask_user_choice(2), UserChoice::Edit);
    assert_eq!(FileModifier::ask_user_choice(3), UserChoice::Cancel);
    assert_eq!(FileModifier::ask_user_choice(17), UserChoice::Cancel);
}

#[test]
fn modify_file_builds_a_single_change() {
    let modifier = FileModifier::new(false);
    let batch = modifier.modify_file("README.md", None, "# Title", "update");
    assert_eq!(batch.changes().len(), 1);
    assert_eq!(batch.changes()[0].path, "README.md");
    assert_eq!(batch.changes()[0].original_content, "");
    assert_eq!(batch.changes()[0].new_content, "# Title");
    assert_eq!(batch.changes()[0].description, "update");
    let batch = modifier.modify_file("README.md", Some("old".to_string()), "new", "d");
    assert_eq!(batch.changes()[0].original_content, "old");
}

#[test]
fn show_diff_reproduces_both_contents() {
    let diff = FileModifier::new(false).show_diff("a\nb\n", "a\nc\n");
    let new: String = diff
        .iter()
        .filter(|l| l.tag != ricci_cli::assistant::diff::ChangeTag::Delete)
        .map(|l| l.text.as_str())
        .collect();
    assert_eq!(new, "a\nc\n");
}

#[test]
fn backup_path_sanitizes_separators() {
    let safe = SafeFileModifier::new(false);
    assert_eq!(
        safe.backup_path("src/assistant\\mod.rs", "20240102_030405"),
        ".ricci_backups/src_assistant_mod.rs_20240102_030405.bak"
    );
    assert_eq!(safe.backup_path("", "t"), ".ricci_backups/_t.bak");
}

#[test]
fn backups_are_planned_for_existing_files_only() {
    let safe = SafeFileModifier::new(false);
    let changes = vec![change("src/lib.rs", "old", "new"), change("src/utils.rs", "", "x")];
    let copies = safe.plan_backups(&changes, &vec![true, false], "20240102_030405");
    assert_eq!(
        copies,
        vec![BackupCopy {
            from: "src/lib.rs".to_string(),
            to: ".ricci_backups/src_lib.rs_20240102_030405.bak".to_string(),
        }]
    );
    assert_eq!(safe.plan_backups(&changes, &vec![], "t"), Vec::<BackupCopy>::new());
    assert_eq!(safe.plan_backups(&changes, &vec![true, true, true], "t").len(), 2);
}

#[test]
fn backup_precedes_write() {
    let safe = SafeFileModifier::new(true);
    let changes = vec![change("src/lib.rs", "old", "new"), change("src/utils.rs", "", "fresh")];
    let mut files = files_of(&[("src/lib.rs", "old")]);
    let run = safe.modify_with_backup(changes, &vec![true, false]);
    assert_eq!(run.backup_dir, ".ricci_backups");
    assert_eq!(run.copies.len(), 1);
    let copy = &run.copies[0];
    assert_eq!(copy.from, "src/lib.rs");
    assert!(copy.to.starts_with(".ricci_backups/src_lib.rs_"));
    assert!(copy.to.ends_with(".bak"));
    let stamp = &copy.to[".ricci_backups/src_lib.rs_".len()..copy.to.len() - ".bak".len()];
    assert_eq!(stamp.len(), 15);
    assert!(stamp.chars().enumerate().all(|(i, c)| if i == 8 { c == '_' } else { c.is_ascii_digit() }));
    for copy in &run.copies {
        let content = files[&copy.from].clone();
        files.insert(copy.to.clone(), content);
    }
    let done = drive(run.batch, files, &[], "", None);
    assert_eq!(done.result, BatchResult::Completed);
    assert_eq!(done.prompts, 0);
    assert_eq!(done.files[&copy.to], "old");
    assert_eq!(done.files["src/lib.rs"], "new");
    assert_eq!(done.files["src/utils.rs"], "fresh");
    assert_eq!(done.files.len(), 3);
}

#[test]
fn editor_is_the_configured_one_or_notepad() {
    assert_eq!(FileModifier::edit_change(Some("vim".to_string())), "vim");
    assert_eq!(FileModifier::edit_change(None), "notepad");
}
