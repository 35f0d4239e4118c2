//! Applying proposed file changes under review, with or without backups.
//!
//! Nothing here reads or writes a file. A modifier turns a list of changes
//! into a batch to be driven step by step, and a safe modifier adds the list
//! of backup copies that are to be made first.

use vstd::prelude::*;
use crate::assistant::batch::{
    change_views, BatchState, ChangeBatch, FileChange, FileChangeView, UserChoice,
};
use crate::assistant::diff::{
    checked_diff, compute_diff, diff_views, line_changes, new_side, old_side, DiffLine,
};
use crate::assistant::files::{
    all_writes, apply_ops, last_write, lemma_last_write_wins, FileOp, Files,
};
use crate::assistant::laws::all_applied;
use crate::clock::local_timestamp;
use crate::text::{chars_of, push_str, string_of};

verus! {

/// Applies proposed changes after review.
pub struct FileModifier {
    auto_confirm: bool,
    show_diff: bool,
}

impl FileModifier {
    /// Whether every change is applied without asking.
    pub closed spec fn auto_confirm(&self) -> bool {
        self.auto_confirm
    }

    /// Whether diffs are shown.
    pub closed spec fn shows_diff(&self) -> bool {
        self.show_diff
    }

    /// A modifier that shows diffs and, unless `auto_confirm`, asks before
    /// each change.
    pub fn new(auto_confirm: bool) -> (m: Self)
        ensures
            m.auto_confirm() == auto_confirm,
            m.shows_diff(),
    {
        FileModifier { auto_confirm, show_diff: true }
    }

    /// Begins the review of `changes`. The batch that comes back says, step
    /// by step, what is to be shown, asked and written.
    pub fn apply_changes(&self, changes: Vec<FileChange>) -> (batch: ChangeBatch)
        ensures
            batch@ == BatchState::start(
                change_views(changes@),
                self.auto_confirm(),
                self.shows_diff(),
            ),
    {
        ChangeBatch::new(changes, self.auto_confirm, self.show_diff)
    }

    /// Begins the review of a change to a single file. `existing` is what the
    /// file holds now, `None` when there is no such file.
    pub fn modify_file(
        &self,
        path: &str,
        existing: Option<String>,
        new_content: &str,
        description: &str,
    ) -> (batch: ChangeBatch)
        ensures
            batch@ == BatchState::start(
                seq![
                    FileChangeView {
                        path: path@,
                        original_content: match existing {
                            Some(content) => content@,
                            None => Seq::empty(),
                        },
                        new_content: new_content@,
                        description: description@,
                    },
                ],
                self.auto_confirm(),
                self.shows_diff(),
            ),
    {
        let original_content = match existing {
            Some(content) => content,
            None => String::new(),
        };
        let change = FileChange {
            path: path.to_owned(),
            original_content,
            new_content: new_content.to_owned(),
            description: description.to_owned(),
        };
        let mut changes: Vec<FileChange> = Vec::new();
        changes.push(change);
        proof {
            assert(change_views(changes@) =~= seq![change@]);
        }
        self.apply_changes(changes)
    }

    /// The diff that is shown for a change: removing its deleted lines gives
    /// `new`, removing its inserted lines gives `original`.
    pub fn show_diff(&self, original: &str, new: &str) -> (diff: Vec<DiffLine>)
        ensures
            diff_views(diff@) == checked_diff(line_changes(original@, new@), original@, new@),
            old_side(diff_views(diff@)) == original@,
            new_side(diff_views(diff@)) == new@,
    {
        compute_diff(original, new)
    }

    /// The editor that an edit opens: the one that the environment names,
    /// `notepad` where it names none.
    pub fn edit_change(configured: Option<String>) -> (editor: String)
        ensures
            editor@ == match configured {
                Some(name) => name@,
                None => "notepad"@,
            },
    {
        match configured {
            Some(name) => name,
            None => "notepad".to_owned(),
        }
    }

    /// The decision that the entry at `selection` of the menu stands for:
    /// apply, skip, edit, and cancel for anything after.
    pub fn ask_user_choice(selection: usize) -> (choice: UserChoice)
        ensures
            choice == if selection == 0 {
                UserChoice::Apply
            } else if selection == 1 {
                UserChoice::Skip
            } else if selection == 2 {
                UserChoice::Edit
            } else {
                UserChoice::Cancel
            },
    {
        if selection == 0 {
            UserChoice::Apply
        } else if selection == 1 {
            UserChoice::Skip
        } else if selection == 2 {
            UserChoice::Edit
        } else {
            UserChoice::Cancel
        }
    }
}

/// A copy to be made before a batch starts.
#[derive(Debug, Clone, PartialEq, Eq)]
pub struct BackupCopy {
    pub from: String,
    pub to: String,
}

impl View for BackupCopy {
    type V = FileOp;

    open spec fn view(&self) -> FileOp {
        FileOp::Copy { from: self.from@, to: self.to@ }
    }
}

/// The copies of `copies` as file operations.
pub open spec fn copy_views(copies: Seq<BackupCopy>) -> Seq<FileOp> {
    copies.map_values(|c: BackupCopy| c@)
}

/// A path with its separators, forward and backward, replaced by underscores.
pub open spec fn sanitized(path: Seq<char>) -> Seq<char> {
    path.map_values(
        |c: char|
            if c == '/' || c == '\\' {
                '_'
            } else {
                c
            },
    )
}

/// Where the backup of `path` made at `timestamp` goes: into `dir`, under
/// the sanitized path, an underscore, the timestamp and `.bak`.
pub open spec fn backup_path(dir: Seq<char>, path: Seq<char>, timestamp: Seq<char>) -> Seq<char> {
    dir + seq!['/'] + sanitized(path) + seq!['_'] + timestamp + seq!['.', 'b', 'a', 'k']
}

/// The backup copies for `changes`: one for each change whose file exists,
/// in the order of the changes. `exists` says for each change whether its
/// file exists; a change without a flag counts as new.
pub open spec fn backup_copies(
    changes: Seq<FileChangeView>,
    exists: Seq<bool>,
    dir: Seq<char>,
    timestamp: Seq<char>,
) -> Seq<FileOp>
    decreases changes.len(),
{
    if changes.len() == 0 {
        Seq::empty()
    } else {
        let index = changes.len() - 1;
        let earlier = backup_copies(changes.drop_last(), exists, dir, timestamp);
        if index < exists.len() && exists[index] {
            earlier.push(
                FileOp::Copy {
                    from: changes[index].path,
                    to: backup_path(dir, changes[index].path, timestamp),
                },
            )
        } else {
            earlier
        }
    }
}

/// What a safe modifier asks for: copies to make first, then a batch.
pub struct BackupRun {
    /// The directory that receives the backups; it is created if missing.
    pub backup_dir: String,
    /// The copies to make, in order. A copy that fails is reported and does
    /// not stop the others nor the batch.
    pub copies: Vec<BackupCopy>,
    /// The review of the changes.
    pub batch: ChangeBatch,
}

/// Applies proposed changes after review, keeping a copy of every file that
/// a change could overwrite.
pub struct SafeFileModifier {
    modifier: FileModifier,
    backup_dir: String,
}

impl SafeFileModifier {
    /// The directory that receives the backups.
    pub closed spec fn backup_dir(&self) -> Seq<char> {
        self.backup_dir@
    }

    /// Whether every change is applied without asking.
    pub closed spec fn auto_confirm(&self) -> bool {
        self.modifier.auto_confirm()
    }

    /// Whether diffs are shown.
    pub closed spec fn shows_diff(&self) -> bool {
        self.modifier.shows_diff()
    }

    /// A safe modifier that shows diffs and keeps its backups in
    /// `.ricci_backups`.
    pub fn new(auto_confirm: bool) -> (m: Self)
        ensures
            m.auto_confirm() == auto_confirm,
            m.shows_diff(),
            m.backup_dir() == ".ricci_backups"@,
    {
        SafeFileModifier {
            modifier: FileModifier::new(auto_confirm),
            backup_dir: ".ricci_backups".to_owned(),
        }
    }

    /// Where the backup of `path` made at `timestamp` goes.
    pub fn backup_path(&self, path: &str, timestamp: &str) -> (to: String)
        ensures
            to@ == backup_path(self.backup_dir(), path@, timestamp@),
    {
        let mut out = chars_of(self.backup_dir.as_str());
        out.push('/');
        let chars = chars_of(path);
        let ghost head = out@;
        let mut i: usize = 0;
        while i < chars.len()
            invariant
                i <= chars.len(),
                chars@ == path@,
                out@ == head + sanitized(path@).take(i as int),
            decreases chars.len() - i,
        {
            let c = chars[i];
            if c == '/' || c == '\\' {
                out.push('_');
            } else {
                out.push(c);
            }
            proof {
                assert(sanitized(path@).take(i + 1) =~= sanitized(path@).take(i as int).push(
                    sanitized(path@)[i as int],
                ));
            }
            i += 1;
        }
        out.push('_');
        push_str(&mut out, timestamp);
        push_str(&mut out, ".bak");
        proof {
            reveal_strlit(".bak");
            assert(".bak"@ =~= seq!['.', 'b', 'a', 'k']);
            assert(sanitized(path@).take(chars.len() as int) =~= sanitized(path@));
            assert(out@ =~= backup_path(self.backup_dir(), path@, timestamp@));
        }
        string_of(&out)
    }

    /// The backup copies for `changes` at `timestamp`: one for each change
    /// whose file exists.
    pub fn plan_backups(&self, changes: &Vec<FileChange>, exists: &Vec<bool>, timestamp: &str) -> (copies:
        Vec<BackupCopy>)
        ensures
            copy_views(copies@) == backup_copies(
                change_views(changes@),
                exists@,
                self.backup_dir(),
                timestamp@,
            ),
    {
        let mut copies: Vec<BackupCopy> = Vec::new();
        let mut i: usize = 0;
        proof {
            assert(change_views(changes@).take(0) =~= Seq::<FileChangeView>::empty());
            assert(copy_views(copies@) =~= Seq::<FileOp>::empty());
        }
        while i < changes.len()
            invariant
                i <= changes.len(),
                copy_views(copies@) == backup_copies(
                    change_views(changes@).take(i as int),
                    exists@,
                    self.backup_dir(),
                    timestamp@,
                ),
            decreases changes.len() - i,
        {
            proof {
                let views = change_views(changes@);
                assert(views.take(i + 1).drop_last() =~= views.take(i as int));
                assert(views.take(i + 1)[i as int] == changes@[i as int]@);
            }
            if i < exists.len() && exists[i] {
                let copy = BackupCopy {
                    from: changes[i].path.clone(),
                    to: self.backup_path(changes[i].path.as_str(), timestamp),
                };
                let ghost before = copy_views(copies@);
                copies.push(copy);
                proof {
                    assert(copy_views(copies@) =~= before.push(copy@));
                }
            }
            i += 1;
        }
        proof {
            let views = change_views(changes@);
            assert(views.take(views.len() as int) =~= views);
        }
        copies
    }

    /// Begins a review with backups. The copies that come back are those of
    /// `plan_backups` for the time of the call; the batch is that of
    /// `apply_changes`.
    pub fn modify_with_backup(&self, changes: Vec<FileChange>, exists: &Vec<bool>) -> (run:
        BackupRun)
        ensures
            run.backup_dir@ == self.backup_dir(),
            exists|timestamp: Seq<char>|
                copy_views(run.copies@) == #[trigger] backup_copies(
                    change_views(changes@),
                    exists@,
                    self.backup_dir(),
                    timestamp,
                ),
            run.batch@ == BatchState::start(
                change_views(changes@),
                self.auto_confirm(),
                self.shows_diff(),
            ),
    {
        let timestamp = local_timestamp();
        let copies = self.plan_backups(&changes, exists, timestamp.as_str());
        let batch = self.modifier.apply_changes(changes);
        BackupRun { backup_dir: self.backup_dir.clone(), copies, batch }
    }
}

/// Backups are made of files that exist, and of no others: every backup copy
/// is the copy of the file of a change whose file exists, to the backup path
/// of that file.
pub proof fn lemma_backups_only_of_existing(
    changes: Seq<FileChangeView>,
    exists: Seq<bool>,
    dir: Seq<char>,
    timestamp: Seq<char>,
)
    ensures
        forall|i: int|
            0 <= i < backup_copies(changes, exists, dir, timestamp).len() ==> exists|k: int|
                0 <= k < changes.len() && k < exists.len() && exists[k] && #[trigger] backup_copies(
                    changes,
                    exists,
                    dir,
                    timestamp,
                )[i] == (FileOp::Copy {
                    from: changes[k].path,
                    to: backup_path(dir, changes[k].path, timestamp),
                }),
    decreases changes.len(),
{
    if changes.len() > 0 {
        let index = changes.len() - 1;
        let init = changes.drop_last();
        let copies = backup_copies(changes, exists, dir, timestamp);
        let earlier = backup_copies(init, exists, dir, timestamp);
        lemma_backups_only_of_existing(init, exists, dir, timestamp);
        assert forall|i: int| 0 <= i < copies.len() implies exists|k: int|
            0 <= k < changes.len() && k < exists.len() && exists[k] && #[trigger] copies[i] == (
            FileOp::Copy {
                from: changes[k].path,
                to: backup_path(dir, changes[k].path, timestamp),
            }) by {
            if i < earlier.len() {
                assert(copies[i] == earlier[i]);
                let k = choose|k: int|
                    0 <= k < init.len() && k < exists.len() && exists[k] && earlier[i] == (
                    FileOp::Copy {
                        from: init[k].path,
                        to: backup_path(dir, init[k].path, timestamp),
                    });
                assert(init[k] == changes[k]);
            } else {
                assert(copies[i] == (FileOp::Copy {
                    from: changes[index].path,
                    to: backup_path(dir, changes[index].path, timestamp),
                }));
            }
        }
    }
}

/// The backup copies are copies from the paths of the changes, and none of
/// them writes to `path` unless `path` is the backup path of a change whose
/// file exists.
proof fn lemma_copies_spare(
    changes: Seq<FileChangeView>,
    exists: Seq<bool>,
    dir: Seq<char>,
    timestamp: Seq<char>,
    files: Files,
    path: Seq<char>,
)
    requires
        forall|k: int|
            0 <= k < changes.len() && k < exists.len() && exists[k] ==> backup_path(
                dir,
                (#[trigger] changes[k]).path,
                timestamp,
            ) != path,
    ensures
        ({
            let after = apply_ops(files, backup_copies(changes, exists, dir, timestamp));
            &&& after.contains_key(path) == files.contains_key(path)
            &&& files.contains_key(path) ==> after[path] == files[path]
        }),
    decreases changes.len(),
{
    if changes.len() > 0 {
        let index = changes.len() - 1;
        let init = changes.drop_last();
        assert forall|k: int|
            0 <= k < init.len() && k < exists.len() && exists[k] implies backup_path(
            dir,
            (#[trigger] init[k]).path,
            timestamp,
        ) != path by {
            assert(init[k] == changes[k]);
        }
        lemma_copies_spare(init, exists, dir, timestamp, files, path);
        let copies = backup_copies(changes, exists, dir, timestamp);
        let earlier = backup_copies(init, exists, dir, timestamp);
        if index < exists.len() && exists[index] {
            assert(copies.drop_last() =~= earlier);
            assert(changes[index].path == changes[index].path);
        }
    }
}

/// After the backup copies, the backup of a change whose file existed holds
/// what that file held before, if the backup path is that of no other file's
/// backup and no backup overwrote the file itself.
proof fn lemma_backup_holds_original(
    changes: Seq<FileChangeView>,
    exists: Seq<bool>,
    dir: Seq<char>,
    timestamp: Seq<char>,
    files: Files,
    j: int,
)
    requires
        0 <= j < changes.len(),
        j < exists.len() && exists[j],
        files.contains_key(changes[j].path),
        forall|k: int|
            0 <= k < changes.len() && k < exists.len() && exists[k] ==> backup_path(
                dir,
                (#[trigger] changes[k]).path,
                timestamp,
            ) != changes[j].path,
        forall|k: int|
            0 <= k < changes.len() && k < exists.len() && exists[k] && backup_path(
                dir,
                (#[trigger] changes[k]).path,
                timestamp,
            ) == backup_path(dir, changes[j].path, timestamp) ==> changes[k].path
                == changes[j].path,
    ensures
        ({
            let after = apply_ops(files, backup_copies(changes, exists, dir, timestamp));
            let backup = backup_path(dir, changes[j].path, timestamp);
            &&& after.contains_key(backup)
            &&& after[backup] == files[changes[j].path]
        }),
    decreases changes.len(),
{
    let index = changes.len() - 1;
    let init = changes.drop_last();
    let copies = backup_copies(changes, exists, dir, timestamp);
    let earlier = backup_copies(init, exists, dir, timestamp);
    let source = changes[j].path;
    let backup = backup_path(dir, source, timestamp);
    assert forall|k: int|
        0 <= k < init.len() && k < exists.len() && exists[k] implies backup_path(
        dir,
        (#[trigger] init[k]).path,
        timestamp,
    ) != source by {
        assert(init[k] == changes[k]);
    }
    lemma_copies_spare(init, exists, dir, timestamp, files, source);
    if j < index {
        assert(init[j] == changes[j]);
        assert forall|k: int|
            0 <= k < init.len() && k < exists.len() && exists[k] && backup_path(
                dir,
                (#[trigger] init[k]).path,
                timestamp,
            ) == backup_path(dir, init[j].path, timestamp) implies init[k].path
            == init[j].path by {
            assert(init[k] == changes[k]);
        }
        lemma_backup_holds_original(init, exists, dir, timestamp, files, j);
    }
    if index < exists.len() && exists[index] {
        assert(copies.drop_last() =~= earlier);
        assert(changes[index].path == changes[index].path);
        if backup_path(dir, changes[index].path, timestamp) == backup {
            assert(changes[index].path == source);
        }
    }
}

/// In a batch where every change is applied, the last change to a path
/// decides what the file holds.
proof fn lemma_last_applied(changes: Seq<FileChangeView>, j: int)
    requires
        0 <= j < changes.len(),
        forall|k: int|
            j < k < changes.len() && (#[trigger] changes[k]).path == changes[j].path
                ==> changes[k].new_content == changes[j].new_content,
    ensures
        last_write(all_applied(changes), changes[j].path) == Some(changes[j].new_content),
    decreases changes.len(),
{
    let index = changes.len() - 1;
    let ops = all_applied(changes);
    assert(ops.last() == FileOp::Write {
        path: changes[index].path,
        content: changes[index].new_content,
    });
    if changes[index].path == changes[j].path {
        assert(changes[index].new_content == changes[j].new_content);
    } else {
        let init = changes.drop_last();
        assert(ops.drop_last() =~= all_applied(init));
        assert(init[j] == changes[j]);
        assert forall|k: int|
            j < k < init.len() && (#[trigger] init[k]).path == init[j].path implies init[k].new_content
            == init[j].new_content by {
            assert(init[k] == changes[k]);
        }
        lemma_last_applied(init, j);
    }
}

proof fn lemma_never_written(changes: Seq<FileChangeView>, path: Seq<char>)
    requires
        forall|k: int| 0 <= k < changes.len() ==> (#[trigger] changes[k]).path != path,
    ensures
        last_write(all_applied(changes), path) is None,
    decreases changes.len(),
{
    if changes.len() > 0 {
        let init = changes.drop_last();
        assert(all_applied(changes).drop_last() =~= all_applied(init));
        assert(changes[changes.len() - 1].path != path);
        assert forall|k: int| 0 <= k < init.len() implies (#[trigger] init[k]).path != path by {
            assert(init[k] == changes[k]);
        }
        lemma_never_written(init, path);
    }
}

/// Backup precedes write. When the backup copies of a batch have been made
/// and then every change applied, a change whose file existed has a backup
/// that holds what the file held before the batch, and the file holds the
/// new content of the change.
///
/// This is stated of a change whose backup is not in the way of anything
/// else: no change of the batch targets a backup path of this file or makes
/// a backup onto this file, no other file of the batch has the same backup
/// path, and a later change to the same file proposes the same content.
pub proof fn lemma_backup_precedes_write(
    changes: Seq<FileChangeView>,
    exists: Seq<bool>,
    dir: Seq<char>,
    timestamp: Seq<char>,
    files: Files,
    j: int,
)
    requires
        0 <= j < changes.len(),
        j < exists.len() && exists[j],
        files.contains_key(changes[j].path),
        forall|k: int|
            0 <= k < changes.len() ==> (#[trigger] changes[k]).path != backup_path(
                dir,
                changes[j].path,
                timestamp,
            ),
        forall|k: int|
            0 <= k < changes.len() && k < exists.len() && exists[k] ==> backup_path(
                dir,
                (#[trigger] changes[k]).path,
                timestamp,
            ) != changes[j].path,
        forall|k: int|
            0 <= k < changes.len() && k < exists.len() && exists[k] && backup_path(
                dir,
                (#[trigger] changes[k]).path,
                timestamp,
            ) == backup_path(dir, changes[j].path, timestamp) ==> changes[k].path
                == changes[j].path,
        forall|k: int|
            j < k < changes.len() && (#[trigger] changes[k]).path == changes[j].path
                ==> changes[k].new_content == changes[j].new_content,
    ensures
        ({
            let copied = apply_ops(files, backup_copies(changes, exists, dir, timestamp));
            let after = apply_ops(copied, all_applied(changes));
            let backup = backup_path(dir, changes[j].path, timestamp);
            &&& after.contains_key(backup)
            &&& after[backup] == files[changes[j].path]
            &&& after.contains_key(changes[j].path)
            &&& after[changes[j].path] == changes[j].new_content
        }),
{
    let copied = apply_ops(files, backup_copies(changes, exists, dir, timestamp));
    let backup = backup_path(dir, changes[j].path, timestamp);
    lemma_backup_holds_original(changes, exists, dir, timestamp, files, j);
    lemma_last_applied(changes, j);
    lemma_never_written(changes, backup);
    assert(all_writes(all_applied(changes)));
    lemma_last_write_wins(copied, all_applied(changes), backup);
    lemma_last_write_wins(copied, all_applied(changes), changes[j].path);
}

} // verus!
