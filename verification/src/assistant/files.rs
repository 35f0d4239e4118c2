//! A model of the files that edits act on: a map from paths to contents.
//!
//! The library never touches a disk. It says which writes and copies are to
//! be made, and its laws say what those do to this model.

use vstd::prelude::*;

verus! {

/// The files that exist, each with its content.
pub type Files = Map<Seq<char>, Seq<char>>;

/// One change of the files.
pub enum FileOp {
    /// The file at `path` gets `content`, whether it existed or not.
    Write { path: Seq<char>, content: Seq<char> },
    /// The file at `to` gets the content that the file at `from` has; nothing
    /// happens when there is no file at `from`.
    Copy { from: Seq<char>, to: Seq<char> },
}

/// The files after one operation.
pub open spec fn apply_op(files: Files, op: FileOp) -> Files {
    match op {
        FileOp::Write { path, content } => files.insert(path, content),
        FileOp::Copy { from, to } => if files.contains_key(from) {
            files.insert(to, files[from])
        } else {
            files
        },
    }
}

/// The files after the operations, made in order.
pub open spec fn apply_ops(files: Files, ops: Seq<FileOp>) -> Files
    decreases ops.len(),
{
    if ops.len() == 0 {
        files
    } else {
        apply_op(apply_ops(files, ops.drop_last()), ops.last())
    }
}

/// The path that an operation writes to.
pub open spec fn target_of(op: FileOp) -> Seq<char> {
    match op {
        FileOp::Write { path, .. } => path,
        FileOp::Copy { to, .. } => to,
    }
}

/// Whether every operation is a write.
pub open spec fn all_writes(ops: Seq<FileOp>) -> bool {
    forall|i: int| 0 <= i < ops.len() ==> #[trigger] ops[i] is Write
}

/// The content that the last write to `path` among `ops` gives it.
pub open spec fn last_write(ops: Seq<FileOp>, path: Seq<char>) -> Option<Seq<char>>
    decreases ops.len(),
{
    if ops.len() == 0 {
        None
    } else {
        match ops.last() {
            FileOp::Write { path: p, content } if p == path => Some(content),
            _ => last_write(ops.drop_last(), path),
        }
    }
}

/// Operations made one list after the other are the operations of both.
pub proof fn lemma_apply_ops_add(files: Files, a: Seq<FileOp>, b: Seq<FileOp>)
    ensures
        apply_ops(files, a + b) == apply_ops(apply_ops(files, a), b),
    decreases b.len(),
{
    if b.len() == 0 {
        assert(a + b =~= a);
    } else {
        assert((a + b).drop_last() =~= a + b.drop_last());
        assert((a + b).last() == b.last());
        lemma_apply_ops_add(files, a, b.drop_last());
    }
}

/// A file that no operation targets is left as it was.
pub proof fn lemma_untouched(files: Files, ops: Seq<FileOp>, path: Seq<char>)
    requires
        forall|i: int| 0 <= i < ops.len() ==> target_of(#[trigger] ops[i]) != path,
    ensures
        apply_ops(files, ops).contains_key(path) == files.contains_key(path),
        files.contains_key(path) ==> apply_ops(files, ops)[path] == files[path],
    decreases ops.len(),
{
    if ops.len() > 0 {
        let init = ops.drop_last();
        assert forall|i: int| 0 <= i < init.len() implies target_of(#[trigger] init[i])
            != path by {
            assert(init[i] == ops[i]);
        }
        lemma_untouched(files, init, path);
        assert(target_of(ops[ops.len() - 1]) != path);
    }
}

/// After writes, a file holds what the last write to it gave it, and a file
/// that was not written is left as it was.
pub proof fn lemma_last_write_wins(files: Files, ops: Seq<FileOp>, path: Seq<char>)
    requires
        all_writes(ops),
    ensures
        match last_write(ops, path) {
            Some(content) => apply_ops(files, ops).contains_key(path) && apply_ops(
                files,
                ops,
            )[path] == content,
            None => apply_ops(files, ops).contains_key(path) == files.contains_key(path) && (
            files.contains_key(path) ==> apply_ops(files, ops)[path] == files[path]),
        },
    decreases ops.len(),
{
    if ops.len() > 0 {
        let init = ops.drop_last();
        assert(ops[ops.len() - 1] is Write);
        assert forall|i: int| 0 <= i < init.len() implies #[trigger] init[i] is Write by {
            assert(init[i] == ops[i]);
        }
        lemma_last_write_wins(files, init, path);
    }
}

/// Making the same writes a second time changes nothing.
pub proof fn lemma_writes_idempotent(files: Files, ops: Seq<FileOp>)
    requires
        all_writes(ops),
    ensures
        apply_ops(apply_ops(files, ops), ops) == apply_ops(files, ops),
{
    let once = apply_ops(files, ops);
    let twice = apply_ops(once, ops);
    assert forall|p: Seq<char>| #[trigger] twice.dom().contains(p) == once.dom().contains(p) by {
        lemma_last_write_wins(files, ops, p);
        lemma_last_write_wins(once, ops, p);
    }
    assert forall|p: Seq<char>| once.dom().contains(p) implies #[trigger] twice[p] == once[p] by {
        lemma_last_write_wins(files, ops, p);
        lemma_last_write_wins(once, ops, p);
    }
    assert(twice =~= once);
}

} // verus!
