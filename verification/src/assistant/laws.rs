//! What holds of every batch: decisions that were made stay made, nothing is
//! written for a change that was not reached, and applying everything without
//! asking can be repeated without harm.

use vstd::prelude::*;
use crate::assistant::batch::{
    writes_of, ActionView, BatchPhase, BatchResult, BatchState, EventView, FileChangeView,
    OutcomeView, UserChoice,
};
use crate::assistant::files::{
    all_writes, apply_op, apply_ops, lemma_untouched, lemma_writes_idempotent, target_of, FileOp, Files,
};

verus! {

/// Every state that `start` gives is well formed.
pub proof fn lemma_start_wf(changes: Seq<FileChangeView>, auto_confirm: bool, show_diff: bool)
    ensures
        BatchState::start(changes, auto_confirm, show_diff).wf(),
{
}

/// An event leaves a well-formed state well formed.
pub proof fn lemma_next_wf(s: BatchState, event: EventView)
    requires
        s.wf(),
    ensures
        s.next(event).wf(),
{
    let n = s.next(event);
    if s.auto_confirm {
        assert forall|j: int| 0 <= j < n.outcomes.len() implies #[trigger] n.outcomes[j]
            is Applied by {
            if j < s.outcomes.len() {
                assert(s.outcomes[j] is Applied);
            }
        }
    }
}

/// Events leave a well-formed state well formed.
pub proof fn lemma_run_wf(s: BatchState, events: Seq<EventView>)
    requires
        s.wf(),
    ensures
        s.run(events).wf(),
    decreases events.len(),
{
    if events.len() > 0 {
        lemma_next_wf(s, events[0]);
        lemma_run_wf(s.next(events[0]), events.skip(1));
    }
}

/// A batch that has ended stays as it is, whatever is reported to it.
pub proof fn lemma_ended_is_final(s: BatchState, events: Seq<EventView>)
    requires
        s.ended(),
    ensures
        s.run(events) == s,
    decreases events.len(),
{
    if events.len() > 0 {
        assert(s.next(events[0]) == s);
        lemma_ended_is_final(s, events.skip(1));
    }
}

/// The writes recorded after one more outcome are the earlier writes,
/// followed by at most one write to the path of the change concerned.
pub proof fn lemma_writes_of_push(
    changes: Seq<FileChangeView>,
    outcomes: Seq<OutcomeView>,
    outcome: OutcomeView,
)
    ensures
        writes_of(changes, outcomes.push(outcome)) == match outcome {
            OutcomeView::Applied => writes_of(changes, outcomes).push(
                FileOp::Write {
                    path: changes[outcomes.len() as int].path,
                    content: changes[outcomes.len() as int].new_content,
                },
            ),
            OutcomeView::Edited(content) => writes_of(changes, outcomes).push(
                FileOp::Write { path: changes[outcomes.len() as int].path, content },
            ),
            OutcomeView::Skipped => writes_of(changes, outcomes),
        },
{
    assert(outcomes.push(outcome).drop_last() =~= outcomes);
}

/// What was decided stays decided: events only add outcomes and writes.
pub proof fn lemma_decisions_stay(s: BatchState, events: Seq<EventView>)
    ensures
        s.outcomes.is_prefix_of(s.run(events).outcomes),
        s.writes().is_prefix_of(s.run(events).writes()),
        s.run(events).changes == s.changes,
    decreases events.len(),
{
    if events.len() > 0 {
        let n = s.next(events[0]);
        lemma_decisions_stay(n, events.skip(1));
        if n.outcomes != s.outcomes {
            let outcome = n.outcomes.last();
            assert(n.outcomes =~= s.outcomes.push(outcome));
            lemma_writes_of_push(s.changes, s.outcomes, outcome);
        }
    }
}

/// The recorded writes are writes, each to the path of a change that has
/// been dealt with.
pub proof fn lemma_writes_of_targets(changes: Seq<FileChangeView>, outcomes: Seq<OutcomeView>)
    ensures
        all_writes(writes_of(changes, outcomes)),
        forall|i: int|
            0 <= i < writes_of(changes, outcomes).len() ==> exists|k: int|
                0 <= k < outcomes.len() && target_of(#[trigger] writes_of(changes, outcomes)[i])
                    == changes[k].path,
    decreases outcomes.len(),
{
    if outcomes.len() > 0 {
        let earlier = writes_of(changes, outcomes.drop_last());
        let all = writes_of(changes, outcomes);
        lemma_writes_of_targets(changes, outcomes.drop_last());
        assert forall|i: int| 0 <= i < all.len() implies exists|k: int|
            0 <= k < outcomes.len() && target_of(#[trigger] all[i]) == changes[k].path by {
            if i < earlier.len() {
                assert(all[i] == earlier[i]);
                let k = choose|k: int|
                    0 <= k < outcomes.drop_last().len() && target_of(earlier[i])
                        == changes[k].path;
                assert(0 <= k < outcomes.len() && target_of(all[i]) == changes[k].path);
            } else {
                let k = outcomes.len() - 1;
                assert(0 <= k < outcomes.len() && target_of(all[i]) == changes[k].path);
            }
        }
    }
}

/// A file that is the target of no change dealt with so far is as it was
/// before the batch.
pub proof fn lemma_unreached_untouched(s: BatchState, files: Files, path: Seq<char>)
    requires
        forall|k: int| 0 <= k < s.position() ==> (#[trigger] s.changes[k]).path != path,
    ensures
        apply_ops(files, s.writes()).contains_key(path) == files.contains_key(path),
        files.contains_key(path) ==> apply_ops(files, s.writes())[path] == files[path],
{
    let ops = s.writes();
    lemma_writes_of_targets(s.changes, s.outcomes);
    assert forall|i: int| 0 <= i < ops.len() implies target_of(#[trigger] ops[i]) != path by {
        let k = choose|k: int| 0 <= k < s.outcomes.len() && target_of(ops[i]) == s.changes[k].path;
        assert(s.changes[k].path != path);
    }
    lemma_untouched(files, ops, path);
}

/// A change that was applied or edited is on disk as decided, unless a later
/// change to the same path was written as well.
pub proof fn lemma_decided_on_disk(
    changes: Seq<FileChangeView>,
    outcomes: Seq<OutcomeView>,
    files: Files,
    j: int,
)
    requires
        0 <= j < outcomes.len() <= changes.len(),
        !(outcomes[j] is Skipped),
        forall|k: int|
            j < k < outcomes.len() && changes[k].path == changes[j].path
                ==> #[trigger] outcomes[k] is Skipped,
    ensures
        apply_ops(files, writes_of(changes, outcomes)).contains_key(changes[j].path),
        apply_ops(files, writes_of(changes, outcomes))[changes[j].path] == match outcomes[j] {
            OutcomeView::Edited(content) => content,
            _ => changes[j].new_content,
        },
    decreases outcomes.len(),
{
    let last = outcomes.len() - 1;
    let earlier = outcomes.drop_last();
    let ops = writes_of(changes, outcomes);
    let before = writes_of(changes, earlier);
    if !(outcomes[last] is Skipped) {
        assert(ops.drop_last() =~= before);
        assert(apply_ops(files, ops) == apply_op(apply_ops(files, before), ops.last()));
    }
    if j < last {
        assert(earlier[j] == outcomes[j]);
        assert forall|k: int|
            j < k < earlier.len() && changes[k].path == changes[j].path implies #[trigger] earlier[k]
            is Skipped by {
            assert(earlier[k] == outcomes[k]);
        }
        lemma_decided_on_disk(changes, earlier, files, j);
        if !(outcomes[last] is Skipped) {
            assert(changes[last].path != changes[j].path);
        }
    }
}

/// Cancellation halts remaining work. When the user cancels at a change, the
/// batch ends as cancelled and stays so whatever is reported later; the
/// outcomes and writes of the changes before it are kept as they were, and
/// every file that none of those changes targets, so in particular the file
/// of the cancelled change and of each change after it, is as it was before
/// the batch.
pub proof fn lemma_cancel_halts(s: BatchState, later: Seq<EventView>, files: Files)
    requires
        s.wf(),
        s.phase == BatchPhase::Deciding,
    ensures
        ({
            let c = s.next(EventView::Decided(UserChoice::Cancel));
            let after = apply_ops(files, c.run(later).writes());
            &&& c.action() == ActionView::Finish(BatchResult::Cancelled)
            &&& c.run(later) == c
            &&& c.outcomes == s.outcomes
            &&& c.writes() == s.writes()
            &&& forall|path: Seq<char>|
                (forall|k: int| 0 <= k < s.position() ==> (#[trigger] s.changes[k]).path != path)
                    ==> #[trigger] after.contains_key(path) == files.contains_key(path) && (
                files.contains_key(path) ==> after[path] == files[path])
        }),
{
    let c = s.next(EventView::Decided(UserChoice::Cancel));
    lemma_ended_is_final(c, later);
    let after = apply_ops(files, c.writes());
    assert forall|path: Seq<char>|
        (forall|k: int|
            0 <= k < s.position() ==> (#[trigger] s.changes[k]).path
                != path) implies #[trigger] after.contains_key(path) == files.contains_key(path)
        && (files.contains_key(path) ==> after[path] == files[path]) by {
        lemma_unreached_untouched(c, files, path);
    }
}

/// The reports of a driver that shows and writes `n` changes in a row.
pub open spec fn shown_and_written(n: nat) -> Seq<EventView>
    decreases n,
{
    if n == 0 {
        Seq::empty()
    } else {
        seq![EventView::Presented, EventView::Written] + shown_and_written((n - 1) as nat)
    }
}

/// The writes of a batch in which every change is applied.
pub open spec fn all_applied(changes: Seq<FileChangeView>) -> Seq<FileOp> {
    Seq::new(
        changes.len(),
        |i: int| FileOp::Write { path: changes[i].path, content: changes[i].new_content },
    )
}

/// With auto-confirm the user is never asked and never edits.
pub proof fn lemma_auto_confirm_never_asks(s: BatchState)
    requires
        s.wf(),
        s.auto_confirm,
    ensures
        !(s.action() is Prompt),
        !(s.action() is Edit),
{
}

proof fn lemma_auto_confirm_run(s: BatchState)
    requires
        s.wf(),
        s.auto_confirm,
        s.phase == BatchPhase::Presenting || s.phase == BatchPhase::Done,
        s.writes() == all_applied(s.changes).take(s.position()),
    ensures
        ({
            let end = s.run(shown_and_written((s.changes.len() - s.outcomes.len()) as nat));
            &&& end.phase == BatchPhase::Done
            &&& end.changes == s.changes
            &&& end.writes() == all_applied(s.changes)
        }),
    decreases s.changes.len() - s.outcomes.len(),
{
    let left = (s.changes.len() - s.outcomes.len()) as nat;
    if left == 0 {
        assert(all_applied(s.changes).take(s.position()) =~= all_applied(s.changes));
    } else {
        let events = shown_and_written(left);
        let shown = s.next(EventView::Presented);
        let written = shown.next(EventView::Written);
        lemma_next_wf(s, EventView::Presented);
        lemma_next_wf(shown, EventView::Written);
        lemma_writes_of_push(s.changes, s.outcomes, OutcomeView::Applied);
        assert(written.writes() =~= all_applied(s.changes).take(written.position()));
        lemma_auto_confirm_run(written);
        assert(events[0] == EventView::Presented);
        assert(events.skip(1)[0] == EventView::Written);
        assert(events.skip(1).skip(1) =~= shown_and_written((left - 1) as nat));
        assert(s.run(events) == shown.run(events.skip(1)));
        assert(shown.run(events.skip(1)) == written.run(events.skip(1).skip(1)));
    }
}

/// Auto-confirm idempotence. With auto-confirm, a batch whose changes are
/// shown and written one after the other ends as done having written each
/// change's new content, without a prompt; and running the same batch again
/// on the files that the first run left leaves them as they are.
pub proof fn lemma_auto_confirm_idempotent(
    changes: Seq<FileChangeView>,
    show_diff: bool,
    files: Files,
)
    ensures
        ({
            let start = BatchState::start(changes, true, show_diff);
            let end = start.run(shown_and_written(changes.len()));
            let once = apply_ops(files, end.writes());
            let twice = apply_ops(once, end.writes());
            &&& end.phase == BatchPhase::Done
            &&& end.writes() == all_applied(changes)
            &&& twice == once
            &&& forall|events: Seq<EventView>|
                !(#[trigger] start.run(events).action() is Prompt)
        }),
{
    let start = BatchState::start(changes, true, show_diff);
    assert(start.writes() =~= all_applied(changes).take(0));
    lemma_auto_confirm_run(start);
    let end = start.run(shown_and_written(changes.len()));
    lemma_writes_of_targets(end.changes, end.outcomes);
    lemma_writes_idempotent(files, end.writes());
    assert forall|events: Seq<EventView>| !(#[trigger] start.run(events).action() is Prompt) by {
        lemma_run_wf(start, events);
        lemma_decisions_stay(start, events);
        lemma_run_auto_confirm(start, events);
        lemma_auto_confirm_never_asks(start.run(events));
    }
}

proof fn lemma_run_auto_confirm(s: BatchState, events: Seq<EventView>)
    ensures
        s.run(events).auto_confirm == s.auto_confirm,
    decreases events.len(),
{
    if events.len() > 0 {
        lemma_run_auto_confirm(s.next(events[0]), events.skip(1));
    }
}

} // verus!
