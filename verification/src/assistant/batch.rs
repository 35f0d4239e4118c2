//! The review of a batch of proposed file changes, one change after the other.
//!
//! The batch is a state machine. It says what is to be done next (present a
//! change, ask for a decision, write a file, open an editor); whoever drives
//! it does that and reports back what happened. Nothing is written that was
//! not decided, and after a cancellation or a failure nothing more is asked
//! for.

use vstd::prelude::*;
use crate::assistant::files::FileOp;
use crate::text::{chars_of, push_str, string_of};

verus! {

/// A proposed change of one file.
#[derive(Debug, Clone)]
pub struct FileChange {
    pub path: String,
    /// What the file holds now; empty for a file that does not exist yet.
    pub original_content: String,
    pub new_content: String,
    pub description: String,
}

/// A proposed change as plain text.
pub struct FileChangeView {
    pub path: Seq<char>,
    pub original_content: Seq<char>,
    pub new_content: Seq<char>,
    pub description: Seq<char>,
}

impl View for FileChange {
    type V = FileChangeView;

    open spec fn view(&self) -> FileChangeView {
        FileChangeView {
            path: self.path@,
            original_content: self.original_content@,
            new_content: self.new_content@,
            description: self.description@,
        }
    }
}

/// The changes of `changes` as plain text.
pub open spec fn change_views(changes: Seq<FileChange>) -> Seq<FileChangeView> {
    changes.map_values(|c: FileChange| c@)
}

/// What the user decides about one change.
#[derive(Debug, Clone, Copy, PartialEq, Eq, Structural)]
pub enum UserChoice {
    /// Write the proposed content.
    Apply,
    /// Leave the file alone and go on.
    Skip,
    /// Let the user edit the proposed content, then write the result.
    Edit,
    /// Leave this file and all that follow alone.
    Cancel,
}

/// Where the review of the current change stands.
#[derive(Debug, Clone, Copy, PartialEq, Eq, Structural)]
pub enum BatchPhase {
    /// The change is to be shown.
    Presenting,
    /// The user is to decide.
    Deciding,
    /// The proposed content is to be written.
    Applying,
    /// The user is to edit the proposed content.
    Editing,
    /// The edited content is to be written.
    Saving,
    /// Every change has been dealt with.
    Done,
    /// The user cancelled.
    Cancelled,
    /// Something that was asked for could not be done.
    Failed,
}

/// How a batch ended.
#[derive(Debug, Clone, Copy, PartialEq, Eq, Structural)]
pub enum BatchResult {
    /// There was no change to review.
    NothingToDo,
    /// Every change was applied, edited or skipped.
    Completed,
    /// The user cancelled; earlier changes stay as they were decided.
    Cancelled,
    /// A step failed; earlier changes stay as they were decided.
    Failed,
}

/// What became of a change that has been dealt with.
#[derive(Debug, Clone, PartialEq, Eq)]
pub enum ChangeOutcome {
    /// The proposed content was written.
    Applied,
    /// This content, edited by the user, was written.
    Edited(String),
    /// Nothing was written.
    Skipped,
}

/// An outcome as plain text.
pub enum OutcomeView {
    Applied,
    Edited(Seq<char>),
    Skipped,
}

impl View for ChangeOutcome {
    type V = OutcomeView;

    open spec fn view(&self) -> OutcomeView {
        match self {
            ChangeOutcome::Applied => OutcomeView::Applied,
            ChangeOutcome::Edited(content) => OutcomeView::Edited(content@),
            ChangeOutcome::Skipped => OutcomeView::Skipped,
        }
    }
}

/// The outcomes of `outcomes` as plain text.
pub open spec fn outcome_views(outcomes: Seq<ChangeOutcome>) -> Seq<OutcomeView> {
    outcomes.map_values(|o: ChangeOutcome| o@)
}

/// What the driver of a batch is to do next.
#[derive(Debug, Clone, PartialEq, Eq)]
pub enum BatchAction {
    /// Show the change at `index`: its path, its description and, if
    /// `with_diff`, the diff between its two contents.
    Present { index: usize, with_diff: bool },
    /// Ask the user what to do with the change at `index`.
    Prompt { index: usize },
    /// Write `content` to `path`, creating missing directories.
    Write { index: usize, path: String, content: String },
    /// Write `content` to `scratch_path`, let the user edit that file, read it
    /// back and remove it.
    Edit { index: usize, scratch_path: String, content: String },
    /// Nothing is left to do.
    Finish(BatchResult),
}

/// An action as plain text.
pub enum ActionView {
    Present { index: int, with_diff: bool },
    Prompt { index: int },
    Write { index: int, path: Seq<char>, content: Seq<char> },
    Edit { index: int, scratch_path: Seq<char>, content: Seq<char> },
    Finish(BatchResult),
}

impl View for BatchAction {
    type V = ActionView;

    open spec fn view(&self) -> ActionView {
        match self {
            BatchAction::Present { index, with_diff } => ActionView::Present {
                index: *index as int,
                with_diff: *with_diff,
            },
            BatchAction::Prompt { index } => ActionView::Prompt { index: *index as int },
            BatchAction::Write { index, path, content } => ActionView::Write {
                index: *index as int,
                path: path@,
                content: content@,
            },
            BatchAction::Edit { index, scratch_path, content } => ActionView::Edit {
                index: *index as int,
                scratch_path: scratch_path@,
                content: content@,
            },
            BatchAction::Finish(result) => ActionView::Finish(*result),
        }
    }
}

/// What the driver reports back.
#[derive(Debug, Clone, PartialEq, Eq)]
pub enum BatchEvent {
    /// The change was shown.
    Presented,
    /// The user decided.
    Decided(UserChoice),
    /// The file was written.
    Written,
    /// The user left the editor; this is what the scratch file then held.
    Edited(String),
    /// What was asked for could not be done.
    Failed,
}

/// An event as plain text.
pub enum EventView {
    Presented,
    Decided(UserChoice),
    Written,
    Edited(Seq<char>),
    Failed,
}

impl View for BatchEvent {
    type V = EventView;

    open spec fn view(&self) -> EventView {
        match self {
            BatchEvent::Presented => EventView::Presented,
            BatchEvent::Decided(choice) => EventView::Decided(*choice),
            BatchEvent::Written => EventView::Written,
            BatchEvent::Edited(content) => EventView::Edited(content@),
            BatchEvent::Failed => EventView::Failed,
        }
    }
}

/// The suffix of the scratch file that an edit uses.
pub open spec fn scratch_suffix() -> Seq<char> {
    seq!['.', 't', 'm', 'p']
}

/// The state of a batch.
pub struct BatchState {
    /// The changes under review, in order.
    pub changes: Seq<FileChangeView>,
    /// Whether every change is applied without asking.
    pub auto_confirm: bool,
    /// Whether diffs are shown.
    pub show_diff: bool,
    /// Where the review of the current change stands.
    pub phase: BatchPhase,
    /// The content that came back from the editor, while it waits to be
    /// written.
    pub edited: Seq<char>,
    /// What became of the changes dealt with so far, in order.
    pub outcomes: Seq<OutcomeView>,
}

impl BatchState {
    /// The state in which the review of `changes` begins.
    pub open spec fn start(
        changes: Seq<FileChangeView>,
        auto_confirm: bool,
        show_diff: bool,
    ) -> BatchState {
        BatchState {
            changes,
            auto_confirm,
            show_diff,
            phase: if changes.len() == 0 {
                BatchPhase::Done
            } else {
                BatchPhase::Presenting
            },
            edited: Seq::empty(),
            outcomes: Seq::empty(),
        }
    }

    /// The index of the change under review: as many changes as have been
    /// dealt with.
    pub open spec fn position(self) -> int {
        self.outcomes.len() as int
    }

    /// Whether the batch has ended.
    pub open spec fn ended(self) -> bool {
        self.phase == BatchPhase::Done || self.phase == BatchPhase::Cancelled || self.phase
            == BatchPhase::Failed
    }

    /// The states that a batch can be in.
    pub open spec fn wf(self) -> bool {
        &&& self.outcomes.len() <= self.changes.len()
        &&& !self.ended() ==> self.outcomes.len() < self.changes.len()
        &&& self.phase == BatchPhase::Done ==> self.outcomes.len() == self.changes.len()
        &&& self.phase != BatchPhase::Saving ==> self.edited == Seq::<char>::empty()
        &&& self.auto_confirm ==> {
            &&& self.phase != BatchPhase::Deciding
            &&& self.phase != BatchPhase::Editing
            &&& self.phase != BatchPhase::Saving
            &&& self.phase != BatchPhase::Cancelled
            &&& forall|j: int|
                0 <= j < self.outcomes.len() ==> #[trigger] self.outcomes[j] is Applied
        }
    }

    /// What is to be done in this state.
    pub open spec fn action(self) -> ActionView {
        let index = self.position();
        match self.phase {
            BatchPhase::Presenting => ActionView::Present { index, with_diff: self.show_diff },
            BatchPhase::Deciding => ActionView::Prompt { index },
            BatchPhase::Applying => ActionView::Write {
                index,
                path: self.changes[index].path,
                content: self.changes[index].new_content,
            },
            BatchPhase::Editing => ActionView::Edit {
                index,
                scratch_path: self.changes[index].path + scratch_suffix(),
                content: self.changes[index].new_content,
            },
            BatchPhase::Saving => ActionView::Write {
                index,
                path: self.changes[index].path,
                content: self.edited,
            },
            BatchPhase::Done => ActionView::Finish(
                if self.changes.len() == 0 {
                    BatchResult::NothingToDo
                } else {
                    BatchResult::Completed
                },
            ),
            BatchPhase::Cancelled => ActionView::Finish(BatchResult::Cancelled),
            BatchPhase::Failed => ActionView::Finish(BatchResult::Failed),
        }
    }

    /// The state after the change under review got `outcome`: the next change
    /// is to be shown, or the batch is done.
    pub open spec fn advance(self, outcome: OutcomeView) -> BatchState {
        let outcomes = self.outcomes.push(outcome);
        BatchState {
            outcomes,
            edited: Seq::empty(),
            phase: if outcomes.len() < self.changes.len() {
                BatchPhase::Presenting
            } else {
                BatchPhase::Done
            },
            ..self
        }
    }

    /// The state after `event`. An event that does not answer the action of
    /// the state changes nothing.
    pub open spec fn next(self, event: EventView) -> BatchState {
        match (self.phase, event) {
            (BatchPhase::Presenting, EventView::Presented) => BatchState {
                phase: if self.auto_confirm {
                    BatchPhase::Applying
                } else {
                    BatchPhase::Deciding
                },
                ..self
            },
            (BatchPhase::Deciding, EventView::Decided(UserChoice::Apply)) => BatchState {
                phase: BatchPhase::Applying,
                ..self
            },
            (BatchPhase::Deciding, EventView::Decided(UserChoice::Skip)) => self.advance(
                OutcomeView::Skipped,
            ),
            (BatchPhase::Deciding, EventView::Decided(UserChoice::Edit)) => BatchState {
                phase: BatchPhase::Editing,
                ..self
            },
            (BatchPhase::Deciding, EventView::Decided(UserChoice::Cancel)) => BatchState {
                phase: BatchPhase::Cancelled,
                ..self
            },
            (BatchPhase::Applying, EventView::Written) => self.advance(OutcomeView::Applied),
            (BatchPhase::Editing, EventView::Edited(content)) => BatchState {
                phase: BatchPhase::Saving,
                edited: content,
                ..self
            },
            (BatchPhase::Saving, EventView::Written) => self.advance(
                OutcomeView::Edited(self.edited),
            ),
            (_, EventView::Failed) => if self.ended() {
                self
            } else {
                BatchState { phase: BatchPhase::Failed, edited: Seq::empty(), ..self }
            },
            _ => self,
        }
    }

    /// The state after the events, in order.
    pub open spec fn run(self, events: Seq<EventView>) -> BatchState
        decreases events.len(),
    {
        if events.len() == 0 {
            self
        } else {
            self.next(events[0]).run(events.skip(1))
        }
    }

    /// The writes that have been made so far, in order: one for each change
    /// that was applied or edited.
    pub open spec fn writes(self) -> Seq<FileOp> {
        writes_of(self.changes, self.outcomes)
    }
}

/// The writes that `outcomes` record for the first changes of `changes`.
pub open spec fn writes_of(changes: Seq<FileChangeView>, outcomes: Seq<OutcomeView>) -> Seq<FileOp>
    decreases outcomes.len(),
{
    if outcomes.len() == 0 {
        Seq::empty()
    } else {
        let index = outcomes.len() - 1;
        let earlier = writes_of(changes, outcomes.drop_last());
        match outcomes.last() {
            OutcomeView::Applied => earlier.push(
                FileOp::Write {
                    path: changes[index].path,
                    content: changes[index].new_content,
                },
            ),
            OutcomeView::Edited(content) => earlier.push(
                FileOp::Write { path: changes[index].path, content },
            ),
            OutcomeView::Skipped => earlier,
        }
    }
}

/// A batch of proposed changes under review.
pub struct ChangeBatch {
    changes: Vec<FileChange>,
    auto_confirm: bool,
    show_diff: bool,
    phase: BatchPhase,
    edited: String,
    outcomes: Vec<ChangeOutcome>,
}

impl View for ChangeBatch {
    type V = BatchState;

    closed spec fn view(&self) -> BatchState {
        BatchState {
            changes: change_views(self.changes@),
            auto_confirm: self.auto_confirm,
            show_diff: self.show_diff,
            phase: self.phase,
            edited: self.edited@,
            outcomes: outcome_views(self.outcomes@),
        }
    }
}

impl ChangeBatch {
    #[verifier::type_invariant]
    closed spec fn inv(self) -> bool {
        self@.wf()
    }

    /// Begins the review of `changes`.
    pub fn new(changes: Vec<FileChange>, auto_confirm: bool, show_diff: bool) -> (batch: Self)
        ensures
            batch@ == BatchState::start(change_views(changes@), auto_confirm, show_diff),
    {
        let phase = if changes.len() == 0 {
            BatchPhase::Done
        } else {
            BatchPhase::Presenting
        };
        let batch = ChangeBatch {
            changes,
            auto_confirm,
            show_diff,
            phase,
            edited: String::new(),
            outcomes: Vec::new(),
        };
        proof {
            assert(batch@.outcomes =~= Seq::<OutcomeView>::empty());
            assert(batch@ =~= BatchState::start(change_views(changes@), auto_confirm, show_diff));
        }
        batch
    }

    /// The changes under review.
    pub fn changes(&self) -> (changes: &Vec<FileChange>)
        ensures
            change_views(changes@) == self@.changes,
    {
        &self.changes
    }

    /// What became of the changes dealt with so far.
    pub fn outcomes(&self) -> (outcomes: &Vec<ChangeOutcome>)
        ensures
            outcome_views(outcomes@) == self@.outcomes,
    {
        &self.outcomes
    }

    /// The number of files written so far: the changes applied or edited.
    pub fn modified_count(&self) -> (n: usize)
        ensures
            n == self@.writes().len(),
    {
        let mut n: usize = 0;
        let mut i: usize = 0;
        proof {
            assert(outcome_views(self.outcomes@).take(0) =~= Seq::<OutcomeView>::empty());
        }
        while i < self.outcomes.len()
            invariant
                i <= self.outcomes.len(),
                n <= i,
                n == writes_of(self@.changes, outcome_views(self.outcomes@).take(i as int)).len(),
            decreases self.outcomes.len() - i,
        {
            proof {
                let views = outcome_views(self.outcomes@);
                assert(views.take(i + 1).drop_last() =~= views.take(i as int));
                assert(views.take(i + 1).last() == self.outcomes@[i as int]@);
            }
            match &self.outcomes[i] {
                ChangeOutcome::Skipped => {},
                _ => {
                    n += 1;
                },
            }
            i += 1;
        }
        proof {
            let views = outcome_views(self.outcomes@);
            assert(views.take(views.len() as int) =~= views);
        }
        n
    }

    /// How the batch ended, if it has.
    pub fn result(&self) -> (r: Option<BatchResult>)
        ensures
            r is Some == self@.ended(),
            r matches Some(result) ==> self@.action() == ActionView::Finish(result),
    {
        match self.phase {
            BatchPhase::Done => if self.changes.len() == 0 {
                Some(BatchResult::NothingToDo)
            } else {
                Some(BatchResult::Completed)
            },
            BatchPhase::Cancelled => Some(BatchResult::Cancelled),
            BatchPhase::Failed => Some(BatchResult::Failed),
            _ => None,
        }
    }

    /// What is to be done next.
    pub fn action(&self) -> (action: BatchAction)
        ensures
            action@ == self@.action(),
    {
        proof {
            use_type_invariant(self);
        }
        let index = self.outcomes.len();
        match self.phase {
            BatchPhase::Presenting => BatchAction::Present { index, with_diff: self.show_diff },
            BatchPhase::Deciding => BatchAction::Prompt { index },
            BatchPhase::Applying => BatchAction::Write {
                index,
                path: self.changes[index].path.clone(),
                content: self.changes[index].new_content.clone(),
            },
            BatchPhase::Editing => {
                let mut scratch = chars_of(self.changes[index].path.as_str());
                push_str(&mut scratch, ".tmp");
                proof {
                    reveal_strlit(".tmp");
                    assert(".tmp"@ =~= scratch_suffix());
                }
                BatchAction::Edit {
                    index,
                    scratch_path: string_of(&scratch),
                    content: self.changes[index].new_content.clone(),
                }
            },
            BatchPhase::Saving => BatchAction::Write {
                index,
                path: self.changes[index].path.clone(),
                content: self.edited.clone(),
            },
            BatchPhase::Done => BatchAction::Finish(
                if self.changes.len() == 0 {
                    BatchResult::NothingToDo
                } else {
                    BatchResult::Completed
                },
            ),
            BatchPhase::Cancelled => BatchAction::Finish(BatchResult::Cancelled),
            BatchPhase::Failed => BatchAction::Finish(BatchResult::Failed),
        }
    }

    /// The batch after the driver's report. An event that does not answer
    /// the pending action changes nothing.
    pub fn handle(self, event: BatchEvent) -> (next: Self)
        ensures
            next@ == self@.next(event@),
    {
        proof {
            use_type_invariant(&self);
        }
        let ghost before = self@;
        let ChangeBatch { changes, auto_confirm, show_diff, phase, edited, outcomes } = self;
        let mut phase = phase;
        let mut edited = edited;
        let mut outcomes = outcomes;
        let mut finished: Option<ChangeOutcome> = None;
        match event {
            BatchEvent::Presented => {
                if phase == BatchPhase::Presenting {
                    phase = if auto_confirm {
                        BatchPhase::Applying
                    } else {
                        BatchPhase::Deciding
                    };
                }
            },
            BatchEvent::Decided(choice) => {
                if phase == BatchPhase::Deciding {
                    match choice {
                        UserChoice::Apply => {
                            phase = BatchPhase::Applying;
                        },
                        UserChoice::Skip => {
                            finished = Some(ChangeOutcome::Skipped);
                        },
                        UserChoice::Edit => {
                            phase = BatchPhase::Editing;
                        },
                        UserChoice::Cancel => {
                            phase = BatchPhase::Cancelled;
                        },
                    }
                }
            },
            BatchEvent::Written => {
                if phase == BatchPhase::Applying {
                    finished = Some(ChangeOutcome::Applied);
                } else if phase == BatchPhase::Saving {
                    finished = Some(ChangeOutcome::Edited(edited));
                    edited = String::new();
                }
            },
            BatchEvent::Edited(content) => {
                if phase == BatchPhase::Editing {
                    edited = content;
                    phase = BatchPhase::Saving;
                }
            },
            BatchEvent::Failed => {
                match phase {
                    BatchPhase::Done | BatchPhase::Cancelled | BatchPhase::Failed => {},
                    _ => {
                        phase = BatchPhase::Failed;
                        edited = String::new();
                    },
                }
            },
        }
        if let Some(outcome) = finished {
            let ghost earlier = outcome_views(outcomes@);
            outcomes.push(outcome);
            phase = if outcomes.len() < changes.len() {
                BatchPhase::Presenting
            } else {
                BatchPhase::Done
            };
            proof {
                assert(outcome_views(outcomes@) =~= earlier.push(outcome@));
            }
        }
        let next = ChangeBatch { changes, auto_confirm, show_diff, phase, edited, outcomes };
        proof {
            assert(next@.edited =~= before.next(event@).edited);
            assert(next@.outcomes =~= before.next(event@).outcomes);
            assert(next@ =~= before.next(event@));
        }
        next
    }
}

} // verus!
