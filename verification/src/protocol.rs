//! What passes between the engine and the shell around it.
//!
//! The engine never touches a folder, a file or the user. It hands out one
//! `Action` at a time; the shell performs it and comes back with a `Reply`.
//! An operation ends with `Step::Finish`.
use vstd::prelude::*;
use crate::error::NSError;
use crate::save_infos::{Record, SingleSave};

verus! {

/// Why the engine refuses a request.
#[derive(Debug, Clone, Copy, PartialEq, Eq, Structural)]
pub enum Fault {
    /// The name is empty, or blank where a record is renamed.
    NameEmpty,
    /// Another record carries the name.
    NameTaken,
    /// No record stands at the index.
    InvalidIndex,
    /// The record is locked.
    Locked,
    /// There is no record to overwrite.
    NothingToOverwrite,
    /// There is no record to load.
    NothingToLoad,
    /// No record of the request can be deleted.
    NothingToDelete,
    /// The configured path does not lead to the game.
    PathNotSet,
    /// A format for the date or the time cannot be applied.
    ClockFormat,
    /// An operation is under way.
    Busy,
    /// No operation is under way.
    NothingPending,
}

impl Fault {
    /// A locked record was the target: the record is left as it is.
    pub open spec fn is_protection(self) -> bool {
        self == Fault::Locked
    }
}

/// What the engine was doing when the shell came back with a failure.
#[derive(Debug, Clone, Copy, PartialEq, Eq, Structural)]
pub enum Context {
    Plain,
    /// Removing the folder of a record that is being deleted.
    DeleteFolder,
    /// Rewriting the document after records were deleted.
    WriteAfterDelete,
}

/// A question to the user, answered with yes or no.
#[derive(Debug, PartialEq, Eq)]
pub enum Prompt {
    /// Overwrite the latest record, which carries `name`?
    Overwrite { name: String },
    /// Delete the records at `indexes`? They stand in ascending order.
    Delete { indexes: Vec<usize> },
}

pub enum PromptView {
    Overwrite { name: Seq<char> },
    Delete { indexes: Seq<usize> },
}

impl View for Prompt {
    type V = PromptView;

    open spec fn view(&self) -> PromptView {
        match self {
            Prompt::Overwrite { name } => PromptView::Overwrite { name: name@ },
            Prompt::Delete { indexes } => PromptView::Delete { indexes: indexes@ },
        }
    }
}

/// Something to tell the user; no answer is expected.
#[derive(Debug, PartialEq, Eq)]
pub enum Notice {
    /// The record that stood at `index` was deleted.
    Deleted { index: usize, save: SingleSave },
    /// The records at `indexes` are locked now.
    Locked { indexes: Vec<usize> },
    /// No index of the request led to a record to lock.
    NothingToLock,
    /// The records at `indexes` are unlocked now.
    Unlocked { indexes: Vec<usize> },
    /// No index of the request led to a record to unlock.
    NothingToUnlock,
    /// The game is about to start outside its launcher.
    StartWithoutSteam,
}

pub enum NoticeView {
    Deleted { index: usize, save: Record },
    Locked { indexes: Seq<usize> },
    NothingToLock,
    Unlocked { indexes: Seq<usize> },
    NothingToUnlock,
    StartWithoutSteam,
}

impl View for Notice {
    type V = NoticeView;

    open spec fn view(&self) -> NoticeView {
        match self {
            Notice::Deleted { index, save } => NoticeView::Deleted { index: *index, save: save@ },
            Notice::Locked { indexes } => NoticeView::Locked { indexes: indexes@ },
            Notice::NothingToLock => NoticeView::NothingToLock,
            Notice::Unlocked { indexes } => NoticeView::Unlocked { indexes: indexes@ },
            Notice::NothingToUnlock => NoticeView::NothingToUnlock,
            Notice::StartWithoutSteam => NoticeView::StartWithoutSteam,
        }
    }
}

/// One thing for the shell to do.
#[derive(Debug, PartialEq, Eq)]
pub enum Action {
    /// Copy the game's save data into the archive folder `name`.
    Save { name: String },
    /// Remove the archive folder `name`.
    Remove { name: String },
    /// Rename the archive folder `old_name` to `new_name`.
    Rename { old_name: String, new_name: String },
    /// Replace the game's save data by the archive folder `name`.
    Load { name: String },
    /// Rewrite the whole document from the store as it is now.
    WriteInfos,
    /// Ask the user.
    Confirm(Prompt),
    /// Tell the user.
    Tell(Notice),
    /// Start the game at `path`, detached.
    Launch { path: String },
}

pub enum ActionView {
    Save { name: Seq<char> },
    Remove { name: Seq<char> },
    Rename { old_name: Seq<char>, new_name: Seq<char> },
    Load { name: Seq<char> },
    WriteInfos,
    Confirm(PromptView),
    Tell(NoticeView),
    Launch { path: Seq<char> },
}

impl View for Action {
    type V = ActionView;

    open spec fn view(&self) -> ActionView {
        match self {
            Action::Save { name } => ActionView::Save { name: name@ },
            Action::Remove { name } => ActionView::Remove { name: name@ },
            Action::Rename { old_name, new_name } => ActionView::Rename {
                old_name: old_name@,
                new_name: new_name@,
            },
            Action::Load { name } => ActionView::Load { name: name@ },
            Action::WriteInfos => ActionView::WriteInfos,
            Action::Confirm(prompt) => ActionView::Confirm(prompt@),
            Action::Tell(notice) => ActionView::Tell(notice@),
            Action::Launch { path } => ActionView::Launch { path: path@ },
        }
    }
}

/// How an operation ended well.
#[derive(Debug, PartialEq, Eq)]
pub enum Done {
    Completed,
    /// The user said no: nothing was changed.
    Declined,
    /// An automatic save was made; `removed` is the record that made room.
    AutoSaved { removed: Option<SingleSave>, latest: SingleSave },
}

pub enum DoneView {
    Completed,
    Declined,
    AutoSaved { removed: Option<Record>, latest: Record },
}

/// The record behind an optional reference, for contracts.
pub open spec fn record_of(save: Option<SingleSave>) -> Option<Record> {
    match save {
        Some(s) => Some(s@),
        None => None,
    }
}

impl View for Done {
    type V = DoneView;

    open spec fn view(&self) -> DoneView {
        match self {
            Done::Completed => DoneView::Completed,
            Done::Declined => DoneView::Declined,
            Done::AutoSaved { removed, latest } => DoneView::AutoSaved {
                removed: record_of(*removed),
                latest: latest@,
            },
        }
    }
}

/// How an operation ended badly.
#[derive(Debug)]
pub enum Failure {
    /// The engine refused the request.
    Refused(Fault),
    /// The shell could not do what it was asked.
    Failed { error: NSError, context: Context },
}

/// Where the engine stands after a call.
#[derive(Debug)]
pub enum Step {
    /// The shell performs the action and calls `resume` with the outcome.
    Perform(Action),
    /// The operation is over.
    Finish(Result<Done, Failure>),
}

pub enum StepView {
    Perform(ActionView),
    Finish(Result<DoneView, Failure>),
}

impl View for Step {
    type V = StepView;

    open spec fn view(&self) -> StepView {
        match self {
            Step::Perform(action) => StepView::Perform(action@),
            Step::Finish(Ok(done)) => StepView::Finish(Ok(done@)),
            Step::Finish(Err(failure)) => StepView::Finish(Err(*failure)),
        }
    }
}

/// The outcome of an action.
#[derive(Debug)]
pub enum Reply {
    /// The action was carried out.
    Done,
    /// The user said yes.
    Yes,
    /// The user said no.
    No,
    /// The action failed.
    Failed(NSError),
}

/// A refusal, as a step.
pub open spec fn refuse(fault: Fault) -> StepView {
    StepView::Finish(Err(Failure::Refused(fault)))
}

} // verus!
