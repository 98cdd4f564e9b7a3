//! The engine as a state machine, in mathematical terms.
//!
//! A state is the store and the stage of the operation under way. Every
//! request and every reply of the shell leads to a next state and a step.
//! The executable engine is proved to follow these functions exactly.
use vstd::prelude::*;
use crate::clock::Reading;
use crate::naming::{is_auto_name, quick_name, Moment};
use crate::protocol::{
    refuse, ActionView, Context, DoneView, Failure, Fault, NoticeView, PromptView, Reply, StepView,
};
use crate::save_infos::{name_used, Record, Store};
use crate::text::white_space;

verus! {

/// The date and the time that a record is stamped with.
pub struct Stamp {
    pub date: Seq<char>,
    pub time: Seq<char>,
}

/// The stamp that a reading of the clock gives, if both texts are there.
pub open spec fn stamp_of(reading: Reading) -> Option<Stamp> {
    match (reading.date, reading.time) {
        (Some(date), Some(time)) => Some(Stamp { date: date@, time: time@ }),
        _ => None,
    }
}

/// Nothing but white space, or nothing at all.
pub open spec fn blank(name: Seq<char>) -> bool {
    forall|i: int| 0 <= i < name.len() ==> white_space(#[trigger] name[i])
}

/// A record other than the one at `index` carries `name`.
pub open spec fn used_elsewhere(saves: Seq<Record>, index: int, name: Seq<char>) -> bool {
    exists|j: int| 0 <= j < saves.len() && j != index && (#[trigger] saves[j]).name == name
}

/// The positions below `n` that a request names and where an unlocked record
/// stands, in ascending order.
pub open spec fn targets_upto(saves: Seq<Record>, indexes: Seq<usize>, n: int) -> Seq<usize>
    decreases n,
{
    if n <= 0 {
        Seq::empty()
    } else {
        let rest = targets_upto(saves, indexes, n - 1);
        if n <= saves.len() && indexes.contains((n - 1) as usize) && !saves[n - 1].locked {
            rest.push((n - 1) as usize)
        } else {
            rest
        }
    }
}

/// What a request to delete comes down to: the positions of the request
/// where an unlocked record stands, each once, in ascending order.
pub open spec fn targets_of(saves: Seq<Record>, indexes: Seq<usize>) -> Seq<usize> {
    targets_upto(saves, indexes, saves.len() as int)
}

/// The indexes of a request that lead to a record, in the order and as often
/// as the request names them.
pub open spec fn valid_of(indexes: Seq<usize>, len: int) -> Seq<usize>
    decreases indexes.len(),
{
    if indexes.len() == 0 {
        Seq::empty()
    } else if indexes.last() < len {
        valid_of(indexes.drop_last(), len).push(indexes.last())
    } else {
        valid_of(indexes.drop_last(), len)
    }
}

/// The records with the flag of every named one set to `locked`.
pub open spec fn set_flags(saves: Seq<Record>, indexes: Seq<usize>, locked: bool) -> Seq<Record> {
    Seq::new(
        saves.len(),
        |k: int|
            if indexes.contains(k as usize) {
                Record { locked, ..saves[k] }
            } else {
                saves[k]
            },
    )
}

/// How many of the first `n` records are automatic saves.
pub open spec fn count_auto_upto(saves: Seq<Record>, n: int) -> nat
    decreases n,
{
    if n <= 0 {
        0
    } else {
        count_auto_upto(saves, n - 1) + if n <= saves.len() && is_auto_name(saves[n - 1].name) {
            1nat
        } else {
            0nat
        }
    }
}

/// How many records are automatic saves.
pub open spec fn count_auto(saves: Seq<Record>) -> nat {
    count_auto_upto(saves, saves.len() as int)
}

/// The position of the first automatic save at or after `from`; the number
/// of records if there is none.
pub open spec fn first_auto_from(saves: Seq<Record>, from: int) -> int
    decreases saves.len() - from,
{
    if from >= saves.len() {
        saves.len() as int
    } else if from >= 0 && is_auto_name(saves[from].name) {
        from
    } else {
        first_auto_from(saves, from + 1)
    }
}

/// The position of the oldest automatic save.
pub open spec fn first_auto(saves: Seq<Record>) -> int {
    first_auto_from(saves, 0)
}

/// Where an operation stands. Each stage but `Idle` waits for the reply to
/// the action that was handed out last.
pub enum Stage {
    Idle,
    /// `Save` was handed out for a new record.
    Saving { name: Seq<char>, note: Seq<char>, auto: bool, removed: Option<Record> },
    /// `WriteInfos` was handed out; the operation ends with `done`.
    Writing { done: DoneView, context: Context },
    /// The user was asked whether to overwrite the latest record.
    OverwriteAsked,
    /// `Remove` was handed out for the latest record's folder.
    OverwriteRemoving,
    /// `Save` was handed out for the latest record's folder.
    OverwriteSaving,
    /// `Load` was handed out.
    Loading,
    /// `Rename` was handed out for the record at `index`.
    Renaming { index: usize, name: Seq<char>, new_note: Option<Seq<char>> },
    /// The user was asked whether to delete the records at `targets`.
    DeleteAsked { targets: Seq<usize> },
    /// `Remove` was handed out for the last of `targets`.
    Deleting { targets: Seq<usize> },
    /// The user is being told of a deletion; `targets` are still to go.
    DeleteTold { targets: Seq<usize> },
    /// The user is being told of what was locked or unlocked.
    Telling,
    /// `Remove` was handed out for the oldest automatic save, at `index`.
    Evicting { index: usize },
    /// The user is being warned before the game starts.
    LaunchTold { path: Seq<char> },
    /// `Launch` was handed out.
    Launching,
}

/// A state of the engine.
pub struct Engine {
    pub store: Store,
    pub stage: Stage,
}

impl Engine {
    /// The state after `saves` took the place of the records.
    pub open spec fn with_saves(self, saves: Seq<Record>) -> Engine {
        Engine { store: Store { saves, ..self.store }, ..self }
    }

    /// The operation ends.
    pub open spec fn halt(self, outcome: Result<DoneView, Failure>) -> (Engine, StepView) {
        (Engine { stage: Stage::Idle, ..self }, StepView::Finish(outcome))
    }

    /// The operation ends because the shell failed.
    pub open spec fn fail(self, reply: Reply, context: Context) -> (Engine, StepView) {
        self.halt(Err(Failure::Failed { error: reply->Failed_0, context }))
    }

    /// The operation goes on with `action`.
    pub open spec fn go(self, stage: Stage, action: ActionView) -> (Engine, StepView) {
        (Engine { stage, ..self }, StepView::Perform(action))
    }

    /// A request that is refused changes nothing.
    pub open spec fn reject(self, fault: Fault) -> (Engine, StepView) {
        (self, refuse(fault))
    }

    /// Creates a record `name` with `note`: the folder first, then the record.
    pub open spec fn save(self, name: Seq<char>, note: Seq<char>) -> (Engine, StepView) {
        self.save_as(name, note, false, None)
    }

    /// As `save`; `auto` and `removed` say how an automatic save ends.
    pub open spec fn save_as(
        self,
        name: Seq<char>,
        note: Seq<char>,
        auto: bool,
        removed: Option<Record>,
    ) -> (Engine, StepView) {
        if name_used(self.store.saves, name) {
            self.halt(Err(Failure::Refused(Fault::NameTaken)))
        } else if name.len() == 0 {
            self.halt(Err(Failure::Refused(Fault::NameEmpty)))
        } else {
            self.go(Stage::Saving { name, note, auto, removed }, ActionView::Save { name })
        }
    }

    /// Creates a record under the name generated for `moment`, without a note.
    pub open spec fn quick_save(self, is_auto_save: bool, moment: Moment) -> (Engine, StepView) {
        self.save(quick_name(moment, is_auto_save), Seq::empty())
    }

    /// Overwrites the latest record, after the user agreed.
    pub open spec fn overwrite_save(self) -> (Engine, StepView) {
        let saves = self.store.saves;
        if saves.len() == 0 {
            self.halt(Err(Failure::Refused(Fault::NothingToOverwrite)))
        } else if saves.last().locked {
            self.halt(Err(Failure::Refused(Fault::Locked)))
        } else {
            self.go(
                Stage::OverwriteAsked,
                ActionView::Confirm(PromptView::Overwrite { name: saves.last().name }),
            )
        }
    }

    /// Makes an automatic save, after removing the oldest one where `max`
    /// of them are there already.
    pub open spec fn auto_save(self, max_auto_saves: usize, moment: Moment) -> (Engine, StepView) {
        let saves = self.store.saves;
        let count = count_auto(saves);
        if count >= max_auto_saves && count > 0 {
            let index = first_auto(saves);
            if saves[index].locked {
                self.halt(Err(Failure::Refused(Fault::Locked)))
            } else {
                self.go(
                    Stage::Evicting { index: index as usize },
                    ActionView::Remove { name: saves[index].name },
                )
            }
        } else {
            self.save_as(quick_name(moment, true), Seq::empty(), true, None)
        }
    }

    /// Restores the record at `index`. The store is not changed.
    pub open spec fn load_save(self, index: usize) -> (Engine, StepView) {
        let saves = self.store.saves;
        if index < saves.len() {
            self.go(Stage::Loading, ActionView::Load { name: saves[index as int].name })
        } else if saves.len() == 0 {
            self.halt(Err(Failure::Refused(Fault::NothingToLoad)))
        } else {
            self.halt(Err(Failure::Refused(Fault::InvalidIndex)))
        }
    }

    /// Restores the latest record.
    pub open spec fn quick_load(self) -> (Engine, StepView) {
        if self.store.saves.len() == 0 {
            self.halt(Err(Failure::Refused(Fault::NothingToLoad)))
        } else {
            self.load_save((self.store.saves.len() - 1) as usize)
        }
    }

    /// Renames the record at `index`, gives it a new note, or both. The
    /// folder is renamed before the record; the document is rewritten once,
    /// and only if a name or a note was given.
    pub open spec fn modify_save_info(
        self,
        index: usize,
        new_name: Option<Seq<char>>,
        new_note: Option<Seq<char>>,
    ) -> (Engine, StepView) {
        let saves = self.store.saves;
        if index >= saves.len() {
            self.halt(Err(Failure::Refused(Fault::InvalidIndex)))
        } else if saves[index as int].locked {
            self.halt(Err(Failure::Refused(Fault::Locked)))
        } else {
            match new_name {
                Some(name) => {
                    if blank(name) {
                        self.halt(Err(Failure::Refused(Fault::NameEmpty)))
                    } else if used_elsewhere(saves, index as int, name) {
                        self.halt(Err(Failure::Refused(Fault::NameTaken)))
                    } else {
                        self.go(
                            Stage::Renaming { index, name, new_note },
                            ActionView::Rename {
                                old_name: saves[index as int].name,
                                new_name: name,
                            },
                        )
                    }
                },
                None => match new_note {
                    Some(note) => self.with_saves(
                        saves.update(index as int, Record { note, ..saves[index as int] }),
                    ).go(
                        Stage::Writing { done: DoneView::Completed, context: Context::Plain },
                        ActionView::WriteInfos,
                    ),
                    None => self.halt(Ok(DoneView::Completed)),
                },
            }
        }
    }

    /// Deletes the records that the request names and that are not locked,
    /// after the user agreed.
    pub open spec fn delete_saves(self, indexes: Seq<usize>) -> (Engine, StepView) {
        let targets = targets_of(self.store.saves, indexes);
        if targets.len() == 0 {
            self.halt(Err(Failure::Refused(Fault::NothingToDelete)))
        } else {
            self.go(
                Stage::DeleteAsked { targets },
                ActionView::Confirm(PromptView::Delete { indexes: targets }),
            )
        }
    }

    /// Deletes the latest record.
    pub open spec fn quick_delete_save(self) -> (Engine, StepView) {
        if self.store.saves.len() == 0 {
            self.halt(Err(Failure::Refused(Fault::NothingToDelete)))
        } else {
            self.delete_saves(seq![(self.store.saves.len() - 1) as usize])
        }
    }

    /// Sets the flag of every record that the request names to `locked`.
    /// Indexes that lead nowhere are passed over.
    pub open spec fn set_lock(self, indexes: Seq<usize>, locked: bool) -> (Engine, StepView) {
        let saves = self.store.saves;
        let valid = valid_of(indexes, saves.len() as int);
        self.with_saves(set_flags(saves, indexes, locked)).go(
            Stage::Telling,
            ActionView::Tell(
                if valid.len() > 0 {
                    if locked {
                        NoticeView::Locked { indexes: valid }
                    } else {
                        NoticeView::Unlocked { indexes: valid }
                    }
                } else {
                    if locked {
                        NoticeView::NothingToLock
                    } else {
                        NoticeView::NothingToUnlock
                    }
                },
            ),
        )
    }

    /// Configures the path of the game's executable.
    pub open spec fn set_noita_path(self, path: Seq<char>) -> (Engine, StepView) {
        (Engine { store: Store { exe_path: path, ..self.store }, ..self }).go(
            Stage::Writing { done: DoneView::Completed, context: Context::Plain },
            ActionView::WriteInfos,
        )
    }

    /// Rewrites the document from the store as it is.
    pub open spec fn write_infos(self) -> (Engine, StepView) {
        self.go(
            Stage::Writing { done: DoneView::Completed, context: Context::Plain },
            ActionView::WriteInfos,
        )
    }

    /// Starts the game, where the configured path exists and leads to it.
    pub open spec fn startgame(self, exists: bool, is_game: bool) -> (Engine, StepView) {
        if exists && is_game {
            self.go(
                Stage::LaunchTold { path: self.store.exe_path },
                ActionView::Tell(NoticeView::StartWithoutSteam),
            )
        } else {
            self.halt(Err(Failure::Refused(Fault::PathNotSet)))
        }
    }

    /// A request when `request` says what it does from an idle engine: an
    /// engine that is busy refuses it.
    pub open spec fn begin(self, request: (Engine, StepView)) -> (Engine, StepView) {
        if self.stage is Idle {
            request
        } else {
            self.reject(Fault::Busy)
        }
    }

    /// The next `Remove` of a deletion, or the rewriting of the document
    /// when no target is left.
    pub open spec fn delete_next(self, targets: Seq<usize>) -> (Engine, StepView) {
        let saves = self.store.saves;
        if targets.len() == 0 {
            self.go(
                Stage::Writing { done: DoneView::Completed, context: Context::WriteAfterDelete },
                ActionView::WriteInfos,
            )
        } else if targets.last() < saves.len() {
            self.go(
                Stage::Deleting { targets },
                ActionView::Remove { name: saves[targets.last() as int].name },
            )
        } else {
            self.halt(Err(Failure::Refused(Fault::InvalidIndex)))
        }
    }

    /// After `Save` for a new record: the record is appended, stamped with
    /// the present date and time, and the document is rewritten.
    pub open spec fn after_saving(
        self,
        name: Seq<char>,
        note: Seq<char>,
        auto: bool,
        removed: Option<Record>,
        reply: Reply,
        stamp: Option<Stamp>,
    ) -> (Engine, StepView) {
        if reply is Failed {
            self.fail(reply, Context::Plain)
        } else {
            match stamp {
                Some(stamp) => {
                    let latest = Record {
                        date: stamp.date,
                        time: stamp.time,
                        name,
                        note,
                        locked: false,
                    };
                    self.with_saves(self.store.saves.push(latest)).go(
                        Stage::Writing {
                            done: if auto {
                                DoneView::AutoSaved { removed, latest }
                            } else {
                                DoneView::Completed
                            },
                            context: Context::Plain,
                        },
                        ActionView::WriteInfos,
                    )
                },
                None => self.halt(Err(Failure::Refused(Fault::ClockFormat))),
            }
        }
    }

    /// After `WriteInfos`: the operation ends.
    pub open spec fn after_writing(self, done: DoneView, context: Context, reply: Reply) -> (
        Engine,
        StepView,
    ) {
        if reply is Failed {
            self.fail(reply, context)
        } else {
            self.halt(Ok(done))
        }
    }

    /// After the question whether to overwrite: only a yes goes on.
    pub open spec fn after_overwrite_asked(self, reply: Reply) -> (Engine, StepView) {
        let saves = self.store.saves;
        if reply is Failed {
            self.fail(reply, Context::Plain)
        } else if !(reply is Yes) {
            self.halt(Ok(DoneView::Declined))
        } else if saves.len() == 0 {
            self.halt(Err(Failure::Refused(Fault::NothingToOverwrite)))
        } else {
            self.go(Stage::OverwriteRemoving, ActionView::Remove { name: saves.last().name })
        }
    }

    /// After the old folder was removed: the save data is copied anew.
    pub open spec fn after_overwrite_removing(self, reply: Reply) -> (Engine, StepView) {
        let saves = self.store.saves;
        if reply is Failed {
            self.fail(reply, Context::Plain)
        } else if saves.len() == 0 {
            self.halt(Err(Failure::Refused(Fault::NothingToOverwrite)))
        } else {
            self.go(Stage::OverwriteSaving, ActionView::Save { name: saves.last().name })
        }
    }

    /// After the save data was copied anew: the latest record gets the
    /// present date and time, and the document is rewritten.
    pub open spec fn after_overwrite_saving(self, reply: Reply, stamp: Option<Stamp>) -> (
        Engine,
        StepView,
    ) {
        let saves = self.store.saves;
        if reply is Failed {
            self.fail(reply, Context::Plain)
        } else if saves.len() == 0 {
            self.halt(Err(Failure::Refused(Fault::NothingToOverwrite)))
        } else {
            match stamp {
                Some(stamp) => self.with_saves(
                    saves.update(
                        saves.len() - 1,
                        Record { date: stamp.date, time: stamp.time, ..saves.last() },
                    ),
                ).go(
                    Stage::Writing { done: DoneView::Completed, context: Context::Plain },
                    ActionView::WriteInfos,
                ),
                None => self.halt(Err(Failure::Refused(Fault::ClockFormat))),
            }
        }
    }

    /// After an action that ends the operation without a change.
    pub open spec fn after_last(self, reply: Reply) -> (Engine, StepView) {
        if reply is Failed {
            self.fail(reply, Context::Plain)
        } else {
            self.halt(Ok(DoneView::Completed))
        }
    }

    /// After the folder was renamed: the record gets the name, and the note
    /// if one was given, and the document is rewritten.
    pub open spec fn after_renaming(
        self,
        index: usize,
        name: Seq<char>,
        new_note: Option<Seq<char>>,
        reply: Reply,
    ) -> (Engine, StepView) {
        let saves = self.store.saves;
        if reply is Failed {
            self.fail(reply, Context::Plain)
        } else if index >= saves.len() {
            self.halt(Err(Failure::Refused(Fault::InvalidIndex)))
        } else {
            let renamed = Record { name, ..saves[index as int] };
            self.with_saves(
                saves.update(
                    index as int,
                    match new_note {
                        Some(note) => Record { note, ..renamed },
                        None => renamed,
                    },
                ),
            ).go(
                Stage::Writing { done: DoneView::Completed, context: Context::Plain },
                ActionView::WriteInfos,
            )
        }
    }

    /// After the question whether to delete: only a yes goes on, with the
    /// highest target.
    pub open spec fn after_delete_asked(self, targets: Seq<usize>, reply: Reply) -> (
        Engine,
        StepView,
    ) {
        if reply is Failed {
            self.fail(reply, Context::Plain)
        } else if !(reply is Yes) {
            self.halt(Ok(DoneView::Declined))
        } else if targets.len() == 0 {
            self.halt(Err(Failure::Refused(Fault::NothingToDelete)))
        } else {
            self.delete_next(targets)
        }
    }

    /// After the folder of the highest target was removed: its record is
    /// removed, and the user is told.
    pub open spec fn after_deleting(self, targets: Seq<usize>, reply: Reply) -> (Engine, StepView) {
        let saves = self.store.saves;
        if reply is Failed {
            self.fail(reply, Context::DeleteFolder)
        } else if targets.len() == 0 || targets.last() >= saves.len() {
            self.halt(Err(Failure::Refused(Fault::InvalidIndex)))
        } else {
            let index = targets.last();
            self.with_saves(saves.remove(index as int)).go(
                Stage::DeleteTold { targets: targets.drop_last() },
                ActionView::Tell(NoticeView::Deleted { index, save: saves[index as int] }),
            )
        }
    }

    /// After the folder of the oldest automatic save was removed: its record
    /// is removed, and the new save is begun.
    pub open spec fn after_evicting(self, index: usize, reply: Reply, moment: Moment) -> (
        Engine,
        StepView,
    ) {
        let saves = self.store.saves;
        if reply is Failed {
            self.fail(reply, Context::DeleteFolder)
        } else if index >= saves.len() {
            self.halt(Err(Failure::Refused(Fault::InvalidIndex)))
        } else {
            self.with_saves(saves.remove(index as int)).save_as(
                quick_name(moment, true),
                Seq::empty(),
                true,
                Some(saves[index as int]),
            )
        }
    }

    /// What the reply to the last action leads to. `moment` and `stamp` are
    /// what the clock says at that time.
    pub open spec fn resume(self, reply: Reply, moment: Moment, stamp: Option<Stamp>) -> (
        Engine,
        StepView,
    ) {
        match self.stage {
            Stage::Idle => self.reject(Fault::NothingPending),
            Stage::Saving { name, note, auto, removed } => self.after_saving(
                name,
                note,
                auto,
                removed,
                reply,
                stamp,
            ),
            Stage::Writing { done, context } => self.after_writing(done, context, reply),
            Stage::OverwriteAsked => self.after_overwrite_asked(reply),
            Stage::OverwriteRemoving => self.after_overwrite_removing(reply),
            Stage::OverwriteSaving => self.after_overwrite_saving(reply, stamp),
            Stage::Loading => self.after_last(reply),
            Stage::Renaming { index, name, new_note } => self.after_renaming(
                index,
                name,
                new_note,
                reply,
            ),
            Stage::DeleteAsked { targets } => self.after_delete_asked(targets, reply),
            Stage::Deleting { targets } => self.after_deleting(targets, reply),
            Stage::DeleteTold { targets } => self.delete_next(targets),
            Stage::Telling => self.write_infos(),
            Stage::Evicting { index } => self.after_evicting(index, reply, moment),
            Stage::LaunchTold { path } => self.go(Stage::Launching, ActionView::Launch { path }),
            Stage::Launching => self.after_last(reply),
        }
    }
}

/// Everything that can be asked of an idle engine.
pub enum Request {
    Save { name: Seq<char>, note: Seq<char> },
    QuickSave { is_auto_save: bool, moment: Moment },
    Overwrite,
    AutoSave { max_auto_saves: usize, moment: Moment },
    Load { index: usize },
    QuickLoad,
    Modify { index: usize, new_name: Option<Seq<char>>, new_note: Option<Seq<char>> },
    Delete { indexes: Seq<usize> },
    QuickDelete,
    Lock { indexes: Seq<usize> },
    Unlock { indexes: Seq<usize> },
    SetPath { path: Seq<char> },
    WriteInfos,
    StartGame { exists: bool, is_game: bool },
}

impl Engine {
    /// What a request leads to: the engine refuses it while it is busy.
    pub open spec fn request(self, request: Request) -> (Engine, StepView) {
        self.begin(
            match request {
                Request::Save { name, note } => self.save(name, note),
                Request::QuickSave { is_auto_save, moment } => self.quick_save(is_auto_save, moment),
                Request::Overwrite => self.overwrite_save(),
                Request::AutoSave { max_auto_saves, moment } => self.auto_save(
                    max_auto_saves,
                    moment,
                ),
                Request::Load { index } => self.load_save(index),
                Request::QuickLoad => self.quick_load(),
                Request::Modify { index, new_name, new_note } => self.modify_save_info(
                    index,
                    new_name,
                    new_note,
                ),
                Request::Delete { indexes } => self.delete_saves(indexes),
                Request::QuickDelete => self.quick_delete_save(),
                Request::Lock { indexes } => self.set_lock(indexes, true),
                Request::Unlock { indexes } => self.set_lock(indexes, false),
                Request::SetPath { path } => self.set_noita_path(path),
                Request::WriteInfos => self.write_infos(),
                Request::StartGame { exists, is_game } => self.startgame(exists, is_game),
            },
        )
    }
}

/// `targets` are positions of unlocked records, in ascending order.
pub open spec fn deletable(saves: Seq<Record>, targets: Seq<usize>) -> bool {
    &&& forall|k: int| 0 <= k < targets.len() ==> (#[trigger] targets[k]) < saves.len()
    &&& forall|k: int| 0 <= k < targets.len() ==> !saves[(#[trigger] targets[k]) as int].locked
    &&& forall|j: int, k: int| 0 <= j < k < targets.len() ==> targets[j] < targets[k]
}

/// What holds of every state that the engine can reach from an idle state
/// over a well-formed store: the store is well-formed, and the stage speaks
/// only of records that are there and not locked.
pub open spec fn inv(e: Engine) -> bool {
    let saves = e.store.saves;
    &&& e.store.wf()
    &&& match e.stage {
        Stage::Saving { name, .. } => name.len() > 0 && !name_used(saves, name),
        Stage::OverwriteAsked | Stage::OverwriteRemoving | Stage::OverwriteSaving => saves.len() > 0
            && !saves.last().locked,
        Stage::Renaming { index, name, .. } => index < saves.len() && !saves[index as int].locked
            && name.len() > 0 && !used_elsewhere(saves, index as int, name),
        Stage::DeleteAsked { targets } => targets.len() > 0 && deletable(saves, targets),
        Stage::Deleting { targets } => targets.len() > 0 && deletable(saves, targets),
        Stage::DeleteTold { targets } => deletable(saves, targets),
        Stage::Evicting { index } => index < saves.len() && !saves[index as int].locked,
        _ => true,
    }
}

} // verus!
