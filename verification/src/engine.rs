//! The engine: the store and the rules of every operation on it.
//!
//! An operation is begun by one of the request methods and carried on by
//! `resume`, one action of the shell at a time. A folder is always changed
//! before the record that speaks of it, and the document is rewritten after
//! the store has changed, never before.
use vstd::prelude::*;
use vstd::string::*;
use crate::clock::{plausible, read_clock, Reading};
use crate::error::NSError;
use crate::machine::{
    blank, count_auto, count_auto_upto, first_auto, first_auto_from, set_flags, stamp_of,
    targets_of, targets_upto, used_elsewhere, valid_of, Engine, Stage,
};
use crate::naming::{is_auto_save_name, quick_save_name, Moment};
use crate::protocol::{
    record_of, Action, Context, Done, Failure, Fault, Notice, Prompt, Reply, Step,
};
use crate::save_infos::{AllInfos, Record, SingleSave};
use crate::text::{same_text, to_chars};

verus! {

/// The operation under way, with what it needs to go on.
enum Pending {
    Idle,
    Saving { name: String, note: String, auto: bool, removed: Option<SingleSave> },
    Writing { done: Done, context: Context },
    OverwriteAsked,
    OverwriteRemoving,
    OverwriteSaving,
    Loading,
    Renaming { index: usize, name: String, new_note: Option<String> },
    DeleteAsked { targets: Vec<usize> },
    Deleting { targets: Vec<usize> },
    DeleteTold { targets: Vec<usize> },
    Telling,
    Evicting { index: usize },
    LaunchTold { path: String },
    Launching,
}

impl View for Pending {
    type V = Stage;

    closed spec fn view(&self) -> Stage {
        match self {
            Pending::Idle => Stage::Idle,
            Pending::Saving { name, note, auto, removed } => Stage::Saving {
                name: name@,
                note: note@,
                auto: *auto,
                removed: record_of(*removed),
            },
            Pending::Writing { done, context } => Stage::Writing { done: done@, context: *context },
            Pending::OverwriteAsked => Stage::OverwriteAsked,
            Pending::OverwriteRemoving => Stage::OverwriteRemoving,
            Pending::OverwriteSaving => Stage::OverwriteSaving,
            Pending::Loading => Stage::Loading,
            Pending::Renaming { index, name, new_note } => Stage::Renaming {
                index: *index,
                name: name@,
                new_note: wanted(*new_note),
            },
            Pending::DeleteAsked { targets } => Stage::DeleteAsked { targets: targets@ },
            Pending::Deleting { targets } => Stage::Deleting { targets: targets@ },
            Pending::DeleteTold { targets } => Stage::DeleteTold { targets: targets@ },
            Pending::Telling => Stage::Telling,
            Pending::Evicting { index } => Stage::Evicting { index: *index },
            Pending::LaunchTold { path } => Stage::LaunchTold { path: path@ },
            Pending::Launching => Stage::Launching,
        }
    }
}

/// The optional text of a request, for contracts.
pub open spec fn wanted(text: Option<String>) -> Option<Seq<char>> {
    match text {
        Some(t) => Some(t@),
        None => None,
    }
}

/// Whether `name` is blank: empty, or white space all through.
pub fn is_blank(name: &str) -> (r: bool)
    ensures
        r == blank(name@),
{
    let chars = to_chars(name);
    let mut i: usize = 0;
    while i < chars.len()
        invariant
            i <= chars.len(),
            chars@ == name@,
            forall|j: int| 0 <= j < i ==> crate::text::white_space(#[trigger] name@[j]),
        decreases chars.len() - i,
    {
        if !chars[i].is_whitespace() {
            return false;
        }
        i += 1;
    }
    true
}

/// Whether `index` occurs in `indexes`.
pub fn contains_index(indexes: &Vec<usize>, index: usize) -> (r: bool)
    ensures
        r == indexes@.contains(index),
{
    let mut i: usize = 0;
    while i < indexes.len()
        invariant
            i <= indexes.len(),
            forall|j: int| 0 <= j < i ==> indexes@[j] != index,
        decreases indexes.len() - i,
    {
        if indexes[i] == index {
            return true;
        }
        i += 1;
    }
    false
}

/// The engine. It owns the store for as long as the program runs.
pub struct Core {
    m_info: AllInfos,
    m_pending: Pending,
    m_locale: String,
    m_date_format: String,
    m_time_format: String,
}

impl View for Core {
    type V = Engine;

    closed spec fn view(&self) -> Engine {
        Engine { store: self.m_info@, stage: self.m_pending@ }
    }
}

impl Core {
    /// The locale, for contracts.
    pub closed spec fn spec_locale(&self) -> Seq<char> {
        self.m_locale@
    }

    /// The patterns for the date and the time, for contracts.
    pub closed spec fn spec_formats(&self) -> (Seq<char>, Seq<char>) {
        (self.m_date_format@, self.m_time_format@)
    }

    /// What stays the same through every operation.
    pub open spec fn same_setup(&self, other: &Core) -> bool {
        self.spec_locale() == other.spec_locale() && self.spec_formats() == other.spec_formats()
    }

    /// An idle engine over the store that was loaded. `date_format` and
    /// `time_format` are the patterns with which records are stamped.
    pub fn new(infos: AllInfos, locale: String, date_format: String, time_format: String) -> (core:
        Self)
        ensures
            core@ == (Engine { store: infos@, stage: Stage::Idle }),
            core.spec_locale() == locale@,
            core.spec_formats() == (date_format@, time_format@),
    {
        Self {
            m_info: infos,
            m_pending: Pending::Idle,
            m_locale: locale,
            m_date_format: date_format,
            m_time_format: time_format,
        }
    }

    #[inline]
    pub fn get_save_infos(&self) -> (infos: &AllInfos)
        ensures
            infos@ == self@.store,
    {
        &self.m_info
    }

    /// A copy of every record, in order.
    pub fn get_saves(&self) -> (saves: Vec<SingleSave>)
        ensures
            saves@.map_values(|s: SingleSave| s@) == self@.store.saves,
    {
        let copy = self.m_info.clone();
        let parts = copy.to_parts();
        let mut saves: Vec<SingleSave> = Vec::new();
        let mut i: usize = 0;
        while i < parts.len()
            invariant
                i <= parts.len(),
                saves@.len() == i,
                crate::save_infos::all_parts_view(parts@) == self@.store.saves,
                forall|k: int|
                    0 <= k < i ==> (#[trigger] saves@[k])@ == crate::save_infos::parts_view(
                        parts@[k],
                    ),
            decreases parts.len() - i,
        {
            let next = (
                parts[i].0.clone(),
                parts[i].1.clone(),
                parts[i].2.clone(),
                parts[i].3.clone(),
                parts[i].4,
            );
            saves.push(SingleSave::from_parts(next));
            i += 1;
        }
        assert(saves@.map_values(|s: SingleSave| s@) =~= crate::save_infos::all_parts_view(
            parts@,
        ));
        saves
    }

    #[inline]
    pub fn get_locale(&self) -> (locale: &str)
        ensures
            locale@ == self.spec_locale(),
    {
        self.m_locale.as_str()
    }

    /// Whether no operation is under way.
    #[inline]
    pub fn is_idle(&self) -> (idle: bool)
        ensures
            idle == (self@.stage is Idle),
    {
        match &self.m_pending {
            Pending::Idle => true,
            _ => false,
        }
    }

    /// Reads the clock with the engine's patterns.
    pub fn clock(&self) -> (reading: Reading)
        ensures
            plausible(reading.moment),
    {
        read_clock(self.m_date_format.as_str(), self.m_time_format.as_str())
    }

    fn busy() -> (step: Step)
        ensures
            step@ == crate::protocol::refuse(Fault::Busy),
    {
        Step::Finish(Err(Failure::Refused(Fault::Busy)))
    }

    fn refused(fault: Fault) -> (step: Step)
        ensures
            step@ == crate::protocol::refuse(fault),
    {
        Step::Finish(Err(Failure::Refused(fault)))
    }

    fn start_save(&mut self, name: String, note: String, auto: bool, removed: Option<SingleSave>) -> (step:
        Step)
        requires
            old(self)@.stage is Idle,
        ensures
            (final(self)@, step@) == old(self)@.save_as(name@, note@, auto, record_of(removed)),
            final(self).same_setup(old(self)),
    {
        if !self.m_info.is_name_unique(name.as_str()) {
            return Self::refused(Fault::NameTaken);
        }
        if name.as_str().is_empty() {
            return Self::refused(Fault::NameEmpty);
        }
        let folder = name.clone();
        self.m_pending = Pending::Saving { name, note, auto, removed };
        Step::Perform(Action::Save { name: folder })
    }

    fn start_write(&mut self, done: Done, context: Context) -> (step: Step)
        ensures
            (final(self)@, step@) == old(self)@.go(
                Stage::Writing { done: done@, context },
                crate::protocol::ActionView::WriteInfos,
            ),
            final(self).same_setup(old(self)),
    {
        self.m_pending = Pending::Writing { done, context };
        Step::Perform(Action::WriteInfos)
    }

    /// Creates a record `save_name` with `save_note`. A name that is taken
    /// or empty is refused and nothing is changed; otherwise the shell is
    /// asked to copy the save data into the folder of that name.
    pub fn save(&mut self, save_name: String, save_note: String) -> (step: Step)
        ensures
            (final(self)@, step@) == old(self)@.begin(old(self)@.save(save_name@, save_note@)),
            final(self).same_setup(old(self)),
    {
        if !self.is_idle() {
            return Self::busy();
        }
        self.start_save(save_name, save_note, false, None)
    }

    /// As `quick_save`, for the given moment.
    pub fn quick_save_at(&mut self, is_auto_save: bool, moment: &Moment) -> (step: Step)
        ensures
            (final(self)@, step@) == old(self)@.begin(old(self)@.quick_save(is_auto_save, *moment)),
            final(self).same_setup(old(self)),
    {
        if !self.is_idle() {
            return Self::busy();
        }
        let name = quick_save_name(moment, is_auto_save);
        self.start_save(name, String::new(), false, None)
    }

    /// Creates a record under the name generated for the present moment.
    pub fn quick_save(&mut self, is_auto_save: bool) -> (step: Step)
        ensures
            exists|moment: Moment|
                plausible(moment) && (final(self)@, step@) == old(self)@.begin(
                    #[trigger] old(self)@.quick_save(is_auto_save, moment),
                ),
            final(self).same_setup(old(self)),
    {
        let reading = self.clock();
        self.quick_save_at(is_auto_save, &reading.moment)
    }

    /// Overwrites the latest record. Refused where there is none or where
    /// it is locked; otherwise the user is asked first.
    pub fn overwrite_save(&mut self) -> (step: Step)
        ensures
            (final(self)@, step@) == old(self)@.begin(old(self)@.overwrite_save()),
            final(self).same_setup(old(self)),
    {
        if !self.is_idle() {
            return Self::busy();
        }
        let n = self.m_info.len();
        if n == 0 {
            return Self::refused(Fault::NothingToOverwrite);
        }
        if self.m_info.is_locked_at(n - 1) {
            return Self::refused(Fault::Locked);
        }
        let name = self.m_info.name_at(n - 1);
        self.m_pending = Pending::OverwriteAsked;
        Step::Perform(Action::Confirm(Prompt::Overwrite { name }))
    }

    /// How many records are automatic saves.
    pub fn count_auto_saves(&self) -> (count: usize)
        ensures
            count == count_auto(self@.store.saves),
    {
        let n = self.m_info.len();
        let mut count: usize = 0;
        let mut i: usize = 0;
        while i < n
            invariant
                i <= n,
                n == self@.store.saves.len(),
                count <= i,
                count == count_auto_upto(self@.store.saves, i as int),
            decreases n - i,
        {
            let name = self.m_info.name_at(i);
            if is_auto_save_name(name.as_str()) {
                count += 1;
            }
            i += 1;
        }
        count
    }

    /// The position of the oldest automatic save; the number of records if
    /// there is none.
    pub fn first_auto_save(&self) -> (index: usize)
        ensures
            index == first_auto(self@.store.saves),
            index <= self@.store.saves.len(),
    {
        let n = self.m_info.len();
        let mut i: usize = 0;
        while i < n
            invariant
                i <= n,
                n == self@.store.saves.len(),
                first_auto(self@.store.saves) == first_auto_from(self@.store.saves, i as int),
            decreases n - i,
        {
            let name = self.m_info.name_at(i);
            if is_auto_save_name(name.as_str()) {
                return i;
            }
            i += 1;
        }
        n
    }

    /// As `auto_save`, for the given moment.
    pub fn auto_save_at(&mut self, max_auto_saves: usize, moment: &Moment) -> (step: Step)
        ensures
            (final(self)@, step@) == old(self)@.begin(old(self)@.auto_save(max_auto_saves, *moment)),
            final(self).same_setup(old(self)),
    {
        if !self.is_idle() {
            return Self::busy();
        }
        let count = self.count_auto_saves();
        if count >= max_auto_saves && count > 0 {
            let index = self.first_auto_save();
            proof {
                lemma_first_auto_found(self@.store.saves);
            }
            if self.m_info.is_locked_at(index) {
                return Self::refused(Fault::Locked);
            }
            let name = self.m_info.name_at(index);
            self.m_pending = Pending::Evicting { index };
            Step::Perform(Action::Remove { name })
        } else {
            let name = quick_save_name(moment, true);
            self.start_save(name, String::new(), true, None)
        }
    }

    /// Makes an automatic save. Where `max_auto_saves` of them are there
    /// already, the oldest is removed first: its folder, then its record.
    /// A locked record is never removed: the request is refused instead.
    pub fn auto_save(&mut self, max_auto_saves: usize) -> (step: Step)
        ensures
            exists|moment: Moment|
                plausible(moment) && (final(self)@, step@) == old(self)@.begin(
                    #[trigger] old(self)@.auto_save(max_auto_saves, moment),
                ),
            final(self).same_setup(old(self)),
    {
        let reading = self.clock();
        self.auto_save_at(max_auto_saves, &reading.moment)
    }

    /// Restores the record at `index`, counted from zero.
    pub fn load_save(&mut self, index: usize) -> (step: Step)
        ensures
            (final(self)@, step@) == old(self)@.begin(old(self)@.load_save(index)),
            final(self).same_setup(old(self)),
    {
        if !self.is_idle() {
            return Self::busy();
        }
        let n = self.m_info.len();
        if index < n {
            let name = self.m_info.name_at(index);
            self.m_pending = Pending::Loading;
            Step::Perform(Action::Load { name })
        } else if n == 0 {
            Self::refused(Fault::NothingToLoad)
        } else {
            Self::refused(Fault::InvalidIndex)
        }
    }

    /// Restores the latest record.
    #[inline]
    pub fn quick_load(&mut self) -> (step: Step)
        ensures
            (final(self)@, step@) == old(self)@.begin(old(self)@.quick_load()),
            final(self).same_setup(old(self)),
    {
        if !self.is_idle() {
            return Self::busy();
        }
        let n = self.m_info.len();
        if n == 0 {
            return Self::refused(Fault::NothingToLoad);
        }
        self.load_save(n - 1)
    }

    fn name_used_elsewhere(&self, index: usize, name: &str) -> (r: bool)
        ensures
            r == used_elsewhere(self@.store.saves, index as int, name@),
    {
        let n = self.m_info.len();
        let mut j: usize = 0;
        while j < n
            invariant
                j <= n,
                n == self@.store.saves.len(),
                forall|k: int|
                    0 <= k < j && k != index ==> (#[trigger] self@.store.saves[k]).name != name@,
            decreases n - j,
        {
            if j != index {
                let other = self.m_info.name_at(j);
                if same_text(other.as_str(), name) {
                    assert(self@.store.saves[j as int].name == name@);
                    return true;
                }
            }
            j += 1;
        }
        false
    }

    /// Renames the record at `index`, gives it a new note, or both.
    pub fn modify_save_info(
        &mut self,
        index: usize,
        new_name: Option<String>,
        new_note: Option<String>,
    ) -> (step: Step)
        ensures
            (final(self)@, step@) == old(self)@.begin(
                old(self)@.modify_save_info(index, wanted(new_name), wanted(new_note)),
            ),
            final(self).same_setup(old(self)),
    {
        if !self.is_idle() {
            return Self::busy();
        }
        if index >= self.m_info.len() {
            return Self::refused(Fault::InvalidIndex);
        }
        if self.m_info.is_locked_at(index) {
            return Self::refused(Fault::Locked);
        }
        match new_name {
            Some(name) => {
                if is_blank(name.as_str()) {
                    return Self::refused(Fault::NameEmpty);
                }
                if self.name_used_elsewhere(index, name.as_str()) {
                    return Self::refused(Fault::NameTaken);
                }
                let old_name = self.m_info.name_at(index);
                let new_name = name.clone();
                self.m_pending = Pending::Renaming { index, name, new_note };
                Step::Perform(Action::Rename { old_name, new_name })
            },
            None => match new_note {
                Some(note) => {
                    self.m_info.annotate(index, note);
                    self.start_write(Done::Completed, Context::Plain)
                },
                None => Step::Finish(Ok(Done::Completed)),
            },
        }
    }

    /// The positions that a request to delete comes down to.
    pub fn delete_targets(&self, indexes: &Vec<usize>) -> (targets: Vec<usize>)
        ensures
            targets@ == targets_of(self@.store.saves, indexes@),
    {
        let n = self.m_info.len();
        let mut targets: Vec<usize> = Vec::new();
        let mut k: usize = 0;
        while k < n
            invariant
                k <= n,
                n == self@.store.saves.len(),
                targets@ == targets_upto(self@.store.saves, indexes@, k as int),
            decreases n - k,
        {
            if contains_index(indexes, k) && !self.m_info.is_locked_at(k) {
                targets.push(k);
            }
            k += 1;
        }
        targets
    }

    fn start_delete(&mut self, indexes: &Vec<usize>) -> (step: Step)
        requires
            old(self)@.stage is Idle,
        ensures
            (final(self)@, step@) == old(self)@.delete_saves(indexes@),
            final(self).same_setup(old(self)),
    {
        let targets = self.delete_targets(indexes);
        if targets.len() == 0 {
            return Self::refused(Fault::NothingToDelete);
        }
        let shown = targets.clone();
        assert(shown@ =~= targets@);
        self.m_pending = Pending::DeleteAsked { targets };
        Step::Perform(Action::Confirm(Prompt::Delete { indexes: shown }))
    }

    /// Deletes the records that `indexes` names. Indexes that lead nowhere,
    /// that lead to a locked record or that come twice are passed over; if
    /// nothing is left the request is refused. The user is asked once, for
    /// all of them.
    pub fn delete_saves(&mut self, indexes: Vec<usize>) -> (step: Step)
        ensures
            (final(self)@, step@) == old(self)@.begin(old(self)@.delete_saves(indexes@)),
            final(self).same_setup(old(self)),
    {
        if !self.is_idle() {
            return Self::busy();
        }
        self.start_delete(&indexes)
    }

    /// Deletes the latest record; refused where the store is empty.
    #[inline]
    pub fn quick_delete_save(&mut self) -> (step: Step)
        ensures
            (final(self)@, step@) == old(self)@.begin(old(self)@.quick_delete_save()),
            final(self).same_setup(old(self)),
    {
        if !self.is_idle() {
            return Self::busy();
        }
        let n = self.m_info.len();
        if n == 0 {
            return Self::refused(Fault::NothingToDelete);
        }
        let mut indexes: Vec<usize> = Vec::new();
        indexes.push(n - 1);
        assert(indexes@ =~= seq![(n - 1) as usize]);
        self.start_delete(&indexes)
    }

    fn set_lock(&mut self, indexes: &Vec<usize>, locked: bool) -> (step: Step)
        ensures
            (final(self)@, step@) == old(self)@.begin(old(self)@.set_lock(indexes@, locked)),
            final(self).same_setup(old(self)),
    {
        if !self.is_idle() {
            return Self::busy();
        }
        let n = self.m_info.len();
        let mut valid: Vec<usize> = Vec::new();
        let mut i: usize = 0;
        let ghost before = self@.store.saves;
        assert(self@.store.saves =~= set_flags(before, indexes@.take(0), locked));
        while i < indexes.len()
            invariant
                i <= indexes.len(),
                n == before.len(),
                self@.stage is Idle,
                self.same_setup(old(self)),
                self@.store.exe_path == old(self)@.store.exe_path,
                before == old(self)@.store.saves,
                self@.store.saves == set_flags(before, indexes@.take(i as int), locked),
                valid@ == valid_of(indexes@.take(i as int), n as int),
            decreases indexes.len() - i,
        {
            let index = indexes[i];
            proof {
                let shorter = indexes@.take(i as int);
                let longer = indexes@.take(i + 1);
                assert(longer.drop_last() =~= shorter);
                assert(longer.last() == index);
                assert forall|k: usize| longer.contains(k) <==> (shorter.contains(k) || k == index) by {
                    if shorter.contains(k) {
                        let j = choose|j: int| 0 <= j < shorter.len() && shorter[j] == k;
                        assert(longer[j] == k);
                    }
                    if k == index {
                        assert(longer[i as int] == k);
                    }
                    if longer.contains(k) {
                        let j = choose|j: int| 0 <= j < longer.len() && longer[j] == k;
                        if j < i {
                            assert(shorter[j] == k);
                        }
                    }
                }
            }
            if index < n {
                self.m_info.set_locked(index, locked);
                valid.push(index);
                assert(self@.store.saves =~= set_flags(before, indexes@.take(i + 1), locked));
            } else {
                assert(self@.store.saves =~= set_flags(before, indexes@.take(i + 1), locked));
            }
            i += 1;
        }
        assert(indexes@.take(i as int) =~= indexes@);
        let notice = if valid.len() > 0 {
            if locked {
                Notice::Locked { indexes: valid }
            } else {
                Notice::Unlocked { indexes: valid }
            }
        } else {
            if locked {
                Notice::NothingToLock
            } else {
                Notice::NothingToUnlock
            }
        };
        self.m_pending = Pending::Telling;
        Step::Perform(Action::Tell(notice))
    }

    /// Locks every record that `indexes` names. Indexes that lead nowhere
    /// are passed over; the document is rewritten in any case.
    pub fn lock(&mut self, indexes: Vec<usize>) -> (step: Step)
        ensures
            (final(self)@, step@) == old(self)@.begin(old(self)@.set_lock(indexes@, true)),
            final(self).same_setup(old(self)),
    {
        self.set_lock(&indexes, true)
    }

    /// Unlocks every record that `indexes` names.
    pub fn unlock(&mut self, indexes: Vec<usize>) -> (step: Step)
        ensures
            (final(self)@, step@) == old(self)@.begin(old(self)@.set_lock(indexes@, false)),
            final(self).same_setup(old(self)),
    {
        self.set_lock(&indexes, false)
    }

    /// Locks the records that `indexs` names where `operate` is set, and
    /// unlocks them where it is not.
    pub fn modify_lock(&mut self, indexs: Vec<usize>, operate: bool) -> (step: Step)
        ensures
            (final(self)@, step@) == old(self)@.begin(old(self)@.set_lock(indexs@, operate)),
            final(self).same_setup(old(self)),
    {
        self.set_lock(&indexs, operate)
    }

    /// Configures the path of the game's executable and has the document
    /// rewritten.
    pub fn set_noita_path(&mut self, path: String) -> (step: Step)
        ensures
            (final(self)@, step@) == old(self)@.begin(old(self)@.set_noita_path(path@)),
            final(self).same_setup(old(self)),
    {
        if !self.is_idle() {
            return Self::busy();
        }
        self.m_info.set_noita_path(path);
        self.start_write(Done::Completed, Context::Plain)
    }

    /// Has the document rewritten from the store as it is.
    #[inline]
    pub fn write_infos(&mut self) -> (step: Step)
        ensures
            (final(self)@, step@) == old(self)@.begin(old(self)@.write_infos()),
            final(self).same_setup(old(self)),
    {
        if !self.is_idle() {
            return Self::busy();
        }
        self.start_write(Done::Completed, Context::Plain)
    }

    /// Starts the game. `exists` says whether the configured path is there,
    /// `is_game` whether it leads to the game's executable. Where either
    /// fails the request is refused; otherwise the user is warned and the
    /// game is started.
    pub fn startgame_with(&mut self, exists: bool, is_game: bool) -> (step: Step)
        ensures
            (final(self)@, step@) == old(self)@.begin(old(self)@.startgame(exists, is_game)),
            final(self).same_setup(old(self)),
    {
        if !self.is_idle() {
            return Self::busy();
        }
        if !(exists && is_game) {
            return Self::refused(Fault::PathNotSet);
        }
        let path = String::from_str(self.m_info.get_exe_path());
        self.m_pending = Pending::LaunchTold { path };
        Step::Perform(Action::Tell(Notice::StartWithoutSteam))
    }
}

impl Core {
    /// Starts the game. `exists` says whether the configured path is
    /// there; whether it leads to the game is read off its last part.
    pub fn startgame(&mut self, exists: bool) -> (step: Step)
        ensures
            exists|is_game: bool|
                (final(self)@, step@) == old(self)@.begin(
                    #[trigger] old(self)@.startgame(exists, is_game),
                ),
            final(self).same_setup(old(self)),
    {
        let is_game = crate::file_layout::names_game(self.m_info.get_exe_path());
        self.startgame_with(exists, is_game)
    }

    fn failed(error: NSError, context: Context) -> (step: Step)
        ensures
            step@ == crate::protocol::StepView::Finish(Err(Failure::Failed { error, context })),
    {
        Step::Finish(Err(Failure::Failed { error, context }))
    }

    fn delete_next(&mut self, targets: Vec<usize>) -> (step: Step)
        requires
            old(self)@.stage is Idle,
        ensures
            (final(self)@, step@) == old(self)@.delete_next(targets@),
            final(self).same_setup(old(self)),
    {
        let n = targets.len();
        if n == 0 {
            return self.start_write(Done::Completed, Context::WriteAfterDelete);
        }
        let index = targets[n - 1];
        if index < self.m_info.len() {
            let name = self.m_info.name_at(index);
            self.m_pending = Pending::Deleting { targets };
            Step::Perform(Action::Remove { name })
        } else {
            Self::refused(Fault::InvalidIndex)
        }
    }

    fn after_saving(
        &mut self,
        name: String,
        note: String,
        auto: bool,
        removed: Option<SingleSave>,
        reply: Reply,
        reading: Reading,
    ) -> (step: Step)
        requires
            old(self)@.stage is Idle,
        ensures
            (final(self)@, step@) == old(self)@.after_saving(
                name@,
                note@,
                auto,
                record_of(removed),
                reply,
                stamp_of(reading),
            ),
            final(self).same_setup(old(self)),
    {
        match reply {
            Reply::Failed(error) => Self::failed(error, Context::Plain),
            _ => match (reading.date, reading.time) {
                (Some(date), Some(time)) => {
                    let latest = SingleSave::new(date, time, name, note);
                    let done = if auto {
                        Done::AutoSaved { removed, latest: latest.clone() }
                    } else {
                        Done::Completed
                    };
                    self.m_info.push(latest);
                    self.start_write(done, Context::Plain)
                },
                _ => Self::refused(Fault::ClockFormat),
            },
        }
    }

    fn after_overwrite(&mut self, saving: bool, reply: Reply) -> (step: Step)
        requires
            old(self)@.stage is Idle,
        ensures
            (final(self)@, step@) == if saving {
                old(self)@.after_overwrite_removing(reply)
            } else {
                old(self)@.after_overwrite_asked(reply)
            },
            final(self).same_setup(old(self)),
    {
        let n = self.m_info.len();
        match reply {
            Reply::Failed(error) => Self::failed(error, Context::Plain),
            Reply::Yes => {
                if n == 0 {
                    Self::refused(Fault::NothingToOverwrite)
                } else {
                    let name = self.m_info.name_at(n - 1);
                    if saving {
                        self.m_pending = Pending::OverwriteSaving;
                        Step::Perform(Action::Save { name })
                    } else {
                        self.m_pending = Pending::OverwriteRemoving;
                        Step::Perform(Action::Remove { name })
                    }
                }
            },
            _ => {
                if !saving {
                    Step::Finish(Ok(Done::Declined))
                } else if n == 0 {
                    Self::refused(Fault::NothingToOverwrite)
                } else {
                    let name = self.m_info.name_at(n - 1);
                    self.m_pending = Pending::OverwriteSaving;
                    Step::Perform(Action::Save { name })
                }
            },
        }
    }

    fn after_overwrite_saving(&mut self, reply: Reply, reading: Reading) -> (step: Step)
        requires
            old(self)@.stage is Idle,
        ensures
            (final(self)@, step@) == old(self)@.after_overwrite_saving(reply, stamp_of(reading)),
            final(self).same_setup(old(self)),
    {
        let n = self.m_info.len();
        match reply {
            Reply::Failed(error) => Self::failed(error, Context::Plain),
            _ => {
                if n == 0 {
                    Self::refused(Fault::NothingToOverwrite)
                } else {
                    match (reading.date, reading.time) {
                        (Some(date), Some(time)) => {
                            self.m_info.touch(n - 1, date, time);
                            self.start_write(Done::Completed, Context::Plain)
                        },
                        _ => Self::refused(Fault::ClockFormat),
                    }
                }
            },
        }
    }

    fn after_last(reply: Reply) -> (step: Step)
        ensures
            forall|e: Engine| e.stage is Idle ==> (e, step@) == #[trigger] e.after_last(reply),
    {
        match reply {
            Reply::Failed(error) => Self::failed(error, Context::Plain),
            _ => Step::Finish(Ok(Done::Completed)),
        }
    }

    fn after_renaming(&mut self, index: usize, name: String, new_note: Option<String>, reply: Reply) -> (step:
        Step)
        requires
            old(self)@.stage is Idle,
        ensures
            (final(self)@, step@) == old(self)@.after_renaming(index, name@, wanted(new_note), reply),
            final(self).same_setup(old(self)),
    {
        match reply {
            Reply::Failed(error) => Self::failed(error, Context::Plain),
            _ => {
                if index >= self.m_info.len() {
                    Self::refused(Fault::InvalidIndex)
                } else {
                    self.m_info.rename(index, name);
                    match new_note {
                        Some(note) => {
                            self.m_info.annotate(index, note);
                        },
                        None => {},
                    }
                    assert(self@.store.saves =~= old(self)@.after_renaming(
                        index,
                        name@,
                        wanted(new_note),
                        reply,
                    ).0.store.saves);
                    self.start_write(Done::Completed, Context::Plain)
                }
            },
        }
    }

    fn after_delete_asked(&mut self, targets: Vec<usize>, reply: Reply) -> (step: Step)
        requires
            old(self)@.stage is Idle,
        ensures
            (final(self)@, step@) == old(self)@.after_delete_asked(targets@, reply),
            final(self).same_setup(old(self)),
    {
        match reply {
            Reply::Failed(error) => Self::failed(error, Context::Plain),
            Reply::Yes => {
                if targets.len() == 0 {
                    Self::refused(Fault::NothingToDelete)
                } else {
                    self.delete_next(targets)
                }
            },
            _ => Step::Finish(Ok(Done::Declined)),
        }
    }

    fn after_deleting(&mut self, targets: Vec<usize>, reply: Reply) -> (step: Step)
        requires
            old(self)@.stage is Idle,
        ensures
            (final(self)@, step@) == old(self)@.after_deleting(targets@, reply),
            final(self).same_setup(old(self)),
    {
        match reply {
            Reply::Failed(error) => Self::failed(error, Context::DeleteFolder),
            _ => {
                let mut rest = targets;
                let count = rest.len();
                if count == 0 {
                    return Self::refused(Fault::InvalidIndex);
                }
                let index = rest[count - 1];
                if index >= self.m_info.len() {
                    return Self::refused(Fault::InvalidIndex);
                }
                let save = self.m_info.remove(index);
                rest.pop();
                assert(rest@ =~= targets@.drop_last());
                self.m_pending = Pending::DeleteTold { targets: rest };
                Step::Perform(Action::Tell(Notice::Deleted { index, save }))
            },
        }
    }

    fn after_evicting(&mut self, index: usize, reply: Reply, moment: &Moment) -> (step: Step)
        requires
            old(self)@.stage is Idle,
        ensures
            (final(self)@, step@) == old(self)@.after_evicting(index, reply, *moment),
            final(self).same_setup(old(self)),
    {
        match reply {
            Reply::Failed(error) => Self::failed(error, Context::DeleteFolder),
            _ => {
                if index >= self.m_info.len() {
                    Self::refused(Fault::InvalidIndex)
                } else {
                    let removed = self.m_info.remove(index);
                    let name = quick_save_name(moment, true);
                    self.start_save(name, String::new(), true, Some(removed))
                }
            },
        }
    }

    /// Carries the operation under way one step on: `reply` is the outcome
    /// of the action that was handed out last, `reading` what the clock
    /// says now. A failure of the shell ends the operation with that
    /// failure; the store keeps what was done before.
    pub fn resume_at(&mut self, reply: Reply, reading: Reading) -> (step: Step)
        ensures
            (final(self)@, step@) == old(self)@.resume(reply, reading.moment, stamp_of(reading)),
            final(self).same_setup(old(self)),
    {
        let ghost before = self@;
        let ghost idle = Engine { stage: Stage::Idle, ..before };
        let ghost moment = reading.moment;
        let ghost stamp = stamp_of(reading);
        let mut pending = Pending::Idle;
        std::mem::swap(&mut self.m_pending, &mut pending);
        assert(self@ == idle);
        match pending {
            Pending::Idle => Self::refused(Fault::NothingPending),
            Pending::Saving { name, note, auto, removed } => {
                assert(idle.after_saving(name@, note@, auto, record_of(removed), reply, stamp)
                    == before.after_saving(name@, note@, auto, record_of(removed), reply, stamp));
                self.after_saving(name, note, auto, removed, reply, reading)
            },
            Pending::Writing { done, context } => {
                match reply {
                    Reply::Failed(error) => Self::failed(error, context),
                    _ => Step::Finish(Ok(done)),
                }
            },
            Pending::OverwriteAsked => {
                assert(idle.after_overwrite_asked(reply) == before.after_overwrite_asked(reply));
                self.after_overwrite(false, reply)
            },
            Pending::OverwriteRemoving => {
                assert(idle.after_overwrite_removing(reply) == before.after_overwrite_removing(
                    reply,
                ));
                self.after_overwrite(true, reply)
            },
            Pending::OverwriteSaving => {
                assert(idle.after_overwrite_saving(reply, stamp) == before.after_overwrite_saving(
                    reply,
                    stamp,
                ));
                self.after_overwrite_saving(reply, reading)
            },
            Pending::Loading => {
                assert(idle.after_last(reply) == before.after_last(reply));
                Self::after_last(reply)
            },
            Pending::Renaming { index, name, new_note } => {
                assert(idle.after_renaming(index, name@, wanted(new_note), reply)
                    == before.after_renaming(index, name@, wanted(new_note), reply));
                self.after_renaming(index, name, new_note, reply)
            },
            Pending::DeleteAsked { targets } => {
                assert(idle.after_delete_asked(targets@, reply) == before.after_delete_asked(
                    targets@,
                    reply,
                ));
                self.after_delete_asked(targets, reply)
            },
            Pending::Deleting { targets } => {
                assert(idle.after_deleting(targets@, reply) == before.after_deleting(
                    targets@,
                    reply,
                ));
                self.after_deleting(targets, reply)
            },
            Pending::DeleteTold { targets } => {
                assert(idle.delete_next(targets@) == before.delete_next(targets@));
                self.delete_next(targets)
            },
            Pending::Telling => self.start_write(Done::Completed, Context::Plain),
            Pending::Evicting { index } => {
                assert(idle.after_evicting(index, reply, moment) == before.after_evicting(
                    index,
                    reply,
                    moment,
                ));
                self.after_evicting(index, reply, &reading.moment)
            },
            Pending::LaunchTold { path } => {
                let shown = path.clone();
                self.m_pending = Pending::Launching;
                Step::Perform(Action::Launch { path: shown })
            },
            Pending::Launching => {
                assert(idle.after_last(reply) == before.after_last(reply));
                Self::after_last(reply)
            },
        }
    }

    /// Carries the operation under way one step on, with the clock as it
    /// stands.
    pub fn resume(&mut self, reply: Reply) -> (step: Step)
        ensures
            exists|reading: Reading|
                plausible(reading.moment) && (final(self)@, step@) == #[trigger] old(self)@.resume(
                    reply,
                    reading.moment,
                    stamp_of(reading),
                ),
            final(self).same_setup(old(self)),
    {
        let reading = self.clock();
        self.resume_at(reply, reading)
    }
}

/// Where at least one record is an automatic save, the first of them is
/// found among the records.
pub proof fn lemma_first_auto_found(saves: Seq<Record>)
    requires
        count_auto(saves) > 0,
    ensures
        0 <= first_auto(saves) < saves.len(),
{
    lemma_first_auto_from(saves, 0);
    if first_auto(saves) >= saves.len() {
        lemma_count_none(saves, saves.len() as int);
    }
}

/// `first_auto_from` stays within `from` and the number of records, and no
/// automatic save stands between `from` and what it gives.
pub proof fn lemma_first_auto_from(saves: Seq<Record>, from: int)
    requires
        0 <= from,
    ensures
        from <= first_auto_from(saves, from) || saves.len() <= from,
        first_auto_from(saves, from) <= saves.len(),
        first_auto_from(saves, from) < saves.len() ==> crate::naming::is_auto_name(
            saves[first_auto_from(saves, from)].name,
        ),
        forall|k: int|
            from <= k < first_auto_from(saves, from) ==> !crate::naming::is_auto_name(
                (#[trigger] saves[k]).name,
            ),
    decreases saves.len() - from,
{
    if from < saves.len() && !crate::naming::is_auto_name(saves[from].name) {
        lemma_first_auto_from(saves, from + 1);
    }
}

/// Where no automatic save stands below `n`, the count up to `n` is zero.
pub proof fn lemma_count_none(saves: Seq<Record>, n: int)
    requires
        0 <= n <= saves.len(),
        forall|k: int| 0 <= k < n ==> !crate::naming::is_auto_name((#[trigger] saves[k]).name),
    ensures
        count_auto_upto(saves, n) == 0,
    decreases n,
{
    if n > 0 {
        lemma_count_none(saves, n - 1);
    }
}

} // verus!
