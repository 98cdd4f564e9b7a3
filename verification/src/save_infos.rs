//! The record store: one record per saved snapshot, kept in insertion order,
//! together with the configured path of the game's executable.
use vstd::prelude::*;
use crate::text::same_text;

verus! {

/// What one record says, as plain text and a flag.
pub struct Record {
    pub date: Seq<char>,
    pub time: Seq<char>,
    pub name: Seq<char>,
    pub note: Seq<char>,
    pub locked: bool,
}

/// What the store holds: the configured path and the records in order.
pub struct Store {
    pub exe_path: Seq<char>,
    pub saves: Seq<Record>,
}

/// Some record carries `name`.
pub open spec fn name_used(saves: Seq<Record>, name: Seq<char>) -> bool {
    exists|i: int| 0 <= i < saves.len() && (#[trigger] saves[i]).name == name
}

/// No two records carry the same name.
pub open spec fn names_distinct(saves: Seq<Record>) -> bool {
    forall|i: int, j: int|
        0 <= i < j < saves.len() ==> (#[trigger] saves[i]).name != (#[trigger] saves[j]).name
}

/// Every record has a name of at least one character.
pub open spec fn names_present(saves: Seq<Record>) -> bool {
    forall|i: int| 0 <= i < saves.len() ==> (#[trigger] saves[i]).name.len() > 0
}

impl Store {
    /// The store's invariant: names are present and pairwise distinct.
    pub open spec fn wf(self) -> bool {
        names_present(self.saves) && names_distinct(self.saves)
    }
}

/// The five values of a record, as they are written to the document.
pub type SaveParts = (String, String, String, String, bool);

/// What the five values say.
pub open spec fn parts_view(parts: SaveParts) -> Record {
    Record { date: parts.0@, time: parts.1@, name: parts.2@, note: parts.3@, locked: parts.4 }
}

/// What a list of values says, in order.
pub open spec fn all_parts_view(parts: Seq<SaveParts>) -> Seq<Record> {
    parts.map_values(|p: SaveParts| parts_view(p))
}

/// One saved snapshot. The name is also the name of the folder that holds it.
#[derive(Debug, PartialEq, Eq)]
pub struct SingleSave {
    m_date: String,
    m_time: String,
    m_name: String,
    m_note: String,
    m_islocked: bool,
}

impl View for SingleSave {
    type V = Record;

    closed spec fn view(&self) -> Record {
        Record {
            date: self.m_date@,
            time: self.m_time@,
            name: self.m_name@,
            note: self.m_note@,
            locked: self.m_islocked,
        }
    }
}

impl Clone for SingleSave {
    fn clone(&self) -> (copy: Self)
        ensures
            copy@ == self@,
    {
        SingleSave {
            m_date: self.m_date.clone(),
            m_time: self.m_time.clone(),
            m_name: self.m_name.clone(),
            m_note: self.m_note.clone(),
            m_islocked: self.m_islocked,
        }
    }
}

impl SingleSave {
    /// A new record is never locked.
    pub fn new(date: String, time: String, name: String, note: String) -> (save: Self)
        ensures
            save@ == (Record { date: date@, time: time@, name: name@, note: note@, locked: false }),
    {
        Self { m_date: date, m_time: time, m_name: name, m_note: note, m_islocked: false }
    }

    /// The record that the five values of a document stand for.
    pub fn from_parts(parts: SaveParts) -> (save: Self)
        ensures
            save@ == parts_view(parts),
    {
        Self {
            m_date: parts.0,
            m_time: parts.1,
            m_name: parts.2,
            m_note: parts.3,
            m_islocked: parts.4,
        }
    }

    /// The five values of the record, for the document.
    pub fn to_parts(&self) -> (parts: SaveParts)
        ensures
            parts_view(parts) == self@,
    {
        (
            self.m_date.clone(),
            self.m_time.clone(),
            self.m_name.clone(),
            self.m_note.clone(),
            self.m_islocked,
        )
    }

    #[inline]
    pub fn modify_date(&mut self, new_date: String)
        ensures
            final(self)@ == (Record { date: new_date@, ..old(self)@ }),
    {
        self.m_date = new_date;
    }

    #[inline]
    pub fn modify_time(&mut self, new_time: String)
        ensures
            final(self)@ == (Record { time: new_time@, ..old(self)@ }),
    {
        self.m_time = new_time;
    }

    #[inline]
    pub fn modify_name(&mut self, new_name: String)
        ensures
            final(self)@ == (Record { name: new_name@, ..old(self)@ }),
    {
        self.m_name = new_name;
    }

    #[inline]
    pub fn modify_note(&mut self, new_note: String)
        ensures
            final(self)@ == (Record { note: new_note@, ..old(self)@ }),
    {
        self.m_note = new_note;
    }

    #[inline]
    pub fn lock(&mut self)
        ensures
            final(self)@ == (Record { locked: true, ..old(self)@ }),
    {
        self.m_islocked = true;
    }

    #[inline]
    pub fn unlock(&mut self)
        ensures
            final(self)@ == (Record { locked: false, ..old(self)@ }),
    {
        self.m_islocked = false;
    }

    #[inline]
    pub fn get_date(&self) -> (date: &str)
        ensures
            date@ == self@.date,
    {
        self.m_date.as_str()
    }

    #[inline]
    pub fn get_time(&self) -> (time: &str)
        ensures
            time@ == self@.time,
    {
        self.m_time.as_str()
    }

    #[inline]
    pub fn get_name(&self) -> (name: &str)
        ensures
            name@ == self@.name,
    {
        self.m_name.as_str()
    }

    #[inline]
    pub fn get_note(&self) -> (note: &str)
        ensures
            note@ == self@.note,
    {
        self.m_note.as_str()
    }

    #[inline]
    pub fn is_locked(&self) -> (locked: bool)
        ensures
            locked == self@.locked,
    {
        self.m_islocked
    }
}

/// The aggregate that is persisted: the executable's path and every record.
#[derive(Debug)]
pub struct AllInfos {
    noita_exe_path: String,
    saves: Vec<SingleSave>,
}

impl View for AllInfos {
    type V = Store;

    closed spec fn view(&self) -> Store {
        Store { exe_path: self.noita_exe_path@, saves: self.saves@.map_values(|s: SingleSave| s@) }
    }
}

impl AllInfos {
    /// A store with the given path and records, in the given order.
    pub fn new(noita_exe_path: String, saves: Vec<SingleSave>) -> (infos: Self)
        ensures
            infos@.exe_path == noita_exe_path@,
            infos@.saves == saves@.map_values(|s: SingleSave| s@),
    {
        Self { noita_exe_path, saves }
    }

    /// The store that a document stands for: its path and its records, in
    /// the order of the document.
    pub fn from_parts(noita_exe_path: String, parts: Vec<SaveParts>) -> (infos: Self)
        ensures
            infos@ == (Store { exe_path: noita_exe_path@, saves: all_parts_view(parts@) }),
    {
        let mut saves: Vec<SingleSave> = Vec::new();
        let mut rest = parts;
        let ghost all = parts@;
        while rest.len() > 0
            invariant
                saves@.len() + rest@.len() == all.len(),
                rest@ == all.skip(saves@.len() as int),
                forall|k: int|
                    0 <= k < saves@.len() ==> (#[trigger] saves@[k])@ == parts_view(all[k]),
            decreases rest.len(),
        {
            let next = rest.remove(0);
            assert(next == all[saves@.len() as int]);
            saves.push(SingleSave::from_parts(next));
            assert(rest@ =~= all.skip(saves@.len() as int));
        }
        assert(saves@.map_values(|s: SingleSave| s@) =~= all_parts_view(all));
        Self { noita_exe_path, saves }
    }

    /// The values of every record, in order, for the document.
    pub fn to_parts(&self) -> (parts: Vec<SaveParts>)
        ensures
            all_parts_view(parts@) == self@.saves,
    {
        let mut parts: Vec<SaveParts> = Vec::new();
        let mut i: usize = 0;
        while i < self.saves.len()
            invariant
                i <= self.saves.len(),
                parts@.len() == i,
                forall|k: int| 0 <= k < i ==> parts_view(#[trigger] parts@[k]) == self.saves@[k]@,
            decreases self.saves.len() - i,
        {
            parts.push(self.saves[i].to_parts());
            i += 1;
        }
        assert(all_parts_view(parts@) =~= self.saves@.map_values(|s: SingleSave| s@));
        parts
    }

    /// The configured path; empty while none was configured.
    #[inline]
    pub fn get_exe_path(&self) -> (path: &str)
        ensures
            path@ == self@.exe_path,
    {
        self.noita_exe_path.as_str()
    }

    #[inline]
    pub fn set_noita_path(&mut self, new_path: String)
        ensures
            final(self)@ == (Store { exe_path: new_path@, ..old(self)@ }),
    {
        self.noita_exe_path = new_path;
    }

    /// The records in order: position is identity for addressing.
    #[inline]
    pub fn saves(&self) -> (saves: &Vec<SingleSave>)
        ensures
            saves@.map_values(|s: SingleSave| s@) == self@.saves,
    {
        &self.saves
    }

    #[inline]
    pub fn len(&self) -> (n: usize)
        ensures
            n == self@.saves.len(),
    {
        self.saves.len()
    }

    /// The record at `index`, counted from zero.
    #[inline]
    pub fn get(&self, index: usize) -> (found: Option<&SingleSave>)
        ensures
            found is Some <==> index < self@.saves.len(),
            found matches Some(save) ==> save@ == self@.saves[index as int],
    {
        if index < self.saves.len() {
            Some(&self.saves[index])
        } else {
            None
        }
    }

    /// The name of the record at `index`.
    pub fn name_at(&self, index: usize) -> (name: String)
        requires
            index < self@.saves.len(),
        ensures
            name@ == self@.saves[index as int].name,
    {
        self.saves[index].m_name.clone()
    }

    /// Whether the record at `index` is locked.
    pub fn is_locked_at(&self, index: usize) -> (locked: bool)
        requires
            index < self@.saves.len(),
        ensures
            locked == self@.saves[index as int].locked,
    {
        self.saves[index].m_islocked
    }

    /// Appends a record: it becomes the latest.
    pub fn push(&mut self, save: SingleSave)
        ensures
            final(self)@ == (Store { saves: old(self)@.saves.push(save@), ..old(self)@ }),
    {
        self.saves.push(save);
        assert(self.saves@.map_values(|s: SingleSave| s@) =~= old(self).saves@.map_values(
            |s: SingleSave| s@,
        ).push(save@));
    }

    /// Takes the record at `index` out; later records move up by one.
    pub fn remove(&mut self, index: usize) -> (save: SingleSave)
        requires
            index < old(self)@.saves.len(),
        ensures
            save@ == old(self)@.saves[index as int],
            final(self)@ == (Store { saves: old(self)@.saves.remove(index as int), ..old(self)@ }),
    {
        let save = self.saves.remove(index);
        assert(self.saves@.map_values(|s: SingleSave| s@) =~= old(self).saves@.map_values(
            |s: SingleSave| s@,
        ).remove(index as int));
        save
    }

    /// Sets or clears the protection flag of the record at `index`.
    pub fn set_locked(&mut self, index: usize, locked: bool)
        requires
            index < old(self)@.saves.len(),
        ensures
            final(self)@ == (Store {
                saves: old(self)@.saves.update(
                    index as int,
                    (Record { locked, ..old(self)@.saves[index as int] }),
                ),
                ..old(self)@
            }),
    {
        if locked {
            self.saves[index].lock();
        } else {
            self.saves[index].unlock();
        }
        assert(self.saves@.map_values(|s: SingleSave| s@) =~= old(self).saves@.map_values(
            |s: SingleSave| s@,
        ).update(index as int, self.saves@[index as int]@));
    }

    /// Gives the record at `index` a new name.
    pub fn rename(&mut self, index: usize, new_name: String)
        requires
            index < old(self)@.saves.len(),
        ensures
            final(self)@ == (Store {
                saves: old(self)@.saves.update(
                    index as int,
                    (Record { name: new_name@, ..old(self)@.saves[index as int] }),
                ),
                ..old(self)@
            }),
    {
        self.saves[index].modify_name(new_name);
        assert(self.saves@.map_values(|s: SingleSave| s@) =~= old(self).saves@.map_values(
            |s: SingleSave| s@,
        ).update(index as int, self.saves@[index as int]@));
    }

    /// Gives the record at `index` a new note.
    pub fn annotate(&mut self, index: usize, new_note: String)
        requires
            index < old(self)@.saves.len(),
        ensures
            final(self)@ == (Store {
                saves: old(self)@.saves.update(
                    index as int,
                    (Record { note: new_note@, ..old(self)@.saves[index as int] }),
                ),
                ..old(self)@
            }),
    {
        self.saves[index].modify_note(new_note);
        assert(self.saves@.map_values(|s: SingleSave| s@) =~= old(self).saves@.map_values(
            |s: SingleSave| s@,
        ).update(index as int, self.saves@[index as int]@));
    }

    /// Stamps the record at `index` with a new date and time.
    pub fn touch(&mut self, index: usize, date: String, time: String)
        requires
            index < old(self)@.saves.len(),
        ensures
            final(self)@ == (Store {
                saves: old(self)@.saves.update(
                    index as int,
                    (Record { date: date@, time: time@, ..old(self)@.saves[index as int] }),
                ),
                ..old(self)@
            }),
    {
        self.saves[index].modify_date(date);
        self.saves[index].modify_time(time);
        assert(self.saves@.map_values(|s: SingleSave| s@) =~= old(self).saves@.map_values(
            |s: SingleSave| s@,
        ).update(index as int, self.saves@[index as int]@));
    }

    /// The first record that carries `name`, if any.
    pub fn find_by_name(&self, name: &str) -> (found: Option<usize>)
        ensures
            found is Some <==> name_used(self@.saves, name@),
            found matches Some(i) ==> i < self@.saves.len() && self@.saves[i as int].name == name@
                && forall|j: int| 0 <= j < i ==> (#[trigger] self@.saves[j]).name != name@,
    {
        let mut i: usize = 0;
        while i < self.saves.len()
            invariant
                i <= self.saves.len(),
                forall|j: int| 0 <= j < i ==> (#[trigger] self@.saves[j]).name != name@,
            decreases self.saves.len() - i,
        {
            if same_text(self.saves[i].get_name(), name) {
                assert(self@.saves[i as int].name == name@);
                return Some(i);
            }
            i += 1;
        }
        None
    }

    /// Whether `name` is still free.
    pub fn is_name_unique(&self, name: &str) -> (unique: bool)
        ensures
            unique == !name_used(self@.saves, name@),
    {
        self.find_by_name(name).is_none()
    }

    /// Checks the store's invariant, as after loading a document.
    pub fn is_well_formed(&self) -> (ok: bool)
        ensures
            ok == self@.wf(),
    {
        let n = self.saves.len();
        let mut i: usize = 0;
        while i < n
            invariant
                i <= n,
                n == self.saves.len(),
                forall|a: int| 0 <= a < i ==> (#[trigger] self@.saves[a]).name.len() > 0,
                forall|a: int, b: int|
                    0 <= a < b < n && a < i ==> (#[trigger] self@.saves[a]).name != (
                    #[trigger] self@.saves[b]).name,
            decreases n - i,
        {
            if self.saves[i].get_name().is_empty() {
                assert(self@.saves[i as int].name.len() == 0);
                return false;
            }
            let mut j: usize = i + 1;
            while j < n
                invariant
                    i < j <= n,
                    n == self.saves.len(),
                    forall|b: int| i < b < j ==> self@.saves[i as int].name != (
                    #[trigger] self@.saves[b]).name,
                decreases n - j,
            {
                if same_text(self.saves[i].get_name(), self.saves[j].get_name()) {
                    assert(self@.saves[i as int].name == self@.saves[j as int].name);
                    return false;
                }
                j += 1;
            }
            i += 1;
        }
        true
    }
}

impl Clone for AllInfos {
    fn clone(&self) -> (copy: Self)
        ensures
            copy@ == self@,
    {
        Self::from_parts(self.noita_exe_path.clone(), self.to_parts())
    }
}

/// Round trip. A store that is taken apart into the values of a document
/// and put together again is the same store: the same path, and the same
/// records field for field in the same order.
pub proof fn law_parts_round_trip(store: Store, parts: Seq<SaveParts>)
    requires
        all_parts_view(parts) == store.saves,
    ensures
        (Store { exe_path: store.exe_path, saves: all_parts_view(parts) }) == store,
        parts.len() == store.saves.len(),
        forall|k: int| 0 <= k < parts.len() ==> parts_view(#[trigger] parts[k]) == store.saves[k],
{
    assert forall|k: int| 0 <= k < parts.len() implies parts_view(#[trigger] parts[k])
        == store.saves[k] by {
        assert(all_parts_view(parts)[k] == parts_view(parts[k]));
    }
}

} // verus!
