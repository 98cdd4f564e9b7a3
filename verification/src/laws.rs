//! What holds of the engine whatever is asked of it.
//!
//! Each law is a proof over the state machine that the executable engine
//! follows step by step.
use vstd::prelude::*;
use crate::engine::{lemma_first_auto_found, lemma_first_auto_from};
use crate::machine::{
    blank, count_auto, count_auto_upto, deletable, first_auto, inv, set_flags, targets_of,
    targets_upto, used_elsewhere, Engine, Request, Stage, Stamp,
};
use crate::naming::{auto_tag, is_auto_name, quick_name, quick_tag, Moment};
use crate::protocol::{
    refuse, ActionView, Context, DoneView, Failure, Fault, PromptView, Reply, StepView,
};
use crate::save_infos::{name_used, names_distinct, Record, Store};

verus! {

/// Every locked record of `before` is still in `after`, field for field.
#[verifier::opaque]
pub open spec fn locked_kept(before: Seq<Record>, after: Seq<Record>) -> bool {
    forall|i: int|
        0 <= i < before.len() && (#[trigger] before[i]).locked ==> exists|j: int|
            0 <= j < after.len() && #[trigger] after[j] == before[i]
}

/// No locked record carries `name`.
#[verifier::opaque]
pub open spec fn free_of_locked(saves: Seq<Record>, name: Seq<char>) -> bool {
    forall|i: int| 0 <= i < saves.len() && (#[trigger] saves[i]).locked ==> saves[i].name != name
}

/// The step changes no folder that belongs to a locked record.
pub open spec fn spares_locked(saves: Seq<Record>, step: StepView) -> bool {
    match step {
        StepView::Perform(ActionView::Save { name }) => free_of_locked(saves, name),
        StepView::Perform(ActionView::Remove { name }) => free_of_locked(saves, name),
        StepView::Perform(ActionView::Rename { old_name, new_name }) => free_of_locked(
            saves,
            old_name,
        ) && free_of_locked(saves, new_name),
        _ => true,
    }
}

/// A generated name is never empty: it begins with its tag.
pub proof fn lemma_quick_name_present(moment: Moment, is_auto_save: bool)
    ensures
        quick_name(moment, is_auto_save).len() >= 3,
        is_auto_name(quick_name(moment, true)),
{
    let tag = auto_tag();
    let name = quick_name(moment, true);
    assert(name.take(3) =~= tag);
    assert(auto_tag().len() == 3);
    assert(quick_tag().len() == 3);
}

/// A name that is not blank has at least one character.
pub proof fn lemma_not_blank_present(name: Seq<char>)
    requires
        !blank(name),
    ensures
        name.len() > 0,
{
}

/// What `targets_upto` gives: ascending positions below `n` of unlocked
/// records that the request names, and all of them.
pub proof fn lemma_targets(saves: Seq<Record>, indexes: Seq<usize>, n: int)
    requires
        0 <= n <= saves.len(),
        saves.len() <= usize::MAX,
    ensures
        deletable(saves, targets_upto(saves, indexes, n)),
        forall|k: int|
            0 <= k < targets_upto(saves, indexes, n).len() ==> (#[trigger] targets_upto(
                saves,
                indexes,
                n,
            )[k]) < n && indexes.contains(targets_upto(saves, indexes, n)[k]),
        forall|i: usize|
            i < n && indexes.contains(i) && !saves[i as int].locked ==> targets_upto(
                saves,
                indexes,
                n,
            ).contains(i),
    decreases n,
{
    if n > 0 {
        lemma_targets(saves, indexes, n - 1);
        let rest = targets_upto(saves, indexes, n - 1);
        let all = targets_upto(saves, indexes, n);
        assert forall|i: usize|
            i < n && indexes.contains(i) && !saves[i as int].locked implies all.contains(i) by {
            if i < n - 1 {
                assert(rest.contains(i));
                let k = choose|k: int| 0 <= k < rest.len() && rest[k] == i;
                assert(all[k] == i);
            } else {
                assert(all[all.len() - 1] == i);
            }
        }
    }
}

/// Removing an unlocked record keeps every locked one.
pub proof fn lemma_remove_keeps_locked(saves: Seq<Record>, index: int)
    requires
        0 <= index < saves.len(),
        !saves[index].locked,
    ensures
        locked_kept(saves, saves.remove(index)),
{
    reveal(locked_kept);
    let after = saves.remove(index);
    assert forall|i: int| 0 <= i < saves.len() && (#[trigger] saves[i]).locked implies exists|
        j: int,
    | 0 <= j < after.len() && #[trigger] after[j] == saves[i] by {
        if i < index {
            assert(after[i] == saves[i]);
        } else {
            assert(after[i - 1] == saves[i]);
        }
    }
}

/// Changing an unlocked record keeps every locked one.
pub proof fn lemma_update_keeps_locked(saves: Seq<Record>, index: int, record: Record)
    requires
        0 <= index < saves.len(),
        !saves[index].locked,
    ensures
        locked_kept(saves, saves.update(index, record)),
{
    reveal(locked_kept);
    let after = saves.update(index, record);
    assert forall|i: int| 0 <= i < saves.len() && (#[trigger] saves[i]).locked implies exists|
        j: int,
    | 0 <= j < after.len() && #[trigger] after[j] == saves[i] by {
        assert(after[i] == saves[i]);
    }
}

/// Appending a record keeps every locked one.
pub proof fn lemma_push_keeps_locked(saves: Seq<Record>, record: Record)
    ensures
        locked_kept(saves, saves.push(record)),
{
    reveal(locked_kept);
    let after = saves.push(record);
    assert forall|i: int| 0 <= i < saves.len() && (#[trigger] saves[i]).locked implies exists|
        j: int,
    | 0 <= j < after.len() && #[trigger] after[j] == saves[i] by {
        assert(after[i] == saves[i]);
    }
}

/// Removing a record locks none.
pub proof fn lemma_remove_locks_none(saves: Seq<Record>, index: int)
    requires
        0 <= index < saves.len(),
    ensures
        locked_kept(saves.remove(index), saves),
{
    reveal(locked_kept);
    let after = saves.remove(index);
    assert forall|i: int| 0 <= i < after.len() && (#[trigger] after[i]).locked implies exists|
        j: int,
    | 0 <= j < saves.len() && #[trigger] saves[j] == after[i] by {
        if i < index {
            assert(saves[i] == after[i]);
        } else {
            assert(saves[i + 1] == after[i]);
        }
    }
}

/// Putting an unlocked record in the place of another locks none.
pub proof fn lemma_update_locks_none(saves: Seq<Record>, index: int, record: Record)
    requires
        0 <= index < saves.len(),
        !record.locked,
    ensures
        locked_kept(saves.update(index, record), saves),
{
    reveal(locked_kept);
    let after = saves.update(index, record);
    assert forall|i: int| 0 <= i < after.len() && (#[trigger] after[i]).locked implies exists|
        j: int,
    | 0 <= j < saves.len() && #[trigger] saves[j] == after[i] by {
        assert(saves[i] == after[i]);
    }
}

/// Appending an unlocked record locks none.
pub proof fn lemma_push_locks_none(saves: Seq<Record>, record: Record)
    requires
        !record.locked,
    ensures
        locked_kept(saves.push(record), saves),
{
    reveal(locked_kept);
    let after = saves.push(record);
    assert forall|i: int| 0 <= i < after.len() && (#[trigger] after[i]).locked implies exists|
        j: int,
    | 0 <= j < saves.len() && #[trigger] saves[j] == after[i] by {
        assert(saves[i] == after[i]);
    }
}

/// Nothing changed keeps every locked record.
pub proof fn lemma_same_keeps_locked(saves: Seq<Record>)
    ensures
        locked_kept(saves, saves),
{
    reveal(locked_kept);
}

/// A store without a removed record is still well-formed, and what was a
/// set of targets below the removed position still is.
pub proof fn lemma_remove_wf(store: Store, index: int)
    requires
        store.wf(),
        0 <= index < store.saves.len(),
    ensures
        (Store { saves: store.saves.remove(index), ..store }).wf(),
        !name_used(store.saves.remove(index), store.saves[index].name),
{
    let saves = store.saves;
    let after = saves.remove(index);
    assert forall|i: int| 0 <= i < after.len() implies (#[trigger] after[i]).name.len() > 0 by {
        if i < index {
            assert(after[i] == saves[i]);
        } else {
            assert(after[i] == saves[i + 1]);
        }
    }
    assert forall|i: int, j: int| 0 <= i < j < after.len() implies (#[trigger] after[i]).name != (
    #[trigger] after[j]).name by {
        let a = if i < index { i } else { i + 1 };
        let b = if j < index { j } else { j + 1 };
        assert(after[i] == saves[a]);
        assert(after[j] == saves[b]);
    }
    assert forall|i: int| 0 <= i < after.len() implies (#[trigger] after[i]).name
        != saves[index].name by {
        let a = if i < index { i } else { i + 1 };
        assert(after[i] == saves[a]);
    }
}

/// A store with one more record under a new name is still well-formed.
pub proof fn lemma_push_wf(store: Store, record: Record)
    requires
        store.wf(),
        record.name.len() > 0,
        !name_used(store.saves, record.name),
    ensures
        (Store { saves: store.saves.push(record), ..store }).wf(),
{
    let saves = store.saves;
    let after = saves.push(record);
    assert forall|i: int, j: int| 0 <= i < j < after.len() implies (#[trigger] after[i]).name != (
    #[trigger] after[j]).name by {
        if j == saves.len() {
            assert(after[i] == saves[i]);
        } else {
            assert(after[i] == saves[i]);
            assert(after[j] == saves[j]);
        }
    }
}

/// A store in which one record changed, its name to one that no other
/// record carries, is still well-formed.
pub proof fn lemma_update_wf(store: Store, index: int, record: Record)
    requires
        store.wf(),
        0 <= index < store.saves.len(),
        record.name.len() > 0,
        !used_elsewhere(store.saves, index, record.name),
    ensures
        (Store { saves: store.saves.update(index, record), ..store }).wf(),
{
    let saves = store.saves;
    let after = saves.update(index, record);
    assert forall|i: int, j: int| 0 <= i < j < after.len() implies (#[trigger] after[i]).name != (
    #[trigger] after[j]).name by {
        if i != index {
            assert(after[i] == saves[i]);
        }
        if j != index {
            assert(after[j] == saves[j]);
        }
    }
}

/// Where names are distinct, a record keeps others from its own name.
pub proof fn lemma_own_name(saves: Seq<Record>, index: int)
    requires
        names_distinct(saves),
        0 <= index < saves.len(),
    ensures
        !used_elsewhere(saves, index, saves[index].name),
        !saves[index].locked ==> free_of_locked(saves, saves[index].name),
{
    reveal(free_of_locked);
    assert forall|j: int| 0 <= j < saves.len() && j != index implies (#[trigger] saves[j]).name
        != saves[index].name by {
        if j < index {
            assert(saves[j].name != saves[index].name);
        } else {
            assert(saves[index].name != saves[j].name);
        }
    }
}

/// A name that no record carries is not the name of a locked record.
pub proof fn lemma_unused_free(saves: Seq<Record>, name: Seq<char>)
    requires
        !name_used(saves, name),
    ensures
        free_of_locked(saves, name),
{
    reveal(free_of_locked);
}

/// A name that only an unlocked record may carry is not the name of a
/// locked record.
pub proof fn lemma_elsewhere_free(saves: Seq<Record>, index: int, name: Seq<char>)
    requires
        0 <= index < saves.len(),
        !saves[index].locked,
        !used_elsewhere(saves, index, name),
    ensures
        free_of_locked(saves, name),
{
    reveal(free_of_locked);
}

/// Setting flags changes no name.
pub proof fn lemma_flags_wf(store: Store, indexes: Seq<usize>, locked: bool)
    requires
        store.wf(),
    ensures
        (Store { saves: set_flags(store.saves, indexes, locked), ..store }).wf(),
{
    let saves = store.saves;
    let after = set_flags(saves, indexes, locked);
    assert forall|i: int| 0 <= i < after.len() implies (#[trigger] after[i]).name
        == saves[i].name by {}
    assert forall|i: int, j: int| 0 <= i < j < after.len() implies (#[trigger] after[i]).name != (
    #[trigger] after[j]).name by {
        assert(saves[i].name != saves[j].name);
    }
    assert forall|i: int| 0 <= i < after.len() implies (#[trigger] after[i]).name.len() > 0 by {
        assert(saves[i].name.len() > 0);
    }
}

/// Every request leaves the engine in a state of the invariant.
pub proof fn law_requests_keep_invariant(e: Engine, request: Request)
    requires
        inv(e),
        e.store.saves.len() <= usize::MAX,
    ensures
        inv(e.request(request).0),
{
    let saves = e.store.saves;
    if e.stage is Idle {
        match request {
            Request::QuickSave { is_auto_save, moment } => {
                lemma_quick_name_present(moment, is_auto_save);
            },
            Request::AutoSave { max_auto_saves, moment } => {
                lemma_quick_name_present(moment, true);
                if count_auto(saves) > 0 {
                    lemma_first_auto_found(saves);
                }
            },
            Request::Modify { index, new_name, new_note } => {
                if index < saves.len() && !saves[index as int].locked {
                    lemma_own_name(saves, index as int);
                    match (new_name, new_note) {
                        (None, Some(note)) => {
                            lemma_update_wf(
                                e.store,
                                index as int,
                                Record { note, ..saves[index as int] },
                            );
                        },
                        (Some(name), _) => {
                            if !blank(name) {
                                lemma_not_blank_present(name);
                            }
                        },
                        _ => {},
                    }
                }
            },
            Request::Delete { indexes } => {
                lemma_targets(saves, indexes, saves.len() as int);
            },
            Request::QuickDelete => {
                if saves.len() > 0 {
                    lemma_targets(saves, seq![(saves.len() - 1) as usize], saves.len() as int);
                }
            },
            Request::Lock { indexes } => {
                lemma_flags_wf(e.store, indexes, true);
            },
            Request::Unlock { indexes } => {
                lemma_flags_wf(e.store, indexes, false);
            },
            _ => {},
        }
    }
}

/// Every reply leaves the engine in a state of the invariant.
pub proof fn law_replies_keep_invariant(
    e: Engine,
    reply: Reply,
    moment: Moment,
    stamp: Option<Stamp>,
)
    requires
        inv(e),
    ensures
        inv(e.resume(reply, moment, stamp).0),
{
    let saves = e.store.saves;
    match e.stage {
        Stage::Saving { name, note, auto, removed } => {
            if !(reply is Failed) && stamp is Some {
                lemma_push_wf(
                    e.store,
                    Record {
                        date: stamp->0.date,
                        time: stamp->0.time,
                        name,
                        note,
                        locked: false,
                    },
                );
            }
        },
        Stage::OverwriteSaving => {
            if !(reply is Failed) && stamp is Some {
                lemma_own_name(saves, saves.len() - 1);
                lemma_update_wf(
                    e.store,
                    saves.len() - 1,
                    Record { date: stamp->0.date, time: stamp->0.time, ..saves.last() },
                );
            }
        },
        Stage::Renaming { index, name, new_note } => {
            if !(reply is Failed) {
                let renamed = Record { name, ..saves[index as int] };
                lemma_update_wf(
                    e.store,
                    index as int,
                    match new_note {
                        Some(note) => Record { note, ..renamed },
                        None => renamed,
                    },
                );
            }
        },
        Stage::Deleting { targets } => {
            if !(reply is Failed) {
                let index = targets.last();
                lemma_remove_wf(e.store, index as int);
                let after = saves.remove(index as int);
                let rest = targets.drop_last();
                assert forall|k: int| 0 <= k < rest.len() implies (#[trigger] rest[k]) < after.len()
                    && !after[rest[k] as int].locked by {
                    assert(rest[k] == targets[k]);
                    assert(targets[k] < targets[targets.len() - 1]);
                    assert(after[rest[k] as int] == saves[targets[k] as int]);
                }
                assert forall|j: int, k: int| 0 <= j < k < rest.len() implies rest[j] < rest[k] by {
                    assert(rest[j] == targets[j] && rest[k] == targets[k]);
                }
            }
        },
        Stage::Evicting { index } => {
            if !(reply is Failed) {
                lemma_remove_wf(e.store, index as int);
                lemma_quick_name_present(moment, true);
            }
        },
        _ => {},
    }
}

/// Locked-record law for requests. Whatever is asked but to lock or to
/// unlock, every locked record stays in the store as it is, no record
/// becomes locked, and the step that comes back changes no folder of a
/// locked record.
pub proof fn law_requests_leave_locked_alone(e: Engine, request: Request)
    requires
        inv(e),
        e.store.saves.len() <= usize::MAX,
        !(request is Lock),
        !(request is Unlock),
    ensures
        locked_kept(e.store.saves, e.request(request).0.store.saves),
        locked_kept(e.request(request).0.store.saves, e.store.saves),
        spares_locked(e.request(request).0.store.saves, e.request(request).1),
{
    let saves = e.store.saves;
    lemma_same_keeps_locked(saves);
    if e.stage is Idle {
        match request {
            Request::Save { name, note } => {
                if !name_used(saves, name) {
                    lemma_unused_free(saves, name);
                }
            },
            Request::QuickSave { is_auto_save, moment } => {
                if !name_used(saves, quick_name(moment, is_auto_save)) {
                    lemma_unused_free(saves, quick_name(moment, is_auto_save));
                }
            },
            Request::AutoSave { max_auto_saves, moment } => {
                if count_auto(saves) > 0 {
                    lemma_first_auto_found(saves);
                    lemma_own_name(saves, first_auto(saves));
                }
                if !name_used(saves, quick_name(moment, true)) {
                    lemma_unused_free(saves, quick_name(moment, true));
                }
            },
            Request::Modify { index, new_name, new_note } => {
                if index < saves.len() && !saves[index as int].locked {
                    lemma_own_name(saves, index as int);
                    match (new_name, new_note) {
                        (None, Some(note)) => {
                            lemma_update_keeps_locked(
                                saves,
                                index as int,
                                Record { note, ..saves[index as int] },
                            );
                            lemma_update_locks_none(
                                saves,
                                index as int,
                                Record { note, ..saves[index as int] },
                            );
                        },
                        (Some(name), _) => {
                            if !used_elsewhere(saves, index as int, name) {
                                lemma_elsewhere_free(saves, index as int, name);
                            }
                        },
                        _ => {},
                    }
                }
            },
            _ => {},
        }
    }
}

/// Locked-record law for replies. Whatever the shell replies, every locked
/// record stays in the store as it is, no record becomes locked, and the
/// step that comes back changes no folder of a locked record.
pub proof fn law_replies_leave_locked_alone(
    e: Engine,
    reply: Reply,
    moment: Moment,
    stamp: Option<Stamp>,
)
    requires
        inv(e),
    ensures
        locked_kept(e.store.saves, e.resume(reply, moment, stamp).0.store.saves),
        locked_kept(e.resume(reply, moment, stamp).0.store.saves, e.store.saves),
        spares_locked(
            e.resume(reply, moment, stamp).0.store.saves,
            e.resume(reply, moment, stamp).1,
        ),
{
    let saves = e.store.saves;
    lemma_same_keeps_locked(saves);
    match e.stage {
        Stage::Saving { name, note, auto, removed } => {
            if !(reply is Failed) && stamp is Some {
                let latest = Record {
                    date: stamp->0.date,
                    time: stamp->0.time,
                    name,
                    note,
                    locked: false,
                };
                lemma_push_keeps_locked(saves, latest);
                lemma_push_locks_none(saves, latest);
            }
        },
        Stage::OverwriteAsked | Stage::OverwriteRemoving => {
            lemma_own_name(saves, saves.len() - 1);
        },
        Stage::OverwriteSaving => {
            if !(reply is Failed) && stamp is Some {
                let touched = Record {
                    date: stamp->0.date,
                    time: stamp->0.time,
                    ..saves.last()
                };
                lemma_update_keeps_locked(saves, saves.len() - 1, touched);
                lemma_update_locks_none(saves, saves.len() - 1, touched);
            }
        },
        Stage::Renaming { index, name, new_note } => {
            if !(reply is Failed) {
                let renamed = Record { name, ..saves[index as int] };
                let changed = match new_note {
                    Some(note) => Record { note, ..renamed },
                    None => renamed,
                };
                lemma_update_keeps_locked(saves, index as int, changed);
                lemma_update_locks_none(saves, index as int, changed);
            }
        },
        Stage::DeleteAsked { targets } => {
            lemma_own_name(saves, targets.last() as int);
        },
        Stage::Deleting { targets } => {
            if !(reply is Failed) {
                lemma_remove_keeps_locked(saves, targets.last() as int);
                lemma_remove_locks_none(saves, targets.last() as int);
            }
        },
        Stage::DeleteTold { targets } => {
            if targets.len() > 0 {
                lemma_own_name(saves, targets.last() as int);
            }
        },
        Stage::Evicting { index } => {
            if !(reply is Failed) {
                lemma_remove_keeps_locked(saves, index as int);
                lemma_remove_locks_none(saves, index as int);
                let after = saves.remove(index as int);
                if !name_used(after, quick_name(moment, true)) {
                    lemma_unused_free(after, quick_name(moment, true));
                }
            }
        },
        _ => {},
    }
}

/// Creating a record. From an idle engine, a name that is present and
/// unused leads to `Save` for that name; once the shell has copied the save
/// data, the record stands at the end of the store, unlocked and stamped,
/// and the store is otherwise as before; once the document is rewritten the
/// operation is over.
pub proof fn law_save_appends(
    e: Engine,
    name: Seq<char>,
    note: Seq<char>,
    copied: Reply,
    written: Reply,
    moment: Moment,
    stamp: Stamp,
    later: Moment,
    later_stamp: Option<Stamp>,
)
    requires
        e.stage is Idle,
        name.len() > 0,
        !name_used(e.store.saves, name),
        !(copied is Failed),
        !(written is Failed),
    ensures
        ({
            let first = e.request(Request::Save { name, note });
            let second = first.0.resume(copied, moment, Some(stamp));
            let third = second.0.resume(written, later, later_stamp);
            let record = Record { date: stamp.date, time: stamp.time, name, note, locked: false };
            &&& first.1 == StepView::Perform(ActionView::Save { name })
            &&& first.0.store == e.store
            &&& second.1 == StepView::Perform(ActionView::WriteInfos)
            &&& second.0.store == (Store { saves: e.store.saves.push(record), ..e.store })
            &&& third.1 == StepView::Finish(Ok(DoneView::Completed))
            &&& third.0 == (Engine { store: second.0.store, stage: Stage::Idle })
            &&& third.0.store.saves.len() == e.store.saves.len() + 1
            &&& third.0.store.saves.last() == record
        }),
{
}

/// Creating a record where the copy fails: no record is added, the
/// document is not rewritten, and the failure is handed on.
pub proof fn law_save_failure_changes_nothing(
    e: Engine,
    name: Seq<char>,
    note: Seq<char>,
    copied: Reply,
    moment: Moment,
    stamp: Option<Stamp>,
)
    requires
        e.stage is Idle,
        name.len() > 0,
        !name_used(e.store.saves, name),
        copied is Failed,
    ensures
        ({
            let first = e.request(Request::Save { name, note });
            let second = first.0.resume(copied, moment, stamp);
            &&& second.0 == e
            &&& second.1 == StepView::Finish(
                Err(Failure::Failed { error: copied->Failed_0, context: Context::Plain }),
            )
        }),
{
}

/// A name that a record carries already is refused: nothing changes, and
/// the shell is asked for nothing.
pub proof fn law_taken_name_refused(e: Engine, name: Seq<char>, note: Seq<char>)
    requires
        e.stage is Idle,
        name_used(e.store.saves, name),
    ensures
        e.request(Request::Save { name, note }) == (e, refuse(Fault::NameTaken)),
{
}

/// Locking what is locked, or unlocking what is unlocked, changes nothing
/// in the store, and the request is not refused.
pub proof fn law_lock_idempotent(e: Engine, indexes: Seq<usize>, locked: bool)
    requires
        e.stage is Idle,
        e.store.saves.len() <= usize::MAX,
        forall|k: int|
            0 <= k < indexes.len() && (#[trigger] indexes[k]) < e.store.saves.len()
                ==> e.store.saves[indexes[k] as int].locked == locked,
    ensures
        e.set_lock(indexes, locked).0.store == e.store,
        e.set_lock(indexes, locked).1 is Perform,
        e.request(Request::Lock { indexes }) == e.set_lock(indexes, true),
        e.request(Request::Unlock { indexes }) == e.set_lock(indexes, false),
{
    let saves = e.store.saves;
    assert(set_flags(saves, indexes, locked) =~= saves) by {
        assert forall|k: int| 0 <= k < saves.len() implies set_flags(saves, indexes, locked)[k]
            == saves[k] by {
            if indexes.contains(k as usize) {
                let j = choose|j: int| 0 <= j < indexes.len() && indexes[j] == k as usize;
                assert(saves[indexes[j] as int].locked == locked);
            }
        }
    }
}

/// Setting flags a second time changes nothing more.
pub proof fn law_lock_twice(saves: Seq<Record>, indexes: Seq<usize>, locked: bool)
    ensures
        set_flags(set_flags(saves, indexes, locked), indexes, locked) == set_flags(
            saves,
            indexes,
            locked,
        ),
{
    assert(set_flags(set_flags(saves, indexes, locked), indexes, locked) =~= set_flags(
        saves,
        indexes,
        locked,
    ));
}

/// Setting flags touches the named records only, and only their flag.
pub proof fn law_lock_sets_flags_only(saves: Seq<Record>, indexes: Seq<usize>, locked: bool)
    ensures
        set_flags(saves, indexes, locked).len() == saves.len(),
        forall|k: int|
            0 <= k < saves.len() ==> #[trigger] set_flags(saves, indexes, locked)[k] == if indexes.contains(
                k as usize,
            ) {
                Record { locked, ..saves[k] }
            } else {
                saves[k]
            },
{
}

/// The records that are left when those at `targets` are taken out, the
/// highest position first.
pub open spec fn without(saves: Seq<Record>, targets: Seq<usize>) -> Seq<Record>
    decreases targets.len(),
{
    if targets.len() == 0 {
        saves
    } else {
        without(saves.remove(targets.last() as int), targets.drop_last())
    }
}

/// The state after `rounds` rounds of a deletion in which the shell does
/// all that it is asked: each round removes one folder and tells the user.
pub open spec fn delete_run(e: Engine, rounds: nat, moment: Moment) -> Engine
    decreases rounds,
{
    if rounds == 0 {
        e
    } else {
        let removed = e.resume(Reply::Done, moment, None).0;
        let told = removed.resume(Reply::Done, moment, None).0;
        delete_run(told, (rounds - 1) as nat, moment)
    }
}

/// What a request to delete comes down to: ascending positions, each once,
/// of the records that the request names and that are not locked, and
/// every such position.
pub proof fn law_delete_targets(saves: Seq<Record>, indexes: Seq<usize>)
    requires
        saves.len() <= usize::MAX,
    ensures
        deletable(saves, targets_of(saves, indexes)),
        forall|k: int|
            0 <= k < targets_of(saves, indexes).len() ==> indexes.contains(
                #[trigger] targets_of(saves, indexes)[k],
            ),
        forall|i: usize|
            i < saves.len() && indexes.contains(i) && !saves[i as int].locked ==> targets_of(
                saves,
                indexes,
            ).contains(i),
{
    lemma_targets(saves, indexes, saves.len() as int);
}

/// Deleting. Once the user has agreed, the folder of the highest target is
/// removed first; when the shell has done all that it was asked, every
/// target's record is out of the store, the others are as before, and the
/// engine asks for the document to be rewritten, once.
pub proof fn law_delete_removes_targets(e: Engine, targets: Seq<usize>, moment: Moment)
    requires
        inv(e),
        e.stage == (Stage::Deleting { targets }),
    ensures
        delete_run(e, targets.len(), moment) == (Engine {
            store: Store { saves: without(e.store.saves, targets), ..e.store },
            stage: Stage::Writing { done: DoneView::Completed, context: Context::WriteAfterDelete },
        }),
    decreases targets.len(),
{
    let saves = e.store.saves;
    let removed = e.resume(Reply::Done, moment, None);
    law_replies_keep_invariant(e, Reply::Done, moment, None);
    let told = removed.0.resume(Reply::Done, moment, None);
    law_replies_keep_invariant(removed.0, Reply::Done, moment, None);
    let rest = targets.drop_last();
    assert(removed.0.store.saves == saves.remove(targets.last() as int));
    assert(removed.0.stage == (Stage::DeleteTold { targets: rest }));
    if rest.len() == 0 {
        assert(without(saves.remove(targets.last() as int), rest) == saves.remove(
            targets.last() as int,
        ));
        assert(delete_run(told.0, 0, moment) == told.0);
    } else {
        assert(told.0.stage == (Stage::Deleting { targets: rest }));
        law_delete_removes_targets(told.0, rest, moment);
    }
}

/// The first steps of a deletion: the user is asked about exactly the
/// targets, a no ends the operation with nothing changed, and a yes leads
/// to the removal of the highest target's folder.
pub proof fn law_delete_asks_first(e: Engine, indexes: Seq<usize>, moment: Moment)
    requires
        inv(e),
        e.stage is Idle,
        e.store.saves.len() <= usize::MAX,
        targets_of(e.store.saves, indexes).len() > 0,
    ensures
        ({
            let targets = targets_of(e.store.saves, indexes);
            let asked = e.request(Request::Delete { indexes });
            let no = asked.0.resume(Reply::No, moment, None);
            let yes = asked.0.resume(Reply::Yes, moment, None);
            &&& asked.1 == StepView::Perform(ActionView::Confirm(PromptView::Delete { indexes: targets }))
            &&& asked.0.store == e.store
            &&& no == (e, StepView::Finish(Ok(DoneView::Declined)))
            &&& yes.1 == StepView::Perform(
                ActionView::Remove { name: e.store.saves[targets.last() as int].name },
            )
            &&& yes.0 == (Engine { stage: Stage::Deleting { targets }, ..e })
        }),
{
    lemma_targets(e.store.saves, indexes, e.store.saves.len() as int);
}

/// Where no record of a request can be deleted, the request is refused and
/// nothing changes.
pub proof fn law_delete_nothing(e: Engine, indexes: Seq<usize>)
    requires
        e.stage is Idle,
        targets_of(e.store.saves, indexes).len() == 0,
    ensures
        e.request(Request::Delete { indexes }) == (e, refuse(Fault::NothingToDelete)),
{
}

/// `index` is one of `targets`.
pub open spec fn is_target(targets: Seq<usize>, index: int) -> bool {
    exists|k: int| 0 <= k < targets.len() && #[trigger] targets[k] == index
}

/// `targets` without its last element are targets of the store without the
/// record at that element, and all lie below it.
proof fn lemma_rest_deletable(saves: Seq<Record>, targets: Seq<usize>)
    requires
        deletable(saves, targets),
        targets.len() > 0,
    ensures
        deletable(saves.remove(targets.last() as int), targets.drop_last()),
        forall|k: int|
            0 <= k < targets.len() - 1 ==> (#[trigger] targets.drop_last()[k]) < targets.last(),
{
    let t = targets.last() as int;
    let s1 = saves.remove(t);
    let rest = targets.drop_last();
    assert forall|k: int| 0 <= k < rest.len() implies (#[trigger] rest[k]) < s1.len()
        && !s1[rest[k] as int].locked && rest[k] < t by {
        assert(rest[k] == targets[k]);
        assert(targets[k] < targets[targets.len() - 1]);
    }
    assert forall|j: int, k: int| 0 <= j < k < rest.len() implies rest[j] < rest[k] by {
        assert(rest[j] == targets[j] && rest[k] == targets[k]);
    }
}

/// A record that is no target is still there after the deletion.
pub proof fn law_without_keeps(saves: Seq<Record>, targets: Seq<usize>, i: int) -> (j: int)
    requires
        deletable(saves, targets),
        0 <= i < saves.len(),
        !is_target(targets, i),
    ensures
        0 <= j < without(saves, targets).len(),
        without(saves, targets)[j] == saves[i],
    decreases targets.len(),
{
    if targets.len() == 0 {
        i
    } else {
        let t = targets.last() as int;
        let s1 = saves.remove(t);
        let rest = targets.drop_last();
        lemma_rest_deletable(saves, targets);
        assert(i != t) by {
            if i == t {
                assert(targets[targets.len() - 1] == i);
            }
        }
        let i1 = if i < t {
            i
        } else {
            i - 1
        };
        assert(s1[i1] == saves[i]);
        assert(!is_target(rest, i1)) by {
            if is_target(rest, i1) {
                let k = choose|k: int| 0 <= k < rest.len() && #[trigger] rest[k] == i1;
                assert(targets[k] == rest[k]);
            }
        }
        law_without_keeps(s1, rest, i1)
    }
}

/// A record that is there after the deletion was no target.
pub proof fn law_without_origin(saves: Seq<Record>, targets: Seq<usize>, j: int) -> (i: int)
    requires
        deletable(saves, targets),
        0 <= j < without(saves, targets).len(),
    ensures
        0 <= i < saves.len(),
        !is_target(targets, i),
        without(saves, targets)[j] == saves[i],
    decreases targets.len(),
{
    if targets.len() == 0 {
        j
    } else {
        let t = targets.last() as int;
        let s1 = saves.remove(t);
        let rest = targets.drop_last();
        lemma_rest_deletable(saves, targets);
        let i1 = law_without_origin(s1, rest, j);
        let i = if i1 < t {
            i1
        } else {
            i1 + 1
        };
        assert(saves[i] == s1[i1]);
        assert(!is_target(targets, i)) by {
            if is_target(targets, i) {
                let k = choose|k: int| 0 <= k < targets.len() && #[trigger] targets[k] == i;
                if k < rest.len() {
                    assert(rest[k] == targets[k]);
                }
            }
        }
        i
    }
}

/// The deletion leaves as many records fewer as there were targets.
pub proof fn law_without_len(saves: Seq<Record>, targets: Seq<usize>)
    requires
        deletable(saves, targets),
    ensures
        without(saves, targets).len() == saves.len() - targets.len(),
    decreases targets.len(),
{
    if targets.len() > 0 {
        lemma_rest_deletable(saves, targets);
        law_without_len(saves.remove(targets.last() as int), targets.drop_last());
    }
}

/// In a well-formed store, the name of a deleted record is free again.
pub proof fn law_deleted_names_free(saves: Seq<Record>, targets: Seq<usize>, k: int)
    requires
        names_distinct(saves),
        deletable(saves, targets),
        0 <= k < targets.len(),
    ensures
        !name_used(without(saves, targets), saves[targets[k] as int].name),
{
    let w = without(saves, targets);
    let t = targets[k] as int;
    assert forall|j: int| 0 <= j < w.len() implies (#[trigger] w[j]).name != saves[t].name by {
        let i = law_without_origin(saves, targets, j);
        assert(i != t);
        if i < t {
            assert(saves[i].name != saves[t].name);
        } else {
            assert(saves[t].name != saves[i].name);
        }
    }
}

/// One for an automatic save, none for another record.
pub open spec fn auto_weight(record: Record) -> nat {
    if is_auto_name(record.name) {
        1
    } else {
        0
    }
}

/// The store after one round of automatic saving: where `max` automatic
/// saves are there already, the oldest of them goes; `latest` is appended.
pub open spec fn tick(saves: Seq<Record>, max: usize, latest: Record) -> Seq<Record> {
    let count = count_auto(saves);
    (if count >= max && count > 0 {
        saves.remove(first_auto(saves))
    } else {
        saves
    }).push(latest)
}

/// The store after one round for each of `latests`, in order.
pub open spec fn ticks(saves: Seq<Record>, max: usize, latests: Seq<Record>) -> Seq<Record>
    decreases latests.len(),
{
    if latests.len() == 0 {
        saves
    } else {
        tick(ticks(saves, max, latests.drop_last()), max, latests.last())
    }
}

proof fn lemma_count_prefix(a: Seq<Record>, b: Seq<Record>, n: int)
    requires
        0 <= n <= a.len(),
        n <= b.len(),
        forall|k: int| 0 <= k < n ==> a[k] == b[k],
    ensures
        count_auto_upto(a, n) == count_auto_upto(b, n),
    decreases n,
{
    if n > 0 {
        lemma_count_prefix(a, b, n - 1);
    }
}

/// Appending a record adds its weight to the count.
pub proof fn lemma_count_push(saves: Seq<Record>, record: Record)
    ensures
        count_auto(saves.push(record)) == count_auto(saves) + auto_weight(record),
{
    lemma_count_prefix(saves.push(record), saves, saves.len() as int);
}

proof fn lemma_count_shift(saves: Seq<Record>, index: int, n: int)
    requires
        0 <= index < saves.len(),
        index <= n < saves.len(),
    ensures
        count_auto_upto(saves.remove(index), n) + auto_weight(saves[index]) == count_auto_upto(
            saves,
            n + 1,
        ),
    decreases n,
{
    let after = saves.remove(index);
    if n == index {
        lemma_count_prefix(after, saves, index);
    } else {
        lemma_count_shift(saves, index, n - 1);
        assert(after[n - 1] == saves[n]);
    }
}

/// Removing a record takes its weight off the count.
pub proof fn lemma_count_remove(saves: Seq<Record>, index: int)
    requires
        0 <= index < saves.len(),
    ensures
        count_auto(saves.remove(index)) + auto_weight(saves[index]) == count_auto(saves),
{
    lemma_count_shift(saves, index, saves.len() - 1);
}

/// The record that makes room is the oldest automatic save: it is one, and
/// no automatic save stands before it.
pub proof fn law_eviction_takes_oldest(saves: Seq<Record>)
    requires
        count_auto(saves) > 0,
    ensures
        0 <= first_auto(saves) < saves.len(),
        is_auto_name(saves[first_auto(saves)].name),
        forall|k: int| 0 <= k < first_auto(saves) ==> !is_auto_name((#[trigger] saves[k]).name),
{
    lemma_first_auto_found(saves);
    lemma_first_auto_from(saves, 0);
}

/// One round leaves the number of automatic saves as it is where `max` of
/// them were there, and raises it by one otherwise.
pub proof fn law_tick_count(saves: Seq<Record>, max: usize, latest: Record)
    requires
        is_auto_name(latest.name),
        max >= 1,
    ensures
        count_auto(tick(saves, max, latest)) == if count_auto(saves) >= max {
            count_auto(saves)
        } else {
            count_auto(saves) + 1
        },
{
    let count = count_auto(saves);
    if count >= max && count > 0 {
        law_eviction_takes_oldest(saves);
        lemma_count_remove(saves, first_auto(saves));
        lemma_count_push(saves.remove(first_auto(saves)), latest);
    } else {
        lemma_count_push(saves, latest);
    }
}

/// Retention. Starting with at most `max` automatic saves, after any number
/// of rounds there are as many more as there were rounds, but never more
/// than `max`: after `max + 1` rounds from none there are exactly `max`.
pub proof fn law_ticks_count(saves: Seq<Record>, max: usize, latests: Seq<Record>)
    requires
        max >= 1,
        count_auto(saves) <= max,
        forall|k: int| 0 <= k < latests.len() ==> is_auto_name((#[trigger] latests[k]).name),
    ensures
        count_auto(ticks(saves, max, latests)) == if count_auto(saves) + latests.len() <= max {
            count_auto(saves) + latests.len()
        } else {
            max as nat
        },
    decreases latests.len(),
{
    if latests.len() > 0 {
        let earlier = latests.drop_last();
        assert forall|k: int| 0 <= k < earlier.len() implies is_auto_name(
            (#[trigger] earlier[k]).name,
        ) by {
            assert(earlier[k] == latests[k]);
        }
        law_ticks_count(saves, max, earlier);
        law_tick_count(ticks(saves, max, earlier), max, latests.last());
    }
}

/// An automatic save that has to make room, with a shell that does all it
/// is asked: the oldest automatic save goes, folder first; the new record
/// is appended under the name generated when the folder was gone; the
/// document is rewritten; and the operation ends with both records.
pub proof fn law_auto_save_with_eviction(
    e: Engine,
    max: usize,
    asked: Moment,
    moment: Moment,
    stamp: Stamp,
)
    requires
        inv(e),
        e.stage is Idle,
        e.store.saves.len() <= usize::MAX,
        count_auto(e.store.saves) >= max,
        count_auto(e.store.saves) > 0,
        !e.store.saves[first_auto(e.store.saves)].locked,
        !name_used(e.store.saves.remove(first_auto(e.store.saves)), quick_name(moment, true)),
    ensures
        ({
            let saves = e.store.saves;
            let oldest = saves[first_auto(saves)];
            let latest = Record {
                date: stamp.date,
                time: stamp.time,
                name: quick_name(moment, true),
                note: Seq::empty(),
                locked: false,
            };
            let first = e.request(Request::AutoSave { max_auto_saves: max, moment: asked });
            let second = first.0.resume(Reply::Done, moment, Some(stamp));
            let third = second.0.resume(Reply::Done, moment, Some(stamp));
            let fourth = third.0.resume(Reply::Done, moment, Some(stamp));
            &&& first.1 == StepView::Perform(ActionView::Remove { name: oldest.name })
            &&& first.0.store == e.store
            &&& second.1 == StepView::Perform(ActionView::Save { name: latest.name })
            &&& second.0.store.saves == saves.remove(first_auto(saves))
            &&& third.1 == StepView::Perform(ActionView::WriteInfos)
            &&& third.0.store.saves == tick(saves, max, latest)
            &&& fourth.1 == StepView::Finish(
                Ok(DoneView::AutoSaved { removed: Some(oldest), latest }),
            )
            &&& fourth.0 == (Engine {
                store: Store { saves: tick(saves, max, latest), ..e.store },
                stage: Stage::Idle,
            })
        }),
{
    lemma_first_auto_found(e.store.saves);
    lemma_quick_name_present(moment, true);
}

/// An automatic save where there is room, with a shell that does all it is
/// asked: the new record is appended and nothing is removed.
pub proof fn law_auto_save_with_room(e: Engine, max: usize, moment: Moment, stamp: Stamp)
    requires
        e.stage is Idle,
        count_auto(e.store.saves) < max,
        !name_used(e.store.saves, quick_name(moment, true)),
    ensures
        ({
            let saves = e.store.saves;
            let latest = Record {
                date: stamp.date,
                time: stamp.time,
                name: quick_name(moment, true),
                note: Seq::empty(),
                locked: false,
            };
            let first = e.request(Request::AutoSave { max_auto_saves: max, moment });
            let second = first.0.resume(Reply::Done, moment, Some(stamp));
            let third = second.0.resume(Reply::Done, moment, Some(stamp));
            &&& first.1 == StepView::Perform(ActionView::Save { name: latest.name })
            &&& second.1 == StepView::Perform(ActionView::WriteInfos)
            &&& second.0.store.saves == tick(saves, max, latest)
            &&& third.1 == StepView::Finish(Ok(DoneView::AutoSaved { removed: None, latest }))
            &&& third.0 == (Engine {
                store: Store { saves: tick(saves, max, latest), ..e.store },
                stage: Stage::Idle,
            })
        }),
{
    lemma_quick_name_present(moment, true);
}

/// A stage in which the engine waits for the outcome of work on a folder,
/// on the document or with the user, and not merely for a message to be
/// shown.
pub open spec fn awaits_outcome(stage: Stage) -> bool {
    !(stage is Idle) && !(stage is DeleteTold) && !(stage is Telling) && !(stage is LaunchTold)
}

/// A failure of the shell ends the operation at once: the failure is
/// handed on as it came, the store is left as it stands, and the engine is
/// idle again.
pub proof fn law_failure_ends_operation(
    e: Engine,
    reply: Reply,
    moment: Moment,
    stamp: Option<Stamp>,
)
    requires
        awaits_outcome(e.stage),
        reply is Failed,
    ensures
        e.resume(reply, moment, stamp).0 == (Engine { stage: Stage::Idle, ..e }),
        e.resume(reply, moment, stamp).1 matches StepView::Finish(
            Err(Failure::Failed { error, .. }),
        ) && error == reply->Failed_0,
{
}

/// The document follows the store. While the shell rewrites the document
/// the store does not change, whatever the outcome: what is written is what
/// the engine holds when the operation ends.
pub proof fn law_document_follows_store(
    e: Engine,
    reply: Reply,
    moment: Moment,
    stamp: Option<Stamp>,
)
    requires
        e.stage is Writing,
    ensures
        e.resume(reply, moment, stamp).0 == (Engine { stage: Stage::Idle, ..e }),
        e.resume(reply, moment, stamp).1 is Finish,
{
}

} // verus!
