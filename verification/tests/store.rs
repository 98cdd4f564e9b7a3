use noita_save_manager::save_infos::{AllInfos, SingleSave};

fn record(name: &str) -> SingleSave {
    SingleSave::new("d".to_string(), "t".to_string(), name.to_string(), "n".to_string())
}

fn store(names: &[&str]) -> AllInfos {
    AllInfos::new("path".to_string(), names.iter().map(|n| record(n)).collect())
}

#[test]
fn new_record_is_unlocked() {
    let save = SingleSave::new(
        "2024-01-02".to_string(),
        "03:04:05".to_string(),
        "run1".to_string(),
        "first try".to_string(),
    );
    assert_eq!(save.get_date(), "2024-01-02");
    assert_eq!(save.get_time(), "03:04:05");
    assert_eq!(save.get_name(), "run1");
    assert_eq!(save.get_note(), "first try");
    assert!(!save.is_locked());
}

#[test]
fn record_fields_change_one_at_a_time() {
    let mut save = record("a");
    save.modify_date("D".to_string());
    assert_eq!((save.get_date(), save.get_time(), save.get_name(), save.get_note()), ("D", "t", "a", "n"));
    save.modify_time("T".to_string());
    assert_eq!((save.get_date(), save.get_time(), save.get_name(), save.get_note()), ("D", "T", "a", "n"));
    save.modify_name("A".to_string());
    assert_eq!((save.get_date(), save.get_time(), save.get_name(), save.get_note()), ("D", "T", "A", "n"));
    save.modify_note("N".to_string());
    assert_eq!((save.get_date(), save.get_time(), save.get_name(), save.get_note()), ("D", "T", "A", "N"));
    assert!(!save.is_locked());
    save.lock();
    assert!(save.is_locked());
    save.lock();
    assert!(save.is_locked());
    save.unlock();
    assert!(!save.is_locked());
    save.unlock();
    assert!(!save.is_locked());
    assert_eq!(save.get_name(), "A");
}

#[test]
fn clone_copies_every_field() {
    let mut save = record("a");
    save.lock();
    let copy = save.clone();
    assert_eq!(copy, save);
    assert!(copy.is_locked());
}

#[test]
fn store_path() {
    let mut infos = store(&[]);
    assert_eq!(infos.get_exe_path(), "path");
    infos.set_noita_path("C:/noita.exe".to_string());
    assert_eq!(infos.get_exe_path(), "C:/noita.exe");
    assert_eq!(infos.len(), 0);
}

#[test]
fn store_finds_names() {
    let infos = store(&["a", "b", "a"]);
    assert_eq!(infos.find_by_name("a"), Some(0));
    assert_eq!(infos.find_by_name("b"), Some(1));
    assert_eq!(infos.find_by_name("B"), None);
    assert!(!infos.is_name_unique("a"));
    assert!(infos.is_name_unique("c"));
    assert!(infos.is_name_unique(""));
}

#[test]
fn store_well_formedness() {
    assert!(store(&[]).is_well_formed());
    assert!(store(&["a", "b", "c"]).is_well_formed());
    assert!(!store(&["a", "b", "a"]).is_well_formed());
    assert!(!store(&["a", ""]).is_well_formed());
    assert!(store(&["a", "A"]).is_well_formed());
}

#[test]
fn store_keeps_order() {
    let mut infos = store(&["a", "b", "c"]);
    infos.push(record("d"));
    assert_eq!(infos.len(), 4);
    assert_eq!(infos.get(3).unwrap().get_name(), "d");
    let gone = infos.remove(1);
    assert_eq!(gone.get_name(), "b");
    let names: Vec<&str> = infos.saves().iter().map(|s| s.get_name()).collect();
    assert_eq!(names, vec!["a", "c", "d"]);
    assert!(infos.get(3).is_none());
    assert_eq!(infos.name_at(2), "d");
}

#[test]
fn store_changes_one_record() {
    let mut infos = store(&["a", "b"]);
    infos.set_locked(1, true);
    assert!(infos.is_locked_at(1));
    assert!(!infos.is_locked_at(0));
    infos.rename(0, "z".to_string());
    infos.annotate(0, "note".to_string());
    infos.touch(0, "D".to_string(), "T".to_string());
    let first = infos.get(0).unwrap();
    assert_eq!((first.get_date(), first.get_time(), first.get_name(), first.get_note()), ("D", "T", "z", "note"));
    let second = infos.get(1).unwrap();
    assert_eq!((second.get_date(), second.get_time(), second.get_name(), second.get_note()), ("d", "t", "b", "n"));
    infos.set_locked(1, false);
    assert!(!infos.is_locked_at(1));
}

#[test]
fn parts_round_trip() {
    let mut infos = store(&["a", "b", "c"]);
    infos.set_locked(1, true);
    infos.annotate(2, "third".to_string());
    let parts = infos.to_parts();
    assert_eq!(
        parts[1],
        ("d".to_string(), "t".to_string(), "b".to_string(), "n".to_string(), true)
    );
    let again = AllInfos::from_parts(infos.get_exe_path().to_string(), parts);
    assert_eq!(again.get_exe_path(), "path");
    assert_eq!(again.saves(), infos.saves());
    assert_eq!(infos.clone().saves(), infos.saves());
    let one = SingleSave::from_parts(infos.get(1).unwrap().to_parts());
    assert_eq!(&one, infos.get(1).unwrap());
}

#[test]
fn parts_round_trip_through_json() {
    let mut infos = store(&["a", "b \"quoted\"", "存档"]);
    infos.set_locked(2, true);
    let text = serde_json::to_string(&(infos.get_exe_path(), infos.to_parts())).unwrap();
    let (path, parts): (String, Vec<(String, String, String, String, bool)>) =
        serde_json::from_str(&text).unwrap();
    let again = AllInfos::from_parts(path, parts);
    assert_eq!(again.get_exe_path(), infos.get_exe_path());
    assert_eq!(again.saves(), infos.saves());
    assert_eq!(again.len(), 3);
    assert!(again.get(2).unwrap().is_locked());
}
