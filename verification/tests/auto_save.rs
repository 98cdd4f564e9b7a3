use noita_save_manager::clock::Reading;
use noita_save_manager::engine::Core;
use noita_save_manager::error::NSError;
use noita_save_manager::naming::Moment;
use noita_save_manager::protocol::{Action, Context, Done, Failure, Fault, Reply, Step};
use noita_save_manager::save_infos::{AllInfos, SingleSave};
use noita_save_manager::scheduler::{minutes_to_seconds, Arming, AutoSaveSession, Wake};

fn at(second: u32) -> Moment {
    Moment { year: 2024, month: 1, day: 2, hour: 3, minute: 4, second }
}

fn reading(second: u32) -> Reading {
    Reading {
        moment: at(second),
        date: Some("2024-01-02".to_string()),
        time: Some(format!("03:04:{:02}", second)),
    }
}

fn core_with(names: &[&str]) -> Core {
    let saves = names
        .iter()
        .map(|n| SingleSave::new("d".to_string(), "t".to_string(), n.to_string(), String::new()))
        .collect();
    Core::new(
        AllInfos::new(String::new(), saves),
        "en-US".to_string(),
        "%Y-%m-%d".to_string(),
        "%H:%M:%S".to_string(),
    )
}

fn names(core: &Core) -> Vec<String> {
    core.get_save_infos().saves().iter().map(|s| s.get_name().to_string()).collect()
}

fn tick(core: &mut Core, max: usize, second: u32) -> (Option<String>, String) {
    let mut step = core.auto_save_at(max, &at(second));
    loop {
        match step {
            Step::Perform(_) => step = core.resume_at(Reply::Done, reading(second)),
            Step::Finish(Ok(Done::AutoSaved { removed, latest })) => {
                return (
                    removed.map(|s| s.get_name().to_string()),
                    latest.get_name().to_string(),
                );
            },
            other => panic!("unexpected {:?}", other),
        }
    }
}

#[test]
fn auto_save_keeps_at_most_max_and_evicts_the_oldest() {
    let mut core = core_with(&["manual"]);
    let max = 3;
    let mut made = Vec::new();
    for second in 1..=3 {
        let (removed, latest) = tick(&mut core, max, second);
        assert_eq!(removed, None);
        made.push(latest);
    }
    assert_eq!(core.count_auto_saves(), 3);
    let (removed, latest) = tick(&mut core, max, 4);
    assert_eq!(removed.as_deref(), Some(made[0].as_str()));
    assert_eq!(core.count_auto_saves(), 3);
    assert_eq!(
        names(&core),
        vec!["manual".to_string(), made[1].clone(), made[2].clone(), latest.clone()]
    );
    let (removed, _) = tick(&mut core, max, 5);
    assert_eq!(removed.as_deref(), Some(made[1].as_str()));
    assert_eq!(core.count_auto_saves(), 3);
}

#[test]
fn auto_save_steps_remove_before_save() {
    let mut core = core_with(&["as_old", "x", "as_new"]);
    assert_eq!(core.first_auto_save(), 0);
    let step = core.auto_save_at(2, &at(7));
    match step {
        Step::Perform(Action::Remove { name }) => assert_eq!(name, "as_old"),
        other => panic!("unexpected {:?}", other),
    }
    assert_eq!(names(&core), vec!["as_old", "x", "as_new"]);
    match core.resume_at(Reply::Done, reading(8)) {
        Step::Perform(Action::Save { name }) => assert_eq!(name, "as_ybcdei"),
        other => panic!("unexpected {:?}", other),
    }
    assert_eq!(names(&core), vec!["x", "as_new"]);
    match core.resume_at(Reply::Done, reading(8)) {
        Step::Perform(Action::WriteInfos) => {},
        other => panic!("unexpected {:?}", other),
    }
    match core.resume_at(Reply::Done, reading(8)) {
        Step::Finish(Ok(Done::AutoSaved { removed, latest })) => {
            assert_eq!(removed.unwrap().get_name(), "as_old");
            assert_eq!(latest.get_name(), "as_ybcdei");
            assert_eq!(latest.get_time(), "03:04:08");
        },
        other => panic!("unexpected {:?}", other),
    }
    assert_eq!(names(&core), vec!["x", "as_new", "as_ybcdei"]);
}

#[test]
fn auto_save_never_removes_a_locked_record() {
    let mut core = core_with(&["as_old"]);
    let mut step = core.lock(vec![0]);
    while let Step::Perform(_) = step {
        step = core.resume_at(Reply::Done, reading(1));
    }
    match core.auto_save_at(1, &at(2)) {
        Step::Finish(Err(Failure::Refused(fault))) => assert_eq!(fault, Fault::Locked),
        other => panic!("unexpected {:?}", other),
    }
    assert_eq!(names(&core), vec!["as_old"]);
}

#[test]
fn auto_save_whose_removal_fails_keeps_the_record() {
    let mut core = core_with(&["as_old"]);
    core.auto_save_at(1, &at(2));
    match core.resume_at(Reply::Failed(NSError::new("busy")), reading(2)) {
        Step::Finish(Err(Failure::Failed { context, .. })) => {
            assert_eq!(context, Context::DeleteFolder)
        },
        other => panic!("unexpected {:?}", other),
    }
    assert_eq!(names(&core), vec!["as_old"]);
}

#[test]
fn auto_save_with_the_clock() {
    let mut core = core_with(&[]);
    let mut step = core.auto_save(2);
    let mut rounds = 0;
    while let Step::Perform(_) = step {
        step = core.resume(Reply::Done);
        rounds += 1;
    }
    assert_eq!(rounds, 2);
    assert_eq!(core.count_auto_saves(), 1);
}

#[test]
fn arming_rules() {
    let mut session = AutoSaveSession::new();
    assert_eq!(session, AutoSaveSession::Disabled);
    assert_eq!(session.arm(60, 0), Arming::Rejected);
    assert_eq!(session, AutoSaveSession::Disabled);
    assert_eq!(session.arm(0, 3), Arming::Stopped { join_previous: false });
    assert_eq!(
        session.arm(60, 3),
        Arming::Started { join_previous: false, interval: 60, max_count: 3 }
    );
    assert_eq!(session, AutoSaveSession::Armed { interval: 60, max_count: 3 });
    assert_eq!(session.arm(5, 0), Arming::Rejected);
    assert_eq!(session, AutoSaveSession::Armed { interval: 60, max_count: 3 });
    assert_eq!(
        session.arm(120, 5),
        Arming::Started { join_previous: true, interval: 120, max_count: 5 }
    );
    assert_eq!(session.arm(0, 5), Arming::Stopped { join_previous: true });
    assert_eq!(session, AutoSaveSession::Disabled);
}

#[test]
fn waking_rules() {
    let mut session = AutoSaveSession::new();
    assert_eq!(session.wake(true), Wake::Exit);
    session.arm(60, 3);
    assert_eq!(session.wake(true), Wake::Tick { max_count: 3 });
    assert_eq!(session.wake(false), Wake::Exit);
    assert!(session.after_tick(true));
    assert_eq!(session, AutoSaveSession::Armed { interval: 60, max_count: 3 });
    assert!(!session.after_tick(false));
    assert_eq!(session, AutoSaveSession::Disabled);
    assert!(!session.after_tick(true));
}

#[test]
fn minutes_become_seconds() {
    assert_eq!(minutes_to_seconds(0), Some(0));
    assert_eq!(minutes_to_seconds(5), Some(300));
    assert_eq!(minutes_to_seconds(u64::MAX / 60), Some(u64::MAX / 60 * 60));
    assert_eq!(minutes_to_seconds(u64::MAX / 60 + 1), None);
}
