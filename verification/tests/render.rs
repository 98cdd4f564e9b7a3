use noita_save_manager::cmdline_output::CmdlineOutput;
use noita_save_manager::output_manager::{
    answer_to_reply, ask, outcome_to_reply, report, GuiOutput, OutputManager, OutputPayload,
    Severity,
};
use noita_save_manager::error::{NSError, NSResult};
use noita_save_manager::protocol::Reply;
use noita_save_manager::render::{
    entry, format_with_pad_centered, list_entries, log_line, pad_centered, pad_right,
    push_decimal, push_repeated, save_to_text, short_log_start, with_pad,
};
use noita_save_manager::save_infos::{AllInfos, SingleSave};
use std::cell::RefCell;

fn record(name: &str, note: &str) -> SingleSave {
    SingleSave::new("2024-01-02".to_string(), "03:04:05".to_string(), name.to_string(), note.to_string())
}

fn decimal(n: u128) -> String {
    let mut out = String::new();
    push_decimal(n, &mut out);
    out
}

#[test]
fn numbers_in_decimal() {
    assert_eq!(decimal(0), "0");
    assert_eq!(decimal(7), "7");
    assert_eq!(decimal(10), "10");
    assert_eq!(decimal(1234567890), "1234567890");
    assert_eq!(decimal(u128::MAX), u128::MAX.to_string());
}

#[test]
fn repeated_characters() {
    let mut out = String::from("a");
    push_repeated('-', 3, &mut out);
    assert_eq!(out, "a---");
    push_repeated('x', 0, &mut out);
    assert_eq!(out, "a---");
}

#[test]
fn centered_between_dashes() {
    assert_eq!(pad_centered("ab", 2, 6), "--ab--");
    assert_eq!(pad_centered("ab", 2, 7), "--ab---");
    assert_eq!(pad_centered("ab", 2, 2), "ab");
    assert_eq!(pad_centered("ab", 2, 1), "ab");
    assert_eq!(pad_centered("", 0, 3), "---");
    assert_eq!(format_with_pad_centered("ok", 6), "--ok--");
    assert_eq!(format_with_pad_centered("ok", 0), "ok");
}

#[test]
fn centered_goes_by_columns_not_characters() {
    assert_eq!(format_with_pad_centered("你好", 8), "--你好--");
    assert_eq!(format_with_pad_centered("你好", 4), "你好");
    assert_eq!(with_pad("你好", 6), "你好  ");
}

#[test]
fn padded_on_the_right() {
    assert_eq!(pad_right("ab", 2, 5), "ab   ");
    assert_eq!(pad_right("ab", 2, 2), "ab");
    assert_eq!(pad_right("ab", 2, 0), "ab");
    assert_eq!(with_pad("save", 6), "save  ");
    assert_eq!(with_pad("save", 3), "save");
}

#[test]
fn entry_lines() {
    assert_eq!(entry(0, &record("run1", "first try")), "[1]  run1\t\tfirst try\n");
    assert_eq!(entry(9, &record("a", "")), "[10]  a\t\t\n");
    assert_eq!(entry(usize::MAX, &record("a", "b")), format!("[{}]  a\t\tb\n", usize::MAX as u128 + 1));
}

#[test]
fn listings_skip_what_is_not_there() {
    let infos = AllInfos::new(String::new(), vec![record("a", "x"), record("b", "y")]);
    assert_eq!(list_entries(&infos, &vec![1, 5, 0, 1]), "[2]  b\t\ty\n[1]  a\t\tx\n[2]  b\t\ty\n");
    assert_eq!(list_entries(&infos, &vec![]), "");
    assert_eq!(list_entries(&infos, &vec![2]), "");
}

#[test]
fn log_lines() {
    let mut save = record("run1", "first try");
    assert_eq!(save_to_text(&save), "2024-01-02  03:04:05\trun1\t\t\tfirst try");
    let (severity, text) = log_line(2, &save);
    assert_eq!(severity, Severity::Info);
    assert_eq!(text, "[3] 2024-01-02  03:04:05\trun1\t\t\tfirst try\n");
    save.lock();
    let (severity, _) = log_line(2, &save);
    assert_eq!(severity, Severity::Success);
}

#[test]
fn short_log_shows_six() {
    assert_eq!(short_log_start(0), 0);
    assert_eq!(short_log_start(5), 0);
    assert_eq!(short_log_start(6), 0);
    assert_eq!(short_log_start(7), 1);
    assert_eq!(short_log_start(100), 94);
}

#[test]
fn severity_grades() {
    assert_eq!(Severity::Fatal.grade(), 1);
    assert_eq!(Severity::Warning.grade(), 2);
    assert_eq!(Severity::Info.grade(), 3);
    assert_eq!(Severity::Success.grade(), 4);
    assert_eq!(Severity::Debug.grade(), 5);
}

#[test]
fn payloads() {
    let payload = OutputPayload::new(2, "careful".to_string());
    assert_eq!(payload.log_grade, 2);
    assert_eq!(payload.message, "careful");
    let copy = payload.clone();
    assert_eq!(copy.log_grade, 2);
    assert_eq!(copy.message, "careful");
    let gui = GuiOutput {};
    let payload = gui.payload(Severity::Debug, "x".to_string());
    assert_eq!(payload.log_grade, 5);
    assert_eq!(payload.message, "x");
}

struct Recorder {
    seen: RefCell<Vec<String>>,
    answer: Option<bool>,
}

impl OutputManager for Recorder {
    fn fatal_error(&self, msg: String) {
        self.seen.borrow_mut().push(format!("fatal:{}", msg));
    }
    fn warning(&self, msg: String) {
        self.seen.borrow_mut().push(format!("warning:{}", msg));
    }
    fn log(&self, msg: String) {
        self.seen.borrow_mut().push(format!("log:{}", msg));
    }
    fn log_green(&self, msg: String) {
        self.seen.borrow_mut().push(format!("green:{}", msg));
    }
    fn debug(&self, msg: String) {
        self.seen.borrow_mut().push(format!("debug:{}", msg));
    }
    fn getline(&self, input_msg: String) -> NSResult<String> {
        Ok(input_msg)
    }
    fn confirm(&self, msg: String) -> NSResult<bool> {
        self.seen.borrow_mut().push(format!("confirm:{}", msg));
        match self.answer {
            Some(answer) => Ok(answer),
            None => Err(NSError::new("no terminal")),
        }
    }
}

#[test]
fn report_goes_by_severity() {
    let opm = Recorder { seen: RefCell::new(Vec::new()), answer: Some(true) };
    report(&opm, Severity::Fatal, "a".to_string());
    report(&opm, Severity::Warning, "b".to_string());
    report(&opm, Severity::Info, "c".to_string());
    report(&opm, Severity::Success, "d".to_string());
    report(&opm, Severity::Debug, "e".to_string());
    assert_eq!(*opm.seen.borrow(), vec!["fatal:a", "warning:b", "log:c", "green:d", "debug:e"]);
}

#[test]
fn answers_become_replies() {
    assert!(matches!(answer_to_reply(Ok(true)), Reply::Yes));
    assert!(matches!(answer_to_reply(Ok(false)), Reply::No));
    assert!(matches!(answer_to_reply(Err(NSError::new("x"))), Reply::Failed(_)));
    assert!(matches!(outcome_to_reply(Ok(())), Reply::Done));
    assert!(matches!(outcome_to_reply(Err(NSError::new("x"))), Reply::Failed(_)));
    let yes = Recorder { seen: RefCell::new(Vec::new()), answer: Some(true) };
    assert!(matches!(ask(&yes, "sure?".to_string()), Reply::Yes));
    assert_eq!(*yes.seen.borrow(), vec!["confirm:sure?"]);
    let no = Recorder { seen: RefCell::new(Vec::new()), answer: Some(false) };
    assert!(matches!(ask(&no, "sure?".to_string()), Reply::No));
    let broken = Recorder { seen: RefCell::new(Vec::new()), answer: None };
    assert!(matches!(ask(&broken, "sure?".to_string()), Reply::Failed(_)));
}

#[test]
fn console_texts() {
    let out = CmdlineOutput {};
    assert_eq!(out.fatal_text("boom"), "[FATAL] boom");
    assert_eq!(out.warning_text("hm"), "[WARNING] hm");
    assert_eq!(out.debug_text("x=1"), "[DEBUG] x=1");
    assert_eq!(out.succeed("Success"), (Severity::Success, "Success\n".to_string()));
    assert_eq!(out.cancel("Cancelled"), (Severity::Info, "Cancelled\n".to_string()));
    assert_eq!(out.input("Name".to_string()), "Name:");
    assert_eq!(out.confirm_prompt("Confirm"), "\nConfirm(y/n):");
}

#[test]
fn console_yes() {
    let out = CmdlineOutput {};
    assert!(out.confirm("y"));
    assert!(out.confirm("Y"));
    assert!(out.confirm("yes"));
    assert!(out.confirm("YES"));
    assert!(out.confirm("yEs"));
    assert!(!out.confirm("n"));
    assert!(!out.confirm(""));
    assert!(!out.confirm("yes "));
    assert!(!out.confirm("yess"));
    assert!(out.means_yes("y"));
    assert!(!out.means_yes("Y"));
}
