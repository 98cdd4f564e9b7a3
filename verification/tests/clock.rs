use noita_save_manager::clock::read_clock;
use noita_save_manager::text::{has_prefix, same_text, to_chars};

#[test]
fn clock_gives_moment_and_texts() {
    let reading = read_clock("%Y-%m-%d", "%H:%M:%S");
    assert!((1..=12).contains(&reading.moment.month));
    assert!((1..=31).contains(&reading.moment.day));
    assert!(reading.moment.hour <= 23);
    assert!(reading.moment.minute <= 59);
    assert!(reading.moment.second <= 59);
    assert!(reading.moment.year >= 2024);
    let date = reading.date.unwrap();
    assert_eq!(date.len(), 10);
    assert!(date.starts_with(&reading.moment.year.to_string()));
    let time = reading.time.unwrap();
    assert_eq!(time.len(), 8);
    assert_eq!(&time[2..3], ":");
}

#[test]
fn clock_tells_a_pattern_it_cannot_apply() {
    let reading = read_clock("%Y-%m-%d", "%Q");
    assert!(reading.date.is_some());
    assert!(reading.time.is_none());
    let reading = read_clock("%", "plain");
    assert!(reading.date.is_none());
    assert_eq!(reading.time.unwrap(), "plain");
}

#[test]
fn texts_compare_by_characters() {
    assert!(same_text("", ""));
    assert!(same_text("run1", "run1"));
    assert!(!same_text("run1", "run2"));
    assert!(!same_text("run", "run1"));
    assert!(!same_text("Run1", "run1"));
    assert!(same_text("存档", "存档"));
    assert!(!same_text("存档", "存盘"));
}

#[test]
fn prefixes() {
    assert!(has_prefix("as_x", "as_"));
    assert!(has_prefix("as_", "as_"));
    assert!(has_prefix("abc", ""));
    assert!(has_prefix("", ""));
    assert!(!has_prefix("as", "as_"));
    assert!(!has_prefix("bs_x", "as_"));
    assert!(has_prefix("存档一", "存档"));
}

#[test]
fn characters_back_and_forth() {
    assert_eq!(to_chars("a存b"), vec!['a', '存', 'b']);
    assert_eq!(to_chars(""), Vec::<char>::new());
}
