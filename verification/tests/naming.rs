use noita_save_manager::naming::{
    hash, is_auto_save_name, quick_save_name, symbol_of, year_component, Moment,
};

fn hashed(src: u32) -> String {
    let mut out = String::from("x");
    hash(src, &mut out);
    out
}

#[test]
fn symbols_run_through_three_alphabets() {
    assert_eq!(symbol_of(0), 'a');
    assert_eq!(symbol_of(25), 'z');
    assert_eq!(symbol_of(26), 'A');
    assert_eq!(symbol_of(51), 'Z');
    assert_eq!(symbol_of(52), '0');
    assert_eq!(symbol_of(61), '9');
}

#[test]
fn groups_of_symbols() {
    assert_eq!(hashed(0), "x");
    assert_eq!(hashed(1), "xb");
    assert_eq!(hashed(25), "xz");
    assert_eq!(hashed(26), "xA");
    assert_eq!(hashed(59), "x7");
    assert_eq!(hashed(61), "x9");
    assert_eq!(hashed(62), "xa");
    assert_eq!(hashed(63), "xbb");
    assert_eq!(hashed(99), "xLL");
    assert_eq!(hashed(100), "x");
    assert_eq!(hashed(101), "xb");
    assert_eq!(hashed(2024), "xy");
    assert_eq!(hashed(4294967295), "xHH");
}

#[test]
fn year_numbers() {
    assert_eq!(year_component(2024), 24);
    assert_eq!(year_component(0), 0);
    assert_eq!(year_component(99), 99);
    assert_eq!(year_component(-1), 4294967295);
    assert_eq!(year_component(-100), 0);
    assert_eq!(year_component(-101), 4294967295);
    assert_eq!(year_component(i32::MIN), 4294967248);
}

#[test]
fn quick_save_names_are_reproducible() {
    let moment = Moment { year: 2024, month: 1, day: 2, hour: 3, minute: 4, second: 5 };
    assert_eq!(quick_save_name(&moment, false), "qs_ybcdef");
    assert_eq!(quick_save_name(&moment, true), "as_ybcdef");
    assert_eq!(quick_save_name(&moment, false), quick_save_name(&moment, false));
    let midnight = Moment { year: 2000, month: 12, day: 31, hour: 0, minute: 0, second: 0 };
    assert_eq!(quick_save_name(&midnight, false), "qs_mF");
    let late = Moment { year: 2063, month: 10, day: 26, hour: 23, minute: 59, second: 52 };
    assert_eq!(quick_save_name(&late, true), "as_bbkAx70");
    let before = Moment { year: -1, month: 1, day: 1, hour: 1, minute: 1, second: 1 };
    assert_eq!(quick_save_name(&before, false), "qs_HHbbbbb");
}

#[test]
fn auto_save_names_carry_the_tag() {
    assert!(is_auto_save_name("as_ybcdef"));
    assert!(is_auto_save_name("as_"));
    assert!(!is_auto_save_name("as"));
    assert!(!is_auto_save_name("qs_ybcdef"));
    assert!(!is_auto_save_name("xas_"));
    assert!(!is_auto_save_name("AS_x"));
    assert!(!is_auto_save_name(""));
}
