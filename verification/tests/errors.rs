use noita_save_manager::error::{throw, throwfatal, Cause, NSError, NSResult, ResultExt};

fn io_error() -> std::io::Error {
    std::io::Error::new(std::io::ErrorKind::NotFound, "missing")
}

#[test]
fn new_errors() {
    let e = NSError::new("why");
    assert_eq!(e.get_explanation(), &vec!["why".to_string()]);
    assert!(!e.is_fatal());
    assert_eq!(e.describe(), "GeneralError");
    let f = NSError::newfatal("why");
    assert_eq!(f.get_explanation(), &vec!["why".to_string()]);
    assert!(f.is_fatal());
}

#[test]
fn fatal_flag_is_raised_and_stays() {
    let mut e = NSError::new("why");
    e.fatal();
    assert!(e.is_fatal());
    let e = e.explained("outer", false);
    assert!(e.is_fatal());
    assert_eq!(e.get_explanation(), &vec!["why".to_string(), "outer".to_string()]);
}

#[test]
fn throw_and_throwfatal() {
    let r: NSResult<u8> = throw("a");
    let e = r.unwrap_err();
    assert!(!e.is_fatal());
    assert_eq!(e.get_explanation(), &vec!["a".to_string()]);
    let r: NSResult<u8> = throwfatal("b");
    let e = r.unwrap_err();
    assert!(e.is_fatal());
    assert_eq!(e.get_explanation(), &vec!["b".to_string()]);
}

#[test]
fn explain_adds_on_the_outside() {
    let r: Result<u8, std::io::Error> = Err(io_error());
    let e = r.explain("reading").unwrap_err();
    assert_eq!(e.get_explanation(), &vec!["reading".to_string()]);
    assert!(!e.is_fatal());
    assert_eq!(e.describe(), "IoError");
    assert!(e.io_source().is_some());
    assert!(e.regex_source().is_none());
    let r: NSResult<u8> = Err(e);
    let e = r.explain_fatal("starting").unwrap_err();
    assert_eq!(e.get_explanation(), &vec!["reading".to_string(), "starting".to_string()]);
    assert!(e.is_fatal());
    let r: NSResult<u8> = Err(e);
    let e = r.explain_isfatal("outermost", false).unwrap_err();
    assert!(e.is_fatal());
    assert_eq!(e.get_explanation().len(), 3);
}

#[test]
fn explain_lets_values_pass() {
    let r: Result<u8, std::io::Error> = Ok(7);
    assert_eq!(r.explain("x").unwrap(), 7);
    let r: NSResult<u8> = Ok(8);
    assert_eq!(r.explain_fatal("x").unwrap(), 8);
}

#[test]
fn conversions() {
    let e = NSError::from(io_error());
    assert!(e.get_explanation().is_empty());
    assert!(!e.is_fatal());
    assert_eq!(e.describe(), "IoError");

    let bad: Result<u8, serde_json::Error> = serde_json::from_str("{");
    let e = NSError::from(bad.unwrap_err());
    assert!(!e.is_fatal());
    assert_eq!(e.describe(), "SerializeError");
    assert!(e.serialize_source().is_some());

    let e = NSError::from(regex::Regex::new("(").unwrap_err());
    assert!(e.is_fatal());
    assert_eq!(e.describe(), "RegexError");
    assert!(e.regex_source().is_some());

    let e = NSError::from(std::sync::PoisonError::new(0u8));
    assert!(e.is_fatal());
    assert!(e.describe().starts_with("MutexError("));
    assert!(e.describe().ends_with(")"));
    assert!(e.describe().len() > "MutexError()".len());

    let e = io_error().into_error();
    assert_eq!(e.describe(), "IoError");
    let e = NSError::new("x").into_error();
    assert_eq!(e.get_explanation(), &vec!["x".to_string()]);
}
