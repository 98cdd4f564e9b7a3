//! Errors with a chain of explanations.
//!
//! An error keeps what caused it, every explanation that was added on the
//! way up (the innermost first), and a flag that says whether the session
//! has to end.
use std::sync::PoisonError;
use vstd::prelude::*;
use vstd::std_specs::convert::FromSpecImpl;
use vstd::string::*;

verus! {

/// `std::io::Error`, carried as it is.
#[verifier::external_type_specification]
#[verifier::external_body]
pub struct ExIoError(std::io::Error);

/// `serde_json::Error`, carried as it is.
#[verifier::external_type_specification]
#[verifier::external_body]
pub struct ExJsonError(serde_json::Error);

/// `regex::Error`, carried as it is.
#[verifier::external_type_specification]
#[verifier::external_body]
pub struct ExRegexError(regex::Error);

/// `std::sync::PoisonError`, carried as it is.
#[verifier::external_type_specification]
#[verifier::external_body]
#[verifier::reject_recursive_types(T)]
pub struct ExPoisonError<T>(PoisonError<T>);

pub type NSComResult = Result<(), NSError>;

pub type NSResult<T> = Result<T, NSError>;

/// The kinds of cause. A failed lock keeps its message.
pub enum ErrorKind {
    General,
    Io,
    Serialize,
    Mutex(Seq<char>),
    Regex,
}

/// What an error says: explanations from the innermost out, the kind of its
/// cause, and whether it ends the session.
pub struct Chain {
    pub explanation: Seq<Seq<char>>,
    pub kind: ErrorKind,
    pub fatal: bool,
}

/// `chain` with one more explanation on the outside; `is_fatal` can raise the
/// flag and never lowers it.
pub open spec fn explained(chain: Chain, explanation: Seq<char>, is_fatal: bool) -> Chain {
    Chain {
        explanation: chain.explanation.push(explanation),
        kind: chain.kind,
        fatal: chain.fatal || is_fatal,
    }
}

/// The name under which a kind of cause is shown.
pub open spec fn kind_text(kind: ErrorKind) -> Seq<char> {
    match kind {
        ErrorKind::General => "GeneralError"@,
        ErrorKind::Io => "IoError"@,
        ErrorKind::Serialize => "SerializeError"@,
        ErrorKind::Mutex(message) => "MutexError("@ + message + ")"@,
        ErrorKind::Regex => "RegexError"@,
    }
}

#[derive(Debug)]
enum ErrorType {
    General,
    Io(std::io::Error),
    Serialize(serde_json::Error),
    Mutex(String),
    Regex(regex::Error),
}

#[derive(Debug)]
pub struct NSError {
    m_explanation: Vec<String>,
    m_err_type: ErrorType,
    m_isfatal: bool,
}

impl View for NSError {
    type V = Chain;

    closed spec fn view(&self) -> Chain {
        Chain {
            explanation: self.m_explanation@.map_values(|s: String| s@),
            kind: match self.m_err_type {
                ErrorType::General => ErrorKind::General,
                ErrorType::Io(_) => ErrorKind::Io,
                ErrorType::Serialize(_) => ErrorKind::Serialize,
                ErrorType::Mutex(message) => ErrorKind::Mutex(message@),
                ErrorType::Regex(_) => ErrorKind::Regex,
            },
            fatal: self.m_isfatal,
        }
    }
}

/// `PoisonError`'s `to_string`: the message of a lock that a failed thread
/// left behind. Nothing is claimed of the wording.
#[verifier::external_body]
fn poison_text<T>(value: &PoisonError<T>) -> (text: String) {
    value.to_string()
}

impl NSError {
    /// An error of the general kind with one explanation.
    pub fn new(explanation: &str) -> (e: Self)
        ensures
            e@ == (Chain {
                explanation: seq![explanation@],
                kind: ErrorKind::General,
                fatal: false,
            }),
    {
        let mut chain: Vec<String> = Vec::new();
        chain.push(String::from_str(explanation));
        assert(chain@.map_values(|s: String| s@) =~= seq![explanation@]);
        Self { m_explanation: chain, m_err_type: ErrorType::General, m_isfatal: false }
    }

    /// As `new`, and the session has to end.
    pub fn newfatal(explanation: &str) -> (e: Self)
        ensures
            e@ == (Chain {
                explanation: seq![explanation@],
                kind: ErrorKind::General,
                fatal: true,
            }),
    {
        let mut chain: Vec<String> = Vec::new();
        chain.push(String::from_str(explanation));
        assert(chain@.map_values(|s: String| s@) =~= seq![explanation@]);
        Self { m_explanation: chain, m_err_type: ErrorType::General, m_isfatal: true }
    }

    #[inline]
    pub fn fatal(&mut self)
        ensures
            final(self)@ == (Chain { fatal: true, ..old(self)@ }),
    {
        self.m_isfatal = true;
    }

    #[inline]
    pub fn is_fatal(&self) -> (fatal: bool)
        ensures
            fatal == self@.fatal,
    {
        self.m_isfatal
    }

    /// The explanations, the innermost first.
    #[inline]
    pub fn get_explanation(&self) -> (chain: &Vec<String>)
        ensures
            chain@.map_values(|s: String| s@) == self@.explanation,
    {
        &self.m_explanation
    }

    /// Adds an explanation on the outside. The flag is raised if `is_fatal`
    /// says so, and stays as it is otherwise.
    pub fn explained(self, explanation: &str, is_fatal: bool) -> (e: Self)
        ensures
            e@ == explained(self@, explanation@, is_fatal),
    {
        let mut e = self;
        e.m_explanation.push(String::from_str(explanation));
        if is_fatal {
            e.fatal();
        }
        assert(e.m_explanation@.map_values(|s: String| s@) =~= self.m_explanation@.map_values(
            |s: String| s@,
        ).push(explanation@));
        e
    }

    /// The name of the kind of cause, as it is shown to the user.
    pub fn describe(&self) -> (text: String)
        ensures
            text@ == kind_text(self@.kind),
    {
        match &self.m_err_type {
            ErrorType::General => String::from_str("GeneralError"),
            ErrorType::Io(_) => String::from_str("IoError"),
            ErrorType::Serialize(_) => String::from_str("SerializeError"),
            ErrorType::Mutex(message) => {
                let mut text = String::from_str("MutexError(");
                text.append(message.as_str());
                text.append(")");
                text
            },
            ErrorType::Regex(_) => String::from_str("RegexError"),
        }
    }

    /// The input/output error underneath, if that is the cause.
    pub fn io_source(&self) -> (source: Option<&std::io::Error>)
        ensures
            source is Some <==> self@.kind is Io,
    {
        match &self.m_err_type {
            ErrorType::Io(err) => Some(err),
            _ => None,
        }
    }

    /// The serialisation error underneath, if that is the cause.
    pub fn serialize_source(&self) -> (source: Option<&serde_json::Error>)
        ensures
            source is Some <==> self@.kind is Serialize,
    {
        match &self.m_err_type {
            ErrorType::Serialize(err) => Some(err),
            _ => None,
        }
    }

    /// The pattern error underneath, if that is the cause.
    pub fn regex_source(&self) -> (source: Option<&regex::Error>)
        ensures
            source is Some <==> self@.kind is Regex,
    {
        match &self.m_err_type {
            ErrorType::Regex(err) => Some(err),
            _ => None,
        }
    }
}

// -------------------------- `Result` expansion -----------------------------
#[inline]
pub fn throw<T>(explanation: &str) -> (r: NSResult<T>)
    ensures
        r matches Err(e) && e@ == (Chain {
            explanation: seq![explanation@],
            kind: ErrorKind::General,
            fatal: false,
        }),
{
    Err(NSError::new(explanation))
}

#[inline]
pub fn throwfatal<T>(explanation: &str) -> (r: NSResult<T>)
    ensures
        r matches Err(e) && e@ == (Chain {
            explanation: seq![explanation@],
            kind: ErrorKind::General,
            fatal: true,
        }),
{
    Err(NSError::newfatal(explanation))
}

/// A value that an error chain can start from.
pub trait Cause: Sized {
    /// The chain that the value starts.
    spec fn chain(self) -> Chain;

    fn into_error(self) -> (e: NSError)
        ensures
            e@ == self.chain(),
    ;
}

impl Cause for NSError {
    open spec fn chain(self) -> Chain {
        self@
    }

    fn into_error(self) -> (e: NSError) {
        self
    }
}

impl Cause for std::io::Error {
    open spec fn chain(self) -> Chain {
        Chain { explanation: Seq::empty(), kind: ErrorKind::Io, fatal: false }
    }

    fn into_error(self) -> (e: NSError) {
        NSError::from(self)
    }
}

impl Cause for serde_json::Error {
    open spec fn chain(self) -> Chain {
        Chain { explanation: Seq::empty(), kind: ErrorKind::Serialize, fatal: false }
    }

    fn into_error(self) -> (e: NSError) {
        NSError::from(self)
    }
}

impl Cause for regex::Error {
    open spec fn chain(self) -> Chain {
        Chain { explanation: Seq::empty(), kind: ErrorKind::Regex, fatal: true }
    }

    fn into_error(self) -> (e: NSError) {
        NSError::from(self)
    }
}

pub trait ResultExt<T> {
    /// What the call gives, for contracts.
    spec fn explained_as(self, explanation: Seq<char>, is_fatal: bool) -> Result<T, Chain>;

    fn explain_isfatal(self, explanation: &str, is_fatal: bool) -> (r: NSResult<T>)
        ensures
            match (r, self.explained_as(explanation@, is_fatal)) {
                (Ok(v), Ok(w)) => v == w,
                (Err(e), Err(c)) => e@ == c,
                _ => false,
            },
    ;

    fn explain(self, explanation: &str) -> (r: NSResult<T>)
        ensures
            match (r, self.explained_as(explanation@, false)) {
                (Ok(v), Ok(w)) => v == w,
                (Err(e), Err(c)) => e@ == c,
                _ => false,
            },
    ;

    fn explain_fatal(self, explanation: &str) -> (r: NSResult<T>)
        ensures
            match (r, self.explained_as(explanation@, true)) {
                (Ok(v), Ok(w)) => v == w,
                (Err(e), Err(c)) => e@ == c,
                _ => false,
            },
    ;
}

impl<T, E: Cause> ResultExt<T> for Result<T, E> {
    /// A value passes through; an error gets the explanation on the outside
    /// of its chain.
    open spec fn explained_as(self, explanation: Seq<char>, is_fatal: bool) -> Result<T, Chain> {
        match self {
            Ok(v) => Ok(v),
            Err(err) => Err(explained(err.chain(), explanation, is_fatal)),
        }
    }

    fn explain_isfatal(self, explanation: &str, is_fatal: bool) -> (r: NSResult<T>) {
        match self {
            Ok(v) => Ok(v),
            Err(err) => Err(err.into_error().explained(explanation, is_fatal)),
        }
    }

    #[inline]
    fn explain(self, explanation: &str) -> (r: NSResult<T>) {
        self.explain_isfatal(explanation, false)
    }

    #[inline]
    fn explain_fatal(self, explanation: &str) -> (r: NSResult<T>) {
        self.explain_isfatal(explanation, true)
    }
}

// ------------------- Type Convertion from other Error Types ----------------
impl From<std::io::Error> for NSError {
    fn from(value: std::io::Error) -> (e: Self)
        ensures
            e@ == value.chain(),
    {
        let chain: Vec<String> = Vec::new();
        assert(chain@.map_values(|s: String| s@) =~= Seq::<Seq<char>>::empty());
        NSError { m_explanation: chain, m_err_type: ErrorType::Io(value), m_isfatal: false }
    }
}

/// The conversion is stated on `from` itself, over the chain of the result.
impl FromSpecImpl<std::io::Error> for NSError {
    open spec fn obeys_from_spec() -> bool {
        false
    }

    open spec fn from_spec(value: std::io::Error) -> Self {
        arbitrary()
    }
}

impl From<serde_json::Error> for NSError {
    fn from(value: serde_json::Error) -> (e: Self)
        ensures
            e@ == value.chain(),
    {
        let chain: Vec<String> = Vec::new();
        assert(chain@.map_values(|s: String| s@) =~= Seq::<Seq<char>>::empty());
        NSError { m_explanation: chain, m_err_type: ErrorType::Serialize(value), m_isfatal: false }
    }
}

/// The conversion is stated on `from` itself, over the chain of the result.
impl FromSpecImpl<serde_json::Error> for NSError {
    open spec fn obeys_from_spec() -> bool {
        false
    }

    open spec fn from_spec(value: serde_json::Error) -> Self {
        arbitrary()
    }
}

impl<T> From<PoisonError<T>> for NSError {
    fn from(value: PoisonError<T>) -> (e: Self)
        ensures
            e@.explanation == Seq::<Seq<char>>::empty(),
            e@.kind is Mutex,
            e@.fatal,
    {
        let chain: Vec<String> = Vec::new();
        assert(chain@.map_values(|s: String| s@) =~= Seq::<Seq<char>>::empty());
        NSError { m_explanation: chain, m_err_type: ErrorType::Mutex(poison_text(&value)), m_isfatal: true }
    }
}

/// The conversion is stated on `from` itself, over the chain of the result.
impl<T> FromSpecImpl<PoisonError<T>> for NSError {
    open spec fn obeys_from_spec() -> bool {
        false
    }

    open spec fn from_spec(value: PoisonError<T>) -> Self {
        arbitrary()
    }
}

impl From<regex::Error> for NSError {
    fn from(value: regex::Error) -> (e: Self)
        ensures
            e@ == value.chain(),
    {
        let chain: Vec<String> = Vec::new();
        assert(chain@.map_values(|s: String| s@) =~= Seq::<Seq<char>>::empty());
        NSError { m_explanation: chain, m_err_type: ErrorType::Regex(value), m_isfatal: true }
    }
}

/// The conversion is stated on `from` itself, over the chain of the result.
impl FromSpecImpl<regex::Error> for NSError {
    open spec fn obeys_from_spec() -> bool {
        false
    }

    open spec fn from_spec(value: regex::Error) -> Self {
        arbitrary()
    }
}

} // verus!
