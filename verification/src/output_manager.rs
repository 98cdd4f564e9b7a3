//! The sink for what the user is told and asked.
use vstd::prelude::*;
use crate::error::NSResult;
use crate::protocol::Reply;

verus! {

/// How much a message weighs.
#[derive(Debug, Clone, Copy, PartialEq, Eq, Structural)]
pub enum Severity {
    Fatal,
    Warning,
    Info,
    Success,
    Debug,
}

impl Severity {
    /// The grade under which a window shows the message: 1 for fatal up to
    /// 5 for debug.
    pub open spec fn spec_grade(self) -> u32 {
        match self {
            Severity::Fatal => 1,
            Severity::Warning => 2,
            Severity::Info => 3,
            Severity::Success => 4,
            Severity::Debug => 5,
        }
    }

    #[verifier::when_used_as_spec(spec_grade)]
    pub fn grade(self) -> (grade: u32)
        ensures
            grade == self.spec_grade(),
    {
        match self {
            Severity::Fatal => 1,
            Severity::Warning => 2,
            Severity::Info => 3,
            Severity::Success => 4,
            Severity::Debug => 5,
        }
    }
}

/// What a front end offers: five ways to tell, one to read a line, one to
/// ask for a yes or a no. Nothing is promised of an implementation.
pub trait OutputManager {
    fn fatal_error(&self, msg: String);

    fn warning(&self, msg: String);

    fn log(&self, msg: String);

    fn log_green(&self, msg: String);

    fn debug(&self, msg: String);

    fn getline(&self, input_msg: String) -> NSResult<String>;

    fn confirm(&self, msg: String) -> NSResult<bool>;
}

/// Tells `message` through the way that `severity` calls for.
pub fn report<Opm: OutputManager>(opm: &Opm, severity: Severity, message: String) {
    match severity {
        Severity::Fatal => opm.fatal_error(message),
        Severity::Warning => opm.warning(message),
        Severity::Info => opm.log(message),
        Severity::Success => opm.log_green(message),
        Severity::Debug => opm.debug(message),
    }
}

/// The reply that an answer stands for: yes, no, or the failure to ask.
pub open spec fn reply_of(answer: NSResult<bool>) -> Reply {
    match answer {
        Ok(true) => Reply::Yes,
        Ok(false) => Reply::No,
        Err(error) => Reply::Failed(error),
    }
}

/// Turns the answer to a question into the reply for the engine.
pub fn answer_to_reply(answer: NSResult<bool>) -> (reply: Reply)
    ensures
        reply == reply_of(answer),
{
    match answer {
        Ok(true) => Reply::Yes,
        Ok(false) => Reply::No,
        Err(error) => Reply::Failed(error),
    }
}

/// Asks through `opm` and hands the answer on as a reply: the reply stands
/// for what `confirm` of this front end answered when it was given this
/// very message. What the answer is lies with the front end.
pub fn ask<Opm: OutputManager>(opm: &Opm, message: String) -> (reply: Reply)
    ensures
        exists|answer: NSResult<bool>|
            call_ensures(Opm::confirm, (opm, message), answer) && reply == #[trigger] reply_of(
                answer,
            ),
        !(reply is Done),
{
    let answer = opm.confirm(message);
    assert(call_ensures(Opm::confirm, (opm, message), answer));
    answer_to_reply(answer)
}

/// The reply for an action that has no answer: done, or the failure.
pub fn outcome_to_reply(outcome: NSResult<()>) -> (reply: Reply)
    ensures
        reply == match outcome {
            Ok(_) => Reply::Done,
            Err(error) => Reply::Failed(error),
        },
{
    match outcome {
        Ok(_) => Reply::Done,
        Err(error) => Reply::Failed(error),
    }
}

/// A message on its way to a window.
#[derive(Debug)]
pub struct OutputPayload {
    pub log_grade: u32,
    pub message: String,
}

impl OutputPayload {
    pub fn new(grade: u32, msg: String) -> (payload: Self)
        ensures
            payload.log_grade == grade,
            payload.message == msg,
    {
        Self { log_grade: grade, message: msg }
    }
}

impl Clone for OutputPayload {
    fn clone(&self) -> (copy: Self)
        ensures
            copy == *self,
    {
        Self { log_grade: self.log_grade, message: self.message.clone() }
    }
}

/// The front end with a window: every message becomes a payload.
#[derive(Debug)]
pub struct GuiOutput {}

impl GuiOutput {
    /// The payload for `msg`, graded by its severity.
    pub fn payload(&self, severity: Severity, msg: String) -> (payload: OutputPayload)
        ensures
            payload.log_grade == severity.grade(),
            payload.message == msg,
    {
        OutputPayload::new(severity.grade(), msg)
    }
}

} // verus!
