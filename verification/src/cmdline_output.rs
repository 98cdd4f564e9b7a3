//! What the console shows: how messages are marked, how a prompt reads,
//! and which answers count as a yes.
use vstd::prelude::*;
use vstd::string::*;
use crate::output_manager::Severity;
use crate::text::same_text;

verus! {

/// A text in lower case, as `str::to_lowercase` gives it.
pub uninterp spec fn lowercase(text: Seq<char>) -> Seq<char>;

/// `str::to_lowercase`, which std documents as the lowercase equivalent of
/// the string by the Unicode property Lowercase. The contract gives the
/// result its name.
pub assume_specification[ str::to_lowercase ](s: &str) -> (lowered: String)
    ensures
        lowered@ == lowercase(s@),
;

/// Whether an answer in lower case is a yes.
pub open spec fn is_yes(lowered: Seq<char>) -> bool {
    lowered == "yes"@ || lowered == "y"@
}

/// The front end on a terminal.
#[derive(Debug)]
pub struct CmdlineOutput {}

impl CmdlineOutput {
    /// A fatal error as it is shown.
    pub fn fatal_text(&self, msg: &str) -> (text: String)
        ensures
            text@ == "[FATAL] "@ + msg@,
    {
        let mut text = String::from_str("[FATAL] ");
        text.append(msg);
        text
    }

    /// A warning as it is shown.
    pub fn warning_text(&self, msg: &str) -> (text: String)
        ensures
            text@ == "[WARNING] "@ + msg@,
    {
        let mut text = String::from_str("[WARNING] ");
        text.append(msg);
        text
    }

    /// A debug message as it is shown.
    pub fn debug_text(&self, msg: &str) -> (text: String)
        ensures
            text@ == "[DEBUG] "@ + msg@,
    {
        let mut text = String::from_str("[DEBUG] ");
        text.append(msg);
        text
    }

    /// What is shown after a command went well: `word`, the word for
    /// success in the user's language, on a line of its own.
    pub fn succeed(&self, word: &str) -> (line: (Severity, String))
        ensures
            line.0 == Severity::Success,
            line.1@ == word@ + "\n"@,
    {
        let mut text = String::from_str(word);
        text.append("\n");
        (Severity::Success, text)
    }

    /// What is shown after a command was called off: `word`, the word for
    /// that in the user's language, on a line of its own.
    pub fn cancel(&self, word: &str) -> (line: (Severity, String))
        ensures
            line.0 == Severity::Info,
            line.1@ == word@ + "\n"@,
    {
        let mut text = String::from_str(word);
        text.append("\n");
        (Severity::Info, text)
    }

    /// The prompt for a line of input: the message and a colon.
    pub fn input(&self, msg: String) -> (prompt: String)
        ensures
            prompt@ == msg@.push(':'),
    {
        let mut prompt = msg;
        prompt.push(':');
        prompt
    }

    /// The prompt for a yes or a no: `word` is the word for confirming in
    /// the user's language.
    pub fn confirm_prompt(&self, word: &str) -> (prompt: String)
        ensures
            prompt@ == "\n"@ + word@ + "(y/n):"@,
    {
        let mut prompt = String::from_str("\n");
        prompt.append(word);
        prompt.append("(y/n):");
        prompt
    }

    /// Whether an answer that was put into lower case is a yes.
    pub fn means_yes(&self, lowered: &str) -> (yes: bool)
        ensures
            yes == is_yes(lowered@),
    {
        same_text(lowered, "yes") || same_text(lowered, "y")
    }

    /// Whether `line` is a yes: `yes` or `y`, in capitals or not.
    pub fn confirm(&self, line: &str) -> (yes: bool)
        ensures
            yes == is_yes(lowercase(line@)),
    {
        let lowered = line.to_lowercase();
        self.means_yes(lowered.as_str())
    }
}

} // verus!
