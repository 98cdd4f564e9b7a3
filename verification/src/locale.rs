//! The language in which the program speaks.
use vstd::prelude::*;
use crate::text::same_text;

verus! {

/// The language that is used for a locale of the system: one of `zh-CN`,
/// `zh-TW`, `en-GB`, `ja-JP` and, for everything else, `en-US`.
pub open spec fn language_for(local: Seq<char>) -> Seq<char> {
    if local == "zh-CN"@ || local == "zh-SG"@ || local == "zh-Hans"@ {
        "zh-CN"@
    } else if local == "zh-TW"@ || local == "zh-HK"@ || local == "zh-MO"@ || local == "zh-Hant"@ {
        "zh-TW"@
    } else if local == "en-GB"@ || local == "en-AU"@ || local == "en-NZ"@ || local == "en-IN"@
        || local == "en-ZA"@ || local == "en-HK"@ || local == "en-SG"@ || local == "en-IE"@
        || local == "en-PK"@ || local == "en-MT"@ || local == "en-MY"@ || local == "en-NG"@ {
        "en-GB"@
    } else if local == "ja-JP"@ {
        "ja-JP"@
    } else {
        "en-US"@
    }
}

/// The language for what the system reports, if it reports anything.
pub open spec fn language_of(found: Option<Seq<char>>) -> Seq<char> {
    match found {
        Some(local) => language_for(local),
        None => "en-US"@,
    }
}

/// The language that is used for the locale `local`.
pub fn map_language(local: &str) -> (language: &'static str)
    ensures
        language@ == language_for(local@),
{
    if same_text(local, "zh-CN") || same_text(local, "zh-SG") || same_text(local, "zh-Hans") {
        "zh-CN"
    } else if same_text(local, "zh-TW") || same_text(local, "zh-HK") || same_text(local, "zh-MO")
        || same_text(local, "zh-Hant") {
        "zh-TW"
    } else if same_text(local, "en-GB") || same_text(local, "en-AU") || same_text(local, "en-NZ")
        || same_text(local, "en-IN") || same_text(local, "en-ZA") || same_text(local, "en-HK")
        || same_text(local, "en-SG") || same_text(local, "en-IE") || same_text(local, "en-PK")
        || same_text(local, "en-MT") || same_text(local, "en-MY") || same_text(local, "en-NG") {
        "en-GB"
    } else if same_text(local, "ja-JP") {
        "ja-JP"
    } else {
        "en-US"
    }
}

/// The language for what the system reports: `en-US` if it reports nothing.
pub fn choose_language(found: &Option<String>) -> (language: &'static str)
    ensures
        language@ == language_of(
            match *found {
                Some(local) => Some(local@),
                None => None,
            },
        ),
{
    match found {
        Some(local) => map_language(local.as_str()),
        None => "en-US",
    }
}

/// `sys_locale::get_locale`: the locale that the system reports, if it
/// reports one. It depends on the machine, so nothing is claimed of it.
#[verifier::external_body]
fn system_locale() -> (found: Option<String>) {
    sys_locale::get_locale()
}

/// The language for the locale of this machine.
pub fn detect_language() -> (language: &'static str)
    ensures
        exists|found: Option<Seq<char>>| language@ == #[trigger] language_of(found),
{
    let found = system_locale();
    let language = choose_language(&found);
    assert(language@ == language_of(
        match found {
            Some(local) => Some(local@),
            None => None,
        },
    ));
    language
}

} // verus!
