//! Where things are kept: the folder of the archives, the document in it,
//! and the game's own save data below the user's home.
use std::path::PathBuf;
use vstd::prelude::*;
use crate::error::{NSError, NSResult};

verus! {

/// `std::path::PathBuf`, carried as it is.
#[verifier::external_type_specification]
#[verifier::external_body]
pub struct ExPathBuf(PathBuf);

/// The folder that holds one folder for each record, next to the program.
pub const SAVE_FOLDER_PATH: &'static str = ".\\Saves\\";

/// The document with the configured path and the records.
pub const SAVE_INFO_PATH: &'static str = ".\\Saves\\infos.json";

/// The game's save data, from the user's home.
pub const NOITA_SAVE_PATH_POSTFIX: &'static str = "Appdata\\LocalLow\\Nolla_Games_Noita\\save00";

/// The name of the game's executable.
pub const NOITA_EXE_NAME: &'static str = "noita.exe";

/// The document of a store without a path and without records.
pub const EMPTY_DOCUMENT: &'static str = "{ \"noita_exe_path\":\"\", \"saves\":[]}";

/// Whether the document has to be written before it is read: a file of
/// length zero is new.
pub fn needs_first_document(file_length: u64) -> (needed: bool)
    ensures
        needed == (file_length == 0),
{
    file_length == 0
}

/// `directories::BaseDirs::new` and `BaseDirs::home_dir`: the user's home,
/// if the system tells it. It depends on the machine, so nothing is claimed
/// of it.
#[verifier::external_body]
fn home_dir() -> (home: Option<PathBuf>) {
    directories::BaseDirs::new().map(|dirs| dirs.home_dir().to_path_buf())
}

/// `Path::join`: `rest` below `base`. How the two are joined depends on
/// the system, so nothing is claimed of the result.
#[verifier::external_body]
fn join_path(base: &PathBuf, rest: &str) -> (joined: PathBuf) {
    base.join(rest)
}

/// `Path::ends_with`: whether the last parts of `path` are `tail`. What
/// counts as a part depends on the system, so nothing is claimed of the
/// result.
#[verifier::external_body]
pub(crate) fn path_ends_with(path: &str, tail: &str) -> (r: bool) {
    std::path::Path::new(path).ends_with(tail)
}

/// The game's save data below `home`; without a home, a fatal error that
/// says `explanation`.
pub fn save_path_below(home: Option<PathBuf>, explanation: &str) -> (r: NSResult<PathBuf>)
    ensures
        r is Ok <==> home is Some,
        r matches Err(e) ==> e@ == (crate::error::Chain {
            explanation: seq![explanation@],
            kind: crate::error::ErrorKind::General,
            fatal: true,
        }),
{
    match home {
        Some(home) => Ok(join_path(&home, NOITA_SAVE_PATH_POSTFIX)),
        None => Err(NSError::newfatal(explanation)),
    }
}

/// Where the game keeps its save data on this machine. Without a home the
/// error is fatal and says `explanation`.
pub fn get_noita_save_path(explanation: &str) -> (r: NSResult<PathBuf>)
    ensures
        r matches Err(e) ==> e@ == (crate::error::Chain {
            explanation: seq![explanation@],
            kind: crate::error::ErrorKind::General,
            fatal: true,
        }),
{
    save_path_below(home_dir(), explanation)
}

/// Whether `path` leads to the game's executable, going by its name.
pub fn names_game(path: &str) -> (r: bool) {
    path_ends_with(path, NOITA_EXE_NAME)
}

} // verus!
