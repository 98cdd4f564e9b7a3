//! Archive manager for the save data of one game: the record store, the
//! rules of every operation on it, and the naming and scheduling of
//! automatic saves.
pub mod clock;
pub mod cmdline_output;
pub mod command;
pub mod engine;
pub mod error;
pub mod file_layout;
pub mod laws;
pub mod locale;
pub mod machine;
pub mod naming;
pub mod output_manager;
pub mod protocol;
pub mod render;
pub mod save_infos;
pub mod scheduler;
pub mod text;

pub use engine::Core;
pub use error::{throw, throwfatal, NSComResult, NSError, NSResult, ResultExt};
pub use save_infos::{AllInfos, SingleSave};
