use vstd::prelude::*;

use crate::ffi::{NulError, Utf8Error};

verus! {

/// What can go wrong in the utilities interface.
#[derive(Clone, Copy, Debug, PartialEq, Eq, Structural)]
pub enum UtilitiesError {
    /// The system path that the host gave is not UTF-8.
    InvalidSystemPath(Utf8Error),
    /// The preferences path that the host gave is not UTF-8.
    InvalidPrefsPath(Utf8Error),
    /// The directory separator that the host gave is not UTF-8.
    InvalidDirectorySeparator(Utf8Error),
    /// The directory separator that the host gave is empty.
    EmptyDirectorySeparator,
    /// The path of a data file holds a NUL byte.
    InvalidDataFilePath(NulError),
    /// The host could not load the data file.
    LoadDataFile,
    /// The host could not clear the replay.
    ClearReplay,
    /// The host could not save the data file.
    SaveDataFile,
    /// The host reported an application that is not known.
    UnknownHostApplicationId(i32),
    /// The host reported a language that is not known.
    UnknownLanguageCode(i32),
    /// The host delivered a key that is not known.
    InvalidVirtualKey(i8),
    /// The description that the host gave for a key is not UTF-8.
    InvalidVirtualKeyDescription(Utf8Error),
    /// The host answered with no command.
    InvalidCommand,
    /// The name of a command holds a NUL byte.
    InvalidCommandName(NulError),
    /// The description of a command holds a NUL byte.
    InvalidCommandDescription(NulError),
}

} // verus!
