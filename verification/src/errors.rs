//! The ways a run can go wrong, named so a caller can report them.

use vstd::prelude::*;

verus! {

/// Everything the tool can complain about: bad or missing arguments,
/// and the file-system failures the surrounding program runs into while
/// reading sources or writing scripts.
#[derive(Clone, Copy, PartialEq, Eq, Structural, Debug)]
pub enum HelpMessage {
    NotEnoughArgs,
    WrongArgOS,
    FileDoesNotExist,
    MissingFlagO,
    DirectoryDoesNotExist,
    FailedToGetFile,
    FailedToMakeFile,
    BufferFlushFailed,
    FailedToCreateDirectory,
    NoValueForFlagM,
    NoValueForFlagD,
    CannotCombineFlagsMF,
    NoDestinationSpecified,
    NoParentPath,
    FailedMakingDirs,
    FailedWorkingPath,
}

} // verus!
