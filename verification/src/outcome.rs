//! From what the host said of a file to what became of reading it.

use vstd::prelude::*;

verus! {

/// What became of reading the file that a `FileRequest` names.
#[derive(Clone, Debug)]
pub enum FileOutcome {
    /// A regular file is there, and these are its bytes.
    Contents(Vec<u8>),
    /// Nothing is there, or what is there is not a regular file.
    Missing,
    /// A file is there, but it could not be read.
    Unreadable,
}

/// Why the host could not probe or read a location.
#[derive(Clone, Copy, Debug, PartialEq, Eq, Structural)]
pub enum ReadFailure {
    /// There is no entry of that name.
    NotFound,
    /// A name on the way to the file is not that of a directory.
    NotADirectory,
    /// The host cannot hold an entry of such a name: it holds a character
    /// that the host does not take, or is too long.
    InvalidName,
    /// Permission was denied.
    PermissionDenied,
    /// Any other failure.
    Other,
}

/// What the host said when it was asked what is at a location.
#[derive(Clone, Copy, Debug, PartialEq, Eq, Structural)]
pub enum Probe {
    /// A regular file.
    RegularFile,
    /// A directory, or anything else that is no regular file.
    OtherEntry,
    /// The host could not say.
    Failed(ReadFailure),
}

impl ReadFailure {
    /// What a failure says of the file: where no such file can be there, it
    /// is missing; in every other case it is there and cannot be read.
    pub open spec fn outcome_view(self) -> FileOutcome {
        match self {
            ReadFailure::NotFound => FileOutcome::Missing,
            ReadFailure::NotADirectory => FileOutcome::Missing,
            ReadFailure::InvalidName => FileOutcome::Missing,
            ReadFailure::PermissionDenied => FileOutcome::Unreadable,
            ReadFailure::Other => FileOutcome::Unreadable,
        }
    }

    /// What a failure says of the file.
    pub fn outcome(self) -> (o: FileOutcome)
        ensures
            o == self.outcome_view(),
    {
        match self {
            ReadFailure::NotFound => FileOutcome::Missing,
            ReadFailure::NotADirectory => FileOutcome::Missing,
            ReadFailure::InvalidName => FileOutcome::Missing,
            ReadFailure::PermissionDenied => FileOutcome::Unreadable,
            ReadFailure::Other => FileOutcome::Unreadable,
        }
    }
}

/// What is known of the file once its location was probed: `None` for a
/// regular file, which is to be read; missing for any other entry; for a
/// failure, what the failure says.
pub open spec fn probed_view(probe: Probe) -> Option<FileOutcome> {
    match probe {
        Probe::RegularFile => None,
        Probe::OtherEntry => Some(FileOutcome::Missing),
        Probe::Failed(failure) => Some(failure.outcome_view()),
    }
}

/// What became of reading a regular file: its bytes, or what the failure
/// says.
pub open spec fn read_view(read: Result<Vec<u8>, ReadFailure>) -> FileOutcome {
    match read {
        Ok(bytes) => FileOutcome::Contents(bytes),
        Err(failure) => failure.outcome_view(),
    }
}

/// What became of the file, given what the host said of its location and,
/// for a regular file, what reading it gave.
pub open spec fn outcome_view(probe: Probe, read: Result<Vec<u8>, ReadFailure>) -> FileOutcome {
    match probed_view(probe) {
        Some(outcome) => outcome,
        None => read_view(read),
    }
}

/// What is known of the file once its location was probed. `None` says that
/// a regular file is there and is to be read; `read_outcome` then says what
/// became of it.
pub fn probed(probe: Probe) -> (known: Option<FileOutcome>)
    ensures
        known == probed_view(probe),
{
    match probe {
        Probe::RegularFile => None,
        Probe::OtherEntry => Some(FileOutcome::Missing),
        Probe::Failed(failure) => Some(failure.outcome()),
    }
}

/// What became of reading a regular file.
pub fn read_outcome(read: Result<Vec<u8>, ReadFailure>) -> (o: FileOutcome)
    ensures
        o == read_view(read),
{
    match read {
        Ok(bytes) => FileOutcome::Contents(bytes),
        Err(failure) => failure.outcome(),
    }
}

/// What became of the file, given what the host said of its location and what
/// reading it gave. What reading gave plays no part unless a regular file is
/// there.
pub fn outcome_of(probe: Probe, read: Result<Vec<u8>, ReadFailure>) -> (o: FileOutcome)
    ensures
        o == outcome_view(probe, read),
{
    match probed(probe) {
        Some(outcome) => outcome,
        None => read_outcome(read),
    }
}

} // verus!
