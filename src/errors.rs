use vstd::prelude::*;

verus! {

/// Every failure category that the library reports.
#[derive(Debug, Clone, Copy, PartialEq, Eq, Structural)]
pub enum ErrorKind {
    /// A background task could not be joined.
    ThreadJoin,
    /// A bounded sequence would hold more elements than allowed.
    OutOfBounds,
    /// A file that should not exist already does.
    FileExists,
    /// A file that should exist does not.
    FileNonexistent,
    /// Any other failure.
    Unknown,
}

/// The fixed message of each failure category.
pub open spec fn message_of(kind: ErrorKind) -> Seq<char> {
    match kind {
        ErrorKind::ThreadJoin => "error occurred while attempting to join thread"@,
        ErrorKind::OutOfBounds => "too many elements in vec"@,
        ErrorKind::FileExists => "file already exists"@,
        ErrorKind::FileNonexistent => "file does not exist"@,
        ErrorKind::Unknown => "an unknown error occurred"@,
    }
}

impl ErrorKind {
    /// The human-readable message of this category.
    pub fn message(&self) -> (r: &'static str)
        ensures
            r@ == message_of(*self),
    {
        match self {
            ErrorKind::ThreadJoin => "error occurred while attempting to join thread",
            ErrorKind::OutOfBounds => "too many elements in vec",
            ErrorKind::FileExists => "file already exists",
            ErrorKind::FileNonexistent => "file does not exist",
            ErrorKind::Unknown => "an unknown error occurred",
        }
    }

    /// The message of this category as an owned string.
    pub fn to_string(&self) -> (r: String)
        ensures
            r@ == message_of(*self),
    {
        String::from_str(self.message())
    }
}

/// Error occurred while joining a background task.
#[derive(Debug, Clone, Copy, PartialEq, Eq, Structural)]
pub struct ThreadJoinError;

impl ThreadJoinError {
    /// The category of this error.
    pub fn kind(&self) -> (r: ErrorKind)
        ensures
            r == ErrorKind::ThreadJoin,
    {
        ErrorKind::ThreadJoin
    }

    /// The message of this error.
    pub fn to_string(&self) -> (r: String)
        ensures
            r@ == message_of(ErrorKind::ThreadJoin),
    {
        self.kind().to_string()
    }
}

/// Length out-of-bounds error: a bounded sequence is full.
#[derive(Debug, Clone, Copy, PartialEq, Eq, Structural)]
pub struct OOBError;

impl OOBError {
    /// The category of this error.
    pub fn kind(&self) -> (r: ErrorKind)
        ensures
            r == ErrorKind::OutOfBounds,
    {
        ErrorKind::OutOfBounds
    }

    /// The message of this error.
    pub fn to_string(&self) -> (r: String)
        ensures
            r@ == message_of(ErrorKind::OutOfBounds),
    {
        self.kind().to_string()
    }
}

/// Error about whether a file exists.
#[non_exhaustive]
#[derive(Debug, Clone, Copy, PartialEq, Eq, Structural)]
pub enum FileError {
    /// The file exists.
    Exists,
    /// The file does not exist.
    Nonexistent,
}

/// The category of a file error.
pub open spec fn file_error_kind(e: FileError) -> ErrorKind {
    match e {
        FileError::Exists => ErrorKind::FileExists,
        FileError::Nonexistent => ErrorKind::FileNonexistent,
    }
}

impl FileError {
    /// The category of this error.
    pub fn kind(&self) -> (r: ErrorKind)
        ensures
            r == file_error_kind(*self),
    {
        match self {
            FileError::Exists => ErrorKind::FileExists,
            FileError::Nonexistent => ErrorKind::FileNonexistent,
        }
    }

    /// The message of this error.
    pub fn to_string(&self) -> (r: String)
        ensures
            r@ == message_of(file_error_kind(*self)),
    {
        self.kind().to_string()
    }
}

/// An unknown error.
#[derive(Debug, Clone, Copy, PartialEq, Eq, Structural)]
pub struct UnknownError;

impl UnknownError {
    /// The category of this error.
    pub fn kind(&self) -> (r: ErrorKind)
        ensures
            r == ErrorKind::Unknown,
    {
        ErrorKind::Unknown
    }

    /// The message of this error.
    pub fn to_string(&self) -> (r: String)
        ensures
            r@ == message_of(ErrorKind::Unknown),
    {
        self.kind().to_string()
    }
}

/// Every category has a non-empty message, and no two categories share one.
pub proof fn lemma_messages_nonempty_and_distinct(a: ErrorKind, b: ErrorKind)
    ensures
        message_of(a).len() > 0,
        a != b ==> message_of(a) != message_of(b),
{
    reveal_strlit("error occurred while attempting to join thread");
    reveal_strlit("too many elements in vec");
    reveal_strlit("file already exists");
    reveal_strlit("file does not exist");
    reveal_strlit("an unknown error occurred");
    if a != b {
        if message_of(a) == message_of(b) {
            assert(message_of(a).len() == message_of(b).len());
            assert(message_of(a)[0] == message_of(b)[0]);
            assert(message_of(a)[5] == message_of(b)[5]);
        }
    }
}

} // verus!
