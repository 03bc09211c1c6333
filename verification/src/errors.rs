//! The ways a store operation can fail.

use vstd::prelude::*;

verus! {

/// Why a save or a load failed. Every failure is fatal to the call that
/// raised it; none leaves a partially written committed document behind.
#[derive(Clone, Copy, Debug, PartialEq, Eq, Structural)]
pub enum ErrorKind {
    /// The storage directory could not be created.
    DirectoryError,
    /// The document handed to a save is not valid JSON; nothing was written.
    InvalidInput,
    /// Writing the staging file failed.
    WriteError,
    /// The staging file, read back, did not hold the document that was
    /// written, or could not be read back at all.
    VerificationError,
    /// The atomic rename of the staging file onto the committed file failed.
    ReplaceError,
    /// The committed file exists but could not be read.
    ReadError,
}

impl ErrorKind {
    /// The human-readable description of this failure, as a caller at the
    /// outermost boundary reports it.
    pub open spec fn message_view(self) -> Seq<char> {
        match self {
            ErrorKind::DirectoryError => "Failed to create directory"@,
            ErrorKind::InvalidInput => "Invalid JSON data"@,
            ErrorKind::WriteError => "Failed to write temporary file"@,
            ErrorKind::VerificationError => "Data verification failed after write"@,
            ErrorKind::ReplaceError => "Failed to replace file"@,
            ErrorKind::ReadError => "Failed to read file"@,
        }
    }

    /// Renders the failure as its human-readable description.
    pub fn message(&self) -> (s: String)
        ensures
            s@ == self.message_view(),
    {
        match self {
            ErrorKind::DirectoryError => String::from_str("Failed to create directory"),
            ErrorKind::InvalidInput => String::from_str("Invalid JSON data"),
            ErrorKind::WriteError => String::from_str("Failed to write temporary file"),
            ErrorKind::VerificationError => String::from_str(
                "Data verification failed after write",
            ),
            ErrorKind::ReplaceError => String::from_str("Failed to replace file"),
            ErrorKind::ReadError => String::from_str("Failed to read file"),
        }
    }
}

} // verus!
