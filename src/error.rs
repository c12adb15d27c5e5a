use vstd::prelude::*;

verus! {

/// The errors of this library.
pub enum ApsError {
    /// A local I/O operation failed (the working directory could not be made).
    Io { message: String },
    /// The version-control layer reported a failure.
    GitError { message: String },
    /// An asset path does not exist inside a working copy.
    SourcePathNotFound { path: String },
}

impl ApsError {
    /// The human-readable message carried by the error.
    pub fn message(&self) -> (r: String)
        ensures
            r@ == self.message_spec(),
    {
        match self {
            ApsError::Io { message } => message.clone(),
            ApsError::GitError { message } => message.clone(),
            ApsError::SourcePathNotFound { path } => path.clone(),
        }
    }

    pub open spec fn message_spec(&self) -> Seq<char> {
        match self {
            ApsError::Io { message } => message@,
            ApsError::GitError { message } => message@,
            ApsError::SourcePathNotFound { path } => path@,
        }
    }
}

} // verus!
