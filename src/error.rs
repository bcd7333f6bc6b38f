use vstd::prelude::*;

verus! {

/// The causes for which an operation on a shared memory file fails.
#[derive(Clone, Copy, Debug, PartialEq, Eq, Structural)]
pub enum MemFileError {
    /// The link path already names a file at creation time.
    AlreadyExists,
    /// The link file or the shared object is missing at open time.
    NotFound,
    /// A filesystem operation failed.
    IoFailure,
    /// Fewer bytes of the identifier than supplied reached the link file.
    PartialWrite,
    /// The link file is empty or does not hold valid UTF-8.
    Utf8Error,
    /// The platform could not reserve, map or describe the shared object.
    BackendError,
    /// The native lock reports an unrecoverable state.
    LockPoisoned,
    /// The requested type is larger than the data section.
    CastSizeMismatch,
    /// The mapping was made without a lock, so no guard can be taken.
    NoLock,
}

impl MemFileError {
    /// A short human-readable description of the error.
    pub fn message(&self) -> (r: &'static str) {
        match self {
            MemFileError::AlreadyExists => "the link file already exists",
            MemFileError::NotFound => "the link file or shared object does not exist",
            MemFileError::IoFailure => "a filesystem operation failed",
            MemFileError::PartialWrite => "the identifier was only partly written to the link file",
            MemFileError::Utf8Error => "the link file does not hold a valid identifier",
            MemFileError::BackendError => "the platform could not provide the shared mapping",
            MemFileError::LockPoisoned => "the shared lock is in an unrecoverable state",
            MemFileError::CastSizeMismatch => "the requested type does not fit in the shared data",
            MemFileError::NoLock => "the mapping has no lock",
        }
    }
}

} // verus!
