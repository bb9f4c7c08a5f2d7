use vstd::prelude::*;

verus! {

/// The failures a caller can see: the external binary could not be spawned
/// at all, or it ran and reported a failure of its own.
#[derive(Debug, Clone)]
pub enum TessError {
    /// The external binary was absent from the search path (or could not be
    /// spawned for a similar reason).  No subprocess ran.
    TesseractNotFoundError,
    /// The subprocess ran but exited with a nonzero status code, or was
    /// terminated abnormally.  The message carries the numeric code (or an
    /// abnormal-termination note) and the captured standard-error text.
    VersionError(String),
}

pub type TessResult<T> = Result<T, TessError>;

impl TessError {
    /// The diagnostic text of a process failure; empty for the
    /// binary-not-found kind, which carries no message.
    pub fn message(&self) -> (r: String)
        ensures
            match self {
                TessError::TesseractNotFoundError => r@ == Seq::<char>::empty(),
                TessError::VersionError(m) => r@ == m@,
            },
    {
        match self {
            TessError::TesseractNotFoundError => String::new(),
            TessError::VersionError(m) => m.clone(),
        }
    }
}

} // verus!
