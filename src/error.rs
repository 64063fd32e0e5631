use vstd::prelude::*;
use vstd::string::StringExecFns;

verus! {

/// A failure of one preparer, tagged with the preparer that produced it.
#[derive(Debug, Clone, PartialEq, Eq)]
pub struct PrepareError {
    pub preparer: String,
    pub cause: String,
}

impl PrepareError {
    /// Wraps `cause` with the identity of the preparer that failed.
    pub fn new(preparer: String, cause: String) -> (r: Self)
        ensures
            r.preparer == preparer,
            r.cause == cause,
    {
        PrepareError { preparer, cause }
    }

    /// The report of this failure: `<preparer> failed: <cause>`.
    pub fn message(&self) -> (r: String)
        ensures
            r@ == self.preparer@ + " failed: "@ + self.cause@,
    {
        self.preparer.clone().concat(" failed: ").concat(self.cause.as_str())
    }
}

/// Tags what one preparer reported with the preparer's identity, so that its
/// failure can be told apart from every other step's.
pub fn tag_outcome<T>(preparer: String, outcome: Result<T, String>) -> (r: Result<T, PrepareError>)
    ensures
        match outcome {
            Ok(v) => r == Ok::<T, PrepareError>(v),
            Err(c) => r == Err::<T, PrepareError>(PrepareError { preparer, cause: c }),
        },
{
    match outcome {
        Ok(v) => Ok(v),
        Err(c) => Err(PrepareError::new(preparer, c)),
    }
}

/// Why a server did not start, one variant per phase.
#[derive(Debug, Clone, PartialEq, Eq)]
pub enum StartError {
    /// The logger could not be initialised; no preparer ran.
    LoggerInit(String),
    /// One preparer, or one member of a concurrent set, failed.
    Prepare(PrepareError),
    /// The finished server could not bind or start.
    Launch(String),
}

impl StartError {
    /// The report of this error, naming the phase that failed.
    pub fn message(&self) -> (r: String)
        ensures
            r@ == match self {
                StartError::LoggerInit(m) => "logger initialisation failed: "@ + m@,
                StartError::Prepare(e) => e.preparer@ + " failed: "@ + e.cause@,
                StartError::Launch(m) => "launch failed: "@ + m@,
            },
    {
        match self {
            StartError::LoggerInit(m) => String::from_str("logger initialisation failed: ").concat(m.as_str()),
            StartError::Prepare(e) => e.message(),
            StartError::Launch(m) => String::from_str("launch failed: ").concat(m.as_str()),
        }
    }
}

} // verus!
