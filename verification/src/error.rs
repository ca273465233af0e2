use vstd::prelude::*;

verus! {

/// Why judging a submission stopped before a status was written for it, or,
/// for a compilation error, after the status was written.
#[derive(Debug, Clone, Copy, PartialEq, Eq, Structural)]
pub enum JudgeError {
    /// The queued message is not a 16-byte submission id.
    InvalidSubmissionId,
    /// The submission's language number is not one the judge knows.
    InvalidLanguage,
    /// The submission did not compile.
    CompilationError,
    /// The question has no time limit.
    MissingTimeLimit,
    /// The question has no memory limit.
    MissingMemoryLimit,
    /// A test case has no input.
    MissingInput,
    /// A visible test case's captured output is not valid UTF-8.
    InvalidOutputEncoding,
    /// An event arrived that the current step does not wait for.
    UnexpectedEvent,
    /// An HTML question does not have exactly one test case.
    NotExactlyOneTestCase,
}

/// The text that describes each error.
pub open spec fn error_text(e: JudgeError) -> Seq<char> {
    match e {
        JudgeError::InvalidSubmissionId => "Invalid submission id"@,
        JudgeError::InvalidLanguage => "Invalid language"@,
        JudgeError::CompilationError => "Compilation error"@,
        JudgeError::MissingTimeLimit => "Time limit must be specified"@,
        JudgeError::MissingMemoryLimit => "Memory limit must be specified"@,
        JudgeError::MissingInput => "Input must be specified"@,
        JudgeError::InvalidOutputEncoding => "Output is not valid UTF-8"@,
        JudgeError::UnexpectedEvent => "Unexpected event"@,
        JudgeError::NotExactlyOneTestCase => "Expected exactly one test case"@,
    }
}

impl JudgeError {
    /// The text that describes this error.
    pub fn message(&self) -> (res: &'static str)
        ensures
            res@ == error_text(*self),
    {
        match self {
            JudgeError::InvalidSubmissionId => "Invalid submission id",
            JudgeError::InvalidLanguage => "Invalid language",
            JudgeError::CompilationError => "Compilation error",
            JudgeError::MissingTimeLimit => "Time limit must be specified",
            JudgeError::MissingMemoryLimit => "Memory limit must be specified",
            JudgeError::MissingInput => "Input must be specified",
            JudgeError::InvalidOutputEncoding => "Output is not valid UTF-8",
            JudgeError::UnexpectedEvent => "Unexpected event",
            JudgeError::NotExactlyOneTestCase => "Expected exactly one test case",
        }
    }
}

} // verus!
