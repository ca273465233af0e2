use vstd::prelude::*;
use crate::error::JudgeError;

verus! {

/// A language the algorithm judge compiles and runs.
#[derive(Debug, Clone, Copy, PartialEq, Eq, Structural)]
pub enum Language {
    Cpp,
    Java,
    Python,
}

/// The language that a submission's language number stands for, if any.
pub open spec fn spec_language(raw: i16) -> Option<Language> {
    if raw == 0 {
        Some(Language::Cpp)
    } else if raw == 1 {
        Some(Language::Java)
    } else if raw == 2 {
        Some(Language::Python)
    } else {
        None
    }
}

/// Reads a submission's language number: 0 is C++, 1 is Java, 2 is Python;
/// any other number is refused.
pub fn get_language(language_raw: i16) -> (res: Result<Language, JudgeError>)
    ensures
        spec_language(language_raw) matches Some(l) ==> res == Ok::<Language, JudgeError>(l),
        spec_language(language_raw) is None ==> res == Err::<Language, JudgeError>(
            JudgeError::InvalidLanguage,
        ),
{
    match language_raw {
        0 => Ok(Language::Cpp),
        1 => Ok(Language::Java),
        2 => Ok(Language::Python),
        _ => Err(JudgeError::InvalidLanguage),
    }
}

} // verus!
