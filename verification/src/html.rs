use vstd::prelude::*;
use crate::error::JudgeError;
use crate::queries::test_case::GetByQuestionId;
use crate::status::StatusUpdate;

verus! {

/// The status the HTML judge writes: graded when the page could be rendered
/// and compared, else failed on test case 1.
pub fn html_status(diff_succeeded: bool) -> (res: StatusUpdate)
    ensures
        diff_succeeded ==> res == StatusUpdate::Graded,
        !diff_succeeded ==> (res matches StatusUpdate::Failed { error, failed_test_case }
            && error@ == "Failed to run the html"@ && failed_test_case == Some(1i32)),
{
    if diff_succeeded {
        StatusUpdate::Graded
    } else {
        StatusUpdate::Failed { error: "Failed to run the html", failed_test_case: Some(1) }
    }
}

/// The HTML judge's question has exactly one test case: it is taken, and any
/// other number of test cases is refused.
pub fn single_test_case(test_cases: Vec<GetByQuestionId>) -> (res: Result<GetByQuestionId, JudgeError>)
    ensures
        test_cases@.len() == 1 ==> res == Ok::<GetByQuestionId, JudgeError>(test_cases@[0]),
        test_cases@.len() != 1 ==> res == Err::<GetByQuestionId, JudgeError>(
            JudgeError::NotExactlyOneTestCase,
        ),
{
    if test_cases.len() != 1 {
        return Err(JudgeError::NotExactlyOneTestCase);
    }
    let mut test_cases = test_cases;
    match test_cases.pop() {
        Some(test_case) => Ok(test_case),
        None => Err(JudgeError::NotExactlyOneTestCase),
    }
}

} // verus!
