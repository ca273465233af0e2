use vstd::prelude::*;

verus! {

/// The status written into a submission once it is judged.
#[derive(Debug, Clone, Copy, PartialEq, Eq)]
pub enum StatusUpdate {
    /// The submission earns the question's score (in the HTML judge, scaled
    /// by how closely the rendered page matches), with no error.
    Graded,
    /// The submission earns nothing; `error` says why and
    /// `failed_test_case` names the test case that failed, if any.
    Failed { error: &'static str, failed_test_case: Option<i32> },
}

/// The columns a status fills: whether the submission earns the question's
/// score (otherwise its score is zero), the error text, and the failed test case.
pub open spec fn spec_status_columns(status: StatusUpdate) -> (bool, Option<&'static str>, Option<i32>) {
    match status {
        StatusUpdate::Graded => (true, None, None),
        StatusUpdate::Failed { error, failed_test_case } => (false, Some(error), failed_test_case),
    }
}

/// The columns a status fills: whether the submission earns the question's
/// score (otherwise zero), the error text, and the failed test case.
pub fn status_columns(status: &StatusUpdate) -> (res: (bool, Option<&'static str>, Option<i32>))
    ensures
        res == spec_status_columns(*status),
        *status == StatusUpdate::Graded ==> res == (true, None::<&'static str>, None::<i32>),
        *status matches StatusUpdate::Failed { error, failed_test_case } ==> res == (
            false,
            Some(error),
            failed_test_case,
        ),
{
    match status {
        StatusUpdate::Graded => (true, None, None),
        StatusUpdate::Failed { error, failed_test_case } => (false, Some(*error), *failed_test_case),
    }
}

/// The columns of a failed status carry its own error text and its own
/// failed test case, whichever they are, and earn nothing; a graded status
/// earns the score with neither an error nor a failed test case.
pub proof fn lemma_status_columns_carry_the_status(error: &'static str, failed_test_case: Option<i32>)
    ensures
        !spec_status_columns(StatusUpdate::Failed { error, failed_test_case }).0,
        spec_status_columns(StatusUpdate::Failed { error, failed_test_case }).1 == Some(error),
        spec_status_columns(StatusUpdate::Failed { error, failed_test_case }).2 == failed_test_case,
        spec_status_columns(StatusUpdate::Graded) == (true, None::<&'static str>, None::<i32>),
{
}

/// A status without an error earns the question's score and names no failed
/// test case; a status with an error earns nothing.
pub proof fn lemma_error_iff_no_score(status: StatusUpdate)
    ensures
        spec_status_columns(status).1 is None <==> spec_status_columns(status).0,
        spec_status_columns(status).1 is None ==> spec_status_columns(status).2 is None,
{
}

} // verus!
