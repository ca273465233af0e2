use vstd::prelude::*;
use crate::queries::client::Stmt;

verus! {

/// A submission as the judge reads it: the question it answers, its language
/// number and its source code.
#[derive(Debug, Clone, PartialEq)]
pub struct GetSubmission {
    pub question_id: uuid::Uuid,
    pub language: i16,
    pub code: String,
}

/// A submission row as borrowed from the database driver.
pub struct GetSubmissionBorrowed<'a> {
    pub question_id: uuid::Uuid,
    pub language: i16,
    pub code: &'a str,
}

impl<'a> From<GetSubmissionBorrowed<'a>> for GetSubmission {
    /// Copies a borrowed row into an owned one, field by field.
    fn from(borrowed: GetSubmissionBorrowed<'a>) -> (res: Self)
        ensures
            res.question_id == borrowed.question_id,
            res.language == borrowed.language,
            res.code@ == borrowed.code@,
    {
        GetSubmission {
            question_id: borrowed.question_id,
            language: borrowed.language,
            code: borrowed.code.to_owned(),
        }
    }
}

impl<'a> vstd::std_specs::convert::FromSpecImpl<GetSubmissionBorrowed<'a>> for GetSubmission {
    /// Owned strings are not determined by their contents alone, so no single
    /// value is claimed for a conversion; `from` states the fields instead.
    open spec fn obeys_from_spec() -> bool {
        false
    }

    open spec fn from_spec(v: GetSubmissionBorrowed<'a>) -> GetSubmission {
        choose|r: GetSubmission|
            r.question_id == v.question_id && r.language == v.language && r.code@ == v.code@
    }
}

/// Prepares the query that reads a submission's question, language and code.
pub fn get_submission() -> (res: GetSubmissionStmt)
    ensures
        res.0.query@ == "SELECT question_id, language, code FROM submissions WHERE id = $1"@,
{
    GetSubmissionStmt(Stmt::new("SELECT question_id, language, code FROM submissions WHERE id = $1"))
}

/// The prepared query that reads a submission.
pub struct GetSubmissionStmt(pub Stmt);

/// Prepares the statement that writes a submission's score, error and failed test case.
pub fn update_submission_status() -> (res: UpdateSubmissionStatusStmt)
    ensures
        res.0.query@
            == "UPDATE submissions SET score = $1, error = $2, failed_test_case = $3 WHERE id = $4"@,
{
    UpdateSubmissionStatusStmt(
        Stmt::new(
            "UPDATE submissions SET score = $1, error = $2, failed_test_case = $3 WHERE id = $4",
        ),
    )
}

/// The prepared statement that writes a submission's status.
pub struct UpdateSubmissionStatusStmt(pub Stmt);

} // verus!
