use vstd::prelude::*;

verus! {

/// A submission row: the question it answers, its language number and its
/// source code.
pub struct SubmissionHistory {
    pub question_id: uuid::Uuid,
    pub language: i32,
    pub code: String,
}

} // verus!
