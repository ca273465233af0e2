use vstd::prelude::*;
use crate::queries::client::Stmt;

verus! {

/// Prepares the statement that records the outcome of one test case.
pub fn insert() -> (res: InsertStmt)
    ensures
        res.0.query@
            == "INSERT INTO submission_details( submission_id, index, status, run_time, stdout, stderr ) VALUES ( $1, $2, $3, $4, $5, $6 )"@,
{
    InsertStmt(
        Stmt::new(
            "INSERT INTO submission_details( submission_id, index, status, run_time, stdout, stderr ) VALUES ( $1, $2, $3, $4, $5, $6 )",
        ),
    )
}

/// The prepared statement that records the outcome of one test case.
pub struct InsertStmt(pub Stmt);

} // verus!
