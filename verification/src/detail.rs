use vstd::prelude::*;
use vstd::utf8::{decode_utf8, valid_utf8};
use crate::error::JudgeError;
use crate::output::utf8_string;
use crate::queries::test_case::GetByQuestionId;
use crate::verdict::{verdict_code, ExitStatus, Verdict};

verus! {

/// What the runner reports of one run of the submitted program.
pub struct RunReport {
    pub exit_status: ExitStatus,
    /// The run time in milliseconds.
    pub run_time_ms: u128,
    pub stdout: Vec<u8>,
    pub stderr: Vec<u8>,
}

/// The row recorded for a visible test case: its index, the verdict's
/// number, the run time in milliseconds and the program's output streams.
pub struct DetailRecord {
    pub index: i32,
    pub status: i32,
    pub run_time: i32,
    pub stdout: String,
    pub stderr: String,
}

/// What is recorded for a judged test case. A hidden test case records
/// nothing. A visible one records its index, the verdict's number, the run
/// time (milliseconds, cut to `i32` by Rust's `as`) and both output streams,
/// which must be valid UTF-8.
pub fn detail_record(verdict: Verdict, report: &RunReport, test_case: &GetByQuestionId) -> (res:
    Result<Option<DetailRecord>, JudgeError>)
    ensures
        test_case.is_hidden ==> res matches Ok(None),
        !test_case.is_hidden ==> (res is Ok <==> valid_utf8(report.stdout@) && valid_utf8(
            report.stderr@,
        )),
        !test_case.is_hidden && res is Ok ==> res->Ok_0 is Some,
        res is Err ==> res->Err_0 == JudgeError::InvalidOutputEncoding,
        res matches Ok(Some(d)) ==> {
            &&& d.index == test_case.index
            &&& d.status == verdict_code(verdict)
            &&& d.run_time == report.run_time_ms as i32
            &&& d.stdout@ == decode_utf8(report.stdout@)
            &&& d.stderr@ == decode_utf8(report.stderr@)
        },
{
    if test_case.is_hidden {
        return Ok(None);
    }
    let stdout = match utf8_string(report.stdout.as_slice()) {
        Some(s) => s,
        None => return Err(JudgeError::InvalidOutputEncoding),
    };
    let stderr = match utf8_string(report.stderr.as_slice()) {
        Some(s) => s,
        None => return Err(JudgeError::InvalidOutputEncoding),
    };
    Ok(
        Some(
            DetailRecord {
                index: test_case.index,
                status: verdict.code(),
                run_time: report.run_time_ms as i32,
                stdout,
                stderr,
            },
        ),
    )
}

} // verus!
