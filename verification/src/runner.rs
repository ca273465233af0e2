use vstd::prelude::*;
use crate::error::JudgeError;

verus! {

/// The most processes a submitted program may start.
pub const PROCESS_COUNT_LIMIT: usize = 512;

/// The limits a runner is created with.
#[derive(Debug, Clone, Copy, PartialEq, Eq, Structural)]
pub struct RunnerLimits {
    /// The time limit in milliseconds.
    pub time_limit_ms: u64,
    /// The memory limit, as the question states it.
    pub memory_limit: i64,
    /// The most processes a run may start.
    pub process_count_limit: usize,
}

/// Takes a question's limits for a runner. Both must be present; the time
/// limit is checked first. The time limit becomes milliseconds as `u64` (by
/// Rust's `as`, so a negative number wraps), the memory limit widens to `i64`.
pub fn runner_limits(time_limit: Option<i32>, memory_limit: Option<i32>) -> (res: Result<
    RunnerLimits,
    JudgeError,
>)
    ensures
        time_limit is None ==> res == Err::<RunnerLimits, JudgeError>(JudgeError::MissingTimeLimit),
        time_limit is Some && memory_limit is None ==> res == Err::<RunnerLimits, JudgeError>(
            JudgeError::MissingMemoryLimit,
        ),
        res is Ok <==> time_limit is Some && memory_limit is Some,
        res matches Ok(l) ==> l.time_limit_ms == time_limit->0 as u64 && l.memory_limit
            == memory_limit->0 as i64 && l.process_count_limit == PROCESS_COUNT_LIMIT,
{
    let time_limit = match time_limit {
        Some(t) => t,
        None => return Err(JudgeError::MissingTimeLimit),
    };
    let memory_limit = match memory_limit {
        Some(m) => m,
        None => return Err(JudgeError::MissingMemoryLimit),
    };
    Ok(
        RunnerLimits {
            time_limit_ms: time_limit as u64,
            memory_limit: memory_limit as i64,
            process_count_limit: PROCESS_COUNT_LIMIT,
        },
    )
}

} // verus!
