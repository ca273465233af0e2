use vstd::prelude::*;

verus! {

/// How a run of the submitted program ended, as the runner reports it.
#[derive(Debug, Clone, Copy, PartialEq, Eq, Structural)]
pub enum ExitStatus {
    Success,
    RuntimeError,
    Timeout,
}

/// The verdict on one test case. The number stored in the `status` column of
/// a submission detail is `code()`.
#[derive(Debug, Clone, Copy, PartialEq, Eq, Structural)]
pub enum Verdict {
    Accepted,
    WrongAnswer,
    RuntimeError,
    Timeout,
}

/// The number that stands for a verdict in the database.
pub open spec fn verdict_code(v: Verdict) -> i32 {
    match v {
        Verdict::Accepted => 0,
        Verdict::WrongAnswer => 1,
        Verdict::RuntimeError => 2,
        Verdict::Timeout => 3,
    }
}

/// The error text that a failing verdict writes into the submission.
pub open spec fn verdict_message(v: Verdict) -> Seq<char> {
    match v {
        Verdict::Timeout => "Time limit exceeded"@,
        Verdict::RuntimeError => "Runtime error"@,
        Verdict::WrongAnswer => "Wrong answer"@,
        Verdict::Accepted => Seq::empty(),
    }
}

/// The verdict of a run: a successful run is accepted exactly when its output
/// matches the expected output; a crash or a timeout is judged as such.
pub open spec fn spec_verdict_for(exit: ExitStatus, outputs_match: bool) -> Verdict {
    match exit {
        ExitStatus::Success => if outputs_match { Verdict::Accepted } else { Verdict::WrongAnswer },
        ExitStatus::RuntimeError => Verdict::RuntimeError,
        ExitStatus::Timeout => Verdict::Timeout,
    }
}

impl Verdict {
    /// The number stored for this verdict.
    pub fn code(&self) -> (res: i32)
        ensures
            res == verdict_code(*self),
    {
        match self {
            Verdict::Accepted => 0,
            Verdict::WrongAnswer => 1,
            Verdict::RuntimeError => 2,
            Verdict::Timeout => 3,
        }
    }

    /// The error text for a failing verdict. An accepted verdict has none.
    pub fn as_error(&self) -> (res: &'static str)
        requires
            *self != Verdict::Accepted,
        ensures
            res@ == verdict_message(*self),
    {
        match self {
            Verdict::Timeout => "Time limit exceeded",
            Verdict::RuntimeError => "Runtime error",
            Verdict::WrongAnswer => "Wrong answer",
            Verdict::Accepted => "",
        }
    }
}

/// Decides the verdict of a run from how it ended and, for a successful run,
/// whether its output matched the expected output.
pub fn verdict_for(exit: ExitStatus, outputs_match: bool) -> (res: Verdict)
    ensures
        res == spec_verdict_for(exit, outputs_match),
{
    match exit {
        ExitStatus::Success => if outputs_match {
            Verdict::Accepted
        } else {
            Verdict::WrongAnswer
        },
        ExitStatus::RuntimeError => Verdict::RuntimeError,
        ExitStatus::Timeout => Verdict::Timeout,
    }
}

/// A test case is accepted exactly when the program ended normally and its
/// output matched the expected output.
pub proof fn lemma_accepted_iff_success_and_match(exit: ExitStatus, outputs_match: bool)
    ensures
        spec_verdict_for(exit, outputs_match) == Verdict::Accepted <==> exit == ExitStatus::Success
            && outputs_match,
{
}

/// Each verdict is stored as its own number, from 0 to 3.
pub proof fn lemma_verdict_code_injective(a: Verdict, b: Verdict)
    ensures
        0 <= verdict_code(a) <= 3,
        verdict_code(a) == verdict_code(b) ==> a == b,
{
}

/// Each failing verdict writes its own, non-empty message.
pub proof fn lemma_failure_messages_distinct(a: Verdict, b: Verdict)
    requires
        a != Verdict::Accepted,
        b != Verdict::Accepted,
    ensures
        verdict_message(a).len() > 0,
        a != b ==> verdict_message(a) != verdict_message(b),
{
    reveal_strlit("Time limit exceeded");
    reveal_strlit("Runtime error");
    reveal_strlit("Wrong answer");
    assert("Time limit exceeded"@.len() == 19);
    assert("Runtime error"@.len() == 13);
    assert("Wrong answer"@.len() == 12);
}

} // verus!
