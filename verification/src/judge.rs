//! The algorithm judge's grading of one submission, as a state machine. The
//! caller performs each `Action` (database, object store, compiler, runner)
//! and reports what came back by the matching `on_..` method.
use vstd::prelude::*;
use vstd::utf8::{decode_utf8, valid_utf8};
use crate::detail::{detail_record, DetailRecord, RunReport};
use crate::error::JudgeError;
use crate::ids::parse_submission_id;
use crate::language::{get_language, spec_language, Language};
use crate::output::{bstr_trim, output_verdict, padding_ignored};
use crate::queries::submission::GetSubmission;
use crate::queries::test_case::GetByQuestionId;
use crate::runner::{runner_limits, RunnerLimits};
use crate::status::StatusUpdate;
use crate::verdict::{
    spec_verdict_for, verdict_code, verdict_for, verdict_message, ExitStatus, Verdict,
};

verus! {

/// What the judge waits for next.
#[derive(Debug, Clone, Copy, PartialEq, Eq, Structural)]
pub enum Phase {
    AwaitDelivery,
    AwaitSubmission,
    AwaitCompile,
    AwaitQuestion,
    AwaitTestCases,
    AwaitRun,
    AwaitExpected,
    AwaitDetail,
    AwaitStatus,
    Finished,
}

/// What the caller does next.
pub enum Action {
    /// Read the submission with this id.
    FetchSubmission { id: [u8; 16] },
    /// Compile the code; on failure the submission's status is written next.
    Compile { language: Language, code: String },
    /// Read the question's limits.
    FetchQuestion { question_id: uuid::Uuid },
    /// Create a runner with these limits and list the question's test cases.
    PrepareRunner { limits: RunnerLimits, question_id: uuid::Uuid },
    /// Run the program on the input stored at this path.
    Run { input_path: String },
    /// Read the expected output stored at this path.
    FetchExpected { output_path: String },
    /// Record the outcome of a visible test case.
    InsertDetail { detail: DetailRecord },
    /// Write the submission's status.
    UpdateStatus { status: StatusUpdate },
    /// Judging is over, with this result.
    Stop { result: Result<(), JudgeError> },
}

/// The grading of one submission.
pub struct Judge {
    pub phase: Phase,
    pub submission_id: [u8; 16],
    pub question_id: Option<uuid::Uuid>,
    /// The question's test cases, in order of their index.
    pub test_cases: Vec<GetByQuestionId>,
    /// The position of the test case being judged.
    pub current: usize,
    /// A successful run that waits for its expected output.
    pub report: Option<RunReport>,
    /// The verdict of the current test case, once it is decided.
    pub verdict: Verdict,
    /// The result that ends judging once the status is written.
    pub outcome: Result<(), JudgeError>,
    /// The verdicts decided so far, one per judged test case, in order.
    pub verdicts: Ghost<Seq<Verdict>>,
    /// How many times this judge has asked for the submission's status to be written.
    pub status_writes: Ghost<nat>,
}

/// Every verdict before position `n` accepts its test case.
pub open spec fn accepted_before(verdicts: Seq<Verdict>, n: int) -> bool {
    forall|i: int| 0 <= i < n ==> verdicts[i] == Verdict::Accepted
}

/// The law of the final status: a submission is graded exactly when every
/// test case was judged and accepted; otherwise it fails on the first test
/// case not accepted, with that verdict's message and that test case's index.
pub open spec fn status_reports(
    status: StatusUpdate,
    cases: Seq<GetByQuestionId>,
    verdicts: Seq<Verdict>,
) -> bool {
    &&& (status is Graded <==> verdicts.len() == cases.len() && accepted_before(
        verdicts,
        verdicts.len() as int,
    ))
    &&& status is Failed ==> {
        &&& 0 < verdicts.len() <= cases.len()
        &&& accepted_before(verdicts, verdicts.len() - 1)
        &&& verdicts.last() != Verdict::Accepted
        &&& status->error@ == verdict_message(verdicts.last())
        &&& status->failed_test_case == Some(cases[verdicts.len() - 1].index)
    }
}

/// An event that arrived out of turn ends judging.
pub open spec fn rejects(post: Judge, action: Action) -> bool {
    &&& action == Action::Stop { result: Err(JudgeError::UnexpectedEvent) }
    &&& post.phase == Phase::Finished
}

/// Judging ends with this error.
pub open spec fn stops_with(post: Judge, action: Action, e: JudgeError) -> bool {
    &&& action == Action::Stop { result: Err(e) }
    &&& post.phase == Phase::Finished
}

/// What starting the test case at `post.current` does: past the last test
/// case the submission is graded; a test case without input ends judging;
/// otherwise its input is run.
pub open spec fn starts_case(post: Judge, action: Action) -> bool {
    let i = post.current as int;
    if i == post.test_cases@.len() {
        &&& action == Action::UpdateStatus { status: StatusUpdate::Graded }
        &&& post.phase == Phase::AwaitStatus
        &&& post.outcome == Ok::<(), JudgeError>(())
    } else {
        match post.test_cases@[i].input_path {
            None => stops_with(post, action, JudgeError::MissingInput),
            Some(p) => action == Action::Run { input_path: p } && post.phase == Phase::AwaitRun,
        }
    }
}

/// What follows a recorded (or skipped) detail of the test case at `at`: an
/// accepted verdict moves on to the next test case, any other verdict fails
/// the submission on this one.
pub open spec fn moves_on(at: usize, case: GetByQuestionId, post: Judge, verdict: Verdict, action: Action) -> bool {
    if verdict == Verdict::Accepted {
        post.current == at + 1 && starts_case(post, action)
    } else {
        &&& post.current == at
        &&& action matches Action::UpdateStatus { status }
        &&& status matches StatusUpdate::Failed { error, failed_test_case }
        &&& error@ == verdict_message(verdict)
        &&& failed_test_case == Some(case.index)
        &&& post.phase == Phase::AwaitStatus
        &&& post.outcome == Ok::<(), JudgeError>(())
    }
}

/// The steps after a verdict is decided for the current test case: the
/// verdict is appended to the history; a visible test case's detail is
/// recorded first (its output must be valid UTF-8); a hidden one moves on.
pub open spec fn judges_case(pre: Judge, post: Judge, verdict: Verdict, report: RunReport, action: Action) -> bool {
    let case = pre.test_cases@[pre.current as int];
    &&& post.test_cases@ == pre.test_cases@
    &&& post.verdicts@ == pre.verdicts@.push(verdict)
    &&& if case.is_hidden {
        moves_on(pre.current, case, post, verdict, action)
    } else if !(valid_utf8(report.stdout@) && valid_utf8(report.stderr@)) {
        stops_with(post, action, JudgeError::InvalidOutputEncoding)
    } else {
        &&& action matches Action::InsertDetail { detail }
        &&& detail.index == case.index
        &&& detail.status == verdict_code(verdict)
        &&& detail.run_time == report.run_time_ms as i32
        &&& detail.stdout@ == decode_utf8(report.stdout@)
        &&& detail.stderr@ == decode_utf8(report.stderr@)
        &&& post.phase == Phase::AwaitDetail
        &&& post.verdict == verdict
        &&& post.current == pre.current
    }
}

/// What every step keeps track of: it counts each request to write the
/// status; it stops exactly when judging finishes; once judging has
/// finished, every later event only repeats that judging is over; and once
/// the submission id is read, it stays the same.
pub open spec fn step_bookkeeping(pre: Judge, post: Judge, action: Action) -> bool {
    &&& post.status_writes@ == pre.status_writes@ + (if action is UpdateStatus {
        1nat
    } else {
        0nat
    })
    &&& (action is Stop <==> post.phase == Phase::Finished)
    &&& pre.phase == Phase::Finished ==> action == Action::Stop {
        result: Err(JudgeError::UnexpectedEvent),
    }
    &&& pre.phase != Phase::AwaitDelivery ==> post.submission_id == pre.submission_id
}

impl Judge {
    /// The part of the invariant that holds in every phase.
    pub open spec fn wf_counts(&self) -> bool {
        &&& self.current <= self.test_cases@.len()
        &&& self.current <= self.verdicts@.len() <= self.current + 1
        &&& self.verdicts@.len() <= self.test_cases@.len()
        &&& accepted_before(self.verdicts@, self.current as int)
        &&& self.status_writes@ <= 1
    }

    /// The judge's invariant.
    pub open spec fn wf(&self) -> bool {
        &&& self.wf_counts()
        &&& (self.phase == Phase::AwaitStatus ==> self.status_writes@ == 1)
        &&& (self.phase != Phase::AwaitStatus && self.phase != Phase::Finished
            ==> self.status_writes@ == 0)
        &&& match self.phase {
            Phase::AwaitCompile | Phase::AwaitQuestion | Phase::AwaitTestCases => self.question_id is Some,
            Phase::AwaitRun => self.current < self.test_cases@.len() && self.verdicts@.len() == self.current,
            Phase::AwaitExpected => {
                &&& self.current < self.test_cases@.len()
                &&& self.verdicts@.len() == self.current
                &&& self.report is Some
                &&& self.report->0.exit_status == ExitStatus::Success
            },
            Phase::AwaitDetail => {
                &&& self.current < self.test_cases@.len()
                &&& self.verdicts@.len() == self.current + 1
                &&& self.verdicts@[self.current as int] == self.verdict
            },
            _ => true,
        }
    }

    /// A judge that waits for a queued submission.
    pub fn new() -> (res: Judge)
        ensures
            res.wf(),
            res.phase == Phase::AwaitDelivery,
            res.test_cases@.len() == 0,
            res.verdicts@.len() == 0,
            res.status_writes@ == 0,
    {
        Judge {
            phase: Phase::AwaitDelivery,
            submission_id: [0u8; 16],
            question_id: None,
            test_cases: Vec::new(),
            current: 0,
            report: None,
            verdict: Verdict::Accepted,
            outcome: Ok(()),
            verdicts: Ghost(Seq::empty()),
            status_writes: Ghost(0),
        }
    }

    fn stop(&mut self, result: Result<(), JudgeError>) -> (action: Action)
        requires
            old(self).wf(),
        ensures
            final(self).submission_id == old(self).submission_id,
            final(self).wf(),
            action == (Action::Stop { result }),
            final(self).phase == Phase::Finished,
            final(self).test_cases@ == old(self).test_cases@,
            final(self).verdicts@ == old(self).verdicts@,
            final(self).current == old(self).current,
            final(self).status_writes@ == old(self).status_writes@,
    {
        self.phase = Phase::Finished;
        Action::Stop { result }
    }

    fn start_case(&mut self) -> (action: Action)
        requires
            old(self).wf_counts(),
            old(self).phase != Phase::Finished,
            old(self).verdicts@.len() == old(self).current,
            old(self).status_writes@ == 0,
        ensures
            final(self).submission_id == old(self).submission_id,
            step_bookkeeping(*old(self), *final(self), action),
            final(self).wf(),
            final(self).test_cases@ == old(self).test_cases@,
            final(self).verdicts@ == old(self).verdicts@,
            final(self).current == old(self).current,
            starts_case(*final(self), action),
            action matches Action::UpdateStatus { status } ==> status_reports(
                status,
                final(self).test_cases@,
                final(self).verdicts@,
            ),
    {
        if self.current == self.test_cases.len() {
            self.phase = Phase::AwaitStatus;
            self.outcome = Ok(());
            self.status_writes = Ghost(self.status_writes@ + 1);
            return Action::UpdateStatus { status: StatusUpdate::Graded };
        }
        let input_path = match &self.test_cases[self.current].input_path {
            Some(p) => Some(p.clone()),
            None => None,
        };
        match input_path {
            None => {
                self.phase = Phase::AwaitRun;
                self.stop(Err(JudgeError::MissingInput))
            },
            Some(input_path) => {
                self.phase = Phase::AwaitRun;
                Action::Run { input_path }
            },
        }
    }

    fn advance(&mut self, verdict: Verdict) -> (action: Action)
        requires
            old(self).wf(),
            old(self).current < old(self).test_cases@.len(),
            old(self).verdicts@.len() == old(self).current + 1,
            old(self).verdicts@[old(self).current as int] == verdict,
            old(self).phase == Phase::AwaitDetail,
        ensures
            final(self).submission_id == old(self).submission_id,
            final(self).wf(),
            step_bookkeeping(*old(self), *final(self), action),
            final(self).test_cases@ == old(self).test_cases@,
            final(self).verdicts@ == old(self).verdicts@,
            moves_on(
                old(self).current,
                old(self).test_cases@[old(self).current as int],
                *final(self),
                verdict,
                action,
            ),
            action matches Action::UpdateStatus { status } ==> status_reports(
                status,
                final(self).test_cases@,
                final(self).verdicts@,
            ),
    {
        if verdict == Verdict::Accepted {
            let count = self.test_cases.len();
            assert(self.current < count);
            self.current = self.current + 1;
            self.start_case()
        } else {
            let index = self.test_cases[self.current].index;
            self.phase = Phase::AwaitStatus;
            self.outcome = Ok(());
            self.status_writes = Ghost(self.status_writes@ + 1);
            let status = StatusUpdate::Failed {
                error: verdict.as_error(),
                failed_test_case: Some(index),
            };
            let ghost vs = self.verdicts@;
            assert(vs.last() == verdict);
            assert(!accepted_before(vs, vs.len() as int));
            Action::UpdateStatus { status }
        }
    }

    fn judge_case(&mut self, verdict: Verdict, report: &RunReport) -> (action: Action)
        requires
            old(self).wf(),
            old(self).current < old(self).test_cases@.len(),
            old(self).verdicts@.len() == old(self).current,
            old(self).phase == Phase::AwaitRun,
        ensures
            final(self).submission_id == old(self).submission_id,
            final(self).wf(),
            step_bookkeeping(*old(self), *final(self), action),
            judges_case(*old(self), *final(self), verdict, *report, action),
            action matches Action::UpdateStatus { status } ==> status_reports(
                status,
                final(self).test_cases@,
                final(self).verdicts@,
            ),
    {
        self.verdicts = Ghost(self.verdicts@.push(verdict));
        self.phase = Phase::AwaitDetail;
        self.verdict = verdict;
        match detail_record(verdict, report, &self.test_cases[self.current]) {
            Err(e) => self.stop(Err(e)),
            Ok(None) => self.advance(verdict),
            Ok(Some(detail)) => Action::InsertDetail { detail },
        }
    }

    /// A queued message arrived: it must be a 16-byte submission id, which is
    /// then read.
    pub fn on_delivered(&mut self, data: &[u8]) -> (action: Action)
        requires
            old(self).wf(),
        ensures
            final(self).wf(),
            step_bookkeeping(*old(self), *final(self), action),
            old(self).phase != Phase::AwaitDelivery ==> rejects(*final(self), action),
            old(self).phase == Phase::AwaitDelivery && data@.len() != 16 ==> stops_with(
                *final(self),
                action,
                JudgeError::InvalidSubmissionId,
            ),
            old(self).phase == Phase::AwaitDelivery && data@.len() == 16 ==> (action matches Action::FetchSubmission { id } && id@ == data@
                && final(self).submission_id@ == data@ && final(self).phase == Phase::AwaitSubmission),
    {
        if self.phase != Phase::AwaitDelivery {
            return self.stop(Err(JudgeError::UnexpectedEvent));
        }
        match parse_submission_id(data) {
            Err(e) => self.stop(Err(e)),
            Ok(id) => {
                self.submission_id = id;
                self.phase = Phase::AwaitSubmission;
                Action::FetchSubmission { id }
            },
        }
    }

    /// The submission was read: its language must be known; its code is
    /// compiled next.
    pub fn on_submission_loaded(&mut self, submission: GetSubmission) -> (action: Action)
        requires
            old(self).wf(),
        ensures
            final(self).wf(),
            step_bookkeeping(*old(self), *final(self), action),
            old(self).phase != Phase::AwaitSubmission ==> rejects(*final(self), action),
            old(self).phase == Phase::AwaitSubmission && spec_language(submission.language) is None
                ==> stops_with(*final(self), action, JudgeError::InvalidLanguage),
            old(self).phase == Phase::AwaitSubmission && spec_language(submission.language) is Some
                ==> (action == (Action::Compile {
                language: spec_language(submission.language)->0,
                code: submission.code,
            }) && final(self).phase == Phase::AwaitCompile && final(self).question_id == Some(
                submission.question_id,
            )),
    {
        if self.phase != Phase::AwaitSubmission {
            return self.stop(Err(JudgeError::UnexpectedEvent));
        }
        match get_language(submission.language) {
            Err(e) => self.stop(Err(e)),
            Ok(language) => {
                self.question_id = Some(submission.question_id);
                self.phase = Phase::AwaitCompile;
                Action::Compile { language, code: submission.code }
            },
        }
    }

    /// Compilation ended: a failure writes a "Compilation error" status and
    /// then ends judging with that error; a success reads the question.
    pub fn on_compiled(&mut self, succeeded: bool) -> (action: Action)
        requires
            old(self).wf(),
        ensures
            final(self).wf(),
            step_bookkeeping(*old(self), *final(self), action),
            old(self).phase != Phase::AwaitCompile ==> rejects(*final(self), action),
            old(self).phase == Phase::AwaitCompile && !succeeded ==> (action matches Action::UpdateStatus { status }
                && status matches StatusUpdate::Failed { error, failed_test_case }
                && error@ == "Compilation error"@ && failed_test_case is None
                && final(self).phase == Phase::AwaitStatus && final(self).outcome == Err::<(), JudgeError>(
                JudgeError::CompilationError,
            )),
            old(self).phase == Phase::AwaitCompile && succeeded ==> (action == (Action::FetchQuestion {
                question_id: old(self).question_id->0,
            }) && final(self).phase == Phase::AwaitQuestion),
    {
        if self.phase != Phase::AwaitCompile {
            return self.stop(Err(JudgeError::UnexpectedEvent));
        }
        let question_id = match self.question_id {
            Some(id) => id,
            None => return self.stop(Err(JudgeError::UnexpectedEvent)),
        };
        if succeeded {
            self.phase = Phase::AwaitQuestion;
            Action::FetchQuestion { question_id }
        } else {
            self.phase = Phase::AwaitStatus;
            self.outcome = Err(JudgeError::CompilationError);
            self.status_writes = Ghost(self.status_writes@ + 1);
            Action::UpdateStatus {
                status: StatusUpdate::Failed { error: "Compilation error", failed_test_case: None },
            }
        }
    }

    /// The question was read: its time and memory limits set up the runner,
    /// and its test cases are listed.
    pub fn on_question_loaded(&mut self, time_limit: Option<i32>, memory_limit: Option<i32>) -> (action: Action)
        requires
            old(self).wf(),
        ensures
            final(self).wf(),
            step_bookkeeping(*old(self), *final(self), action),
            old(self).phase != Phase::AwaitQuestion ==> rejects(*final(self), action),
            old(self).phase == Phase::AwaitQuestion && time_limit is None ==> stops_with(
                *final(self),
                action,
                JudgeError::MissingTimeLimit,
            ),
            old(self).phase == Phase::AwaitQuestion && time_limit is Some && memory_limit is None
                ==> stops_with(*final(self), action, JudgeError::MissingMemoryLimit),
            old(self).phase == Phase::AwaitQuestion && time_limit is Some && memory_limit is Some
                ==> (action matches Action::PrepareRunner { limits, question_id }
                && limits.time_limit_ms == time_limit->0 as u64
                && limits.memory_limit == memory_limit->0 as i64
                && limits.process_count_limit == crate::runner::PROCESS_COUNT_LIMIT
                && question_id == old(self).question_id->0
                && final(self).phase == Phase::AwaitTestCases),
    {
        if self.phase != Phase::AwaitQuestion {
            return self.stop(Err(JudgeError::UnexpectedEvent));
        }
        let question_id = match self.question_id {
            Some(id) => id,
            None => return self.stop(Err(JudgeError::UnexpectedEvent)),
        };
        match runner_limits(time_limit, memory_limit) {
            Err(e) => self.stop(Err(e)),
            Ok(limits) => {
                self.phase = Phase::AwaitTestCases;
                Action::PrepareRunner { limits, question_id }
            },
        }
    }

    /// The test cases were listed, in order of their index: the first one is
    /// started (with none, the submission is graded at once).
    pub fn on_test_cases_loaded(&mut self, test_cases: Vec<GetByQuestionId>) -> (action: Action)
        requires
            old(self).wf(),
        ensures
            final(self).wf(),
            step_bookkeeping(*old(self), *final(self), action),
            old(self).phase != Phase::AwaitTestCases ==> rejects(*final(self), action),
            old(self).phase == Phase::AwaitTestCases ==> {
                &&& final(self).test_cases@ == test_cases@
                &&& final(self).verdicts@ == Seq::<Verdict>::empty()
                &&& final(self).current == 0
                &&& starts_case(*final(self), action)
            },
            action matches Action::UpdateStatus { status } ==> status_reports(
                status,
                final(self).test_cases@,
                final(self).verdicts@,
            ),
    {
        if self.phase != Phase::AwaitTestCases {
            return self.stop(Err(JudgeError::UnexpectedEvent));
        }
        self.test_cases = test_cases;
        self.current = 0;
        self.verdicts = Ghost(Seq::empty());
        self.start_case()
    }

    /// The current test case was run. A successful run has its output
    /// compared next; a crash or a timeout is the verdict.
    pub fn on_ran(&mut self, report: RunReport) -> (action: Action)
        requires
            old(self).wf(),
        ensures
            final(self).wf(),
            step_bookkeeping(*old(self), *final(self), action),
            old(self).phase != Phase::AwaitRun ==> rejects(*final(self), action),
            old(self).phase == Phase::AwaitRun && report.exit_status == ExitStatus::Success ==> {
                &&& action == (Action::FetchExpected {
                    output_path: old(self).test_cases@[old(self).current as int].output_path,
                })
                &&& final(self).phase == Phase::AwaitExpected
                &&& final(self).current == old(self).current
                &&& final(self).test_cases@ == old(self).test_cases@
                &&& final(self).verdicts@ == old(self).verdicts@
                &&& final(self).report == Some(report)
            },
            old(self).phase == Phase::AwaitRun && report.exit_status != ExitStatus::Success
                ==> judges_case(
                *old(self),
                *final(self),
                spec_verdict_for(report.exit_status, false),
                report,
                action,
            ),
            action matches Action::UpdateStatus { status } ==> status_reports(
                status,
                final(self).test_cases@,
                final(self).verdicts@,
            ),
    {
        if self.phase != Phase::AwaitRun {
            return self.stop(Err(JudgeError::UnexpectedEvent));
        }
        match report.exit_status {
            ExitStatus::Success => {
                let output_path = self.test_cases[self.current].output_path.clone();
                self.report = Some(report);
                self.phase = Phase::AwaitExpected;
                Action::FetchExpected { output_path }
            },
            _ => {
                let verdict = verdict_for(report.exit_status, false);
                self.judge_case(verdict, &report)
            },
        }
    }

    /// The expected output of the current test case was read: the run is
    /// accepted exactly when both outputs match once trimmed.
    pub fn on_expected_loaded(&mut self, expected: Vec<u8>) -> (action: Action)
        requires
            old(self).wf(),
        ensures
            final(self).wf(),
            step_bookkeeping(*old(self), *final(self), action),
            old(self).phase != Phase::AwaitExpected ==> rejects(*final(self), action),
            old(self).phase == Phase::AwaitExpected ==> judges_case(
                *old(self),
                *final(self),
                spec_verdict_for(
                    old(self).report->0.exit_status,
                    bstr_trim(old(self).report->0.stdout@) == bstr_trim(expected@),
                ),
                old(self).report->0,
                action,
            ),
            old(self).phase == Phase::AwaitExpected ==> padding_ignored(
                bstr_trim(old(self).report->0.stdout@),
                old(self).report->0.stdout@,
            ),
            old(self).phase == Phase::AwaitExpected ==> padding_ignored(
                bstr_trim(expected@),
                expected@,
            ),
            action matches Action::UpdateStatus { status } ==> status_reports(
                status,
                final(self).test_cases@,
                final(self).verdicts@,
            ),
    {
        if self.phase != Phase::AwaitExpected {
            return self.stop(Err(JudgeError::UnexpectedEvent));
        }
        let report = match self.report.take() {
            Some(r) => r,
            None => return self.stop(Err(JudgeError::UnexpectedEvent)),
        };
        let verdict = output_verdict(report.stdout.as_slice(), expected.as_slice());
        self.phase = Phase::AwaitRun;
        self.judge_case(verdict, &report)
    }

    /// The current test case's detail was recorded: an accepted verdict
    /// moves on, any other fails the submission on this test case.
    pub fn on_detail_inserted(&mut self) -> (action: Action)
        requires
            old(self).wf(),
        ensures
            final(self).wf(),
            step_bookkeeping(*old(self), *final(self), action),
            old(self).phase != Phase::AwaitDetail ==> rejects(*final(self), action),
            old(self).phase == Phase::AwaitDetail ==> {
                &&& final(self).test_cases@ == old(self).test_cases@
                &&& final(self).verdicts@ == old(self).verdicts@
                &&& moves_on(
                    old(self).current,
                    old(self).test_cases@[old(self).current as int],
                    *final(self),
                    old(self).verdict,
                    action,
                )
            },
            action matches Action::UpdateStatus { status } ==> status_reports(
                status,
                final(self).test_cases@,
                final(self).verdicts@,
            ),
    {
        if self.phase != Phase::AwaitDetail {
            return self.stop(Err(JudgeError::UnexpectedEvent));
        }
        let verdict = self.verdict;
        self.advance(verdict)
    }

    /// The submission's status was written: judging ends with the result
    /// decided before.
    pub fn on_status_updated(&mut self) -> (action: Action)
        requires
            old(self).wf(),
        ensures
            final(self).wf(),
            step_bookkeeping(*old(self), *final(self), action),
            old(self).phase != Phase::AwaitStatus ==> rejects(*final(self), action),
            old(self).phase == Phase::AwaitStatus ==> action == (Action::Stop {
                result: old(self).outcome,
            }) && final(self).phase == Phase::Finished,
    {
        if self.phase != Phase::AwaitStatus {
            return self.stop(Err(JudgeError::UnexpectedEvent));
        }
        let result = self.outcome;
        self.stop(result)
    }
}

/// A test case is run only while every earlier test case was accepted, and
/// each test case is run at most once: while a run is awaited, one verdict
/// was decided per earlier test case, all of them accepting.
pub proof fn lemma_run_only_after_acceptance(judge: Judge)
    requires
        judge.wf(),
        judge.phase == Phase::AwaitRun,
    ensures
        judge.verdicts@.len() == judge.current,
        judge.current < judge.test_cases@.len(),
        forall|i: int| 0 <= i < judge.current ==> judge.verdicts@[i] == Verdict::Accepted,
{
}

/// Whenever a verdict awaits its detail, it is the last one decided, and it
/// belongs to the test case being judged.
pub proof fn lemma_detail_follows_last_verdict(judge: Judge)
    requires
        judge.wf(),
        judge.phase == Phase::AwaitDetail,
    ensures
        judge.verdicts@.len() == judge.current + 1,
        judge.verdicts@.last() == judge.verdict,
        forall|i: int| 0 <= i < judge.current ==> judge.verdicts@[i] == Verdict::Accepted,
{
}

/// A successful run whose output is exactly the expected output is accepted.
pub proof fn lemma_exact_output_accepted(stdout: Seq<u8>, expected: Seq<u8>)
    requires
        stdout == expected,
    ensures
        spec_verdict_for(ExitStatus::Success, bstr_trim(stdout) == bstr_trim(expected))
            == Verdict::Accepted,
{
}

/// How many of these actions ask for the submission's status to be written.
pub open spec fn status_requests(actions: Seq<Action>) -> nat
    decreases actions.len(),
{
    if actions.len() == 0 {
        0
    } else {
        status_requests(actions.drop_last()) + (if actions.last() is UpdateStatus {
            1nat
        } else {
            0nat
        })
    }
}

/// A run of a judge: `judges[i + 1]` is the judge after the step that
/// answered `actions[i]`, each step as the `on_..` methods guarantee.
pub open spec fn is_run(judges: Seq<Judge>, actions: Seq<Action>) -> bool {
    &&& judges.len() == actions.len() + 1
    &&& forall|i: int| 0 <= i < judges.len() ==> #[trigger] judges[i].wf()
    &&& forall|i: int|
        0 <= i < actions.len() ==> step_bookkeeping(judges[i], judges[i + 1], #[trigger] actions[i])
}

proof fn lemma_requests_counted(judges: Seq<Judge>, actions: Seq<Action>, k: int)
    requires
        is_run(judges, actions),
        judges[0].status_writes@ == 0,
        0 <= k <= actions.len(),
    ensures
        status_requests(actions.take(k)) == judges[k].status_writes@,
    decreases k,
{
    if k > 0 {
        lemma_requests_counted(judges, actions, k - 1);
        assert(actions.take(k).drop_last() =~= actions.take(k - 1));
        assert(step_bookkeeping(judges[k - 1], judges[k], actions[k - 1]));
    }
}

proof fn lemma_finished_stays(judges: Seq<Judge>, actions: Seq<Action>, i: int, m: int)
    requires
        is_run(judges, actions),
        0 <= i < m <= actions.len(),
        actions[i] is Stop,
    ensures
        judges[m].phase == Phase::Finished,
    decreases m - i,
{
    assert(step_bookkeeping(judges[m - 1], judges[m], actions[m - 1]));
    if m - 1 > i {
        lemma_finished_stays(judges, actions, i, m - 1);
    }
}

/// Over a whole run from a judge that has not yet asked for a status (as
/// `Judge::new` gives), the submission's status is written at most once, and
/// once judging has stopped, every later step only says that it is over.
pub proof fn lemma_run_writes_status_at_most_once(judges: Seq<Judge>, actions: Seq<Action>)
    requires
        is_run(judges, actions),
        judges[0].status_writes@ == 0,
    ensures
        status_requests(actions) <= 1,
        forall|i: int, j: int|
            0 <= i < j < actions.len() && #[trigger] actions[i] is Stop ==> #[trigger] actions[j]
                == (Action::Stop { result: Err(JudgeError::UnexpectedEvent) }),
{
    lemma_requests_counted(judges, actions, actions.len() as int);
    assert(actions.take(actions.len() as int) =~= actions);
    assert(judges[actions.len() as int].wf());
    assert forall|i: int, j: int|
        0 <= i < j < actions.len() && #[trigger] actions[i] is Stop implies #[trigger] actions[j]
            == (Action::Stop { result: Err(JudgeError::UnexpectedEvent) }) by {
        lemma_finished_stays(judges, actions, i, j);
        assert(step_bookkeeping(judges[j], judges[j + 1], actions[j]));
    }
}

} // verus!
