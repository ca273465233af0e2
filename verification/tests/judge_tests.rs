use judges::detail::RunReport;
use judges::error::JudgeError;
use judges::judge::{Action, Judge, Phase};
use judges::language::Language;
use judges::queries::submission::GetSubmission;
use judges::queries::test_case::GetByQuestionId;
use judges::status::StatusUpdate;
use judges::verdict::ExitStatus;

fn question_id() -> uuid::Uuid {
    uuid::Uuid::from_bytes([9u8; 16])
}

fn submission(language: i16) -> GetSubmission {
    GetSubmission { question_id: question_id(), language, code: "int main() {}".to_string() }
}

fn case(index: i32, hidden: bool) -> GetByQuestionId {
    GetByQuestionId {
        index,
        input_path: Some(format!("in/{index}")),
        output_path: format!("out/{index}"),
        is_hidden: hidden,
    }
}

fn run(exit_status: ExitStatus, stdout: &[u8]) -> RunReport {
    RunReport { exit_status, run_time_ms: 17, stdout: stdout.to_vec(), stderr: Vec::new() }
}

/// A judge that has read the submission, compiled it and read the question.
fn prepared() -> Judge {
    let mut judge = Judge::new();
    assert!(matches!(judge.on_delivered(&[1u8; 16]), Action::FetchSubmission { id } if id == [1u8; 16]));
    match judge.on_submission_loaded(submission(0)) {
        Action::Compile { language, code } => {
            assert_eq!(language, Language::Cpp);
            assert_eq!(code, "int main() {}");
        }
        _ => panic!("expected a compile step"),
    }
    assert!(matches!(judge.on_compiled(true), Action::FetchQuestion { question_id: q } if q == question_id()));
    match judge.on_question_loaded(Some(2000), Some(65536)) {
        Action::PrepareRunner { limits, question_id: q } => {
            assert_eq!(limits.time_limit_ms, 2000);
            assert_eq!(limits.memory_limit, 65536);
            assert_eq!(q, question_id());
        }
        _ => panic!("expected the runner to be prepared"),
    }
    assert_eq!(judge.phase, Phase::AwaitTestCases);
    judge
}

#[test]
fn all_accepted_submission_is_graded() {
    let mut judge = prepared();
    let action = judge.on_test_cases_loaded(vec![case(1, true), case(2, false)]);
    assert!(matches!(action, Action::Run { ref input_path } if input_path == "in/1"));
    assert!(matches!(judge.on_ran(run(ExitStatus::Success, b"3\n")), Action::FetchExpected { ref output_path } if output_path == "out/1"));
    assert!(matches!(judge.on_expected_loaded(b"3".to_vec()), Action::Run { ref input_path } if input_path == "in/2"));
    assert!(matches!(judge.on_ran(run(ExitStatus::Success, b"hello")), Action::FetchExpected { .. }));
    match judge.on_expected_loaded(b" hello \n".to_vec()) {
        Action::InsertDetail { detail } => {
            assert_eq!(detail.index, 2);
            assert_eq!(detail.status, 0);
            assert_eq!(detail.run_time, 17);
            assert_eq!(detail.stdout, "hello");
            assert_eq!(detail.stderr, "");
        }
        _ => panic!("expected a detail for the visible test case"),
    }
    assert!(matches!(judge.on_detail_inserted(), Action::UpdateStatus { status: StatusUpdate::Graded }));
    assert!(matches!(judge.on_status_updated(), Action::Stop { result: Ok(()) }));
    assert_eq!(judge.phase, Phase::Finished);
}

#[test]
fn first_failure_fails_the_submission() {
    let mut judge = prepared();
    judge.on_test_cases_loaded(vec![case(1, true), case(2, true), case(3, true)]);
    judge.on_ran(run(ExitStatus::Success, b"1"));
    assert!(matches!(judge.on_expected_loaded(b"1".to_vec()), Action::Run { .. }));
    judge.on_ran(run(ExitStatus::Success, b"1"));
    let action = judge.on_expected_loaded(b"2".to_vec());
    assert!(matches!(
        action,
        Action::UpdateStatus { status: StatusUpdate::Failed { error: "Wrong answer", failed_test_case: Some(2) } }
    ));
    assert!(matches!(judge.on_status_updated(), Action::Stop { result: Ok(()) }));
    assert!(matches!(judge.on_ran(run(ExitStatus::Success, b"")), Action::Stop { result: Err(JudgeError::UnexpectedEvent) }));
}

#[test]
fn visible_failure_records_detail_then_fails() {
    let mut judge = prepared();
    judge.on_test_cases_loaded(vec![case(5, false), case(6, false)]);
    match judge.on_ran(run(ExitStatus::RuntimeError, b"partial")) {
        Action::InsertDetail { detail } => {
            assert_eq!(detail.index, 5);
            assert_eq!(detail.status, 2);
            assert_eq!(detail.stdout, "partial");
        }
        _ => panic!("expected a detail"),
    }
    assert!(matches!(
        judge.on_detail_inserted(),
        Action::UpdateStatus { status: StatusUpdate::Failed { error: "Runtime error", failed_test_case: Some(5) } }
    ));
}

#[test]
fn timeout_on_hidden_case() {
    let mut judge = prepared();
    judge.on_test_cases_loaded(vec![case(1, true)]);
    assert!(matches!(
        judge.on_ran(run(ExitStatus::Timeout, b"")),
        Action::UpdateStatus { status: StatusUpdate::Failed { error: "Time limit exceeded", failed_test_case: Some(1) } }
    ));
}

#[test]
fn no_test_cases_is_graded() {
    let mut judge = prepared();
    assert!(matches!(judge.on_test_cases_loaded(Vec::new()), Action::UpdateStatus { status: StatusUpdate::Graded }));
}

#[test]
fn missing_input_stops_judging() {
    let mut judge = prepared();
    let mut first = case(1, true);
    first.input_path = None;
    assert!(matches!(judge.on_test_cases_loaded(vec![first]), Action::Stop { result: Err(JudgeError::MissingInput) }));
    assert_eq!(judge.phase, Phase::Finished);
}

#[test]
fn missing_input_after_accepted_case() {
    let mut judge = prepared();
    let mut second = case(2, true);
    second.input_path = None;
    judge.on_test_cases_loaded(vec![case(1, true), second]);
    judge.on_ran(run(ExitStatus::Success, b"x"));
    assert!(matches!(judge.on_expected_loaded(b"x".to_vec()), Action::Stop { result: Err(JudgeError::MissingInput) }));
}

#[test]
fn invalid_output_stops_judging() {
    let mut judge = prepared();
    judge.on_test_cases_loaded(vec![case(1, false)]);
    assert!(matches!(
        judge.on_ran(run(ExitStatus::RuntimeError, &[0xff])),
        Action::Stop { result: Err(JudgeError::InvalidOutputEncoding) }
    ));
}

#[test]
fn compilation_error_writes_status_then_stops() {
    let mut judge = Judge::new();
    judge.on_delivered(&[0u8; 16]);
    judge.on_submission_loaded(submission(1));
    assert!(matches!(
        judge.on_compiled(false),
        Action::UpdateStatus { status: StatusUpdate::Failed { error: "Compilation error", failed_test_case: None } }
    ));
    assert!(matches!(judge.on_status_updated(), Action::Stop { result: Err(JudgeError::CompilationError) }));
}

#[test]
fn bad_message_stops_judging() {
    let mut judge = Judge::new();
    assert!(matches!(judge.on_delivered(b"not an id"), Action::Stop { result: Err(JudgeError::InvalidSubmissionId) }));
}

#[test]
fn unknown_language_stops_judging() {
    let mut judge = Judge::new();
    judge.on_delivered(&[0u8; 16]);
    assert!(matches!(judge.on_submission_loaded(submission(7)), Action::Stop { result: Err(JudgeError::InvalidLanguage) }));
}

#[test]
fn missing_limits_stop_judging() {
    let mut judge = Judge::new();
    judge.on_delivered(&[0u8; 16]);
    judge.on_submission_loaded(submission(2));
    judge.on_compiled(true);
    assert!(matches!(judge.on_question_loaded(None, Some(1)), Action::Stop { result: Err(JudgeError::MissingTimeLimit) }));

    let mut judge = Judge::new();
    judge.on_delivered(&[0u8; 16]);
    judge.on_submission_loaded(submission(2));
    judge.on_compiled(true);
    assert!(matches!(judge.on_question_loaded(Some(1), None), Action::Stop { result: Err(JudgeError::MissingMemoryLimit) }));
}

#[test]
fn out_of_turn_event_stops_judging() {
    let mut judge = Judge::new();
    assert!(matches!(judge.on_compiled(true), Action::Stop { result: Err(JudgeError::UnexpectedEvent) }));
    assert_eq!(judge.phase, Phase::Finished);
}

#[test]
fn status_is_written_once_and_nothing_follows_the_stop() {
    let mut judge = prepared();
    assert!(matches!(judge.on_test_cases_loaded(Vec::new()), Action::UpdateStatus { .. }));
    assert!(matches!(judge.on_status_updated(), Action::Stop { result: Ok(()) }));
    assert!(matches!(judge.on_status_updated(), Action::Stop { result: Err(JudgeError::UnexpectedEvent) }));
    assert!(matches!(judge.on_test_cases_loaded(vec![case(1, true)]), Action::Stop { result: Err(JudgeError::UnexpectedEvent) }));
    assert!(matches!(judge.on_detail_inserted(), Action::Stop { result: Err(JudgeError::UnexpectedEvent) }));
    assert_eq!(judge.phase, Phase::Finished);
}

#[test]
fn plain_rows() {
    let row = judges::test_case::TestCase {
        id: question_id(),
        input_path: "in/1".to_string(),
        output_path: "out/1".to_string(),
        is_hidden: true,
    };
    assert!(row.is_hidden && row.input_path == "in/1" && row.output_path == "out/1" && row.id == question_id());
    let history = judges::submission_history::SubmissionHistory { question_id: question_id(), language: 0, code: "x".to_string() };
    assert_eq!(history.language, 0);
    assert_eq!(history.code, "x");
}
