use judges::error::JudgeError;
use judges::ids::parse_submission_id;
use judges::language::{get_language, Language};
use judges::output::{bytes_equal, output_verdict, outputs_match};
use judges::runner::{runner_limits, PROCESS_COUNT_LIMIT};
use judges::html::{html_status, single_test_case};
use judges::queries::test_case::GetByQuestionId;
use judges::status::{status_columns, StatusUpdate};
use judges::verdict::{verdict_for, ExitStatus, Verdict};

#[test]
fn verdict_codes_are_their_positions() {
    assert_eq!(Verdict::Accepted.code(), 0);
    assert_eq!(Verdict::WrongAnswer.code(), 1);
    assert_eq!(Verdict::RuntimeError.code(), 2);
    assert_eq!(Verdict::Timeout.code(), 3);
}

#[test]
fn failing_verdicts_have_messages() {
    assert_eq!(Verdict::Timeout.as_error(), "Time limit exceeded");
    assert_eq!(Verdict::RuntimeError.as_error(), "Runtime error");
    assert_eq!(Verdict::WrongAnswer.as_error(), "Wrong answer");
}

#[test]
fn verdict_follows_exit_and_match() {
    assert_eq!(verdict_for(ExitStatus::Success, true), Verdict::Accepted);
    assert_eq!(verdict_for(ExitStatus::Success, false), Verdict::WrongAnswer);
    assert_eq!(verdict_for(ExitStatus::RuntimeError, true), Verdict::RuntimeError);
    assert_eq!(verdict_for(ExitStatus::RuntimeError, false), Verdict::RuntimeError);
    assert_eq!(verdict_for(ExitStatus::Timeout, true), Verdict::Timeout);
    assert_eq!(verdict_for(ExitStatus::Timeout, false), Verdict::Timeout);
}

#[test]
fn outputs_match_ignores_surrounding_whitespace() {
    assert!(outputs_match(b"1 2 3\n", b"1 2 3"));
    assert!(outputs_match(b"  42\r\n\t", b"\n42"));
    assert!(outputs_match("\u{3000}answer\u{2003}".as_bytes(), b"answer"));
    assert!(outputs_match(b"", b" \n "));
}

#[test]
fn outputs_match_keeps_inner_differences() {
    assert!(!outputs_match(b"1 2 3", b"1  2 3"));
    assert!(!outputs_match(b"1\n2", b"1 2"));
    assert!(!outputs_match(b"yes", b"YES"));
    assert!(!outputs_match(b"", b"0"));
}

#[test]
fn bytes_equal_compares_contents() {
    assert!(bytes_equal(b"abc", b"abc"));
    assert!(bytes_equal(b"", b""));
    assert!(!bytes_equal(b"abc", b"abd"));
    assert!(!bytes_equal(b"abc", b"ab"));
}

#[test]
fn submission_id_needs_sixteen_bytes() {
    let data: Vec<u8> = (0u8..16).collect();
    let id = parse_submission_id(&data).unwrap();
    assert_eq!(id.to_vec(), data);
    assert_eq!(parse_submission_id(&data[..15]), Err(JudgeError::InvalidSubmissionId));
    let mut long = data.clone();
    long.push(16);
    assert_eq!(parse_submission_id(&long), Err(JudgeError::InvalidSubmissionId));
    assert_eq!(parse_submission_id(&[]), Err(JudgeError::InvalidSubmissionId));
}

#[test]
fn language_numbers() {
    assert_eq!(get_language(0), Ok(Language::Cpp));
    assert_eq!(get_language(1), Ok(Language::Java));
    assert_eq!(get_language(2), Ok(Language::Python));
    assert_eq!(get_language(3), Err(JudgeError::InvalidLanguage));
    assert_eq!(get_language(-1), Err(JudgeError::InvalidLanguage));
    assert_eq!(get_language(i16::MAX), Err(JudgeError::InvalidLanguage));
}

#[test]
fn runner_limits_need_both_limits() {
    assert_eq!(runner_limits(None, None), Err(JudgeError::MissingTimeLimit));
    assert_eq!(runner_limits(None, Some(256)), Err(JudgeError::MissingTimeLimit));
    assert_eq!(runner_limits(Some(1000), None), Err(JudgeError::MissingMemoryLimit));
    let limits = runner_limits(Some(1000), Some(256)).unwrap();
    assert_eq!(limits.time_limit_ms, 1000);
    assert_eq!(limits.memory_limit, 256);
    assert_eq!(limits.process_count_limit, PROCESS_COUNT_LIMIT);
    assert_eq!(PROCESS_COUNT_LIMIT, 512);
}

#[test]
fn runner_limits_cast_like_as() {
    let limits = runner_limits(Some(-1), Some(-5)).unwrap();
    assert_eq!(limits.time_limit_ms, u64::MAX);
    assert_eq!(limits.memory_limit, -5);
}

#[test]
fn error_messages() {
    assert_eq!(JudgeError::InvalidLanguage.message(), "Invalid language");
    assert_eq!(JudgeError::CompilationError.message(), "Compilation error");
    assert_eq!(JudgeError::MissingTimeLimit.message(), "Time limit must be specified");
    assert_eq!(JudgeError::MissingMemoryLimit.message(), "Memory limit must be specified");
    assert_eq!(JudgeError::MissingInput.message(), "Input must be specified");
    assert_eq!(JudgeError::InvalidSubmissionId.message(), "Invalid submission id");
    assert_eq!(JudgeError::InvalidOutputEncoding.message(), "Output is not valid UTF-8");
    assert_eq!(JudgeError::UnexpectedEvent.message(), "Unexpected event");
    assert_eq!(JudgeError::NotExactlyOneTestCase.message(), "Expected exactly one test case");
}

#[test]
fn html_status_on_success_and_failure() {
    assert_eq!(html_status(true), StatusUpdate::Graded);
    assert_eq!(
        html_status(false),
        StatusUpdate::Failed { error: "Failed to run the html", failed_test_case: Some(1) }
    );
}

fn case(index: i32) -> GetByQuestionId {
    GetByQuestionId {
        index,
        input_path: None,
        output_path: format!("out/{index}.png"),
        is_hidden: false,
    }
}

#[test]
fn html_question_needs_exactly_one_test_case() {
    assert_eq!(single_test_case(vec![case(1)]), Ok(case(1)));
    assert_eq!(single_test_case(Vec::new()), Err(JudgeError::NotExactlyOneTestCase));
    assert_eq!(single_test_case(vec![case(1), case(2)]), Err(JudgeError::NotExactlyOneTestCase));
}

#[test]
fn status_columns_split_score_and_error() {
    assert_eq!(status_columns(&StatusUpdate::Graded), (true, None, None));
    assert_eq!(
        status_columns(&StatusUpdate::Failed { error: "Wrong answer", failed_test_case: Some(3) }),
        (false, Some("Wrong answer"), Some(3))
    );
    assert_eq!(
        status_columns(&StatusUpdate::Failed { error: "Compilation error", failed_test_case: None }),
        (false, Some("Compilation error"), None)
    );
}

#[test]
fn trimming_keeps_inner_whitespace_and_unicode_edges() {
    assert!(outputs_match(b"\x0b\x0c a b \r\n", b"a b"));
    assert!(!outputs_match(b"a b", b"ab"));
    assert!(outputs_match("x\u{a0}".as_bytes(), b"x"));
    assert!(!outputs_match(&[0x78, 0xc2], b"x"));
}

#[test]
fn surrounding_whitespace_keeps_the_verdict() {
    assert_eq!(output_verdict(b"42", b"42"), Verdict::Accepted);
    assert_eq!(output_verdict(b" 42\r\n", b"42"), Verdict::Accepted);
    assert_eq!(output_verdict(b"42", b"\t\t42 \n"), Verdict::Accepted);
    assert_eq!(output_verdict(b"41", b"42"), Verdict::WrongAnswer);
    assert_eq!(output_verdict(b" 41\n", b"42"), Verdict::WrongAnswer);
}

#[test]
fn inner_differences_are_wrong_answers() {
    assert_eq!(output_verdict(b"1 2", b"1  2"), Verdict::WrongAnswer);
    assert_eq!(output_verdict(b"1 2", b"1\t2"), Verdict::WrongAnswer);
    assert_eq!(output_verdict(b"abc", b"abd"), Verdict::WrongAnswer);
}
