use vstd::prelude::*;
use crate::queries::client::Stmt;

verus! {

/// A test case of a question, as the judge reads it: its position, where its
/// input and expected output are stored, and whether its details are hidden.
#[derive(Debug, Clone, PartialEq)]
pub struct GetByQuestionId {
    pub index: i32,
    pub input_path: Option<String>,
    pub output_path: String,
    pub is_hidden: bool,
}

/// A test case row as borrowed from the database driver.
pub struct GetByQuestionIdBorrowed<'a> {
    pub index: i32,
    pub input_path: Option<&'a str>,
    pub output_path: &'a str,
    pub is_hidden: bool,
}

/// A test case with its texts as character sequences.
pub struct TestCaseView {
    pub index: i32,
    pub input_path: Option<Seq<char>>,
    pub output_path: Seq<char>,
    pub is_hidden: bool,
}

impl View for GetByQuestionId {
    type V = TestCaseView;

    open spec fn view(&self) -> TestCaseView {
        TestCaseView {
            index: self.index,
            input_path: match self.input_path {
                Some(p) => Some(p@),
                None => None,
            },
            output_path: self.output_path@,
            is_hidden: self.is_hidden,
        }
    }
}

impl<'a> View for GetByQuestionIdBorrowed<'a> {
    type V = TestCaseView;

    open spec fn view(&self) -> TestCaseView {
        TestCaseView {
            index: self.index,
            input_path: match self.input_path {
                Some(p) => Some(p@),
                None => None,
            },
            output_path: self.output_path@,
            is_hidden: self.is_hidden,
        }
    }
}

impl<'a> From<GetByQuestionIdBorrowed<'a>> for GetByQuestionId {
    /// Copies a borrowed row into an owned one, field by field.
    fn from(borrowed: GetByQuestionIdBorrowed<'a>) -> (res: Self)
        ensures
            res@ == borrowed@,
    {
        let input_path = match borrowed.input_path {
            Some(v) => Some(v.to_owned()),
            None => None,
        };
        GetByQuestionId {
            index: borrowed.index,
            input_path,
            output_path: borrowed.output_path.to_owned(),
            is_hidden: borrowed.is_hidden,
        }
    }
}

impl<'a> vstd::std_specs::convert::FromSpecImpl<GetByQuestionIdBorrowed<'a>> for GetByQuestionId {
    /// Owned strings are not determined by their contents alone, so no single
    /// value is claimed for a conversion; `from` states the fields instead.
    open spec fn obeys_from_spec() -> bool {
        false
    }

    open spec fn from_spec(v: GetByQuestionIdBorrowed<'a>) -> GetByQuestionId {
        choose|r: GetByQuestionId| r@ == v@
    }
}

/// Prepares the query that lists a question's test cases in order of their index.
pub fn get_by_question_id() -> (res: GetByQuestionIdStmt)
    ensures
        res.0.query@
            == "SELECT index, input_path, output_path, is_hidden FROM test_cases WHERE question_id = $1 ORDER BY index"@,
{
    GetByQuestionIdStmt(
        Stmt::new(
            "SELECT index, input_path, output_path, is_hidden FROM test_cases WHERE question_id = $1 ORDER BY index",
        ),
    )
}

/// The prepared query that lists a question's test cases.
pub struct GetByQuestionIdStmt(pub Stmt);

} // verus!
