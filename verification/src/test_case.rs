use vstd::prelude::*;

verus! {

/// A test case row with its own id: where its input and expected output are
/// stored, and whether its details are hidden.
pub struct TestCase {
    pub id: uuid::Uuid,
    pub input_path: String,
    pub output_path: String,
    pub is_hidden: bool,
}

} // verus!
