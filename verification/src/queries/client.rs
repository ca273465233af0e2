use vstd::prelude::*;

verus! {

/// A statement the database client prepares before running it: its SQL text.
pub struct Stmt {
    pub query: &'static str,
}

impl Stmt {
    /// A statement for the given SQL text.
    pub fn new(query: &'static str) -> (res: Stmt)
        ensures
            res.query@ == query@,
    {
        Stmt { query }
    }

    /// The SQL text of the statement.
    pub fn query(&self) -> (res: &'static str)
        ensures
            res@ == self.query@,
    {
        self.query
    }
}

} // verus!
