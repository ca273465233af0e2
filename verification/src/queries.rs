//! The SQL statements the judges prepare and the rows they read.
pub mod client;
pub mod submission;
pub mod submission_detail;
pub mod test_case;
