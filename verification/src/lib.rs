//! Decision logic of the online judges: verdicts, the algorithm judge's
//! grading state machine, the rows it reads and writes, and the SQL
//! statements it prepares.
pub mod verdict;
pub mod output;
pub mod error;
pub mod ids;
pub mod language;
pub mod runner;
pub mod queries;
pub mod detail;
pub mod status;
pub mod judge;
pub mod config;
pub mod schema;
pub mod html;
pub mod submission_history;
pub mod test_case;
