# judges

The decision logic of an online judge's workers, verified with Verus.

- `src/judge.rs`: the algorithm judge's grading of one submission as a state
  machine. The caller performs each `Action` (read a row, compile, run, fetch
  an output, write a row) and reports the result through an `on_..` method.
  The contracts state which status each submission receives, in which order
  test cases run, and which details are recorded.
- `src/verdict.rs`, `src/output.rs`, `src/detail.rs`, `src/status.rs`: how a
  run becomes a verdict, a detail row and a submission status.
- `src/html.rs`: the HTML judge's rules: its single test case and its status.
- `src/test_case.rs`, `src/submission_history.rs`: plain rows.
- `src/language.rs`, `src/runner.rs`, `src/ids.rs`, `src/error.rs`: reading a
  submission's language, a question's limits and a queued submission id.
- `src/queries/`, `src/schema/`: the SQL statements and the rows they read.
- `src/config.rs`: the HTML judge's settings.
- `app/`: the workers themselves: the broker, database, object store,
  compiler, runner and browser, driven by the library.
