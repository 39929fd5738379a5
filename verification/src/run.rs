//! The run as a whole: what is known of the batch before it starts, how the
//! tests' results add up, and how the session ends.

use crate::cases::Expected;
use crate::directory::{joined, Directory};
use crate::env::Update;
use crate::error::{Error, Result};
use crate::expand::ExpandedTest;
use crate::outcome::Outcome;
use crate::text::{decimal, push_decimal};
use vstd::prelude::*;
use vstd::string::StringExecFns;

verus! {

/// What a run knows of its batch before the first test.
#[derive(Debug)]
pub struct Project {
    /// The working directory.
    pub dir: Directory,
    /// Whether a test of the batch is expected to pass.
    pub has_pass: bool,
    /// The update policy.
    pub update: Update,
    /// Whether a test of the batch is expected not to build.
    pub has_compile_fail: bool,
    /// Whether the run goes on after a failure.
    pub keep_going: bool,
}

/// How the tests of a batch are run.
#[derive(Copy, Clone, Debug, PartialEq, Eq, Structural)]
pub enum Mode {
    /// Not at all: the batch is empty.
    Nothing,
    /// One after the other in the batch loop, which goes on after a
    /// failure.
    Batch,
    /// Each by itself, with full diagnostics.
    Individual,
}

/// Whether a test of the batch has the given expectation.
pub open spec fn has_expected(tests: Seq<ExpandedTest>, expected: Expected) -> bool {
    exists|i: int| 0 <= i < tests.len() && (#[trigger] tests[i]).test.expected == expected
}

/// The name of the lock file in the working directory.
pub const LOCK_FILE: &'static str = ".lock";

impl Project {
    /// Where the lock file of this run lies: in the working directory.
    pub fn lock_path(&self) -> (r: String)
        ensures
            r@ == joined(self.dir@, LOCK_FILE@),
    {
        self.dir.join(LOCK_FILE)
    }


    /// What is known of a batch that runs in `dir` under the policy
    /// `update`. The run goes on after a failure.
    pub fn prepare(tests: &[ExpandedTest], dir: Directory, update: Update) -> (r: Self)
        ensures
            r.dir == dir,
            r.update == update,
            r.keep_going,
            r.has_pass == has_expected(tests@, Expected::Pass),
            r.has_compile_fail == has_expected(tests@, Expected::CompileFail),
    {
        let mut has_pass = false;
        let mut has_compile_fail = false;
        for i in 0..tests.len()
            invariant
                has_pass == has_expected(tests@.take(i as int), Expected::Pass),
                has_compile_fail == has_expected(tests@.take(i as int), Expected::CompileFail),
        {
            let ghost upto = tests@.take(i + 1);
            assert(upto[i as int] == tests@[i as int]);
            assert forall|e: Expected| has_expected(upto, e) == (has_expected(
                tests@.take(i as int),
                e,
            ) || tests@[i as int].test.expected == e) by {
                if has_expected(tests@.take(i as int), e) {
                    let k = choose|k: int|
                        0 <= k < i && (#[trigger] tests@.take(i as int)[k]).test.expected == e;
                    assert(upto[k].test.expected == e);
                }
                if has_expected(upto, e) {
                    let k = choose|k: int| 0 <= k < i + 1 && (#[trigger] upto[k]).test.expected == e;
                    if k < i {
                        assert(tests@.take(i as int)[k].test.expected == e);
                    }
                }
            }
            match tests[i].test.expected {
                Expected::Pass => has_pass = true,
                Expected::CompileFail => has_compile_fail = true,
            }
        }
        assert(tests@.take(tests@.len() as int) =~= tests@);
        Project { dir, has_pass, update, has_compile_fail, keep_going: true }
    }

    /// How a batch of `total` tests is run: each test by itself where the
    /// batch holds a test that is expected to pass and the run is set to
    /// stop at a failure, else all in the batch loop.
    pub fn mode(&self, total: usize) -> (r: Mode)
        ensures
            r == if total == 0 {
                Mode::Nothing
            } else if self.has_pass && !self.keep_going {
                Mode::Individual
            } else {
                Mode::Batch
            },
    {
        if total == 0 {
            Mode::Nothing
        } else if self.has_pass && !self.keep_going {
            Mode::Individual
        } else {
            Mode::Batch
        }
    }
}

impl ExpandedTest {
    /// The failure that keeps this test from being built: the one met
    /// when it was expanded, or else the one met when its file was looked
    /// for.
    pub fn blocked_by(&self, missing: Option<Error>) -> (r: Option<Error>)
        ensures
            r == if self.error is Some {
                self.error
            } else {
                missing
            },
    {
        match &self.error {
            Some(e) => Some(e.clone()),
            None => missing,
        }
    }
}

/// The general message owed for a failure when it is added to the report:
/// none for a failure that was shown in full when it was found.
pub fn failure_notice(error: &Error) -> (r: Option<String>)
    ensures
        match r {
            Some(text) => !error.is_already_printed() && text@ == error.message_text(),
            None => error.is_already_printed(),
        },
{
    if error.already_printed() {
        None
    } else {
        Some(error.message())
    }
}

/// The number of tests among the results that failed.
pub open spec fn failures_in(results: Seq<Result<Outcome>>) -> nat
    decreases results.len(),
{
    if results.len() == 0 {
        0
    } else {
        failures_in(results.drop_last()) + if results.last() is Err {
            1nat
        } else {
            0nat
        }
    }
}

/// The number of tests among the results for which a provisional snapshot
/// was written.
pub open spec fn created_in(results: Seq<Result<Outcome>>) -> nat
    decreases results.len(),
{
    if results.len() == 0 {
        0
    } else {
        created_in(results.drop_last()) + if results.last() == Ok::<Outcome, Error>(
            Outcome::CreatedWip,
        ) {
            1nat
        } else {
            0nat
        }
    }
}

proof fn lemma_counts_bounded(results: Seq<Result<Outcome>>)
    ensures
        failures_in(results) + created_in(results) <= results.len(),
    decreases results.len(),
{
    if results.len() > 0 {
        lemma_counts_bounded(results.drop_last());
    }
}

/// What a batch came to.
#[derive(Copy, Clone, Debug, PartialEq, Eq, Structural)]
pub struct Report {
    /// The number of tests that failed.
    pub failures: usize,
    /// The number of tests for which a provisional snapshot was written.
    pub created_wip: usize,
}

impl Report {
    /// The report of a batch in which nothing has run yet.
    pub fn new() -> (r: Self)
        ensures
            r == (Report { failures: 0, created_wip: 0 }),
    {
        Report { failures: 0, created_wip: 0 }
    }

    /// The report of a batch of `total` tests that was broken off: every
    /// test counts as failed.
    pub fn aborted(total: usize) -> (r: Self)
        ensures
            r == (Report { failures: total, created_wip: 0 }),
    {
        Report { failures: total, created_wip: 0 }
    }

    /// Adds the result of one test: a failure and a provisional snapshot
    /// are counted, a pass leaves the report as it is.
    pub fn record(&mut self, result: &Result<Outcome>)
        requires
            old(self).failures < usize::MAX,
            old(self).created_wip < usize::MAX,
        ensures
            final(self).failures == old(self).failures + if result is Err {
                1int
            } else {
                0int
            },
            final(self).created_wip == old(self).created_wip + if *result == Ok::<Outcome, Error>(
                Outcome::CreatedWip,
            ) {
                1int
            } else {
                0int
            },
    {
        match result {
            Ok(Outcome::Passed) => {},
            Ok(Outcome::CreatedWip) => {
                self.created_wip = self.created_wip + 1;
            },
            Err(_) => {
                self.failures = self.failures + 1;
            },
        }
    }

    /// The report of a batch with the given results, one for each test.
    pub fn tally(results: &[Result<Outcome>]) -> (r: Self)
        ensures
            r.failures == failures_in(results@),
            r.created_wip == created_in(results@),
    {
        let mut report = Report::new();
        assert(results@.take(0) =~= Seq::<Result<Outcome>>::empty());
        for i in 0..results.len()
            invariant
                report.failures == failures_in(results@.take(i as int)),
                report.created_wip == created_in(results@.take(i as int)),
        {
            let ghost upto = results@.take(i + 1);
            assert(upto.drop_last() =~= results@.take(i as int));
            assert(upto.last() == results@[i as int]);
            proof {
                lemma_counts_bounded(results@.take(i as int));
            }
            report.record(&results[i]);
        }
        assert(results@.take(results@.len() as int) =~= results@);
        report
    }

    /// How the session ends: it fails if a test failed; it also fails if a
    /// provisional snapshot was written, since such a snapshot is to be
    /// accepted by hand first; else it succeeds.
    pub fn conclude(&self, total: usize) -> (r: Verdict)
        ensures
            r == if self.failures > 0 {
                Verdict::Failed { failures: self.failures, total }
            } else if self.created_wip > 0 {
                Verdict::Provisional { created: self.created_wip }
            } else {
                Verdict::Success
            },
    {
        if self.failures > 0 {
            Verdict::Failed { failures: self.failures, total }
        } else if self.created_wip > 0 {
            Verdict::Provisional { created: self.created_wip }
        } else {
            Verdict::Success
        }
    }
}

/// How a session ends.
#[derive(Copy, Clone, Debug, PartialEq, Eq, Structural)]
pub enum Verdict {
    /// No test failed and no provisional snapshot was written.
    Success,
    /// `failures` of `total` tests failed.
    Failed { failures: usize, total: usize },
    /// No test failed, and `created` provisional snapshots were written.
    Provisional { created: usize },
}

impl Verdict {
    /// The message with which a session that does not succeed ends.
    pub open spec fn message_text(self) -> Option<Seq<char>> {
        match self {
            Verdict::Success => None,
            Verdict::Failed { failures, total } => Some(
                decimal(failures as nat) + " of "@ + decimal(total as nat) + " tests failed"@,
            ),
            Verdict::Provisional { created } => Some(
                "successfully created new stderr files for "@ + decimal(created as nat)
                    + " test cases"@,
            ),
        }
    }

    /// Whether the session succeeds.
    pub fn is_success(&self) -> (r: bool)
        ensures
            r == (*self is Success),
    {
        match self {
            Verdict::Success => true,
            _ => false,
        }
    }

    /// The message with which a session that does not succeed ends.
    pub fn message(&self) -> (r: Option<String>)
        ensures
            match r {
                Some(text) => self.message_text() == Some(text@),
                None => self.message_text() is None,
            },
    {
        match self {
            Verdict::Success => None,
            Verdict::Failed { failures, total } => {
                let mut text = String::new();
                push_decimal(&mut text, *failures);
                text.append(" of ");
                push_decimal(&mut text, *total);
                text.append(" tests failed");
                assert(text@ =~= decimal(*failures as nat) + " of "@ + decimal(*total as nat)
                    + " tests failed"@);
                Some(text)
            },
            Verdict::Provisional { created } => {
                let mut text = String::from_str("successfully created new stderr files for ");
                push_decimal(&mut text, *created);
                text.append(" test cases");
                Some(text)
            },
        }
    }
}

} // verus!
