//! The outcome of one test: what a build result means for a fixture, and
//! how the compiler's diagnostics are reconciled with the snapshot.
//!
//! The functions here decide; the caller builds, runs, reads and writes.
//! After a build, `Test::check` says what to do next. For a fixture that is
//! expected not to build, the caller then looks for the snapshot and hands
//! what it found to `Test::reconcile`, performs the write that comes back,
//! and lets `settle` fold the write's result into the outcome.

use crate::cases::{Expected, Test, TestView};
use crate::env::Update;
use crate::error::{Error, Result};
use crate::text::{decode_lossy, lossy_decoded, normalize, same_text, unify_line_endings};
use vstd::prelude::*;
use vstd::string::StringExecFns;

verus! {

/// How a test ended, where it did not fail.
#[derive(Debug, PartialEq, Eq, Clone, Copy, Structural)]
pub enum Outcome {
    /// The fixture met its expectation.
    Passed,
    /// The fixture had no snapshot, and a provisional one was written.
    CreatedWip,
}

/// The directory that provisional snapshots are written to.
pub const WIP_DIR: &'static str = "wip";

/// The file in that directory that keeps it out of version control.
pub const WIP_MARKER: &'static str = ".gitignore";

/// What that file holds.
pub const WIP_MARKER_CONTENT: &'static str = "*\n";

/// The path of a file with its extension replaced, or added where it has
/// none, as `Path::with_extension` gives it.
pub uninterp spec fn extension_replaced(path: Seq<char>, extension: Seq<char>) -> Seq<char>;

/// The last component of a path, if it names a file or directory, as
/// `Path::file_name` gives it.
pub uninterp spec fn file_name_of(path: Seq<char>) -> Option<Seq<char>>;

/// `Path::with_extension` of the standard library, on paths held as text.
/// The new path depends on the two texts alone. An extension that holds a
/// path separator is left out, since the standard library may refuse it.
#[verifier::external_body]
fn with_extension(path: &str, extension: &str) -> (r: String)
    requires
        !extension@.contains('/'),
        !extension@.contains('\\'),
    ensures
        r@ == extension_replaced(path@, extension@),
{
    std::path::Path::new(path).with_extension(extension).to_string_lossy().into_owned()
}

/// `Path::file_name` of the standard library, on a path held as text. The
/// name depends on the path's text alone.
#[verifier::external_body]
fn file_name(path: &str) -> (r: Option<String>)
    ensures
        match r {
            Some(name) => file_name_of(path@) == Some(name@),
            None => file_name_of(path@) is None,
        },
{
    std::path::Path::new(path).file_name().map(|name| name.to_string_lossy().into_owned())
}

/// Where the snapshot of a fixture lies: beside it, with the extension
/// `stderr`.
pub open spec fn snapshot_path_of(path: Seq<char>) -> Seq<char> {
    extension_replaced(path, "stderr"@)
}

/// The name under which a fixture's provisional snapshot is written: the
/// file name of its snapshot, or `test.stderr` where that path has none.
pub open spec fn wip_name_of(path: Seq<char>) -> Seq<char> {
    match file_name_of(snapshot_path_of(path)) {
        Some(name) => name,
        None => "test.stderr"@,
    }
}

/// What the caller does after a build.
#[derive(Debug)]
pub enum Step {
    /// Run the built program, and hand its exit status to `program_exited`.
    RunArtifact,
    /// Look for the snapshot at `path`, and hand what is found to
    /// `Test::reconcile`.
    ReadSnapshot { path: String },
    /// Nothing: the test has ended.
    Finished(Result<Outcome>),
}

/// What the caller found where the snapshot should be.
#[derive(Debug)]
pub enum Snapshot {
    /// No file.
    Missing,
    /// A file that could not be read, with the error's text.
    Unreadable(String),
    /// A file with this content.
    Present(String),
}

/// A write that a reconciliation asks of the caller.
#[derive(Debug)]
pub enum Action {
    /// No write.
    Nothing,
    /// Make sure that the directory `WIP_DIR` exists and that its file
    /// `WIP_MARKER` holds `WIP_MARKER_CONTENT`, then write `content` to the
    /// file `name` in that directory.
    WriteWip { name: String, content: String },
    /// Write `content` to the file at `path`, replacing what it held.
    Overwrite { path: String, content: String },
}

/// A write that failed, with the error's text.
#[derive(Debug)]
pub enum WriteFailure {
    /// The work-in-progress directory or its marker could not be made.
    Prepare(String),
    /// The snapshot itself could not be written.
    Snapshot(String),
}

/// The result of reconciling diagnostics with a snapshot.
#[derive(Debug)]
pub struct Reconciled {
    /// The diagnostics as they were compared: decoded, with line endings
    /// unified.
    pub actual: String,
    /// How the test ends, provided that the write in `action` succeeds.
    pub outcome: Result<Outcome>,
    /// The write to perform.
    pub action: Action,
}

/// The diagnostics as they are compared with a snapshot.
pub open spec fn normalized(stderr: Seq<u8>) -> Seq<char> {
    unify_line_endings(lossy_decoded(stderr))
}

impl Reconciled {
    /// Whether this is the right answer for a fixture at `path` under the
    /// policy `update`, with diagnostics `stderr` and the snapshot as found.
    ///
    /// Without a snapshot, the provisional policy writes a provisional one and
    /// the overwriting policy writes the snapshot itself. A snapshot equal
    /// to the diagnostics passes and is left alone. One that differs fails
    /// under the provisional policy, and is rewritten, and passes, under the
    /// overwriting one.
    pub open spec fn answers(
        self,
        path: Seq<char>,
        update: Update,
        stderr: Seq<u8>,
        snapshot: Snapshot,
    ) -> bool {
        &&& self.actual@ == normalized(stderr)
        &&& match snapshot {
            Snapshot::Missing => match update {
                Update::Wip => {
                    &&& self.outcome == Ok::<Outcome, Error>(Outcome::CreatedWip)
                    &&& self.action matches Action::WriteWip { name, content }
                    &&& name@ == wip_name_of(path)
                    &&& content@ == normalized(stderr)
                },
                Update::Overwrite => self.passes_rewriting(path, stderr),
            },
            Snapshot::Unreadable(e) => {
                &&& self.outcome matches Err(Error::ReadStderr(text))
                &&& text@ == e@
                &&& self.action is Nothing
            },
            Snapshot::Present(expected) => if expected@ == normalized(stderr) {
                &&& self.outcome == Ok::<Outcome, Error>(Outcome::Passed)
                &&& self.action is Nothing
            } else {
                match update {
                    Update::Wip => {
                        &&& self.outcome == Err::<Outcome, Error>(Error::Mismatch)
                        &&& self.action is Nothing
                    },
                    Update::Overwrite => self.passes_rewriting(path, stderr),
                }
            },
        }
    }

    /// The test passes, and the snapshot is to be written anew with the
    /// diagnostics.
    pub open spec fn passes_rewriting(self, path: Seq<char>, stderr: Seq<u8>) -> bool {
        &&& self.outcome == Ok::<Outcome, Error>(Outcome::Passed)
        &&& self.action matches Action::Overwrite { path: target, content }
        &&& target@ == snapshot_path_of(path)
        &&& content@ == normalized(stderr)
    }
}

impl Test {
    /// Where this fixture's snapshot lies.
    pub fn snapshot_path(&self) -> (r: String)
        ensures
            r@ == snapshot_path_of(self.path@),
    {
        proof {
            reveal_strlit("stderr");
            assert(!"stderr"@.contains('/'));
            assert(!"stderr"@.contains('\\'));
        }
        with_extension(self.path.as_str(), "stderr")
    }

    /// The name under which this fixture's provisional snapshot is written.
    pub fn wip_name(&self) -> (r: String)
        ensures
            r@ == wip_name_of(self.path@),
    {
        let snapshot = self.snapshot_path();
        match file_name(snapshot.as_str()) {
            Some(name) => name,
            None => String::from_str("test.stderr"),
        }
    }

    /// What a build result means for this fixture, by its expectation.
    pub fn check(&self, success: bool) -> (r: Step)
        ensures
            Test::step_after_build(self@, success, r),
    {
        match self.expected {
            Expected::Pass => self.check_pass(success),
            Expected::CompileFail => self.check_compile_fail(success),
        }
    }

    /// Whether `step` is the step after the build of the given test.
    pub open spec fn step_after_build(test: TestView, success: bool, step: Step) -> bool {
        match test.expected {
            Expected::Pass => step == Test::pass_step(success),
            Expected::CompileFail => Test::compile_fail_step(test.path, success, step),
        }
    }

    /// The step after the build of a fixture that is expected to pass: a
    /// failed build ends the test, a built program is to be run.
    pub open spec fn pass_step(success: bool) -> Step {
        if success {
            Step::RunArtifact
        } else {
            Step::Finished(Err(Error::CargoFail))
        }
    }

    /// Whether `step` is the step after the build of a fixture at `path`
    /// that is expected not to build: a build that succeeded ends the test
    /// as a failure, otherwise the snapshot is to be looked for.
    pub open spec fn compile_fail_step(path: Seq<char>, success: bool, step: Step) -> bool {
        if success {
            step == Step::Finished(Err(Error::ShouldNotHaveCompiled))
        } else {
            step matches Step::ReadSnapshot { path: target } && target@ == snapshot_path_of(path)
        }
    }

    /// The step after the build of a fixture that is expected to pass.
    pub fn check_pass(&self, success: bool) -> (r: Step)
        ensures
            r == Test::pass_step(success),
    {
        if !success {
            return Step::Finished(Err(Error::CargoFail));
        }
        Step::RunArtifact
    }

    /// The step after the build of a fixture that is expected not to build.
    pub fn check_compile_fail(&self, success: bool) -> (r: Step)
        ensures
            Test::compile_fail_step(self.path@, success, r),
    {
        if success {
            return Step::Finished(Err(Error::ShouldNotHaveCompiled));
        }
        Step::ReadSnapshot { path: self.snapshot_path() }
    }

    /// Reconciles the diagnostics of a failed build with the snapshot, under
    /// the policy `update`.
    pub fn reconcile(&self, update: Update, stderr: &[u8], snapshot: Snapshot) -> (r: Reconciled)
        ensures
            r.answers(self.path@, update, stderr@, snapshot),
    {
        let decoded = decode_lossy(stderr);
        let actual = normalize(decoded.as_str());
        match snapshot {
            Snapshot::Missing => match update {
                Update::Wip => {
                    let name = self.wip_name();
                    let content = actual.clone();
                    Reconciled {
                        actual,
                        outcome: Ok(Outcome::CreatedWip),
                        action: Action::WriteWip { name, content },
                    }
                },
                Update::Overwrite => self.rewrite(actual),
            },
            Snapshot::Unreadable(e) => Reconciled {
                actual,
                outcome: Err(Error::ReadStderr(e)),
                action: Action::Nothing,
            },
            Snapshot::Present(expected) => {
                if same_text(actual.as_str(), expected.as_str()) {
                    Reconciled { actual, outcome: Ok(Outcome::Passed), action: Action::Nothing }
                } else {
                    match update {
                        Update::Wip => Reconciled {
                            actual,
                            outcome: Err(Error::Mismatch),
                            action: Action::Nothing,
                        },
                        Update::Overwrite => self.rewrite(actual),
                    }
                }
            },
        }
    }

    fn rewrite(&self, actual: String) -> (r: Reconciled)
        ensures
            r.actual@ == actual@,
            r.outcome == Ok::<Outcome, Error>(Outcome::Passed),
            r.action matches Action::Overwrite { path, content } && path@ == snapshot_path_of(
                self.path@,
            ) && content@ == actual@,
    {
        let path = self.snapshot_path();
        let content = actual.clone();
        Reconciled { actual, outcome: Ok(Outcome::Passed), action: Action::Overwrite { path, content } }
    }
}

/// How a test of a fixture that is expected to pass ends once its program
/// has run: with success if the program's exit status was success.
pub fn program_exited(success: bool) -> (r: Result<Outcome>)
    ensures
        r == if success {
            Ok::<Outcome, Error>(Outcome::Passed)
        } else {
            Err::<Outcome, Error>(Error::RunFailed)
        },
{
    if success {
        Ok(Outcome::Passed)
    } else {
        Err(Error::RunFailed)
    }
}

/// How a reconciled test ends once its write was attempted: as reconciled
/// if nothing failed, else with the failure of the write.
pub fn settle(outcome: Result<Outcome>, failure: Option<WriteFailure>) -> (r: Result<Outcome>)
    ensures
        match failure {
            None => r == outcome,
            Some(WriteFailure::Prepare(e)) => r matches Err(Error::Io(text)) && text@ == e@,
            Some(WriteFailure::Snapshot(e)) => r matches Err(Error::WriteStderr(text)) && text@
                == e@,
        },
{
    match failure {
        None => outcome,
        Some(WriteFailure::Prepare(e)) => Err(Error::Io(e)),
        Some(WriteFailure::Snapshot(e)) => Err(Error::WriteStderr(e)),
    }
}

/// With a snapshot at hand, the snapshot decides. One that holds exactly
/// the diagnostics lets the test pass under either policy, and nothing is
/// written. One that differs makes the test fail under the provisional
/// policy, which leaves the snapshot as it is; under the overwriting policy
/// the test passes and the snapshot is written anew with the diagnostics.
pub proof fn lemma_snapshot_decides(
    r: Reconciled,
    path: Seq<char>,
    update: Update,
    stderr: Seq<u8>,
    expected: String,
)
    requires
        r.answers(path, update, stderr, Snapshot::Present(expected)),
    ensures
        expected@ == normalized(stderr) ==> r.outcome == Ok::<Outcome, Error>(Outcome::Passed)
            && r.action is Nothing,
        expected@ != normalized(stderr) && update is Wip ==> r.outcome == Err::<Outcome, Error>(
            Error::Mismatch,
        ) && r.action is Nothing,
        expected@ != normalized(stderr) && update is Overwrite ==> r.passes_rewriting(path, stderr),
{
}

/// Two reconciliations of the same diagnostics with the same snapshot end
/// alike and ask for the same write.
pub proof fn lemma_reconciliation_is_determined(
    first: Reconciled,
    second: Reconciled,
    path: Seq<char>,
    update: Update,
    stderr: Seq<u8>,
    snapshot: Snapshot,
)
    requires
        first.answers(path, update, stderr, snapshot),
        second.answers(path, update, stderr, snapshot),
    ensures
        first.actual@ == second.actual@,
        first.outcome is Ok <==> second.outcome is Ok,
        first.outcome is Ok ==> first.outcome == second.outcome,
        first.action is Nothing <==> second.action is Nothing,
        first.action is WriteWip <==> second.action is WriteWip,
        first.action is Overwrite <==> second.action is Overwrite,
{
}

} // verus!
