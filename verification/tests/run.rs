use snapcase::cases::{Expected, Test, TestCases};
use snapcase::directory::Directory;
use snapcase::env::Update;
use snapcase::error::Error;
use snapcase::expand::{expand_globs, ExpandedTest, Origin};
use snapcase::outcome::{
    program_exited, settle, Action, Outcome, Snapshot, Step,
};
use snapcase::run::{failure_notice, Mode, Report, Verdict};
use snapcase::Project;

fn expanded(path: &str, expected: Expected) -> ExpandedTest {
    ExpandedTest {
        name: "test000".to_owned(),
        test: Test { path: path.to_owned(), expected },
        error: None,
        origin: Origin::Literal,
    }
}

fn project(tests: &[ExpandedTest], update: Update) -> Project {
    Project::prepare(tests, Directory::new("/work".to_owned()), update)
}

#[test]
fn declarations_are_kept_in_order() {
    let mut cases = TestCases::new();
    assert!(cases.runner.tests.is_empty());
    cases.pass("tests/run/*.rs");
    cases.compile_fail("tests/ui/a.rs");
    cases.pass("tests/run/b.rs");
    let got: Vec<(String, Expected)> =
        cases.runner.tests.iter().map(|t| (t.path.clone(), t.expected)).collect();
    assert_eq!(
        got,
        vec![
            ("tests/run/*.rs".to_owned(), Expected::Pass),
            ("tests/ui/a.rs".to_owned(), Expected::CompileFail),
            ("tests/run/b.rs".to_owned(), Expected::Pass),
        ]
    );
}

#[test]
fn prepare_looks_at_the_expectations() {
    let both = [expanded("a.rs", Expected::Pass), expanded("b.rs", Expected::CompileFail)];
    let p = project(&both, Update::Overwrite);
    assert!(p.has_pass);
    assert!(p.has_compile_fail);
    assert!(p.keep_going);
    assert_eq!(p.update, Update::Overwrite);
    assert_eq!(p.dir.to_string_lossy(), "/work/");

    let only_fail = [expanded("b.rs", Expected::CompileFail)];
    let p = project(&only_fail, Update::Wip);
    assert!(!p.has_pass);
    assert!(p.has_compile_fail);

    let none = project(&[], Update::Wip);
    assert!(!none.has_pass);
    assert!(!none.has_compile_fail);
}

#[test]
fn lock_file_lies_in_the_working_directory() {
    let p = project(&[], Update::Wip);
    assert_eq!(p.lock_path(), "/work/.lock");
}

#[test]
fn mode_of_a_batch() {
    let tests = [expanded("a.rs", Expected::Pass)];
    let mut p = project(&tests, Update::Wip);
    assert_eq!(p.mode(0), Mode::Nothing);
    assert_eq!(p.mode(1), Mode::Batch);
    p.keep_going = false;
    assert_eq!(p.mode(1), Mode::Individual);
    p.has_pass = false;
    assert_eq!(p.mode(1), Mode::Batch);
}

#[test]
fn earlier_failure_blocks_a_test() {
    let mut t = expanded("a.rs", Expected::Pass);
    assert_eq!(t.blocked_by(None), None);
    let missing = Error::Open("a.rs".to_owned(), "not found".to_owned());
    assert_eq!(t.blocked_by(Some(missing.clone())), Some(missing.clone()));
    t.error = Some(Error::Pattern("bad".to_owned()));
    assert_eq!(t.blocked_by(Some(missing)), Some(Error::Pattern("bad".to_owned())));
}

#[test]
fn notice_is_owed_for_failures_not_yet_shown() {
    assert_eq!(failure_notice(&Error::Mismatch), None);
    assert_eq!(failure_notice(&Error::CargoFail), None);
    assert_eq!(failure_notice(&Error::RunFailed), None);
    assert_eq!(failure_notice(&Error::ShouldNotHaveCompiled), None);
    assert_eq!(
        failure_notice(&Error::Open("a.rs".to_owned(), "not found".to_owned())),
        Some("a.rs: not found".to_owned())
    );
}

#[test]
fn tally_counts_failures_and_provisional_snapshots() {
    let results = [
        Ok(Outcome::Passed),
        Err(Error::Mismatch),
        Ok(Outcome::CreatedWip),
        Ok(Outcome::CreatedWip),
        Err(Error::RunFailed),
        Err(Error::CargoFail),
    ];
    assert_eq!(Report::tally(&results), Report { failures: 3, created_wip: 2 });
    assert_eq!(Report::tally(&[]), Report { failures: 0, created_wip: 0 });
}

#[test]
fn record_adds_one_result() {
    let mut report = Report::new();
    report.record(&Ok(Outcome::Passed));
    assert_eq!(report, Report { failures: 0, created_wip: 0 });
    report.record(&Ok(Outcome::CreatedWip));
    assert_eq!(report, Report { failures: 0, created_wip: 1 });
    report.record(&Err(Error::Mismatch));
    assert_eq!(report, Report { failures: 1, created_wip: 1 });
}

#[test]
fn aborted_batch_counts_every_test_as_failed() {
    assert_eq!(Report::aborted(4), Report { failures: 4, created_wip: 0 });
}

#[test]
fn session_fails_on_failures_first() {
    let report = Report { failures: 2, created_wip: 1 };
    let verdict = report.conclude(5);
    assert_eq!(verdict, Verdict::Failed { failures: 2, total: 5 });
    assert!(!verdict.is_success());
    assert_eq!(verdict.message(), Some("2 of 5 tests failed".to_owned()));
}

#[test]
fn session_fails_on_provisional_snapshots() {
    let verdict = Report { failures: 0, created_wip: 12 }.conclude(20);
    assert_eq!(verdict, Verdict::Provisional { created: 12 });
    assert!(!verdict.is_success());
    assert_eq!(
        verdict.message(),
        Some("successfully created new stderr files for 12 test cases".to_owned())
    );
}

#[test]
fn session_succeeds_without_either() {
    let verdict = Report::new().conclude(3);
    assert_eq!(verdict, Verdict::Success);
    assert!(verdict.is_success());
    assert_eq!(verdict.message(), None);
}

fn run_one(
    test: &ExpandedTest,
    update: Update,
    built: bool,
    stderr: &[u8],
    exit_ok: bool,
    snapshot: Snapshot,
) -> (Result<Outcome, Error>, Action) {
    match test.test.check(built) {
        Step::Finished(result) => (result, Action::Nothing),
        Step::RunArtifact => (program_exited(exit_ok), Action::Nothing),
        Step::ReadSnapshot { .. } => {
            let r = test.test.reconcile(update, stderr, snapshot);
            (settle(r.outcome, None), r.action)
        }
    }
}

#[test]
fn passing_fixture_ends_the_session_well() {
    let mut cases = TestCases::new();
    cases.pass("tests/run/ok.rs");
    let set = expand_globs(&cases.runner.tests, &[]);
    let p = project(&set, Update::Wip);
    assert_eq!(p.mode(set.len()), Mode::Batch);
    let (result, action) = run_one(&set[0], p.update, true, b"", true, Snapshot::Missing);
    assert!(matches!(action, Action::Nothing));
    let report = Report::tally(&[result]);
    assert_eq!(report, Report { failures: 0, created_wip: 0 });
    assert!(report.conclude(set.len()).is_success());
}

#[test]
fn new_snapshot_is_provisional_and_fails_the_session() {
    let mut cases = TestCases::new();
    cases.compile_fail("tests/ui/bad.rs");
    let set = expand_globs(&cases.runner.tests, &[]);
    let p = project(&set, Update::Wip);
    let (result, action) =
        run_one(&set[0], p.update, false, b"error: bad\r\n", false, Snapshot::Missing);
    match action {
        Action::WriteWip { name, content } => {
            assert_eq!(name, "bad.stderr");
            assert_eq!(content, "error: bad\n");
        }
        other => panic!("unexpected action {:?}", other),
    }
    let report = Report::tally(&[result]);
    assert_eq!(report, Report { failures: 0, created_wip: 1 });
    let verdict = report.conclude(set.len());
    assert!(!verdict.is_success());
    assert_eq!(verdict, Verdict::Provisional { created: 1 });
}

#[test]
fn overwriting_a_differing_snapshot_ends_the_session_well() {
    let mut cases = TestCases::new();
    cases.compile_fail("tests/ui/bad.rs");
    let set = expand_globs(&cases.runner.tests, &[]);
    let p = project(&set, Update::Overwrite);
    let (result, action) = run_one(
        &set[0],
        p.update,
        false,
        b"error: new\n",
        false,
        Snapshot::Present("error: old\n".to_owned()),
    );
    match action {
        Action::Overwrite { path, content } => {
            assert_eq!(path, "tests/ui/bad.stderr");
            assert_eq!(content, "error: new\n");
        }
        other => panic!("unexpected action {:?}", other),
    }
    let report = Report::tally(&[result]);
    assert_eq!(report, Report { failures: 0, created_wip: 0 });
    assert!(report.conclude(set.len()).is_success());
}

#[test]
fn unexpected_build_fails_the_session() {
    let mut cases = TestCases::new();
    cases.compile_fail("tests/ui/bad.rs");
    let set = expand_globs(&cases.runner.tests, &[]);
    let p = project(&set, Update::Wip);
    let (result, action) = run_one(&set[0], p.update, true, b"", true, Snapshot::Missing);
    assert!(matches!(action, Action::Nothing));
    assert_eq!(result, Err(Error::ShouldNotHaveCompiled));
    let error = result.clone().unwrap_err();
    assert!(error.already_printed());
    assert_eq!(error.message(), "expected test case to fail to compile, but it succeeded");
    let report = Report::tally(&[result]);
    assert_eq!(report, Report { failures: 1, created_wip: 0 });
    let verdict = report.conclude(set.len());
    assert!(!verdict.is_success());
    assert_eq!(verdict.message(), Some("1 of 1 tests failed".to_owned()));
}
