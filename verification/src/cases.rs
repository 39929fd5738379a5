//! The declared tests: a fixture's path, or a pattern for several, with the
//! result expected of it.

use vstd::prelude::*;

verus! {

/// What is expected of a fixture.
#[derive(Copy, Clone, Debug, PartialEq, Eq, Structural)]
pub enum Expected {
    /// The fixture builds, and the built program ends with success.
    Pass,
    /// The fixture does not build, and the compiler's diagnostics are those
    /// of the snapshot.
    CompileFail,
}

/// One declared test.
#[derive(Debug)]
pub struct Test {
    /// The fixture's path; with a `*` in it, a pattern for several.
    pub path: String,
    /// What is expected of each fixture that the path stands for.
    pub expected: Expected,
}

/// A declared test as a plain value.
pub struct TestView {
    pub path: Seq<char>,
    pub expected: Expected,
}

impl View for Test {
    type V = TestView;

    open spec fn view(&self) -> TestView {
        TestView { path: self.path@, expected: self.expected }
    }
}

impl Clone for Test {
    fn clone(&self) -> (r: Self)
        ensures
            r == *self,
    {
        Test { path: self.path.clone(), expected: self.expected }
    }
}

/// The tests of a run, in the order of their declaration.
#[derive(Debug)]
pub struct Runner {
    pub tests: Vec<Test>,
}

/// Collects the declarations of one run.
#[derive(Debug)]
pub struct TestCases {
    pub runner: Runner,
}

impl View for TestCases {
    type V = Seq<TestView>;

    open spec fn view(&self) -> Seq<TestView> {
        Seq::new(self.runner.tests@.len(), |i: int| self.runner.tests@[i]@)
    }
}

impl TestCases {
    /// A run with no test declared yet.
    pub fn new() -> (r: Self)
        ensures
            r@ == Seq::<TestView>::empty(),
    {
        let r = TestCases { runner: Runner { tests: Vec::new() } };
        assert(r@ =~= Seq::<TestView>::empty());
        r
    }

    /// Declares that the fixtures at `path` build and run with success.
    /// The declaration is added behind those made before.
    pub fn pass(&mut self, path: &str)
        ensures
            final(self)@ == old(self)@.push(TestView { path: path@, expected: Expected::Pass }),
    {
        self.runner.tests.push(Test { path: path.to_owned(), expected: Expected::Pass });
        assert(self@ =~= old(self)@.push(TestView { path: path@, expected: Expected::Pass }));
    }

    /// Declares that the fixtures at `path` do not build. The declaration is
    /// added behind those made before.
    pub fn compile_fail(&mut self, path: &str)
        ensures
            final(self)@ == old(self)@.push(
                TestView { path: path@, expected: Expected::CompileFail },
            ),
    {
        self.runner.tests.push(Test { path: path.to_owned(), expected: Expected::CompileFail });
        assert(self@ =~= old(self)@.push(
            TestView { path: path@, expected: Expected::CompileFail },
        ));
    }
}

} // verus!
