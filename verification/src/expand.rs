//! From the declared tests to the tests that run: patterns are replaced by
//! the paths they match, each path gets an ordinal name, and a path that
//! patterns match more than once is kept once.

use crate::cases::{Expected, Test, TestView};
use crate::error::{Error, Result};
use crate::order::{lemma_sorted_texts_of_permutation, sort_paths, sorted_texts, texts};
use crate::text::{chars_of, decimal, push_decimal};
use vstd::prelude::*;
use vstd::string::StringExecFns;

verus! {

/// How a test came into the set.
#[derive(Copy, Clone, Debug, PartialEq, Eq, Structural)]
pub enum Origin {
    /// It was declared with this very path.
    Literal,
    /// A declared pattern matched its path.
    FromGlob,
}

/// A test of the set that runs.
#[derive(Debug)]
pub struct ExpandedTest {
    /// The ordinal name, under which the fixture is built.
    pub name: String,
    /// The fixture and what is expected of it.
    pub test: Test,
    /// The failure met while the test was expanded, if any.
    pub error: Option<Error>,
    /// How the test came into the set.
    pub origin: Origin,
}

/// A test of the set that runs, as a plain value.
pub struct ExpandedTestView {
    pub name: Seq<char>,
    pub test: TestView,
    pub error: Option<Error>,
    pub origin: Origin,
}

impl View for ExpandedTest {
    type V = ExpandedTestView;

    open spec fn view(&self) -> ExpandedTestView {
        ExpandedTestView {
            name: self.name@,
            test: self.test@,
            error: self.error,
            origin: self.origin,
        }
    }
}

/// The tests that a sequence holds, as plain values.
pub open spec fn views(v: Seq<ExpandedTest>) -> Seq<ExpandedTestView> {
    v.map_values(|t: ExpandedTest| t@)
}

/// The declared tests that a sequence holds, as plain values.
pub open spec fn test_views(v: Seq<Test>) -> Seq<TestView> {
    v.map_values(|t: Test| t@)
}

/// The decimal numeral of `n`, filled with zeros in front to three digits.
pub open spec fn zero_padded(n: nat) -> Seq<char> {
    if n < 10 {
        "00"@ + decimal(n)
    } else if n < 100 {
        "0"@ + decimal(n)
    } else {
        decimal(n)
    }
}

/// The name of the test that is inserted when `index` tests are in the
/// set: `test` and the index in at least three digits.
pub open spec fn ordinal_name(index: nat) -> Seq<char> {
    "test"@ + zero_padded(index)
}

/// The ordinal name for the given index.
pub fn ordinal(index: usize) -> (r: String)
    ensures
        r@ == ordinal_name(index as nat),
{
    let mut r = String::from_str("test");
    if index < 10 {
        r.append("00");
    } else if index < 100 {
        r.append("0");
    }
    push_decimal(&mut r, index);
    assert(r@ =~= ordinal_name(index as nat));
    r
}

/// The index that a path maps to in the set: that of the last test with
/// this path.
pub open spec fn last_index_of(set: Seq<ExpandedTestView>, path: Seq<char>) -> Option<int>
    decreases set.len(),
{
    if set.len() == 0 {
        None
    } else if set.last().test.path == path {
        Some(set.len() - 1)
    } else {
        last_index_of(set.drop_last(), path)
    }
}

/// The test at `i` with another expectation.
pub open spec fn with_expected(t: ExpandedTestView, expected: Expected) -> ExpandedTestView {
    ExpandedTestView { test: TestView { path: t.test.path, expected }, ..t }
}

/// The set after the insertion of a test. Where its path maps to a test
/// that a pattern brought in, only that test's expectation changes.
/// Otherwise the test is added at the end, under the next ordinal name.
pub open spec fn inserted(
    set: Seq<ExpandedTestView>,
    test: TestView,
    error: Option<Error>,
    origin: Origin,
) -> Seq<ExpandedTestView> {
    match last_index_of(set, test.path) {
        Some(i) if set[i].origin is FromGlob => set.update(i, with_expected(set[i], test.expected)),
        _ => set.push(ExpandedTestView { name: ordinal_name(set.len()), test, error, origin }),
    }
}

/// The set after the insertion, in order, of the paths that one pattern
/// matched.
pub open spec fn inserted_all(
    set: Seq<ExpandedTestView>,
    paths: Seq<Seq<char>>,
    expected: Expected,
) -> Seq<ExpandedTestView>
    decreases paths.len(),
{
    if paths.len() == 0 {
        set
    } else {
        inserted(
            inserted_all(set, paths.drop_last(), expected),
            TestView { path: paths.last(), expected },
            None,
            Origin::FromGlob,
        )
    }
}

/// What holds of every set that insertions build: each test has the
/// ordinal name of its place, and a test that is followed by another with
/// the same path was declared with that path. So a test that a pattern
/// brought in is the last with its path.
pub open spec fn well_formed(set: Seq<ExpandedTestView>) -> bool {
    &&& forall|i: int| 0 <= i < set.len() ==> (#[trigger] set[i]).name == ordinal_name(i as nat)
    &&& forall|i: int, j: int|
        0 <= i < j < set.len() && (#[trigger] set[i]).test.path == (#[trigger] set[j]).test.path
            ==> set[i].origin is Literal
}

proof fn lemma_last_index_of(set: Seq<ExpandedTestView>, path: Seq<char>)
    ensures
        match last_index_of(set, path) {
            Some(i) => {
                &&& 0 <= i < set.len()
                &&& set[i].test.path == path
                &&& forall|j: int| i < j < set.len() ==> (#[trigger] set[j]).test.path != path
            },
            None => forall|j: int| 0 <= j < set.len() ==> (#[trigger] set[j]).test.path != path,
        },
    decreases set.len(),
{
    if set.len() > 0 && set.last().test.path != path {
        lemma_last_index_of(set.drop_last(), path);
        assert forall|j: int| 0 <= j < set.len() - 1 implies set.drop_last()[j] == set[j] by {}
        match last_index_of(set.drop_last(), path) {
            Some(i) => {
                assert forall|j: int| i < j < set.len() implies (#[trigger] set[j]).test.path
                    != path by {
                    if j < set.len() - 1 {
                        assert(set.drop_last()[j].test.path != path);
                    }
                }
            },
            None => {
                assert forall|j: int| 0 <= j < set.len() implies (#[trigger] set[j]).test.path
                    != path by {
                    if j < set.len() - 1 {
                        assert(set.drop_last()[j].test.path != path);
                    }
                }
            },
        }
    }
}

/// An insertion keeps a set well formed.
pub proof fn lemma_inserted_well_formed(
    set: Seq<ExpandedTestView>,
    test: TestView,
    error: Option<Error>,
    origin: Origin,
)
    requires
        well_formed(set),
    ensures
        well_formed(inserted(set, test, error, origin)),
{
    lemma_last_index_of(set, test.path);
    let after = inserted(set, test, error, origin);
    match last_index_of(set, test.path) {
        Some(k) => {
            if set[k].origin is FromGlob {
                assert forall|i: int, j: int|
                    0 <= i < j < after.len() && (#[trigger] after[i]).test.path == (
                    #[trigger] after[j]).test.path implies after[i].origin is Literal by {
                    assert(set[i].test.path == set[j].test.path);
                }
            } else {
                assert forall|i: int, j: int|
                    0 <= i < j < after.len() && (#[trigger] after[i]).test.path == (
                    #[trigger] after[j]).test.path implies after[i].origin is Literal by {
                    if j < set.len() {
                        assert(set[i].test.path == set[j].test.path);
                    } else if i < k {
                        assert(set[i].test.path == set[k].test.path);
                    }
                }
            }
        },
        None => {
            assert forall|i: int, j: int|
                0 <= i < j < after.len() && (#[trigger] after[i]).test.path == (
                #[trigger] after[j]).test.path implies after[i].origin is Literal by {
                if j < set.len() {
                    assert(set[i].test.path == set[j].test.path);
                }
            }
        },
    }
}

proof fn lemma_inserted_all_well_formed(
    set: Seq<ExpandedTestView>,
    paths: Seq<Seq<char>>,
    expected: Expected,
)
    requires
        well_formed(set),
    ensures
        well_formed(inserted_all(set, paths, expected)),
    decreases paths.len(),
{
    if paths.len() > 0 {
        lemma_inserted_all_well_formed(set, paths.drop_last(), expected);
        lemma_inserted_well_formed(
            inserted_all(set, paths.drop_last(), expected),
            TestView { path: paths.last(), expected },
            None,
            Origin::FromGlob,
        );
    }
}

/// Where a well-formed set holds a test that a pattern brought in, the
/// insertion of a test with the same path adds nothing: the set keeps its
/// length, names and origins, and only that test's expectation becomes the
/// new one.
pub proof fn lemma_second_match_updates(
    set: Seq<ExpandedTestView>,
    i: int,
    test: TestView,
    error: Option<Error>,
    origin: Origin,
)
    requires
        well_formed(set),
        0 <= i < set.len(),
        set[i].origin is FromGlob,
        set[i].test.path == test.path,
    ensures
        inserted(set, test, error, origin) == set.update(i, with_expected(set[i], test.expected)),
{
    lemma_last_index_of(set, test.path);
    let k = last_index_of(set, test.path)->Some_0;
    if i < k {
        assert(set[i].test.path == set[k].test.path);
    }
}

/// The set of tests under construction.
#[derive(Debug)]
pub struct ExpandedTestSet {
    pub vec: Vec<ExpandedTest>,
}

impl View for ExpandedTestSet {
    type V = Seq<ExpandedTestView>;

    open spec fn view(&self) -> Seq<ExpandedTestView> {
        views(self.vec@)
    }
}

impl ExpandedTestSet {
    /// The empty set.
    pub fn new() -> (r: Self)
        ensures
            r@ == Seq::<ExpandedTestView>::empty(),
    {
        let r = ExpandedTestSet { vec: Vec::new() };
        assert(r@ =~= Seq::<ExpandedTestView>::empty());
        r
    }

    fn index_of(&self, path: &String) -> (r: Option<usize>)
        ensures
            match r {
                Some(i) => last_index_of(self@, path@) == Some(i as int) && i < self.vec.len(),
                None => last_index_of(self@, path@) is None,
            },
    {
        let mut i: usize = self.vec.len();
        assert(self@.take(i as int) =~= self@);
        while i > 0
            invariant
                i <= self.vec.len(),
                last_index_of(self@, path@) == last_index_of(self@.take(i as int), path@),
            decreases i,
        {
            i = i - 1;
            let ghost head = self@.take(i + 1);
            assert(head.last() == self@[i as int]);
            assert(head.drop_last() =~= self@.take(i as int));
            if self.vec[i].test.path == *path {
                return Some(i);
            }
        }
        None
    }

    /// Inserts a test. Where its path maps to a test that a pattern brought
    /// in, only that test's expectation changes. Otherwise the test is added
    /// at the end, under the next ordinal name.
    pub fn insert(&mut self, test: Test, error: Option<Error>, origin: Origin)
        ensures
            final(self)@ == inserted(old(self)@, test@, error, origin),
            well_formed(old(self)@) ==> well_formed(final(self)@),
    {
        proof {
            if well_formed(self@) {
                lemma_inserted_well_formed(self@, test@, error, origin);
            }
        }
        let found = self.index_of(&test.path);
        if let Some(i) = found {
            if let Origin::FromGlob = self.vec[i].origin {
                let prev = self.vec.remove(i);
                let merged = ExpandedTest {
                    name: prev.name,
                    test: Test { path: prev.test.path, expected: test.expected },
                    error: prev.error,
                    origin: prev.origin,
                };
                self.vec.insert(i, merged);
                assert(self@ =~= old(self)@.update(
                    i as int,
                    with_expected(old(self)@[i as int], test.expected),
                ));
                return ;
            }
        }
        let index = self.vec.len();
        let name = ordinal(index);
        self.vec.push(ExpandedTest { name, test, error, origin });
        assert(self@ =~= old(self)@.push(
            ExpandedTestView { name: ordinal_name(index as nat), test: test@, error, origin },
        ));
    }
}

/// Whether a path is a pattern: it holds a `*`.
pub open spec fn has_wildcard(path: Seq<char>) -> bool {
    path.contains('*')
}

impl Test {
    /// Whether this test's path is a pattern, to be matched against the
    /// file system.
    pub fn is_pattern(&self) -> (r: bool)
        ensures
            r == has_wildcard(self.path@),
    {
        let chars = chars_of(self.path.as_str());
        let mut i: usize = 0;
        while i < chars.len()
            invariant
                i <= chars.len(),
                chars@ == self.path@,
                forall|k: int| 0 <= k < i ==> chars@[k] != '*',
            decreases chars.len() - i,
        {
            if chars[i] == '*' {
                return true;
            }
            i = i + 1;
        }
        false
    }
}

/// What matching one declared path against the file system gave.
#[derive(Debug)]
pub enum Globbed {
    /// The path was not matched: it is no pattern.
    NotAsked,
    /// The pattern is well formed. Each entry is a path that it matches, or
    /// the failure to read a directory on the way.
    Entries(Vec<Result<String>>),
    /// The pattern is not well formed.
    BadPattern(Error),
}

/// The first failure among the entries, if there is one.
pub open spec fn first_error(entries: Seq<Result<String>>) -> Option<Error>
    decreases entries.len(),
{
    if entries.len() == 0 {
        None
    } else if entries[0] is Err {
        Some(entries[0]->Err_0)
    } else {
        first_error(entries.skip(1))
    }
}

/// The paths that the entries hold, in the order of the entries.
pub open spec fn entry_texts(entries: Seq<Result<String>>) -> Seq<Seq<char>> {
    entries.map_values(
        |e: Result<String>|
            match e {
                Ok(path) => path@,
                Err(_) => Seq::<char>::empty(),
            },
    )
}

/// What a pattern's entries come to: the first failure among them, or
/// else their paths in ascending order.
pub open spec fn globbed_paths(entries: Seq<Result<String>>) -> std::result::Result<
    Seq<Seq<char>>,
    Error,
> {
    match first_error(entries) {
        Some(e) => Err(e),
        None => Ok(sorted_texts(entry_texts(entries))),
    }
}

/// Collects the entries that a pattern gave: the first failure among
/// them, or else their paths in ascending order.
pub fn glob(entries: &Vec<Result<String>>) -> (r: Result<Vec<String>>)
    ensures
        match globbed_paths(entries@) {
            Ok(paths) => r matches Ok(v) && texts(v@) == paths,
            Err(e) => r == Err::<Vec<String>, Error>(e),
        },
{
    let mut paths: Vec<String> = Vec::new();
    assert(entries@.skip(0) =~= entries@);
    assert(texts(paths@) =~= entry_texts(entries@.take(0)));
    for i in 0..entries.len()
        invariant
            first_error(entries@) == first_error(entries@.skip(i as int)),
            texts(paths@) == entry_texts(entries@.take(i as int)),
    {
        assert(entries@.skip(i as int)[0] == entries@[i as int]);
        assert(entries@.skip(i as int).skip(1) =~= entries@.skip(i + 1));
        match &entries[i] {
            Ok(path) => {
                let ghost before = texts(paths@);
                paths.push(path.clone());
                assert(texts(paths@) =~= before.push(path@));
                assert(entries@.take(i + 1) =~= entries@.take(i as int).push(entries@[i as int]));
                assert(entry_texts(entries@.take(i + 1)) =~= entry_texts(
                    entries@.take(i as int),
                ).push(path@));
            },
            Err(e) => {
                return Err(e.clone());
            },
        }
    }
    assert(entries@.take(entries@.len() as int) =~= entries@);
    Ok(sort_paths(&paths))
}

/// What is matched for the declared test at `i`: nothing, where the
/// sequence of matches ends before it.
pub open spec fn glob_at(globbed: Seq<Globbed>, i: int) -> Globbed {
    if 0 <= i < globbed.len() {
        globbed[i]
    } else {
        Globbed::NotAsked
    }
}

/// The set after one declared test is expanded into it. A path without a
/// wildcard is inserted as it is. A pattern is replaced by the paths it
/// matched, in ascending order, each with the pattern's expectation. A
/// pattern that could not be matched is inserted as it is, with the
/// failure.
pub open spec fn expanded_one(
    set: Seq<ExpandedTestView>,
    test: TestView,
    globbed: Globbed,
) -> Seq<ExpandedTestView> {
    if !has_wildcard(test.path) {
        inserted(set, test, None, Origin::Literal)
    } else {
        match globbed {
            Globbed::NotAsked => inserted(set, test, None, Origin::Literal),
            Globbed::BadPattern(e) => inserted(set, test, Some(e), Origin::Literal),
            Globbed::Entries(entries) => match globbed_paths(entries@) {
                Ok(paths) => inserted_all(set, paths, test.expected),
                Err(e) => inserted(set, test, Some(e), Origin::Literal),
            },
        }
    }
}

/// The set of tests that the declared tests expand to, where `globbed`
/// holds for each declared test what its path matched.
pub open spec fn expanded(tests: Seq<TestView>, globbed: Seq<Globbed>) -> Seq<ExpandedTestView>
    decreases tests.len(),
{
    if tests.len() == 0 {
        Seq::empty()
    } else {
        expanded_one(
            expanded(tests.drop_last(), globbed),
            tests.last(),
            glob_at(globbed, tests.len() - 1),
        )
    }
}

impl ExpandedTestSet {
    /// Inserts the paths that a pattern matched, in their order, each with
    /// the pattern's expectation.
    pub fn insert_all(&mut self, paths: Vec<String>, expected: Expected)
        ensures
            final(self)@ == inserted_all(old(self)@, texts(paths@), expected),
            well_formed(old(self)@) ==> well_formed(final(self)@),
    {
        proof {
            if well_formed(self@) {
                lemma_inserted_all_well_formed(self@, texts(paths@), expected);
            }
        }
        assert(texts(paths@).take(0) =~= Seq::<Seq<char>>::empty());
        for j in 0..paths.len()
            invariant
                self@ == inserted_all(old(self)@, texts(paths@).take(j as int), expected),
        {
            let ghost upto = texts(paths@).take(j + 1);
            assert(upto.drop_last() =~= texts(paths@).take(j as int));
            assert(upto.last() == paths@[j as int]@);
            self.insert(Test { path: paths[j].clone(), expected }, None, Origin::FromGlob);
        }
        assert(texts(paths@).take(paths@.len() as int) =~= texts(paths@));
    }

    /// Expands one declared test into the set, given what its path matched.
    pub fn expand(&mut self, test: &Test, globbed: &Globbed)
        ensures
            final(self)@ == expanded_one(old(self)@, test@, *globbed),
            well_formed(old(self)@) ==> well_formed(final(self)@),
    {
        if !test.is_pattern() {
            self.insert(test.clone(), None, Origin::Literal);
            return ;
        }
        match globbed {
            Globbed::NotAsked => self.insert(test.clone(), None, Origin::Literal),
            Globbed::BadPattern(e) => self.insert(test.clone(), Some(e.clone()), Origin::Literal),
            Globbed::Entries(entries) => match glob(entries) {
                Ok(paths) => self.insert_all(paths, test.expected),
                Err(e) => self.insert(test.clone(), Some(e), Origin::Literal),
            },
        }
    }
}

/// Expands the declared tests, in their order, into the set of tests that
/// run. `globbed` holds for each declared test what its path matched.
pub fn expand_globs(tests: &[Test], globbed: &[Globbed]) -> (r: Vec<ExpandedTest>)
    ensures
        views(r@) == expanded(test_views(tests@), globbed@),
        well_formed(views(r@)),
{
    proof {
        lemma_expanded_well_formed(test_views(tests@), globbed@);
    }
    let mut set = ExpandedTestSet::new();
    assert(test_views(tests@).take(0) =~= Seq::<TestView>::empty());
    for i in 0..tests.len()
        invariant
            set@ == expanded(test_views(tests@).take(i as int), globbed@),
    {
        let ghost upto = test_views(tests@).take(i + 1);
        assert(upto.drop_last() =~= test_views(tests@).take(i as int));
        assert(upto.last() == tests@[i as int]@);
        if i < globbed.len() {
            set.expand(&tests[i], &globbed[i]);
        } else {
            set.expand(&tests[i], &Globbed::NotAsked);
        }
    }
    assert(test_views(tests@).take(tests@.len() as int) =~= test_views(tests@));
    set.vec
}

/// Every expansion is well formed. In particular no two of its tests that
/// patterns brought in have the same path, whatever the declared tests and
/// whatever their patterns matched.
pub proof fn lemma_expanded_well_formed(tests: Seq<TestView>, globbed: Seq<Globbed>)
    ensures
        well_formed(expanded(tests, globbed)),
        forall|i: int, j: int|
            #![trigger expanded(tests, globbed)[i], expanded(tests, globbed)[j]]
            0 <= i < j < expanded(tests, globbed).len() && expanded(tests, globbed)[i].origin
                is FromGlob && expanded(tests, globbed)[j].origin is FromGlob ==> expanded(
                tests,
                globbed,
            )[i].test.path != expanded(tests, globbed)[j].test.path,
    decreases tests.len(),
{
    if tests.len() > 0 {
        let set = expanded(tests.drop_last(), globbed);
        let test = tests.last();
        lemma_expanded_well_formed(tests.drop_last(), globbed);
        lemma_inserted_well_formed(set, test, None, Origin::Literal);
        match glob_at(globbed, tests.len() - 1) {
            Globbed::NotAsked => {},
            Globbed::BadPattern(e) => {
                lemma_inserted_well_formed(set, test, Some(e), Origin::Literal);
            },
            Globbed::Entries(entries) => match globbed_paths(entries@) {
                Ok(paths) => {
                    lemma_inserted_all_well_formed(set, paths, test.expected);
                },
                Err(e) => {
                    lemma_inserted_well_formed(set, test, Some(e), Origin::Literal);
                },
            },
        }
    }
}

/// Two results of matching that differ at most in the order of the paths
/// that a pattern matched.
pub open spec fn same_matches(a: Globbed, b: Globbed) -> bool {
    ||| a == b
    ||| {
        &&& a matches Globbed::Entries(x)
        &&& b matches Globbed::Entries(y)
        &&& first_error(x@) is None
        &&& first_error(y@) is None
        &&& entry_texts(x@).to_multiset() == entry_texts(y@).to_multiset()
    }
}

/// The expansion does not depend on the order in which the file system
/// hands out the paths that a pattern matches: the same declared tests,
/// with the same paths matched by each pattern, expand to the same tests
/// under the same ordinal names.
pub proof fn lemma_expansion_ignores_match_order(
    tests: Seq<TestView>,
    first: Seq<Globbed>,
    second: Seq<Globbed>,
)
    requires
        first.len() == second.len(),
        forall|i: int| 0 <= i < first.len() ==> same_matches(#[trigger] first[i], second[i]),
    ensures
        expanded(tests, first) == expanded(tests, second),
    decreases tests.len(),
{
    if tests.len() > 0 {
        lemma_expansion_ignores_match_order(tests.drop_last(), first, second);
        let i = tests.len() - 1;
        if i < first.len() {
            assert(same_matches(first[i], second[i]));
            if first[i] != second[i] {
                let x = first[i]->Entries_0;
                let y = second[i]->Entries_0;
                lemma_sorted_texts_of_permutation(entry_texts(x@), entry_texts(y@));
            }
        }
    }
}

} // verus!
