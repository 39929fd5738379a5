//! Selecting tests by arguments of the program: an argument that begins
//! with the filter prefix names a text, and only tests whose path holds one
//! of these texts are run.

use crate::expand::{views, ExpandedTest, ExpandedTestView};
use crate::order::texts;
use crate::text::{contains, contains_text, starts_with_text, strip_prefix};
use vstd::prelude::*;

verus! {

/// What an argument begins with that selects tests by their path.
pub const FILTER_PREFIX: &'static str = "trybuild=";

/// The text that an argument selects tests by: what follows the prefix,
/// unless the argument is something else or the prefix alone.
pub open spec fn filter_of(arg: Seq<char>) -> Option<Seq<char>> {
    if starts_with_text(arg, FILTER_PREFIX@) && arg.len() > FILTER_PREFIX@.len() {
        Some(arg.skip(FILTER_PREFIX@.len() as int))
    } else {
        None
    }
}

/// The texts that the arguments select tests by, in the order of the
/// arguments.
pub open spec fn filters_of(args: Seq<Seq<char>>) -> Seq<Seq<char>>
    decreases args.len(),
{
    if args.len() == 0 {
        Seq::empty()
    } else {
        match filter_of(args.last()) {
            Some(f) => filters_of(args.drop_last()).push(f),
            None => filters_of(args.drop_last()),
        }
    }
}

/// The path of the test holds one of the texts.
pub open spec fn selected(filters: Seq<Seq<char>>, t: ExpandedTestView) -> bool {
    exists|k: int| 0 <= k < filters.len() && contains_text(t.test.path, #[trigger] filters[k])
}

/// The tests that stay: all of them where there is no filter, else those
/// whose path holds one of the filters, in their order.
pub open spec fn filtered(tests: Seq<ExpandedTestView>, filters: Seq<Seq<char>>) -> Seq<
    ExpandedTestView,
> {
    if filters.len() == 0 {
        tests
    } else {
        tests.filter(|t: ExpandedTestView| selected(filters, t))
    }
}

/// The texts that the arguments of the program select tests by.
pub fn filters(args: &[String]) -> (r: Vec<String>)
    ensures
        texts(r@) == filters_of(texts(args@)),
{
    let mut r: Vec<String> = Vec::new();
    assert(texts(args@).take(0) =~= Seq::<Seq<char>>::empty());
    assert(texts(r@) =~= Seq::<Seq<char>>::empty());
    for i in 0..args.len()
        invariant
            texts(r@) == filters_of(texts(args@).take(i as int)),
    {
        let ghost upto = texts(args@).take(i + 1);
        assert(upto.drop_last() =~= texts(args@).take(i as int));
        assert(upto.last() == args@[i as int]@);
        let ghost before = texts(r@);
        match strip_prefix(args[i].as_str(), FILTER_PREFIX) {
            Some(rest) => {
                if !rest.as_str().is_empty() {
                    r.push(rest);
                    assert(texts(r@) =~= before.push(rest@));
                }
            },
            None => {},
        }
    }
    assert(texts(args@).take(args@.len() as int) =~= texts(args@));
    r
}

fn is_selected(filters: &Vec<String>, t: &ExpandedTest) -> (r: bool)
    ensures
        r == selected(texts(filters@), t@),
{
    for k in 0..filters.len()
        invariant
            forall|j: int| 0 <= j < k ==> !contains_text(t@.test.path, #[trigger] texts(filters@)[j]),
    {
        assert(texts(filters@)[k as int] == filters@[k as int]@);
        if contains(t.test.path.as_str(), filters[k].as_str()) {
            return true;
        }
    }
    false
}

/// Keeps the tests that the filters select: all of them where there is no
/// filter, else those whose path holds one of the filters.
pub fn filter(tests: &mut Vec<ExpandedTest>, filters: &Vec<String>)
    ensures
        views(final(tests)@) == filtered(views(old(tests)@), texts(filters@)),
{
    if filters.len() == 0 {
        return ;
    }
    let mut all: Vec<ExpandedTest> = Vec::new();
    std::mem::swap(tests, &mut all);
    let ghost pred = |t: ExpandedTestView| selected(texts(filters@), t);
    proof {
        reveal(Seq::filter);
        assert(views(all@).take(0) =~= Seq::<ExpandedTestView>::empty());
        assert(views(tests@) =~= Seq::<ExpandedTestView>::empty());
    }
    for t in it: all
        invariant
            it.seq() == old(tests)@,
            views(tests@) == views(old(tests)@).take(it.index() as int).filter(pred),
            pred == |t: ExpandedTestView| selected(texts(filters@), t),
    {
        let ghost i = it.index() as int;
        let ghost before = views(tests@);
        proof {
            assert(views(old(tests)@).take(i + 1) =~= views(old(tests)@).take(i).push(t@));
            views(old(tests)@).take(i).lemma_filter_push(t@, pred);
        }
        if is_selected(filters, &t) {
            tests.push(t);
            assert(views(tests@) =~= before.push(t@));
        }
    }
    assert(views(old(tests)@).take(old(tests)@.len() as int) =~= views(old(tests)@));
}

} // verus!
