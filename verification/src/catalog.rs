//! The catalogue: the experiments that are known by name, in a fixed order.
//!
//! Their strategies work on lists of the engine library, and none of them is
//! implemented: each answers [`Unimplemented`], so an experiment of the
//! catalogue ends with `StrategyUnimplemented` as soon as it generates.

use vstd::prelude::*;
use std::marker::PhantomData;
use adapton::catalog::collections::List;
use adapton::engine::Name;
use rand::StdRng;
use crate::error::{LabError, Unimplemented};
use crate::experiment::{named, LabExp, LabExpResults, TestComputer};
use crate::metrics::Recorder;
use crate::params::{default_params, labexp_params_defaults, GenerateParams, LabExpParams};
use crate::strategy::{Compute, Edit, Generate};

verus! {

/// `adapton::catalog::collections::List`, the engine library's list. Opaque
/// here: nothing in the catalogue looks inside one.
#[verifier::external_type_specification]
#[verifier::external_body]
#[verifier::reject_recursive_types(X)]
pub struct ExList<X>(adapton::catalog::collections::List<X>);

/// `<adapton::catalog::collections::List<X> as Clone>::clone`, which the
/// engine library derives. Nothing is claimed of the clone.
pub assume_specification<X>[ <List<X> as Clone>::clone ](list: &List<X>) -> (copy: List<X>) where
    X: Clone,
;

/// A list of the engine library as an input or an output of an experiment.
/// It is its own view.
#[verifier::reject_recursive_types(X)]
#[derive(Debug, PartialEq, Eq)]
pub struct Listed<X>(pub List<X>);

impl<X: Clone> Clone for Listed<X> {
    fn clone(&self) -> Self {
        Listed(self.0.clone())
    }
}

impl<X> View for Listed<X> {
    type V = Listed<X>;

    open spec fn view(&self) -> Listed<X> {
        *self
    }
}

/// A point of the plane.
pub type Pt2D = (usize, usize);

/// Lists of integers drawn uniformly; an edit prepends.
#[allow(non_camel_case_types)]
#[allow(non_snake_case)]
#[derive(Debug)]
pub struct ListInt_Uniform_Prepend<T> {
    pub T: PhantomData<T>,
}

impl<T> Clone for ListInt_Uniform_Prepend<T> {
    fn clone(&self) -> Self {
        ListInt_Uniform_Prepend { T: PhantomData }
    }
}

/// Lists of points drawn uniformly; an edit prepends.
#[allow(non_camel_case_types)]
#[allow(non_snake_case)]
#[derive(Debug)]
pub struct ListPt2D_Uniform_Prepend<T> {
    pub T: PhantomData<T>,
}

impl<T> Clone for ListPt2D_Uniform_Prepend<T> {
    fn clone(&self) -> Self {
        ListPt2D_Uniform_Prepend { T: PhantomData }
    }
}

#[allow(non_camel_case_types)]
#[derive(Clone, Copy, Debug)]
pub struct ListInt_LazyMap {}

#[allow(non_camel_case_types)]
#[derive(Clone, Copy, Debug)]
pub struct ListInt_EagerMap {}

#[allow(non_camel_case_types)]
#[derive(Clone, Copy, Debug)]
pub struct ListInt_LazyFilter {}

#[allow(non_camel_case_types)]
#[derive(Clone, Copy, Debug)]
pub struct ListInt_EagerFilter {}

#[allow(non_camel_case_types)]
#[derive(Clone, Copy, Debug)]
pub struct ListInt_Reverse {}

#[allow(non_camel_case_types)]
#[derive(Clone, Copy, Debug)]
pub struct ListInt_LazyMergesort {}

#[allow(non_camel_case_types)]
#[derive(Clone, Copy, Debug)]
pub struct ListInt_EagerMergesort {}

#[allow(non_camel_case_types)]
#[derive(Clone, Copy, Debug)]
pub struct ListPt2D_Quickhull {}

impl Generate<Listed<usize>> for ListInt_Uniform_Prepend<Listed<usize>> {
    open spec fn never_generates() -> bool {
        true
    }

    fn generate(rng: &mut StdRng, params: &GenerateParams) -> (r: Result<
        Listed<usize>,
        Unimplemented,
    >)
        ensures
            r is Err,
            *final(rng) == *old(rng),
    {
        Err(Unimplemented)
    }
}

impl Edit<Listed<usize>> for ListInt_Uniform_Prepend<Listed<usize>> {
    open spec fn never_edits() -> bool {
        true
    }

    fn edit(state: Listed<usize>, rng: &mut StdRng, params: &GenerateParams) -> (r: Result<
        Listed<usize>,
        Unimplemented,
    >)
        ensures
            r is Err,
            *final(rng) == *old(rng),
    {
        Err(Unimplemented)
    }
}

impl Compute<Listed<usize>, Listed<usize>> for ListInt_EagerMap {
    open spec fn never_computes() -> bool {
        true
    }

    fn compute(inp: Listed<usize>) -> (r: Result<Listed<usize>, Unimplemented>)
        ensures
            r is Err,
    {
        Err(Unimplemented)
    }
}

impl Compute<Listed<usize>, Listed<usize>> for ListInt_EagerFilter {
    open spec fn never_computes() -> bool {
        true
    }

    fn compute(inp: Listed<usize>) -> (r: Result<Listed<usize>, Unimplemented>)
        ensures
            r is Err,
    {
        Err(Unimplemented)
    }
}

impl Compute<Listed<usize>, Listed<usize>> for ListInt_LazyMap {
    open spec fn never_computes() -> bool {
        true
    }

    fn compute(inp: Listed<usize>) -> (r: Result<Listed<usize>, Unimplemented>)
        ensures
            r is Err,
    {
        Err(Unimplemented)
    }
}

impl Compute<Listed<usize>, Listed<usize>> for ListInt_LazyFilter {
    open spec fn never_computes() -> bool {
        true
    }

    fn compute(inp: Listed<usize>) -> (r: Result<Listed<usize>, Unimplemented>)
        ensures
            r is Err,
    {
        Err(Unimplemented)
    }
}

impl Compute<Listed<usize>, Listed<usize>> for ListInt_Reverse {
    open spec fn never_computes() -> bool {
        true
    }

    fn compute(inp: Listed<usize>) -> (r: Result<Listed<usize>, Unimplemented>)
        ensures
            r is Err,
    {
        Err(Unimplemented)
    }
}

impl Compute<Listed<usize>, Listed<usize>> for ListInt_LazyMergesort {
    open spec fn never_computes() -> bool {
        true
    }

    fn compute(inp: Listed<usize>) -> (r: Result<Listed<usize>, Unimplemented>)
        ensures
            r is Err,
    {
        Err(Unimplemented)
    }
}

impl Compute<Listed<usize>, Listed<usize>> for ListInt_EagerMergesort {
    open spec fn never_computes() -> bool {
        true
    }

    fn compute(inp: Listed<usize>) -> (r: Result<Listed<usize>, Unimplemented>)
        ensures
            r is Err,
    {
        Err(Unimplemented)
    }
}

impl Generate<Listed<Pt2D>> for ListPt2D_Uniform_Prepend<Listed<Pt2D>> {
    open spec fn never_generates() -> bool {
        true
    }

    fn generate(rng: &mut StdRng, params: &GenerateParams) -> (r: Result<
        Listed<Pt2D>,
        Unimplemented,
    >)
        ensures
            r is Err,
            *final(rng) == *old(rng),
    {
        Err(Unimplemented)
    }
}

impl Edit<Listed<Pt2D>> for ListPt2D_Uniform_Prepend<Listed<Pt2D>> {
    open spec fn never_edits() -> bool {
        true
    }

    fn edit(state: Listed<Pt2D>, rng: &mut StdRng, params: &GenerateParams) -> (r: Result<
        Listed<Pt2D>,
        Unimplemented,
    >)
        ensures
            r is Err,
            *final(rng) == *old(rng),
    {
        Err(Unimplemented)
    }
}

impl Compute<Listed<Pt2D>, Listed<Pt2D>> for ListPt2D_Quickhull {
    open spec fn never_computes() -> bool {
        true
    }

    fn compute(inp: Listed<Pt2D>) -> (r: Result<Listed<Pt2D>, Unimplemented>)
        ensures
            r is Err,
    {
        Err(Unimplemented)
    }
}

/// An experiment on lists of integers.
pub type ListIntExp<Computer> = TestComputer<
    Listed<usize>,
    Listed<usize>,
    ListInt_Uniform_Prepend<Listed<usize>>,
    Computer,
>;

/// An experiment on lists of points.
pub type ListPt2DExp<Computer> = TestComputer<
    Listed<Pt2D>,
    Listed<Pt2D>,
    ListPt2D_Uniform_Prepend<Listed<Pt2D>>,
    Computer,
>;

/// An experiment of the catalogue. The variants differ in the types that the
/// experiment is bound to; all of them are named and run alike.
pub enum CatalogEntry {
    EagerMap(ListIntExp<ListInt_EagerMap>),
    EagerFilter(ListIntExp<ListInt_EagerFilter>),
    LazyMap(ListIntExp<ListInt_LazyMap>),
    LazyFilter(ListIntExp<ListInt_LazyFilter>),
    Reverse(ListIntExp<ListInt_Reverse>),
    EagerMergesort(ListIntExp<ListInt_EagerMergesort>),
    /// Listed under its own name; its computation is the eager merge sort.
    LazyMergesort(ListIntExp<ListInt_EagerMergesort>),
    Quickhull(ListPt2DExp<ListPt2D_Quickhull>),
}

impl LabExp for CatalogEntry {
    open spec fn identity(&self) -> Name {
        match self {
            CatalogEntry::EagerMap(e) => e.identity(),
            CatalogEntry::EagerFilter(e) => e.identity(),
            CatalogEntry::LazyMap(e) => e.identity(),
            CatalogEntry::LazyFilter(e) => e.identity(),
            CatalogEntry::Reverse(e) => e.identity(),
            CatalogEntry::EagerMergesort(e) => e.identity(),
            CatalogEntry::LazyMergesort(e) => e.identity(),
            CatalogEntry::Quickhull(e) => e.identity(),
        }
    }

    open spec fn obeys(&self) -> bool {
        match self {
            CatalogEntry::EagerMap(e) => e.obeys(),
            CatalogEntry::EagerFilter(e) => e.obeys(),
            CatalogEntry::LazyMap(e) => e.obeys(),
            CatalogEntry::LazyFilter(e) => e.obeys(),
            CatalogEntry::Reverse(e) => e.obeys(),
            CatalogEntry::EagerMergesort(e) => e.obeys(),
            CatalogEntry::LazyMergesort(e) => e.obeys(),
            CatalogEntry::Quickhull(e) => e.obeys(),
        }
    }

    fn name(&self) -> (name: Name) {
        match self {
            CatalogEntry::EagerMap(e) => e.name(),
            CatalogEntry::EagerFilter(e) => e.name(),
            CatalogEntry::LazyMap(e) => e.name(),
            CatalogEntry::LazyFilter(e) => e.name(),
            CatalogEntry::Reverse(e) => e.name(),
            CatalogEntry::EagerMergesort(e) => e.name(),
            CatalogEntry::LazyMergesort(e) => e.name(),
            CatalogEntry::Quickhull(e) => e.name(),
        }
    }

    /// Runs the entry's experiment. No strategy of the catalogue is
    /// implemented, so the run fails: with `StrategyUnimplemented` when it
    /// generates, unless the engine selected before was not found active.
    fn run(&self, params: &LabExpParams, recorder: &mut Recorder) -> (r: Result<
        LabExpResults,
        LabError,
    >)
        ensures
            r is Err,
    {
        match self {
            CatalogEntry::EagerMap(e) => e.run(params, recorder),
            CatalogEntry::EagerFilter(e) => e.run(params, recorder),
            CatalogEntry::LazyMap(e) => e.run(params, recorder),
            CatalogEntry::LazyFilter(e) => e.run(params, recorder),
            CatalogEntry::Reverse(e) => e.run(params, recorder),
            CatalogEntry::EagerMergesort(e) => e.run(params, recorder),
            CatalogEntry::LazyMergesort(e) => e.run(params, recorder),
            CatalogEntry::Quickhull(e) => e.run(params, recorder),
        }
    }
}

/// The names of the catalogue, in its order.
pub open spec fn catalog_names() -> Seq<Seq<char>> {
    seq![
        "eager-map"@,
        "eager-filter"@,
        "lazy-map"@,
        "lazy-filter"@,
        "reverse"@,
        "eager-mergesort"@,
        "lazy-mergesort"@,
        "quickhull"@,
    ]
}

/// The catalogue: every experiment, each under its name, in a fixed order.
pub fn all_tests() -> (tests: Vec<CatalogEntry>)
    ensures
        tests@.len() == catalog_names().len(),
        forall|i: int|
            0 <= i < tests@.len() ==> (#[trigger] tests@[i]).identity() == named(
                catalog_names()[i],
            ),
        tests@[0] is EagerMap,
        tests@[1] is EagerFilter,
        tests@[2] is LazyMap,
        tests@[3] is LazyFilter,
        tests@[4] is Reverse,
        tests@[5] is EagerMergesort,
        tests@[6] is LazyMergesort,
        tests@[7] is Quickhull,
{
    let mut tests: Vec<CatalogEntry> = Vec::new();
    tests.push(CatalogEntry::EagerMap(TestComputer::new(adapton::engine::name_of_str("eager-map"))));
    tests.push(
        CatalogEntry::EagerFilter(TestComputer::new(adapton::engine::name_of_str("eager-filter"))),
    );
    tests.push(CatalogEntry::LazyMap(TestComputer::new(adapton::engine::name_of_str("lazy-map"))));
    tests.push(
        CatalogEntry::LazyFilter(TestComputer::new(adapton::engine::name_of_str("lazy-filter"))),
    );
    tests.push(CatalogEntry::Reverse(TestComputer::new(adapton::engine::name_of_str("reverse"))));
    tests.push(
        CatalogEntry::EagerMergesort(
            TestComputer::new(adapton::engine::name_of_str("eager-mergesort")),
        ),
    );
    tests.push(
        CatalogEntry::LazyMergesort(
            TestComputer::new(adapton::engine::name_of_str("lazy-mergesort")),
        ),
    );
    tests.push(CatalogEntry::Quickhull(TestComputer::new(adapton::engine::name_of_str("quickhull"))));
    tests
}

/// Runs every experiment of the catalogue on the canonical configuration,
/// and returns each one's name with what its run returned, in the order of
/// the catalogue. An experiment that fails does not keep the others from
/// running; as no strategy of the catalogue is implemented, each of them
/// fails.
pub fn run_all_tests(recorder: &mut Recorder) -> (outcomes: Vec<
    (Name, Result<LabExpResults, LabError>),
>)
    ensures
        outcomes@.len() == catalog_names().len(),
        forall|i: int|
            0 <= i < outcomes@.len() ==> {
                &&& (#[trigger] outcomes@[i]).0 == named(catalog_names()[i])
                &&& outcomes@[i].1 is Err
            },
{
    let params = labexp_params_defaults();
    let tests = all_tests();
    let mut outcomes: Vec<(Name, Result<LabExpResults, LabError>)> = Vec::new();
    let mut i: usize = 0;
    while i < tests.len()
        invariant
            i <= tests@.len(),
            tests@.len() == catalog_names().len(),
            params@ == default_params(),
            outcomes@.len() == i,
            forall|k: int|
                0 <= k < tests@.len() ==> (#[trigger] tests@[k]).identity() == named(
                    catalog_names()[k],
                ),
            forall|k: int|
                0 <= k < i ==> {
                    &&& (#[trigger] outcomes@[k]).0 == named(catalog_names()[k])
                    &&& outcomes@[k].1 is Err
                },
        decreases tests@.len() - i,
    {
        let name = tests[i].name();
        let outcome = tests[i].run(&params, recorder);
        outcomes.push((name, outcome));
        i += 1;
    }
    outcomes
}

} // verus!
