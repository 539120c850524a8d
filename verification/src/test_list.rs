//! The test list handed over by discovery.

use std::collections::{BTreeMap, BTreeSet};
use vstd::prelude::*;

verus! {

/// The platform a binary was built on (useful for cross-compilation)
#[derive(Copy, Clone, Debug, PartialEq, Eq, Structural)]
pub enum BuildPlatform {
    /// The target platform.
    Target,
    /// The host platform: the platform the build was performed on.
    Host,
}

impl BuildPlatform {
    /// What the platform reads as.
    pub open spec fn spec_to_string(&self) -> Seq<char> {
        match self {
            BuildPlatform::Target => "target"@,
            BuildPlatform::Host => "host"@,
        }
    }

    /// Returns what the platform reads as: `target` or `host`.
    pub fn to_string(&self) -> (text: String)
        ensures
            text@ == self.spec_to_string(),
    {
        match self {
            BuildPlatform::Target => "target".to_owned(),
            BuildPlatform::Host => "host".to_owned(),
        }
    }
}

/// The reason for why a test doesn't match a filter.
#[derive(Copy, Clone, Debug, PartialEq, Eq, Structural)]
#[non_exhaustive]
pub enum MismatchReason {
    /// This test does not match the run-ignored option in the filter.
    Ignored,
    /// This test does not match the provided string filters.
    String,
    /// This test is in a different partition.
    Partition,
}

/// An enum describing whether a test matches a filter.
#[derive(Copy, Clone, Debug, PartialEq, Eq, Structural)]
pub enum FilterMatch {
    /// This test matches this filter.
    Matches,
    /// This test does not match this filter.
    Mismatch {
        /// Describes the reason this filter isn't matched.
        reason: MismatchReason,
    },
}

impl MismatchReason {
    /// What the reason reads as, after the name of a test.
    pub open spec fn spec_to_string(&self) -> Seq<char> {
        match self {
            MismatchReason::Ignored => "does not match the run-ignored option"@,
            MismatchReason::String => "does not match the provided string filters"@,
            MismatchReason::Partition => "is in a different partition"@,
        }
    }

    /// Returns what the reason reads as, after the name of a test.
    pub fn to_string(&self) -> (text: String)
        ensures
            text@ == self.spec_to_string(),
    {
        match self {
            MismatchReason::Ignored => "does not match the run-ignored option".to_owned(),
            MismatchReason::String => "does not match the provided string filters".to_owned(),
            MismatchReason::Partition => "is in a different partition".to_owned(),
        }
    }
}

impl FilterMatch {
    /// Returns true if the filter matches.
    pub fn is_match(&self) -> (matched: bool)
        ensures
            matched == (*self is Matches),
    {
        match self {
            FilterMatch::Matches => true,
            FilterMatch::Mismatch { .. } => false,
        }
    }
}


/// Serializable information about an individual test case within a Rust test suite.
///
/// Part of a [`RustTestSuiteSummary`].
#[derive(Copy, Clone, Debug, PartialEq, Eq, Structural)]
pub struct RustTestCaseSummary {
    /// Returns true if this test is marked ignored.
    ///
    /// Ignored tests, if run, are executed with the `--ignored` argument.
    pub ignored: bool,
    /// Whether the test matches the provided test filter.
    ///
    /// Only tests that match the filter are run.
    pub filter_match: FilterMatch,
}

/// A serializable Rust test binary.
///
/// Part of a [`RustTestSuiteSummary`] and [`BinaryListSummary`].
#[derive(Clone, Debug, PartialEq, Eq)]
pub struct RustTestBinarySummary {
    /// A unique binary ID.
    pub binary_id: String,
    /// The name of the test binary within the package.
    pub binary_name: String,
    /// The unique package ID assigned by Cargo to this test.
    ///
    /// This package ID can be used for lookups in `cargo metadata`.
    pub package_id: String,
    /// The path to the test binary executable.
    pub binary_path: String,
    /// Platform for which this binary was built.
    /// (Proc-macro tests are built for the host.)
    pub build_platform: BuildPlatform,
}

/// Rust metadata used for builds and test runs.
#[derive(Clone, Debug, PartialEq, Eq)]
pub struct RustMetadataSummary {
    /// The target directory for Rust artifacts.
    pub target_directory: String,
    /// Base output directories, relative to the target directory.
    pub base_output_directories: BTreeSet<String>,
    /// Linked paths, relative to the target directory.
    pub linked_paths: BTreeSet<String>,
}

/// A serializable suite of test binaries.
#[derive(Clone, Debug, PartialEq, Eq)]
pub struct BinaryListSummary {
    /// Rust metadata used for builds and test runs.
    pub rust_metadata: RustMetadataSummary,
    /// The list of Rust test binaries (indexed by binary-id).
    pub rust_binaries: BTreeMap<String, RustTestBinarySummary>,
}

/// A serializable suite of tests within a Rust test binary.
///
/// Part of a [`TestListSummary`].
#[derive(Clone, Debug, PartialEq, Eq)]
pub struct RustTestSuiteSummary {
    /// The name of this package in the workspace.
    pub package_name: String,
    /// The binary within the package.
    pub binary: RustTestBinarySummary,
    /// The working directory that tests within this package are run in.
    pub cwd: String,
    /// Test case names and other information about them.
    pub testcases: BTreeMap<String, RustTestCaseSummary>,
}

/// Root element for a serializable list of tests generated by nextest.
#[derive(Clone, Debug, PartialEq, Eq)]
#[non_exhaustive]
pub struct TestListSummary {
    /// Rust metadata used for builds and test runs.
    pub rust_metadata: RustMetadataSummary,
    /// Number of tests (including skipped and ignored) across all binaries.
    pub test_count: usize,
    /// A map of Rust test suites to the test binaries within them, keyed by a unique identifier
    /// for each test suite.
    pub rust_suites: BTreeMap<String, RustTestSuiteSummary>,
}

impl TestListSummary {
    /// Creates a new `TestListSummary` with the given Rust metadata: a list
    /// without suites and without tests.
    pub fn new(rust_metadata: RustMetadataSummary) -> (summary: Self)
        ensures
            summary.rust_metadata == rust_metadata,
            summary.test_count == 0,
            summary.rust_suites@ == Map::<String, RustTestSuiteSummary>::empty(),
    {
        Self { rust_metadata, test_count: 0, rust_suites: BTreeMap::new() }
    }
}


/// The tests of one binary, as the runner goes through them.
#[derive(Clone, Debug, PartialEq, Eq)]
pub struct TestSuite {
    /// A unique binary ID.
    pub binary_id: String,
    /// The path to the test binary executable.
    pub binary_path: String,
    /// The working directory that the tests of the binary are run in.
    pub cwd: String,
    /// Platform for which the binary was built.
    pub build_platform: BuildPlatform,
    /// The test cases with their names, in the order in which discovery
    /// hands them over: the order of their names.
    pub testcases: Vec<(String, RustTestCaseSummary)>,
}

/// One test of a run: a test case in a binary.
#[derive(Copy, Clone, Debug, PartialEq, Eq)]
pub struct TestInstance<'a> {
    /// The ID of the binary that the test is in.
    pub binary_id: &'a str,
    /// The name of the test.
    pub name: &'a str,
    /// The working directory that the test is run in.
    pub cwd: &'a str,
    /// What discovery says of the test.
    pub test_info: RustTestCaseSummary,
}

/// The tests of a run: the suites in the order of discovery, and in each
/// suite its tests in their order.
#[derive(Clone, Debug, PartialEq, Eq)]
pub struct TestList {
    /// The suites, in the order of discovery.
    pub suites: Vec<TestSuite>,
}

/// For each test of `suite`, in order, whether the filter lets it in.
pub open spec fn suite_matches(suite: TestSuite) -> Seq<FilterMatch> {
    Seq::new(suite.testcases@.len(), |i: int| suite.testcases@[i].1.filter_match)
}

/// For each test of `suites`, suite after suite, whether the filter lets it
/// in.
pub open spec fn list_matches(suites: Seq<TestSuite>) -> Seq<FilterMatch>
    decreases suites.len(),
{
    if suites.len() == 0 {
        Seq::empty()
    } else {
        list_matches(suites.drop_last()) + suite_matches(suites.last())
    }
}

/// The number of tests in the first `count` of `suites`.
pub open spec fn tests_before(suites: Seq<TestSuite>, count: int) -> nat {
    list_matches(suites.take(count)).len()
}

/// The tests of the suite at `at` follow the tests of the suites before it,
/// test after test.
pub proof fn lemma_tests_before(suites: Seq<TestSuite>, at: int)
    requires
        0 <= at < suites.len(),
    ensures
        tests_before(suites, at + 1) == tests_before(suites, at) + suites[at].testcases@.len(),
        tests_before(suites, at + 1) <= tests_before(suites, suites.len() as int),
        tests_before(suites, suites.len() as int) == list_matches(suites).len(),
        forall|case: int|
            0 <= case < suites[at].testcases@.len() ==> #[trigger] list_matches(
                suites,
            )[tests_before(suites, at) + case] == suites[at].testcases@[case].1.filter_match,
    decreases suites.len() - at,
{
    assert(suites.take(at + 1).drop_last() =~= suites.take(at));
    assert(suites.take(at + 1).last() == suites[at]);
    assert(suites.take(suites.len() as int) =~= suites);
    if at + 1 < suites.len() {
        lemma_tests_before(suites, at + 1);
        assert forall|case: int| 0 <= case < suites[at].testcases@.len() implies #[trigger]
            list_matches(suites)[tests_before(suites, at) + case]
            == suites[at].testcases@[case].1.filter_match by {
            lemma_list_matches_prefix(suites, at + 1, tests_before(suites, at) + case);
        }
    }
}

/// What holds of the tests of the first `count` suites holds of the same
/// tests among all.
pub proof fn lemma_list_matches_prefix(suites: Seq<TestSuite>, count: int, index: int)
    requires
        0 <= count <= suites.len(),
        0 <= index < tests_before(suites, count),
    ensures
        index < list_matches(suites).len(),
        list_matches(suites)[index] == list_matches(suites.take(count))[index],
    decreases suites.len() - count,
{
    if count < suites.len() {
        assert(suites.take(count + 1).drop_last() =~= suites.take(count));
        lemma_list_matches_prefix(suites, count + 1, index);
    } else {
        assert(suites.take(count) =~= suites);
    }
}

impl TestList {
    /// For each test of the list, in the order in which the tests are gone
    /// through, whether the filter lets it in.
    pub open spec fn spec_filter_matches(&self) -> Seq<FilterMatch> {
        list_matches(self.suites@)
    }

    /// Returns for each test of the list, in the order in which the tests
    /// are gone through, whether the filter lets it in.
    pub fn filter_matches(&self) -> (queue: Vec<FilterMatch>)
        ensures
            queue@ == self.spec_filter_matches(),
    {
        let mut queue: Vec<FilterMatch> = Vec::new();
        let mut at: usize = 0;
        proof {
            assert(self.suites@.take(0) =~= Seq::<TestSuite>::empty());
        }
        while at < self.suites.len()
            invariant
                at <= self.suites.len(),
                queue@ =~= list_matches(self.suites@.take(at as int)),
            decreases self.suites.len() - at,
        {
            let suite = &self.suites[at];
            let ghost before = queue@;
            let mut case: usize = 0;
            while case < suite.testcases.len()
                invariant
                    case <= suite.testcases.len(),
                    queue@ =~= before + suite_matches(*suite).take(case as int),
                decreases suite.testcases.len() - case,
            {
                queue.push(suite.testcases[case].1.filter_match);
                case = case + 1;
            }
            proof {
                assert(suite_matches(*suite).take(case as int) =~= suite_matches(*suite));
                assert(self.suites@.take(at + 1).drop_last() =~= self.suites@.take(at as int));
                assert(self.suites@.take(at + 1).last() == *suite);
            }
            at = at + 1;
        }
        proof {
            assert(self.suites@.take(at as int) =~= self.suites@);
        }
        queue
    }

    /// Finds the test at `index` in the order in which the tests are gone
    /// through: the place of its suite among the suites, and its place among
    /// the tests of that suite.
    pub fn locate(&self, index: usize) -> (place: Option<(usize, usize)>)
        ensures
            match place {
                Some((suite, case)) => {
                    &&& suite < self.suites@.len()
                    &&& case < self.suites@[suite as int].testcases@.len()
                    &&& index == tests_before(self.suites@, suite as int) + case
                    &&& index < self.spec_filter_matches().len()
                    &&& self.spec_filter_matches()[index as int]
                        == self.suites@[suite as int].testcases@[case as int].1.filter_match
                },
                None => index >= self.spec_filter_matches().len(),
            },
    {
        let mut remaining: usize = index;
        let mut at: usize = 0;
        proof {
            assert(self.suites@.take(0) =~= Seq::<TestSuite>::empty());
        }
        while at < self.suites.len()
            invariant
                at <= self.suites.len(),
                index == tests_before(self.suites@, at as int) + remaining,
            decreases self.suites.len() - at,
        {
            proof {
                lemma_tests_before(self.suites@, at as int);
            }
            let count = self.suites[at].testcases.len();
            if remaining < count {
                return Some((at, remaining));
            }
            remaining = remaining - count;
            at = at + 1;
        }
        proof {
            assert(self.suites@.take(at as int) =~= self.suites@);
        }
        None
    }

    /// The test at `case` among the tests of the suite at `suite`.
    pub open spec fn is_instance_at(&self, instance: TestInstance<'_>, suite: int, case: int)
        -> bool {
        &&& 0 <= suite < self.suites@.len()
        &&& 0 <= case < self.suites@[suite].testcases@.len()
        &&& instance.binary_id@ == self.suites@[suite].binary_id@
        &&& instance.name@ == self.suites@[suite].testcases@[case].0@
        &&& instance.cwd@ == self.suites@[suite].cwd@
        &&& instance.test_info == self.suites@[suite].testcases@[case].1
    }

    /// The test at `index` in the order in which the tests are gone through.
    pub fn instance(&self, index: usize) -> (instance: Option<TestInstance<'_>>)
        ensures
            match instance {
                Some(instance) => {
                    &&& index < self.spec_filter_matches().len()
                    &&& instance.test_info.filter_match == self.spec_filter_matches()[index as int]
                    &&& exists|suite: int, case: int|
                        #[trigger] self.is_instance_at(instance, suite, case) && index
                            == tests_before(self.suites@, suite) + case
                },
                None => index >= self.spec_filter_matches().len(),
            },
    {
        match self.locate(index) {
            Some((suite, case)) => {
                let tests = &self.suites[suite];
                let instance = TestInstance {
                    binary_id: tests.binary_id.as_str(),
                    name: tests.testcases[case].0.as_str(),
                    cwd: tests.cwd.as_str(),
                    test_info: tests.testcases[case].1,
                };
                assert(self.is_instance_at(instance, suite as int, case as int));
                Some(instance)
            },
            None => None,
        }
    }
}

} // verus!
