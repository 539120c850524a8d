use std::collections::BTreeSet;

use nextest_core::test_list::{
    BinaryListSummary, BuildPlatform, FilterMatch, MismatchReason, RustMetadataSummary,
    RustTestCaseSummary, TestList, TestListSummary, TestSuite,
};

fn metadata() -> RustMetadataSummary {
    let mut base_output_directories = BTreeSet::new();
    base_output_directories.insert(String::from("debug"));
    RustMetadataSummary {
        target_directory: String::from("/work/target"),
        base_output_directories,
        linked_paths: BTreeSet::new(),
    }
}

fn case(filter_match: FilterMatch) -> RustTestCaseSummary {
    RustTestCaseSummary {
        ignored: matches!(
            filter_match,
            FilterMatch::Mismatch {
                reason: MismatchReason::Ignored
            }
        ),
        filter_match,
    }
}

fn suite(binary_id: &str, cases: &[(&str, FilterMatch)]) -> TestSuite {
    TestSuite {
        binary_id: binary_id.to_string(),
        binary_path: format!("/work/target/debug/{binary_id}"),
        cwd: format!("/work/{binary_id}"),
        build_platform: BuildPlatform::Target,
        testcases: cases
            .iter()
            .map(|(name, filter_match)| (name.to_string(), case(*filter_match)))
            .collect(),
    }
}

const SKIPPED: FilterMatch = FilterMatch::Mismatch {
    reason: MismatchReason::String,
};

fn three_suites() -> TestList {
    TestList {
        suites: vec![
            suite(
                "alpha",
                &[("a::one", FilterMatch::Matches), ("a::two", SKIPPED)],
            ),
            suite("empty", &[]),
            suite(
                "gamma",
                &[
                    (
                        "g::one",
                        FilterMatch::Mismatch {
                            reason: MismatchReason::Partition,
                        },
                    ),
                    ("g::three", FilterMatch::Matches),
                    ("g::two", FilterMatch::Matches),
                ],
            ),
        ],
    }
}

#[test]
fn only_matches_is_a_match() {
    assert!(FilterMatch::Matches.is_match());
    assert!(!FilterMatch::Mismatch {
        reason: MismatchReason::Ignored
    }
    .is_match());
    assert!(!FilterMatch::Mismatch {
        reason: MismatchReason::String
    }
    .is_match());
    assert!(!FilterMatch::Mismatch {
        reason: MismatchReason::Partition
    }
    .is_match());
}

#[test]
fn platforms_read_as_words() {
    assert_eq!(BuildPlatform::Target.to_string(), "target");
    assert_eq!(BuildPlatform::Host.to_string(), "host");
}

#[test]
fn mismatch_reasons_read_as_clauses() {
    assert_eq!(
        MismatchReason::Ignored.to_string(),
        "does not match the run-ignored option"
    );
    assert_eq!(
        MismatchReason::String.to_string(),
        "does not match the provided string filters"
    );
    assert_eq!(
        MismatchReason::Partition.to_string(),
        "is in a different partition"
    );
}

#[test]
fn a_new_summary_lists_nothing() {
    let summary = TestListSummary::new(metadata());
    assert_eq!(summary.rust_metadata, metadata());
    assert_eq!(summary.test_count, 0);
    assert!(summary.rust_suites.is_empty());
}

#[test]
fn a_binary_list_compares_by_content() {
    let one = BinaryListSummary {
        rust_metadata: metadata(),
        rust_binaries: Default::default(),
    };
    assert_eq!(one.clone(), one);
}

#[test]
fn tests_are_gone_through_suite_by_suite() {
    assert_eq!(
        three_suites().filter_matches(),
        vec![
            FilterMatch::Matches,
            SKIPPED,
            FilterMatch::Mismatch {
                reason: MismatchReason::Partition
            },
            FilterMatch::Matches,
            FilterMatch::Matches,
        ]
    );
    assert_eq!(TestList { suites: Vec::new() }.filter_matches(), Vec::new());
}

#[test]
fn a_test_is_found_by_its_place_in_the_queue() {
    let list = three_suites();
    assert_eq!(list.locate(0), Some((0, 0)));
    assert_eq!(list.locate(1), Some((0, 1)));
    assert_eq!(list.locate(2), Some((2, 0)));
    assert_eq!(list.locate(3), Some((2, 1)));
    assert_eq!(list.locate(4), Some((2, 2)));
    assert_eq!(list.locate(5), None);
    assert_eq!(list.locate(usize::MAX), None);
}

#[test]
fn an_instance_names_binary_and_test() {
    let list = three_suites();
    let instance = list.instance(3).unwrap();
    assert_eq!(instance.binary_id, "gamma");
    assert_eq!(instance.name, "g::three");
    assert_eq!(instance.cwd, "/work/gamma");
    assert_eq!(instance.test_info, case(FilterMatch::Matches));
    let skipped = list.instance(1).unwrap();
    assert_eq!(skipped.binary_id, "alpha");
    assert_eq!(skipped.name, "a::two");
    assert_eq!(skipped.test_info.filter_match, SKIPPED);
    assert!(list.instance(5).is_none());
}
