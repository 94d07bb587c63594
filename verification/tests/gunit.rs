use neodojo::gunit::{TestCase, TestError, TestFailure, TestInfo, TestStatus, UnitTest};

fn suite(name: &str, tests: u32, failures: u32, disabled: u32, errors: u32) -> TestCase {
    TestCase {
        name: name.to_string(),
        tests,
        failures,
        disabled,
        errors,
        time: "0.1s".to_string(),
        testsuite: vec![],
    }
}

fn empty_report() -> UnitTest {
    UnitTest {
        name: "AllTests".to_string(),
        tests: 0,
        failures: 0,
        disabled: 0,
        errors: 0,
        timestamp: "2024-01-01T00:00:00Z".to_string(),
        time: "0s".to_string(),
        testsuites: vec![],
    }
}

#[test]
fn add_suite_sums_each_total_over_the_suites() {
    let mut report = empty_report();
    let suites = vec![suite("a", 3, 1, 0, 0), suite("b", 5, 0, 2, 1), suite("c", 7, 4, 1, 3)];
    for s in suites.iter() {
        report.add_suite(s.clone());
    }
    assert_eq!(report.tests, 15);
    assert_eq!(report.failures, 5);
    assert_eq!(report.disabled, 3);
    assert_eq!(report.errors, 4);
    assert_eq!(report.testsuites, suites);
}

#[test]
fn add_suite_keeps_what_the_report_held() {
    let mut report = empty_report();
    report.tests = 10;
    report.failures = 2;
    report.testsuites.push(suite("old", 10, 2, 0, 0));
    report.add_suite(suite("new", 1, 1, 1, 1));
    assert_eq!((report.tests, report.failures, report.disabled, report.errors), (11, 3, 1, 1));
    assert_eq!(report.testsuites.len(), 2);
    assert_eq!(report.testsuites[0].name, "old");
    assert_eq!(report.testsuites[1].name, "new");
    assert_eq!(report.name, "AllTests");
    assert_eq!(report.timestamp, "2024-01-01T00:00:00Z");
    assert_eq!(report.time, "0s");
}

#[test]
fn add_suite_trusts_the_counts_of_the_suite() {
    let mut report = empty_report();
    let mut odd = suite("odd", 4, 3, 0, 0);
    odd.testsuite.push(TestInfo::default());
    report.add_suite(odd);
    assert_eq!(report.tests, 4);
    assert_eq!(report.failures, 3);
}

#[test]
fn can_add_suite_tells_when_a_total_would_not_fit() {
    let mut report = empty_report();
    report.tests = u32::MAX - 1;
    assert!(report.can_add_suite(&suite("one", 1, 0, 0, 0)));
    assert!(!report.can_add_suite(&suite("two", 2, 0, 0, 0)));
    report.tests = 0;
    report.errors = u32::MAX;
    assert!(!report.can_add_suite(&suite("e", 0, 0, 0, 1)));
    assert!(report.can_add_suite(&suite("f", u32::MAX, u32::MAX, u32::MAX, 0)));
}

#[test]
fn has_failed_with_a_failure_or_an_error() {
    let mut report = empty_report();
    assert!(!report.has_failed());
    report.failures = 1;
    assert!(report.has_failed());
    report.failures = 0;
    report.errors = 1;
    assert!(report.has_failed());
    report.errors = 0;
    report.disabled = 7;
    report.tests = 9;
    assert!(!report.has_failed());
}

#[test]
fn into_result_sorts_a_report_by_has_failed() {
    let good = empty_report();
    assert!(matches!(good.clone().into_result(), Ok(report) if report == good));
    let mut bad = empty_report();
    bad.errors = 2;
    assert!(matches!(bad.clone().into_result(), Err(TestError::TestFailed(report)) if report == bad));
}

#[test]
fn message_and_location_splits_at_the_first_line_break() {
    let failure = TestFailure {
        failure: "main.c:12\nExpected equality\n  Which is: 3".to_string(),
        kind: "".to_string(),
    };
    assert_eq!(
        failure.message_and_location(),
        (Some("main.c:12".to_string()), "Expected equality\n  Which is: 3".to_string())
    );
}

#[test]
fn message_and_location_of_one_line_is_all_message() {
    let failure = TestFailure { failure: "heap-buffer-overflow".to_string(), kind: "x".to_string() };
    assert_eq!(failure.message_and_location(), (None, "heap-buffer-overflow".to_string()));
    let empty = TestFailure::default();
    assert_eq!(empty.message_and_location(), (None, "".to_string()));
}

#[test]
fn message_and_location_with_a_leading_line_break() {
    let failure = TestFailure { failure: "\nrest".to_string(), kind: "".to_string() };
    assert_eq!(failure.message_and_location(), (Some("".to_string()), "rest".to_string()));
}

#[test]
fn promoting_a_clean_suite_keeps_its_totals() {
    let mut clean = suite("sanitizer", 3, 0, 1, 0);
    clean.testsuite.push(TestInfo::default());
    let report = UnitTest::try_from(clean.clone()).unwrap();
    assert_eq!(report.name, "sanitizer");
    assert_eq!((report.tests, report.failures, report.disabled, report.errors), (3, 0, 1, 0));
    assert_eq!(report.timestamp, "");
    assert_eq!(report.time, "0.1s");
    assert_eq!(report.testsuites, vec![clean]);
}

#[test]
fn promoting_a_failing_suite_is_a_failed_test() {
    let failing = suite("sanitizer", 3, 2, 0, 0);
    match UnitTest::try_from(failing.clone()) {
        Err(TestError::TestFailed(report)) => {
            assert_eq!(report.failures, 2);
            assert_eq!(report.tests, 3);
            assert_eq!(report.testsuites, vec![failing]);
        }
        other => panic!("{:?}", other),
    }
}

#[test]
fn promoting_a_suite_with_an_error_is_a_crash() {
    let crashed = suite("sanitizer", 3, 2, 0, 1);
    match UnitTest::try_from(crashed) {
        Err(TestError::ExecutionError(reason)) => assert_eq!(reason, ""),
        other => panic!("{:?}", other),
    }
}

#[test]
fn test_error_messages() {
    assert_eq!(
        TestError::IoError("No such file".to_string()).message(),
        "unable to read test file: No such file"
    );
    assert_eq!(
        TestError::DeserializationError("EOF at line 1".to_string()).message(),
        "unable to parse json: EOF at line 1"
    );
    assert_eq!(TestError::ExecutionError("x".to_string()).message(), "program crashed during test");
    assert_eq!(TestError::TestFailed(empty_report()).message(), "test failed");
}

#[test]
fn defaults_are_empty() {
    assert_eq!(TestStatus::default(), TestStatus::Run);
    let info = TestInfo::default();
    assert_eq!(info.name, "");
    assert_eq!(info.line, 0);
    assert_eq!(info.status, TestStatus::Run);
    assert!(info.failures.is_empty());
    let case = TestCase::default();
    assert_eq!((case.tests, case.failures, case.disabled, case.errors), (0, 0, 0, 0));
    assert!(case.testsuite.is_empty());
    assert_eq!(TestFailure::default(), TestFailure { failure: "".to_string(), kind: "".to_string() });
}
