use neodojo::fusion::{fuse, try_fuse, Outcome, ReportProbe, SanitizerProbe};
use neodojo::gunit::{TestCase, TestError, UnitTest};

fn report() -> UnitTest {
    UnitTest {
        name: "AllTests".to_string(),
        tests: 4,
        failures: 1,
        disabled: 2,
        errors: 0,
        timestamp: "t".to_string(),
        time: "1s".to_string(),
        testsuites: vec![TestCase { name: "unit".to_string(), tests: 4, failures: 1, ..TestCase::default() }],
    }
}

fn sanitizer() -> TestCase {
    TestCase { name: "sanitizer".to_string(), tests: 3, failures: 1, errors: 1, ..TestCase::default() }
}

fn merged() -> UnitTest {
    let mut all = report();
    all.tests = 7;
    all.failures = 2;
    all.errors = 1;
    all.testsuites.push(sanitizer());
    all
}

fn count(report: &UnitTest, suite: &TestCase) -> usize {
    report.testsuites.iter().filter(|held| *held == suite).count()
}

#[test]
fn success_and_success_is_success() {
    match fuse(ReportProbe::Success(report()), SanitizerProbe::Success(sanitizer())) {
        Outcome::Success(all) => {
            assert_eq!(all, merged());
            assert_eq!(count(&all, &sanitizer()), 1);
        }
        other => panic!("{:?}", other),
    }
}

#[test]
fn success_and_failure_is_failure() {
    match fuse(ReportProbe::Success(report()), SanitizerProbe::Failure(sanitizer())) {
        Outcome::Failure(all) => {
            assert_eq!(all, merged());
            assert_eq!(count(&all, &sanitizer()), 1);
        }
        other => panic!("{:?}", other),
    }
}

#[test]
fn failure_and_success_is_failure() {
    match fuse(ReportProbe::Failure(report()), SanitizerProbe::Success(sanitizer())) {
        Outcome::Failure(all) => {
            assert_eq!(all, merged());
            assert_eq!(count(&all, &sanitizer()), 1);
        }
        other => panic!("{:?}", other),
    }
}

#[test]
fn failure_and_failure_is_failure() {
    match fuse(ReportProbe::Failure(report()), SanitizerProbe::Failure(sanitizer())) {
        Outcome::Failure(all) => {
            assert_eq!(all, merged());
            assert_eq!(all.testsuites.last(), Some(&sanitizer()));
            assert_eq!(count(&all, &sanitizer()), 1);
        }
        other => panic!("{:?}", other),
    }
}

#[test]
fn a_crash_outweighs_a_passing_sanitizer() {
    let outcome = fuse(ReportProbe::ExecutionError, SanitizerProbe::Success(sanitizer()));
    assert!(matches!(outcome, Outcome::ExecutionError));
}

#[test]
fn a_crash_outweighs_a_failing_sanitizer() {
    let outcome = fuse(ReportProbe::ExecutionError, SanitizerProbe::Failure(sanitizer()));
    assert!(matches!(outcome, Outcome::ExecutionError));
}

#[test]
fn probes_are_read_from_results() {
    assert!(matches!(
        ReportProbe::from_result(Ok(report())),
        Ok(ReportProbe::Success(held)) if held == report()
    ));
    assert!(matches!(
        ReportProbe::from_result(Err(TestError::TestFailed(report()))),
        Ok(ReportProbe::Failure(held)) if held == report()
    ));
    assert!(matches!(
        ReportProbe::from_result(Err(TestError::ExecutionError("boom".to_string()))),
        Ok(ReportProbe::ExecutionError)
    ));
    assert!(matches!(
        ReportProbe::from_result(Err(TestError::IoError("gone".to_string()))),
        Err(TestError::IoError(reason)) if reason == "gone"
    ));
    assert!(matches!(
        ReportProbe::from_result(Err(TestError::DeserializationError("bad".to_string()))),
        Err(TestError::DeserializationError(reason)) if reason == "bad"
    ));
    assert!(matches!(
        SanitizerProbe::from_result(Ok(sanitizer())),
        SanitizerProbe::Success(held) if held == sanitizer()
    ));
    assert!(matches!(
        SanitizerProbe::from_result(Err(sanitizer())),
        SanitizerProbe::Failure(held) if held == sanitizer()
    ));
}

#[test]
fn outcomes_become_results() {
    assert!(matches!(Outcome::Success(report()).into_result(), Ok(held) if held == report()));
    assert!(matches!(
        Outcome::Failure(report()).into_result(),
        Err(TestError::TestFailed(held)) if held == report()
    ));
    assert!(matches!(
        Outcome::ExecutionError.into_result(),
        Err(TestError::ExecutionError(reason)) if reason.is_empty()
    ));
}

#[test]
fn try_fuse_fuses_where_the_totals_have_room() {
    assert!(matches!(
        try_fuse(ReportProbe::Success(report()), SanitizerProbe::Success(sanitizer())),
        Ok(Outcome::Success(all)) if all == merged()
    ));
    assert!(matches!(
        try_fuse(ReportProbe::Success(report()), SanitizerProbe::Failure(sanitizer())),
        Ok(Outcome::Failure(all)) if all == merged()
    ));
    assert!(matches!(
        try_fuse(ReportProbe::Failure(report()), SanitizerProbe::Success(sanitizer())),
        Ok(Outcome::Failure(all)) if all == merged()
    ));
    assert!(matches!(
        try_fuse(ReportProbe::Failure(report()), SanitizerProbe::Failure(sanitizer())),
        Ok(Outcome::Failure(all)) if all == merged()
    ));
    let mut full = sanitizer();
    full.tests = u32::MAX;
    assert!(matches!(
        try_fuse(ReportProbe::ExecutionError, SanitizerProbe::Failure(full)),
        Ok(Outcome::ExecutionError)
    ));
}

#[test]
fn try_fuse_hands_the_probes_back_where_a_total_has_no_room() {
    let mut full = report();
    full.errors = u32::MAX;
    match try_fuse(ReportProbe::Failure(full.clone()), SanitizerProbe::Success(sanitizer())) {
        Err((ReportProbe::Failure(held), SanitizerProbe::Success(suite))) => {
            assert_eq!(held, full);
            assert_eq!(suite, sanitizer());
        }
        other => panic!("{:?}", other),
    }
}

#[test]
fn a_probe_lends_its_suite() {
    assert_eq!(SanitizerProbe::Success(sanitizer()).suite(), &sanitizer());
    assert_eq!(SanitizerProbe::Failure(sanitizer()).suite(), &sanitizer());
}
