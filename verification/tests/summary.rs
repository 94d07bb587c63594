use neodojo::gunit::{TestCase, TestFailure, TestInfo, UnitTest};
use neodojo::summary::{failure_line_of, to_decimal, to_signed_decimal, Line, Span, Tint};

fn span(text: &str, tint: Tint) -> Span {
    Span { text: text.to_string(), tint }
}

fn line(spans: Vec<Span>) -> Line {
    Line { spans }
}

fn info(classname: &str, name: &str, file: &str, line: u32, failures: Vec<&str>) -> TestInfo {
    TestInfo {
        name: name.to_string(),
        classname: classname.to_string(),
        file: file.to_string(),
        line,
        failures: failures
            .into_iter()
            .map(|text| TestFailure { failure: text.to_string(), kind: "".to_string() })
            .collect(),
        ..TestInfo::default()
    }
}

fn text_of(lines: &[Line]) -> Vec<String> {
    lines.iter().map(|l| l.spans.iter().map(|s| s.text.as_str()).collect::<String>()).collect()
}

#[test]
fn numbers_are_written_in_decimal() {
    assert_eq!(to_decimal(0), "0");
    assert_eq!(to_decimal(7), "7");
    assert_eq!(to_decimal(10), "10");
    assert_eq!(to_decimal(1234567890), "1234567890");
    assert_eq!(to_decimal(u32::MAX as u64), "4294967295");
    assert_eq!(to_decimal(u64::MAX), "18446744073709551615");
}

#[test]
fn negative_numbers_are_written_with_a_minus_sign() {
    assert_eq!(to_signed_decimal(0), "0");
    assert_eq!(to_signed_decimal(42), "42");
    assert_eq!(to_signed_decimal(-1), "-1");
    assert_eq!(to_signed_decimal(-4294967295), "-4294967295");
    assert_eq!(to_signed_decimal(i64::MAX), "9223372036854775807");
    assert_eq!(to_signed_decimal(i64::MIN), "-9223372036854775808");
}

#[test]
fn tally_of_a_report_with_more_failures_than_tests() {
    let report = UnitTest {
        name: "".to_string(),
        tests: 2,
        failures: 5,
        disabled: 0,
        errors: 0,
        timestamp: "".to_string(),
        time: "0s".to_string(),
        testsuites: vec![],
    };
    assert_eq!(
        text_of(&report.summary_lines()),
        vec![
            "ran 2 tests",
            "",
            "failures:",
            "",
            "test result: FAILED. -3 passed; 5 failed; 0 ignored; finished in 0s",
        ]
    );
}

#[test]
fn details_of_a_test_with_a_located_failure() {
    let test = info("Suite", "adds", "test.cpp", 42, vec!["test.cpp:45\nExpected: 3\n  Actual: 4"]);
    assert_eq!(
        test.detail_lines(),
        vec![
            line(vec![
                span("    ", Tint::Plain),
                span("Suite.adds", Tint::Cyan),
                span(" ", Tint::Plain),
                span("(test.cpp:42)", Tint::Faint),
            ]),
            line(vec![
                span("    Expected: 3\n      Actual: 4", Tint::Plain),
                span(" ", Tint::Plain),
                span("(test.cpp:45)", Tint::Faint),
            ]),
        ]
    );
}

#[test]
fn details_of_a_test_without_file_and_location() {
    let test = info("sanitizer", "address_sanitizer", "", 0, vec!["heap-buffer-overflow"]);
    assert_eq!(
        test.detail_lines(),
        vec![
            line(vec![
                span("    ", Tint::Plain),
                span("sanitizer.address_sanitizer", Tint::Cyan),
                span(" ", Tint::Plain),
                span("(see logs for details)", Tint::Faint),
            ]),
            line(vec![span("    heap-buffer-overflow", Tint::Plain), span(" ", Tint::Plain)]),
        ]
    );
}

#[test]
fn details_count_the_failures_that_are_not_shown() {
    let test = info("S", "t", "f.c", 1, vec!["one", "two", "three"]);
    let lines = test.detail_lines();
    assert_eq!(lines.len(), 3);
    assert_eq!(lines[1].spans[0].text, "    one");
    assert_eq!(lines[2], line(vec![span("    ... and 2 more", Tint::Magenta)]));
    let two = info("S", "t", "f.c", 1, vec!["one", "two"]);
    assert_eq!(two.detail_lines()[2], line(vec![span("    ... and 1 more", Tint::Magenta)]));
}

#[test]
fn details_of_a_passing_test_are_its_title() {
    let test = info("S", "t", "f.c", 7, vec![]);
    assert_eq!(text_of(&test.detail_lines()), vec!["    S.t (f.c:7)"]);
}

#[test]
fn summary_of_a_passing_report() {
    let report = UnitTest {
        name: "AllTests".to_string(),
        tests: 3,
        failures: 0,
        disabled: 1,
        errors: 0,
        timestamp: "".to_string(),
        time: "0.004s".to_string(),
        testsuites: vec![
            TestCase {
                name: "A".to_string(),
                tests: 2,
                testsuite: vec![info("A", "first", "a.c", 1, vec![]), info("A", "second", "a.c", 9, vec![])],
                ..TestCase::default()
            },
            TestCase { name: "Empty".to_string(), ..TestCase::default() },
            TestCase {
                name: "B".to_string(),
                tests: 1,
                testsuite: vec![info("B", "third", "b.c", 3, vec![])],
                ..TestCase::default()
            },
        ],
    };
    assert_eq!(
        report.summary_lines(),
        vec![
            line(vec![span("ran 3 tests", Tint::Plain)]),
            line(vec![span("test A.first ... ", Tint::Plain), span("ok", Tint::Green)]),
            line(vec![span("test A.second ... ", Tint::Plain), span("ok", Tint::Green)]),
            line(vec![span("test B.third ... ", Tint::Plain), span("ok", Tint::Green)]),
            line(vec![]),
            line(vec![
                span("test result: ", Tint::Plain),
                span("ok", Tint::Green),
                span(". 3 passed; 0 failed; 1 ignored; finished in 0.004s", Tint::Plain),
            ]),
        ]
    );
}

#[test]
fn summary_of_a_failing_report() {
    let report = UnitTest {
        name: "AllTests".to_string(),
        tests: 12,
        failures: 2,
        disabled: 0,
        errors: 0,
        timestamp: "".to_string(),
        time: "1s".to_string(),
        testsuites: vec![
            TestCase {
                name: "A".to_string(),
                testsuite: vec![
                    info("A", "bad", "a.c", 5, vec!["a.c:6\nboom", "again"]),
                    info("A", "good", "a.c", 9, vec![]),
                ],
                ..TestCase::default()
            },
            TestCase {
                name: "sanitizer".to_string(),
                testsuite: vec![info("sanitizer", "leak_sanitizer", "", 0, vec!["leak"])],
                ..TestCase::default()
            },
        ],
    };
    assert_eq!(
        text_of(&report.summary_lines()),
        vec![
            "ran 12 tests",
            "test A.bad ... FAILED",
            "test A.good ... ok",
            "test sanitizer.leak_sanitizer ... FAILED",
            "",
            "failures:",
            "    A.bad (a.c:5)",
            "    boom (a.c:6)",
            "    ... and 1 more",
            "",
            "    sanitizer.leak_sanitizer (see logs for details)",
            "    leak ",
            "",
            "",
            "test result: FAILED. 10 passed; 2 failed; 0 ignored; finished in 1s",
        ]
    );
    let lines = report.summary_lines();
    assert_eq!(lines[1].spans[1], span("FAILED", Tint::Red));
    assert_eq!(lines[14].spans[1], span("FAILED", Tint::Red));
}

#[test]
fn summary_shows_failing_tests_only_if_the_report_counts_a_failure() {
    let report = UnitTest {
        name: "".to_string(),
        tests: 1,
        failures: 0,
        disabled: 0,
        errors: 1,
        timestamp: "".to_string(),
        time: "".to_string(),
        testsuites: vec![TestCase {
            testsuite: vec![info("S", "t", "", 0, vec!["uncounted"])],
            ..TestCase::default()
        }],
    };
    assert_eq!(
        text_of(&report.summary_lines()),
        vec![
            "ran 1 tests",
            "test S.t ... FAILED",
            "",
            "test result: ok. 1 passed; 0 failed; 0 ignored; finished in ",
        ]
    );
}

#[test]
fn failure_line_of_a_message_and_its_location() {
    assert_eq!(
        failure_line_of("    boom".to_string(), Some("a.c:6".to_string())),
        line(vec![
            span("    boom", Tint::Plain),
            span(" ", Tint::Plain),
            span("(a.c:6)", Tint::Faint),
        ])
    );
    assert_eq!(
        failure_line_of("".to_string(), None),
        line(vec![span("", Tint::Plain), span(" ", Tint::Plain)])
    );
}
