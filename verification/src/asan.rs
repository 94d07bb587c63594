//! The sanitizer log: a free text that is scanned for the reports of three
//! detectors and for the marks of a crash, and turned into a suite of three
//! tests.

use crate::gunit::{
    TestCase, TestCaseView, TestFailure, TestFailureView, TestInfo, TestInfoView, TestStatus,
};
use crate::text::{contains, occurs, occurs_at, split_first, split_once};
use vstd::prelude::*;
use vstd::string::StringExecFns;

verus! {

/// The scanner of sanitizer logs.
pub struct Asan;

/// The text that opens a detector's report in the log.
pub open spec fn marker_of(detector: Seq<char>) -> Seq<char> {
    "ERROR: "@ + detector + ": "@
}

/// What a detector reported, if its marker stands in the log: the text
/// behind the marker, where it stands first, up to the next line break, or
/// up to the end of the log where no line break follows.
pub open spec fn reported(log: Seq<char>, detector: Seq<char>) -> Option<Seq<char>> {
    match split_first(log, marker_of(detector)) {
        Some((_, rest)) => match split_first(rest, "\n"@) {
            Some((message, _)) => Some(message),
            None => Some(rest),
        },
        None => None,
    }
}

/// The test that stands for one detector: failing with the reported text as
/// its one failure, or passing.
pub open spec fn detector_case(key: Seq<char>, report: Option<Seq<char>>) -> TestInfoView {
    TestInfoView {
        name: key,
        classname: "sanitizer"@,
        failures: match report {
            Some(message) => seq![TestFailureView::of_message(message)],
            None => Seq::empty(),
        },
        ..TestInfoView::empty()
    }
}

/// The three tests of a log, in their fixed order.
pub open spec fn detector_cases(log: Seq<char>) -> Seq<TestInfoView> {
    seq![
        detector_case("address_sanitizer"@, reported(log, "AddressSanitizer"@)),
        detector_case(
            "undefined_behavior_sanitizer"@,
            reported(log, "UndefinedBehaviorSanitizer"@),
        ),
        detector_case("leak_sanitizer"@, reported(log, "LeakSanitizer"@)),
    ]
}

/// How many of `cases` are failing.
pub open spec fn failing(cases: Seq<TestInfoView>) -> nat
    decreases cases.len(),
{
    if cases.len() == 0 {
        0
    } else {
        failing(cases.drop_last()) + if cases.last().is_failing() {
            1nat
        } else {
            0nat
        }
    }
}

/// The log tells of a crash, whichever detector was at work.
pub open spec fn crashed(log: Seq<char>) -> bool {
    occurs(log, "DEADLYSIGNAL"@) || occurs(log, "ABORTING"@)
}

/// The suite that a log stands for.
pub open spec fn scanned(log: Seq<char>) -> TestCaseView {
    let cases = detector_cases(log);
    TestCaseView {
        name: "sanitizer"@,
        tests: cases.len(),
        failures: failing(cases),
        errors: if crashed(log) {
            1
        } else {
            0
        },
        testsuite: cases,
        ..TestCaseView::empty()
    }
}

/// In a sequence of three cases, the failing ones are counted one by one.
proof fn lemma_failing_of_three(cases: Seq<TestInfoView>)
    requires
        cases.len() == 3,
    ensures
        failing(cases) == (if cases[0].is_failing() {
            1nat
        } else {
            0nat
        }) + (if cases[1].is_failing() {
            1nat
        } else {
            0nat
        }) + (if cases[2].is_failing() {
            1nat
        } else {
            0nat
        }),
{
    let two = cases.drop_last();
    let one = two.drop_last();
    assert(failing(one) == failing(one.drop_last()) + if cases[0].is_failing() {
        1nat
    } else {
        0nat
    });
    assert(failing(two) == failing(one) + if cases[1].is_failing() {
        1nat
    } else {
        0nat
    });
}

/// Every log gives three tests, and no more failures than tests.
pub proof fn lemma_scanned_has_three_cases(log: Seq<char>)
    ensures
        scanned(log).testsuite.len() == 3,
        scanned(log).tests == 3,
        scanned(log).failures <= 3,
        scanned(log).errors <= 1,
        scanned(log).disabled == 0,
{
    lemma_failing_of_three(detector_cases(log));
}

/// A log in which no detector's marker and no mark of a crash stands gives
/// three passing tests: no failure and no error.
pub proof fn lemma_scanned_without_marks(log: Seq<char>)
    requires
        !occurs(log, marker_of("AddressSanitizer"@)),
        !occurs(log, marker_of("UndefinedBehaviorSanitizer"@)),
        !occurs(log, marker_of("LeakSanitizer"@)),
        !crashed(log),
    ensures
        scanned(log).tests == 3,
        scanned(log).failures == 0,
        scanned(log).errors == 0,
        forall|i: int| 0 <= i < 3 ==> !(#[trigger] scanned(log).testsuite[i]).is_failing(),
{
    lemma_failing_of_three(detector_cases(log));
}

/// A detector's case fails exactly when its marker stands in the log, so a
/// log counts a failure exactly when the marker of a detector stands in it.
pub proof fn lemma_scanned_fails_iff_marked(log: Seq<char>)
    ensures
        reported(log, "AddressSanitizer"@) is Some <==> occurs(
            log,
            marker_of("AddressSanitizer"@),
        ),
        reported(log, "UndefinedBehaviorSanitizer"@) is Some <==> occurs(
            log,
            marker_of("UndefinedBehaviorSanitizer"@),
        ),
        reported(log, "LeakSanitizer"@) is Some <==> occurs(log, marker_of("LeakSanitizer"@)),
        scanned(log).failures > 0 <==> (occurs(log, marker_of("AddressSanitizer"@)) || occurs(
            log,
            marker_of("UndefinedBehaviorSanitizer"@),
        ) || occurs(log, marker_of("LeakSanitizer"@))),
{
    lemma_failing_of_three(detector_cases(log));
}

/// A log that tells of a crash, and in which no detector's marker stands,
/// gives one error and no failure.
pub proof fn lemma_scanned_crash_only(log: Seq<char>)
    requires
        !occurs(log, marker_of("AddressSanitizer"@)),
        !occurs(log, marker_of("UndefinedBehaviorSanitizer"@)),
        !occurs(log, marker_of("LeakSanitizer"@)),
        crashed(log),
    ensures
        scanned(log).errors == 1,
        scanned(log).failures == 0,
        scanned(log).tests == 3,
{
    lemma_failing_of_three(detector_cases(log));
}

/// The empty log gives three passing tests.
pub proof fn lemma_scanned_empty()
    ensures
        scanned(Seq::empty()).tests == 3,
        scanned(Seq::empty()).failures == 0,
        scanned(Seq::empty()).errors == 0,
{
    let log = Seq::<char>::empty();
    reveal_strlit("ERROR: ");
    reveal_strlit("DEADLYSIGNAL");
    reveal_strlit("ABORTING");
    assert forall|pattern: Seq<char>| pattern.len() > 0 implies !occurs(log, pattern) by {
        assert forall|at: int| !occurs_at(log, pattern, at) by {}
    }
    lemma_scanned_without_marks(log);
}

impl Asan {
    /// The test that stands for one detector in `log`.
    fn case(key: &str, detector: &str, log: &str) -> (info: TestInfo)
        ensures
            info@ == detector_case(key@, reported(log@, detector@)),
    {
        let marker = String::from_str("ERROR: ").concat(detector).concat(": ");
        let report: Option<&str> = match split_once(log, marker.as_str()) {
            Some((_, rest)) => match split_once(rest, "\n") {
                Some((message, _)) => Some(message),
                None => Some(rest),
            },
            None => None,
        };
        let mut failures: Vec<TestFailure> = Vec::new();
        if let Some(message) = report {
            failures.push(TestFailure { failure: String::from_str(message), kind: String::new() });
        }
        let info = TestInfo {
            name: String::from_str(key),
            file: String::new(),
            line: 0,
            status: TestStatus::Run,
            result: String::new(),
            timestamp: String::new(),
            time: String::new(),
            classname: String::from_str("sanitizer"),
            failures,
        };
        assert(info@.failures =~= detector_case(key@, reported(log@, detector@)).failures);
        info
    }

    /// Scans the text of a sanitizer log. The suite always holds the three
    /// tests of the detectors; it comes back as `Ok` when none of them
    /// fails, and as `Err` when one does, which tells the caller to show
    /// the raw log as well.
    pub fn scan(log: &str) -> (outcome: Result<TestCase, TestCase>)
        ensures
            match outcome {
                Ok(suite) => suite@ == scanned(log@) && suite@.failures == 0,
                Err(suite) => suite@ == scanned(log@) && suite@.failures > 0,
            },
            scanned(log@).tests == 3,
            scanned(log@).testsuite.len() == 3,
    {
        let address = Self::case("address_sanitizer", "AddressSanitizer", log);
        let undefined = Self::case(
            "undefined_behavior_sanitizer",
            "UndefinedBehaviorSanitizer",
            log,
        );
        let leak = Self::case("leak_sanitizer", "LeakSanitizer", log);
        let mut failures: u32 = 0;
        if !address.failures.is_empty() {
            failures += 1;
        }
        if !undefined.failures.is_empty() {
            failures += 1;
        }
        if !leak.failures.is_empty() {
            failures += 1;
        }
        let errors: u32 = if contains(log, "DEADLYSIGNAL") || contains(log, "ABORTING") {
            1
        } else {
            0
        };
        let mut cases: Vec<TestInfo> = Vec::new();
        cases.push(address);
        cases.push(undefined);
        cases.push(leak);
        let tests: u32 = 3;
        let suite = TestCase {
            name: String::from_str("sanitizer"),
            tests,
            failures,
            disabled: 0,
            errors,
            time: String::new(),
            testsuite: cases,
        };
        proof {
            assert(suite@.testsuite =~= detector_cases(log@));
            lemma_failing_of_three(detector_cases(log@));
        }
        if failures == 0 {
            Ok(suite)
        } else {
            Err(suite)
        }
    }

    /// Scans a sanitizer log that may be missing. A missing log counts as an
    /// empty one: three passing tests.
    pub fn try_from_log(log: Option<&str>) -> (outcome: Result<TestCase, TestCase>)
        ensures
            match log {
                Some(text) => match outcome {
                    Ok(suite) => suite@ == scanned(text@) && suite@.failures == 0,
                    Err(suite) => suite@ == scanned(text@) && suite@.failures > 0,
                },
                None => outcome matches Ok(suite) && suite@ == scanned(Seq::empty())
                    && suite@.tests == 3 && suite@.failures == 0 && suite@.errors == 0,
            },
    {
        match log {
            Some(text) => Self::scan(text),
            None => {
                proof {
                    reveal_strlit("");
                    assert(""@ =~= Seq::<char>::empty());
                    lemma_scanned_empty();
                }
                Self::scan("")
            },
        }
    }
}

} // verus!
