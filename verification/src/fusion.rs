//! Fusing the two probes of a test run, the structured report and the
//! sanitizer scan, into one outcome.

use crate::gunit::{TestCase, TestCaseView, TestError, UnitTest, UnitTestView};
use vstd::prelude::*;

verus! {

/// What reading the structured report gave.
#[derive(Debug)]
pub enum ReportProbe {
    /// A report without failure.
    Success(UnitTest),
    /// A report with failing tests.
    Failure(UnitTest),
    /// The program crashed, or what it wrote cannot be read as a report.
    ExecutionError,
}

/// What scanning the sanitizer log gave.
#[derive(Debug)]
pub enum SanitizerProbe {
    /// No detector reported.
    Success(TestCase),
    /// A detector reported.
    Failure(TestCase),
}

/// The one outcome of a test run.
#[derive(Debug)]
pub enum Outcome {
    /// Both probes passed.
    Success(UnitTest),
    /// A probe failed.
    Failure(UnitTest),
    /// The program crashed, or what it wrote cannot be read as a report.
    ExecutionError,
}

/// What a [`ReportProbe`] holds.
pub enum ReportProbeView {
    Success(UnitTestView),
    Failure(UnitTestView),
    ExecutionError,
}

/// What a [`SanitizerProbe`] holds.
pub enum SanitizerProbeView {
    Success(TestCaseView),
    Failure(TestCaseView),
}

/// What an [`Outcome`] holds.
pub enum OutcomeView {
    Success(UnitTestView),
    Failure(UnitTestView),
    ExecutionError,
}

impl View for ReportProbe {
    type V = ReportProbeView;

    open spec fn view(&self) -> ReportProbeView {
        match self {
            ReportProbe::Success(report) => ReportProbeView::Success(report@),
            ReportProbe::Failure(report) => ReportProbeView::Failure(report@),
            ReportProbe::ExecutionError => ReportProbeView::ExecutionError,
        }
    }
}

impl View for SanitizerProbe {
    type V = SanitizerProbeView;

    open spec fn view(&self) -> SanitizerProbeView {
        match self {
            SanitizerProbe::Success(suite) => SanitizerProbeView::Success(suite@),
            SanitizerProbe::Failure(suite) => SanitizerProbeView::Failure(suite@),
        }
    }
}

impl View for Outcome {
    type V = OutcomeView;

    open spec fn view(&self) -> OutcomeView {
        match self {
            Outcome::Success(report) => OutcomeView::Success(report@),
            Outcome::Failure(report) => OutcomeView::Failure(report@),
            Outcome::ExecutionError => OutcomeView::ExecutionError,
        }
    }
}

impl ReportProbeView {
    /// The report that the probe holds, if it holds one.
    pub open spec fn report(self) -> Option<UnitTestView> {
        match self {
            ReportProbeView::Success(report) => Some(report),
            ReportProbeView::Failure(report) => Some(report),
            ReportProbeView::ExecutionError => None,
        }
    }
}

impl SanitizerProbeView {
    /// The suite that the probe holds.
    pub open spec fn suite(self) -> TestCaseView {
        match self {
            SanitizerProbeView::Success(suite) => suite,
            SanitizerProbeView::Failure(suite) => suite,
        }
    }
}

impl OutcomeView {
    /// The report that the outcome holds, if it holds one.
    pub open spec fn report(self) -> Option<UnitTestView> {
        match self {
            OutcomeView::Success(report) => Some(report),
            OutcomeView::Failure(report) => Some(report),
            OutcomeView::ExecutionError => None,
        }
    }
}

/// The outcome of two probes. A crash outweighs whatever the sanitizer
/// found, and its suite is dropped. Wherever a report exists, the sanitizer
/// suite is appended to it, and the run succeeds only if both probes did.
pub open spec fn fused(report: ReportProbeView, sanitizer: SanitizerProbeView) -> OutcomeView {
    match report {
        ReportProbeView::ExecutionError => OutcomeView::ExecutionError,
        ReportProbeView::Success(found) => match sanitizer {
            SanitizerProbeView::Success(suite) => OutcomeView::Success(found.add_suite(suite)),
            SanitizerProbeView::Failure(suite) => OutcomeView::Failure(found.add_suite(suite)),
        },
        ReportProbeView::Failure(found) => OutcomeView::Failure(
            found.add_suite(sanitizer.suite()),
        ),
    }
}

/// The totals of the report, if there is one, have room for the counts of
/// the sanitizer suite.
pub open spec fn can_fuse(report: ReportProbeView, sanitizer: SanitizerProbeView) -> bool {
    match report.report() {
        Some(found) => found.totals().plus(sanitizer.suite().totals()).fits(),
        None => true,
    }
}

/// The outcome of each of the six pairs of probe outcomes, pair by pair.
/// Wherever the report probe holds a report, the outcome holds that report
/// with the sanitizer suite appended; it is a success only where both
/// probes are. A crash is a crash, whatever the sanitizer found.
pub proof fn lemma_fused_table(found: UnitTestView, suite: TestCaseView)
    ensures
        fused(ReportProbeView::Success(found), SanitizerProbeView::Success(suite))
            == OutcomeView::Success(found.add_suite(suite)),
        fused(ReportProbeView::Success(found), SanitizerProbeView::Failure(suite))
            == OutcomeView::Failure(found.add_suite(suite)),
        fused(ReportProbeView::Failure(found), SanitizerProbeView::Success(suite))
            == OutcomeView::Failure(found.add_suite(suite)),
        fused(ReportProbeView::Failure(found), SanitizerProbeView::Failure(suite))
            == OutcomeView::Failure(found.add_suite(suite)),
        fused(ReportProbeView::ExecutionError, SanitizerProbeView::Success(suite))
            == OutcomeView::ExecutionError,
        fused(ReportProbeView::ExecutionError, SanitizerProbeView::Failure(suite))
            == OutcomeView::ExecutionError,
        found.add_suite(suite).testsuites == found.testsuites.push(suite),
        found.add_suite(suite).totals() == found.totals().plus(suite.totals()),
{
}

/// Each of the six pairs of probe outcomes has its one outcome: success
/// where both succeeded, a crash where the report probe saw one, failure
/// in the other three.
pub proof fn lemma_fused_covers_all_pairs(report: ReportProbeView, sanitizer: SanitizerProbeView)
    ensures
        fused(report, sanitizer) is Success <==> report is Success && sanitizer is Success,
        fused(report, sanitizer) is ExecutionError <==> report is ExecutionError,
        fused(report, sanitizer) is Failure <==> (report is Failure || (report is Success
            && sanitizer is Failure)),
{
}

/// Whenever the outcome is not a crash, its report is the probe's report
/// with the sanitizer suite appended as its last suite, and with the
/// suite's counts added to the totals. The suite stands in the outcome
/// once more than it stood in the probe's report: exactly once, where that
/// report did not hold an equal suite before.
pub proof fn lemma_fused_appends_suite_once(
    report: ReportProbeView,
    sanitizer: SanitizerProbeView,
)
    requires
        !(fused(report, sanitizer) is ExecutionError),
    ensures
        report.report() is Some,
        fused(report, sanitizer).report() == Some(
            report.report().unwrap().add_suite(sanitizer.suite()),
        ),
        fused(report, sanitizer).report().unwrap().testsuites
            == report.report().unwrap().testsuites.push(sanitizer.suite()),
        fused(report, sanitizer).report().unwrap().testsuites.to_multiset().count(
            sanitizer.suite(),
        ) == report.report().unwrap().testsuites.to_multiset().count(sanitizer.suite()) + 1,
        !report.report().unwrap().testsuites.contains(sanitizer.suite()) ==> fused(
            report,
            sanitizer,
        ).report().unwrap().testsuites.to_multiset().count(sanitizer.suite()) == 1,
{
    broadcast use vstd::seq_lib::group_to_multiset_ensures;

}

/// Fuses the two probes of a test run into its outcome.
pub fn fuse(report: ReportProbe, sanitizer: SanitizerProbe) -> (outcome: Outcome)
    requires
        can_fuse(report@, sanitizer@),
    ensures
        outcome@ == fused(report@, sanitizer@),
{
    match report {
        ReportProbe::ExecutionError => Outcome::ExecutionError,
        ReportProbe::Success(mut found) => match sanitizer {
            SanitizerProbe::Success(suite) => {
                found.add_suite(suite);
                Outcome::Success(found)
            },
            SanitizerProbe::Failure(suite) => {
                found.add_suite(suite);
                Outcome::Failure(found)
            },
        },
        ReportProbe::Failure(mut found) => {
            let suite = match sanitizer {
                SanitizerProbe::Success(suite) => suite,
                SanitizerProbe::Failure(suite) => suite,
            };
            found.add_suite(suite);
            Outcome::Failure(found)
        },
    }
}

/// Fuses the two probes of a test run, whatever they count: where the
/// totals of the report have no room for the counts of the sanitizer
/// suite, nothing is fused, and the two probes come back as they were.
pub fn try_fuse(report: ReportProbe, sanitizer: SanitizerProbe) -> (fusion: Result<
    Outcome,
    (ReportProbe, SanitizerProbe),
>)
    ensures
        match fusion {
            Ok(outcome) => can_fuse(report@, sanitizer@) && outcome@ == fused(
                report@,
                sanitizer@,
            ),
            Err(probes) => !can_fuse(report@, sanitizer@) && probes == (report, sanitizer),
        },
{
    let fits = match &report {
        ReportProbe::Success(found) => found.can_add_suite(sanitizer.suite()),
        ReportProbe::Failure(found) => found.can_add_suite(sanitizer.suite()),
        ReportProbe::ExecutionError => true,
    };
    if fits {
        Ok(fuse(report, sanitizer))
    } else {
        Err((report, sanitizer))
    }
}

impl SanitizerProbe {
    /// The suite that the probe holds.
    pub fn suite(&self) -> (suite: &TestCase)
        ensures
            suite@ == self@.suite(),
    {
        match self {
            SanitizerProbe::Success(suite) => suite,
            SanitizerProbe::Failure(suite) => suite,
        }
    }
}

impl ReportProbe {
    /// Reads the result of loading a report as a probe: a report is a
    /// success, a failed report a failure, a crash a crash. That the report
    /// could not be read or parsed is no outcome of the probe: such an
    /// error ends the run, and comes back as it is.
    pub fn from_result(loaded: Result<UnitTest, TestError>) -> (probe: Result<
        ReportProbe,
        TestError,
    >)
        ensures
            match loaded {
                Ok(report) => probe == Ok::<ReportProbe, TestError>(ReportProbe::Success(report)),
                Err(TestError::TestFailed(report)) => probe == Ok::<ReportProbe, TestError>(
                    ReportProbe::Failure(report),
                ),
                Err(TestError::ExecutionError(_)) => probe == Ok::<ReportProbe, TestError>(
                    ReportProbe::ExecutionError,
                ),
                Err(error) => probe == Err::<ReportProbe, TestError>(error),
            },
    {
        match loaded {
            Ok(report) => Ok(ReportProbe::Success(report)),
            Err(TestError::TestFailed(report)) => Ok(ReportProbe::Failure(report)),
            Err(TestError::ExecutionError(_)) => Ok(ReportProbe::ExecutionError),
            Err(error) => Err(error),
        }
    }
}

impl SanitizerProbe {
    /// Reads the result of a scan as a probe: `Ok` is a success, `Err` a
    /// failure, each with its suite.
    pub fn from_result(scanned: Result<TestCase, TestCase>) -> (probe: SanitizerProbe)
        ensures
            match scanned {
                Ok(suite) => probe == SanitizerProbe::Success(suite),
                Err(suite) => probe == SanitizerProbe::Failure(suite),
            },
    {
        match scanned {
            Ok(suite) => SanitizerProbe::Success(suite),
            Err(suite) => SanitizerProbe::Failure(suite),
        }
    }
}

impl Outcome {
    /// The outcome as the result of the run: the report of a success, or
    /// the error that a failure or a crash is. The error of a crash has no
    /// text.
    pub fn into_result(self) -> (result: Result<UnitTest, TestError>)
        ensures
            match self {
                Outcome::Success(report) => result == Ok::<UnitTest, TestError>(report),
                Outcome::Failure(report) => result == Err::<UnitTest, TestError>(
                    TestError::TestFailed(report),
                ),
                Outcome::ExecutionError => result matches Err(TestError::ExecutionError(reason))
                    && reason@.len() == 0,
            },
    {
        match self {
            Outcome::Success(report) => Ok(report),
            Outcome::Failure(report) => Err(TestError::TestFailed(report)),
            Outcome::ExecutionError => Err(TestError::ExecutionError(String::new())),
        }
    }
}

} // verus!
