//! The test report: suites, cases and failures, with additive totals.

use crate::text::{split_first, split_once};
use vstd::prelude::*;
use vstd::string::StringExecFns;

verus! {

/// Whether a test was run at all.
#[derive(Debug, Clone, Copy, PartialEq, Eq, Structural)]
pub enum TestStatus {
    Run,
    NotRun,
}

impl Default for TestStatus {
    fn default() -> (status: TestStatus)
        ensures
            status == TestStatus::Run,
    {
        TestStatus::Run
    }
}

/// One failure of a test: its text, and the kind the producer gave it.
#[derive(Debug, Clone, PartialEq, Eq)]
pub struct TestFailure {
    pub failure: String,
    pub kind: String,
}

/// What a [`TestFailure`] holds.
pub struct TestFailureView {
    pub failure: Seq<char>,
    pub kind: Seq<char>,
}

impl View for TestFailure {
    type V = TestFailureView;

    open spec fn view(&self) -> TestFailureView {
        TestFailureView { failure: self.failure@, kind: self.kind@ }
    }
}

impl TestFailureView {
    /// A failure with the given text and no kind.
    pub open spec fn of_message(message: Seq<char>) -> TestFailureView {
        TestFailureView { failure: message, kind: Seq::empty() }
    }

    /// The first line of the failure text names where it happened, the rest
    /// is the message; a text of one line is all message.
    pub open spec fn message_and_location(self) -> (Option<Seq<char>>, Seq<char>) {
        match split_first(self.failure, "\n"@) {
            Some((location, message)) => (Some(location), message),
            None => (None, self.failure),
        }
    }
}

impl Default for TestFailure {
    fn default() -> (failure: TestFailure)
        ensures
            failure@ == TestFailureView::of_message(Seq::empty()),
    {
        TestFailure { failure: String::new(), kind: String::new() }
    }
}

impl TestFailure {
    /// Splits the failure text at its first line break into the location
    /// and the message.
    pub fn message_and_location(&self) -> (parts: (Option<String>, String))
        ensures
            parts.deep_view() == self@.message_and_location(),
    {
        match split_once(self.failure.as_str(), "\n") {
            Some((location, message)) => (
                Some(String::from_str(location)),
                String::from_str(message),
            ),
            None => (None, self.failure.clone()),
        }
    }
}

/// One test of a suite.
#[derive(Debug, Clone, PartialEq, Eq)]
pub struct TestInfo {
    pub name: String,
    pub file: String,
    pub line: u32,
    pub status: TestStatus,
    pub result: String,
    pub timestamp: String,
    pub time: String,
    pub classname: String,
    pub failures: Vec<TestFailure>,
}

/// The failures of a vector, each by its view.
pub open spec fn failures_of(failures: Seq<TestFailure>) -> Seq<TestFailureView> {
    failures.map_values(|failure: TestFailure| failure@)
}

/// What a [`TestInfo`] holds.
pub struct TestInfoView {
    pub name: Seq<char>,
    pub file: Seq<char>,
    pub line: nat,
    pub status: TestStatus,
    pub result: Seq<char>,
    pub timestamp: Seq<char>,
    pub time: Seq<char>,
    pub classname: Seq<char>,
    pub failures: Seq<TestFailureView>,
}

impl View for TestInfo {
    type V = TestInfoView;

    open spec fn view(&self) -> TestInfoView {
        TestInfoView {
            name: self.name@,
            file: self.file@,
            line: self.line as nat,
            status: self.status,
            result: self.result@,
            timestamp: self.timestamp@,
            time: self.time@,
            classname: self.classname@,
            failures: failures_of(self.failures@),
        }
    }
}

impl TestInfoView {
    /// A test that ran, with empty texts and no failure.
    pub open spec fn empty() -> TestInfoView {
        TestInfoView {
            name: Seq::empty(),
            file: Seq::empty(),
            line: 0,
            status: TestStatus::Run,
            result: Seq::empty(),
            timestamp: Seq::empty(),
            time: Seq::empty(),
            classname: Seq::empty(),
            failures: Seq::empty(),
        }
    }

    /// A test fails exactly when it lists a failure.
    pub open spec fn is_failing(self) -> bool {
        self.failures.len() > 0
    }
}

impl Default for TestInfo {
    fn default() -> (info: TestInfo)
        ensures
            info@ == TestInfoView::empty(),
    {
        let info = TestInfo {
            name: String::new(),
            file: String::new(),
            line: 0,
            status: TestStatus::Run,
            result: String::new(),
            timestamp: String::new(),
            time: String::new(),
            classname: String::new(),
            failures: Vec::new(),
        };
        assert(info@.failures =~= Seq::empty());
        info
    }
}

/// A suite: a group of tests with the counts its producer gave.
#[derive(Debug, Clone, PartialEq, Eq)]
pub struct TestCase {
    pub name: String,
    pub tests: u32,
    pub failures: u32,
    pub disabled: u32,
    pub errors: u32,
    pub time: String,
    pub testsuite: Vec<TestInfo>,
}

/// The tests of a vector, each by its view.
pub open spec fn infos_of(tests: Seq<TestInfo>) -> Seq<TestInfoView> {
    tests.map_values(|info: TestInfo| info@)
}

/// What a [`TestCase`] holds.
pub struct TestCaseView {
    pub name: Seq<char>,
    pub tests: nat,
    pub failures: nat,
    pub disabled: nat,
    pub errors: nat,
    pub time: Seq<char>,
    pub testsuite: Seq<TestInfoView>,
}

impl View for TestCase {
    type V = TestCaseView;

    open spec fn view(&self) -> TestCaseView {
        TestCaseView {
            name: self.name@,
            tests: self.tests as nat,
            failures: self.failures as nat,
            disabled: self.disabled as nat,
            errors: self.errors as nat,
            time: self.time@,
            testsuite: infos_of(self.testsuite@),
        }
    }
}

impl TestCaseView {
    /// A suite without a name, tests or counts.
    pub open spec fn empty() -> TestCaseView {
        TestCaseView {
            name: Seq::empty(),
            tests: 0,
            failures: 0,
            disabled: 0,
            errors: 0,
            time: Seq::empty(),
            testsuite: Seq::empty(),
        }
    }
}

impl Default for TestCase {
    fn default() -> (suite: TestCase)
        ensures
            suite@ == TestCaseView::empty(),
    {
        let suite = TestCase {
            name: String::new(),
            tests: 0,
            failures: 0,
            disabled: 0,
            errors: 0,
            time: String::new(),
            testsuite: Vec::new(),
        };
        assert(suite@.testsuite =~= Seq::empty());
        suite
    }
}

/// The four counts that a suite or a report carries.
pub struct Totals {
    pub tests: int,
    pub failures: int,
    pub disabled: int,
    pub errors: int,
}

impl Totals {
    /// No test at all.
    pub open spec fn zero() -> Totals {
        Totals { tests: 0, failures: 0, disabled: 0, errors: 0 }
    }

    /// The sum, count by count.
    pub open spec fn plus(self, other: Totals) -> Totals {
        Totals {
            tests: self.tests + other.tests,
            failures: self.failures + other.failures,
            disabled: self.disabled + other.disabled,
            errors: self.errors + other.errors,
        }
    }

    /// Each count can be held in a `u32`.
    pub open spec fn fits(self) -> bool {
        &&& 0 <= self.tests <= u32::MAX
        &&& 0 <= self.failures <= u32::MAX
        &&& 0 <= self.disabled <= u32::MAX
        &&& 0 <= self.errors <= u32::MAX
    }
}

impl TestCaseView {
    /// The counts of the suite, as its producer gave them.
    pub open spec fn totals(self) -> Totals {
        Totals {
            tests: self.tests as int,
            failures: self.failures as int,
            disabled: self.disabled as int,
            errors: self.errors as int,
        }
    }
}

/// The counts of all the suites of a sequence, summed.
pub open spec fn sum_totals(suites: Seq<TestCaseView>) -> Totals
    decreases suites.len(),
{
    if suites.len() == 0 {
        Totals::zero()
    } else {
        sum_totals(suites.drop_last()).plus(suites.last().totals())
    }
}

/// A report: running totals over the suites appended to it.
#[derive(Debug, Clone, PartialEq, Eq)]
pub struct UnitTest {
    pub name: String,
    pub tests: u32,
    pub failures: u32,
    pub disabled: u32,
    pub errors: u32,
    pub timestamp: String,
    pub time: String,
    pub testsuites: Vec<TestCase>,
}

/// The suites of a vector, each by its view.
pub open spec fn suites_of(suites: Seq<TestCase>) -> Seq<TestCaseView> {
    suites.map_values(|suite: TestCase| suite@)
}

/// What a [`UnitTest`] holds.
pub struct UnitTestView {
    pub name: Seq<char>,
    pub tests: nat,
    pub failures: nat,
    pub disabled: nat,
    pub errors: nat,
    pub timestamp: Seq<char>,
    pub time: Seq<char>,
    pub testsuites: Seq<TestCaseView>,
}

impl View for UnitTest {
    type V = UnitTestView;

    open spec fn view(&self) -> UnitTestView {
        UnitTestView {
            name: self.name@,
            tests: self.tests as nat,
            failures: self.failures as nat,
            disabled: self.disabled as nat,
            errors: self.errors as nat,
            timestamp: self.timestamp@,
            time: self.time@,
            testsuites: suites_of(self.testsuites@),
        }
    }
}

impl UnitTestView {
    /// The running totals of the report.
    pub open spec fn totals(self) -> Totals {
        Totals {
            tests: self.tests as int,
            failures: self.failures as int,
            disabled: self.disabled as int,
            errors: self.errors as int,
        }
    }

    /// The report after `suite` was appended: each count of the suite is
    /// added to the running total, and nothing is counted again.
    pub open spec fn add_suite(self, suite: TestCaseView) -> UnitTestView {
        UnitTestView {
            tests: self.tests + suite.tests,
            failures: self.failures + suite.failures,
            disabled: self.disabled + suite.disabled,
            errors: self.errors + suite.errors,
            testsuites: self.testsuites.push(suite),
            ..self
        }
    }

    /// The report after each suite of `suites` was appended in turn.
    pub open spec fn add_suites(self, suites: Seq<TestCaseView>) -> UnitTestView
        decreases suites.len(),
    {
        if suites.len() == 0 {
            self
        } else {
            self.add_suites(suites.drop_last()).add_suite(suites.last())
        }
    }

    /// A report has failed when it counts a failure or an error.
    pub open spec fn has_failed(self) -> bool {
        self.failures > 0 || self.errors > 0
    }

    /// The report that holds `suite` alone, under the suite's name, counts
    /// and time.
    pub open spec fn of_suite(suite: TestCaseView) -> UnitTestView {
        UnitTestView {
            name: suite.name,
            tests: suite.tests,
            failures: suite.failures,
            disabled: suite.disabled,
            errors: suite.errors,
            timestamp: Seq::empty(),
            time: suite.time,
            testsuites: seq![suite],
        }
    }
}

/// After any sequence of appended suites, each total of the report is what
/// it was before plus the sum of that count over the appended suites, and
/// the suites stand behind those the report held, in the order appended.
pub proof fn lemma_add_suites_totals(report: UnitTestView, suites: Seq<TestCaseView>)
    ensures
        report.add_suites(suites).totals() == report.totals().plus(sum_totals(suites)),
        report.add_suites(suites).testsuites == report.testsuites + suites,
    decreases suites.len(),
{
    if suites.len() == 0 {
    } else {
        lemma_add_suites_totals(report, suites.drop_last());
    }
}

/// A report that starts without counts and suites holds, after any sequence
/// of appended suites, exactly the sums of their counts.
pub proof fn lemma_totals_are_sums(report: UnitTestView, suites: Seq<TestCaseView>)
    requires
        report.totals() == Totals::zero(),
        report.testsuites.len() == 0,
    ensures
        report.add_suites(suites).totals() == sum_totals(suites),
        report.add_suites(suites).testsuites == suites,
{
    lemma_add_suites_totals(report, suites);
}

/// Why a test run did not end well.
#[derive(Debug)]
pub enum TestError {
    /// The report could not be read; the text says why.
    IoError(String),
    /// The report could not be parsed; the text says why.
    DeserializationError(String),
    /// The program under test crashed.
    ExecutionError(String),
    /// The tests ran and some failed.
    TestFailed(UnitTest),
}

impl TestError {
    /// What the error says, in a line.
    pub open spec fn spec_message(self) -> Seq<char> {
        match self {
            TestError::IoError(reason) => "unable to read test file: "@ + reason@,
            TestError::DeserializationError(reason) => "unable to parse json: "@ + reason@,
            TestError::ExecutionError(_) => "program crashed during test"@,
            TestError::TestFailed(_) => "test failed"@,
        }
    }

    /// What the error says, in a line.
    pub fn message(&self) -> (text: String)
        ensures
            text@ == self.spec_message(),
    {
        match self {
            TestError::IoError(reason) => String::from_str("unable to read test file: ").concat(
                reason.as_str(),
            ),
            TestError::DeserializationError(reason) => String::from_str(
                "unable to parse json: ",
            ).concat(reason.as_str()),
            TestError::ExecutionError(_) => String::from_str("program crashed during test"),
            TestError::TestFailed(_) => String::from_str("test failed"),
        }
    }
}

impl UnitTest {
    /// Whether the totals of the report have room for the counts of
    /// `suite`.
    pub fn can_add_suite(&self, suite: &TestCase) -> (fits: bool)
        ensures
            fits == self@.totals().plus(suite@.totals()).fits(),
    {
        self.tests <= u32::MAX - suite.tests && self.failures <= u32::MAX - suite.failures
            && self.disabled <= u32::MAX - suite.disabled && self.errors <= u32::MAX
            - suite.errors
    }

    /// Appends `suite` and adds its counts to the running totals.
    pub fn add_suite(&mut self, suite: TestCase)
        requires
            old(self)@.totals().plus(suite@.totals()).fits(),
        ensures
            final(self)@ == old(self)@.add_suite(suite@),
    {
        self.tests += suite.tests;
        self.failures += suite.failures;
        self.disabled += suite.disabled;
        self.errors += suite.errors;
        self.testsuites.push(suite);
        assert(self@.testsuites =~= old(self)@.testsuites.push(suite@));
    }

    /// Whether the report counts a failure or an error.
    pub fn has_failed(&self) -> (failed: bool)
        ensures
            failed == self@.has_failed(),
    {
        self.failures > 0 || self.errors > 0
    }

    /// Sorts a report as it was read: one that has failed is the error
    /// `TestFailed`, and holds the report; any other is returned as it is.
    pub fn into_result(self) -> (sorted: Result<UnitTest, TestError>)
        ensures
            match sorted {
                Ok(report) => report == self && !self@.has_failed(),
                Err(TestError::TestFailed(report)) => report == self && self@.has_failed(),
                Err(_) => false,
            },
    {
        if self.has_failed() {
            Err(TestError::TestFailed(self))
        } else {
            Ok(self)
        }
    }
}

impl vstd::std_specs::convert::TryFromSpecImpl<TestCase> for UnitTest {
    /// The promotion is stated over views, on `try_from` itself.
    open spec fn obeys_try_from_spec() -> bool {
        false
    }

    open spec fn try_from_spec(test: TestCase) -> Result<UnitTest, TestError> {
        arbitrary()
    }
}

impl TryFrom<TestCase> for UnitTest {
    type Error = TestError;

    /// Promotes a suite to the report that holds it alone. With an error
    /// counted the program is taken to have crashed; with a failure counted
    /// the report is the error `TestFailed`.
    fn try_from(test: TestCase) -> (promoted: Result<UnitTest, TestError>)
        ensures
            match promoted {
                Ok(report) => report@ == UnitTestView::of_suite(test@) && test.errors == 0
                    && test.failures == 0,
                Err(TestError::TestFailed(report)) => report@ == UnitTestView::of_suite(test@)
                    && test.errors == 0 && test.failures > 0,
                Err(TestError::ExecutionError(reason)) => reason@ == Seq::<char>::empty()
                    && test.errors > 0,
                Err(_) => false,
            },
    {
        let ghost suite = test@;
        let errors = test.errors;
        let failures = test.failures;
        let report = UnitTest {
            name: test.name.clone(),
            tests: test.tests,
            failures,
            disabled: test.disabled,
            errors,
            timestamp: String::new(),
            time: test.time.clone(),
            testsuites: vec![test],
        };
        assert(report@.testsuites =~= seq![suite]);
        if errors > 0 {
            Err(TestError::ExecutionError(String::new()))
        } else if failures > 0 {
            Err(TestError::TestFailed(report))
        } else {
            Ok(report)
        }
    }
}

} // verus!
