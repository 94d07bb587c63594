//! The summary of a test report as lines of text: one line for each test,
//! a block for each failing test, and a line with the tally. The lines are
//! made of spans, so that whoever prints them can colour each span.

use crate::gunit::{
    infos_of, suites_of, TestCase, TestCaseView, TestFailure, TestFailureView, TestInfo,
    TestInfoView, UnitTest, UnitTestView,
};
use vstd::prelude::*;
use vstd::string::StringExecFns;

verus! {

/// How a span of text is to be shown.
#[derive(Debug, Clone, Copy, PartialEq, Eq, Structural)]
pub enum Tint {
    Plain,
    Green,
    Red,
    Cyan,
    Magenta,
    /// Dark and slanted: for what is said in passing.
    Faint,
}

/// A piece of text in one tint.
#[derive(Debug, Clone, PartialEq, Eq)]
pub struct Span {
    pub text: String,
    pub tint: Tint,
}

/// What a [`Span`] holds.
pub struct SpanView {
    pub text: Seq<char>,
    pub tint: Tint,
}

impl View for Span {
    type V = SpanView;

    open spec fn view(&self) -> SpanView {
        SpanView { text: self.text@, tint: self.tint }
    }
}

/// One line of output. Its text may hold line breaks of its own, where a
/// message runs over several lines.
#[derive(Debug, Clone, PartialEq, Eq)]
pub struct Line {
    pub spans: Vec<Span>,
}

impl View for Line {
    type V = Seq<SpanView>;

    open spec fn view(&self) -> Seq<SpanView> {
        self.spans@.map_values(|span: Span| span@)
    }
}

/// The lines of a vector, each by its view.
pub open spec fn lines_of(lines: Seq<Line>) -> Seq<Seq<SpanView>> {
    lines.map_values(|line: Line| line@)
}

/// A span in the given tint.
pub open spec fn span(text: Seq<char>, tint: Tint) -> SpanView {
    SpanView { text, tint }
}

/// The text of one decimal digit.
pub open spec fn digit(value: nat) -> Seq<char> {
    if value == 0 {
        "0"@
    } else if value == 1 {
        "1"@
    } else if value == 2 {
        "2"@
    } else if value == 3 {
        "3"@
    } else if value == 4 {
        "4"@
    } else if value == 5 {
        "5"@
    } else if value == 6 {
        "6"@
    } else if value == 7 {
        "7"@
    } else if value == 8 {
        "8"@
    } else {
        "9"@
    }
}

/// A number written in decimal digits, without leading zeros.
pub open spec fn decimal(value: nat) -> Seq<char>
    decreases value,
{
    if value < 10 {
        digit(value)
    } else {
        decimal(value / 10) + digit(value % 10)
    }
}

/// A number that may be negative, written in decimal digits, with a minus
/// sign before them if it is.
pub open spec fn signed_decimal(value: int) -> Seq<char> {
    if value < 0 {
        "-"@ + decimal((-value) as nat)
    } else {
        decimal(value as nat)
    }
}

/// Writes a number in decimal digits.
pub fn to_decimal(value: u64) -> (text: String)
    ensures
        text@ == decimal(value as nat),
    decreases value,
{
    let last = match value % 10 {
        0 => "0",
        1 => "1",
        2 => "2",
        3 => "3",
        4 => "4",
        5 => "5",
        6 => "6",
        7 => "7",
        8 => "8",
        _ => "9",
    };
    if value < 10 {
        String::from_str(last)
    } else {
        to_decimal(value / 10).concat(last)
    }
}

/// Writes a number that may be negative in decimal digits.
pub fn to_signed_decimal(value: i64) -> (text: String)
    ensures
        text@ == signed_decimal(value as int),
{
    if value < 0 {
        String::from_str("-").concat(to_decimal((-(value as i128)) as u64).as_str())
    } else {
        to_decimal(value as u64)
    }
}

/// The text that `indent::indent_all_by` gives for a number of spaces and
/// a text.
pub uninterp spec fn indented(spaces: nat, text: Seq<char>) -> Seq<char>;

/// `indent::indent_all_by`, which moves every line that is not empty in by
/// the given number of spaces. Claimed is only that the number and the
/// text fix the result, which goes by the name `indented`. The function
/// builds the run of spaces first, and panics where that cannot be
/// allocated; such numbers are left out.
#[verifier::external_body]
fn indent_all(spaces: usize, text: &str) -> (moved: String)
    requires
        spaces <= 0xffff,
    ensures
        moved@ == indented(spaces as nat, text@),
{
    indent::indent_all_by(spaces, text)
}

/// The line that tells how many tests ran.
pub open spec fn ran_line(tests: nat) -> Seq<SpanView> {
    seq![span("ran "@ + decimal(tests) + " tests"@, Tint::Plain)]
}

/// The line of one test: its class and name, and whether it passed.
pub open spec fn result_line(info: TestInfoView) -> Seq<SpanView> {
    seq![
        span("test "@ + info.classname + "."@ + info.name + " ... "@, Tint::Plain),
        if info.is_failing() {
            span("FAILED"@, Tint::Red)
        } else {
            span("ok"@, Tint::Green)
        },
    ]
}

/// One line for each test, in their order.
pub open spec fn result_lines(tests: Seq<TestInfoView>) -> Seq<Seq<SpanView>>
    decreases tests.len(),
{
    if tests.len() == 0 {
        Seq::empty()
    } else {
        result_lines(tests.drop_last()).push(result_line(tests.last()))
    }
}

/// One line for each test of each suite, suite after suite.
pub open spec fn all_result_lines(suites: Seq<TestCaseView>) -> Seq<Seq<SpanView>>
    decreases suites.len(),
{
    if suites.len() == 0 {
        Seq::empty()
    } else {
        all_result_lines(suites.drop_last()) + result_lines(suites.last().testsuite)
    }
}

/// Where a test stands in the sources: its file and line, or a hint at the
/// logs where no file is known.
pub open spec fn origin(info: TestInfoView) -> Seq<char> {
    if info.file.len() == 0 {
        "see logs for details"@
    } else {
        info.file + ":"@ + decimal(info.line)
    }
}

/// The first line of the block of a failing test: its class and name, and
/// where it stands.
pub open spec fn title_line(info: TestInfoView) -> Seq<SpanView> {
    seq![
        span("    "@, Tint::Plain),
        span(info.classname + "."@ + info.name, Tint::Cyan),
        span(" "@, Tint::Plain),
        span("("@ + origin(info) + ")"@, Tint::Faint),
    ]
}

/// The line of a failure, made of its message as it was moved in, and of
/// its location, if it has one.
pub open spec fn failure_line_from(moved: Seq<char>, location: Option<Seq<char>>) -> Seq<SpanView> {
    match location {
        Some(place) => seq![
            span(moved, Tint::Plain),
            span(" "@, Tint::Plain),
            span("("@ + place + ")"@, Tint::Faint),
        ],
        None => seq![span(moved, Tint::Plain), span(" "@, Tint::Plain)],
    }
}

/// The line of a failure: its message, moved in by four spaces, and then
/// its location, if it has one.
pub open spec fn failure_line(failure: TestFailureView) -> Seq<SpanView> {
    let (location, message) = failure.message_and_location();
    failure_line_from(indented(4, message), location)
}

/// The line that tells how many failures of a test are not shown.
pub open spec fn more_line(more: nat) -> Seq<SpanView> {
    seq![span("    ... and "@ + decimal(more) + " more"@, Tint::Magenta)]
}

/// The block of a test: its title, its first failure, if it has one, and
/// the number of its other failures, if it has more than one.
pub open spec fn detail_lines(info: TestInfoView) -> Seq<Seq<SpanView>> {
    seq![title_line(info)] + (if info.failures.len() > 0 {
        seq![failure_line(info.failures[0])]
    } else {
        Seq::empty()
    }) + (if info.failures.len() > 1 {
        seq![more_line((info.failures.len() - 1) as nat)]
    } else {
        Seq::empty()
    })
}

/// The line without text.
pub open spec fn blank_line() -> Seq<SpanView> {
    Seq::empty()
}

/// The blocks of the failing tests among `tests`, in their order, each
/// with a blank line behind it.
pub open spec fn failure_blocks(tests: Seq<TestInfoView>) -> Seq<Seq<SpanView>>
    decreases tests.len(),
{
    if tests.len() == 0 {
        Seq::empty()
    } else if tests.last().is_failing() {
        failure_blocks(tests.drop_last()) + detail_lines(tests.last()).push(blank_line())
    } else {
        failure_blocks(tests.drop_last())
    }
}

/// The blocks of the failing tests of each suite, suite after suite.
pub open spec fn all_failure_blocks(suites: Seq<TestCaseView>) -> Seq<Seq<SpanView>>
    decreases suites.len(),
{
    if suites.len() == 0 {
        Seq::empty()
    } else {
        all_failure_blocks(suites.drop_last()) + failure_blocks(suites.last().testsuite)
    }
}

/// The last line: whether the run failed, and how many tests passed,
/// failed and were left out, and how long it took. The tests that passed
/// are those that did not fail: the number of tests less the number of
/// failures, which is negative for a report that counts more failures than
/// tests.
pub open spec fn tally_line(report: UnitTestView) -> Seq<SpanView> {
    seq![
        span("test result: "@, Tint::Plain),
        if report.failures > 0 {
            span("FAILED"@, Tint::Red)
        } else {
            span("ok"@, Tint::Green)
        },
        span(
            ". "@ + signed_decimal(report.tests - report.failures) + " passed; "@ + decimal(
                report.failures,
            ) + " failed; "@ + decimal(report.disabled) + " ignored; finished in "@ + report.time,
            Tint::Plain,
        ),
    ]
}

/// The part of the summary that shows the failing tests, which is there
/// only if the report counts a failure.
pub open spec fn failures_part(report: UnitTestView) -> Seq<Seq<SpanView>> {
    if report.failures > 0 {
        seq![seq![span("failures:"@, Tint::Plain)]] + all_failure_blocks(report.testsuites).push(
            blank_line(),
        )
    } else {
        Seq::empty()
    }
}

/// The summary of a report: how many tests ran, a line for each test, the
/// failing tests in detail, and the tally.
pub open spec fn summary_lines(report: UnitTestView) -> Seq<Seq<SpanView>> {
    seq![ran_line(report.tests)] + all_result_lines(report.testsuites).push(blank_line())
        + failures_part(report).push(tally_line(report))
}

/// A span of the given text in the given tint.
fn tinted(text: String, tint: Tint) -> (made: Span)
    ensures
        made@ == span(text@, tint),
{
    Span { text, tint }
}

/// The line without text.
fn blank() -> (line: Line)
    ensures
        line@ == blank_line(),
{
    Line { spans: Vec::new() }
}

/// Taking one more element of a sequence of tests adds its view at the end.
proof fn lemma_infos_take(tests: Seq<TestInfo>, at: int)
    requires
        0 <= at < tests.len(),
    ensures
        infos_of(tests.take(at + 1)).drop_last() == infos_of(tests.take(at)),
        infos_of(tests.take(at + 1)).last() == tests[at]@,
{
}

/// Taking one more element of a sequence of suites adds its view at the
/// end.
proof fn lemma_suites_take(suites: Seq<TestCase>, at: int)
    requires
        0 <= at < suites.len(),
    ensures
        suites_of(suites.take(at + 1)).drop_last() == suites_of(suites.take(at)),
        suites_of(suites.take(at + 1)).last() == suites[at]@,
{
}

/// The line of a failure, made of its message as it was moved in, and of
/// its location, if it has one.
pub fn failure_line_of(moved: String, location: Option<String>) -> (line: Line)
    ensures
        line@ == failure_line_from(moved@, location.deep_view()),
{
    let mut spans: Vec<Span> = Vec::new();
    spans.push(tinted(moved, Tint::Plain));
    spans.push(tinted(String::from_str(" "), Tint::Plain));
    if let Some(place) = location {
        spans.push(tinted(String::from_str("(").concat(place.as_str()).concat(")"), Tint::Faint));
    }
    Line { spans }
}

impl TestFailure {
    /// The line of the failure in the block of its test.
    fn failure_line(&self) -> (line: Line)
        ensures
            line@ == failure_line(self@),
    {
        let (location, message) = self.message_and_location();
        failure_line_of(indent_all(4, message.as_str()), location)
    }
}

impl TestInfo {
    /// The line that tells whether the test passed.
    fn result_line(&self) -> (line: Line)
        ensures
            line@ == result_line(self@),
    {
        let text = String::from_str("test ").concat(self.classname.as_str()).concat(".").concat(
            self.name.as_str(),
        ).concat(" ... ");
        let mut spans: Vec<Span> = Vec::new();
        spans.push(tinted(text, Tint::Plain));
        if self.failures.is_empty() {
            spans.push(tinted(String::from_str("ok"), Tint::Green));
        } else {
            spans.push(tinted(String::from_str("FAILED"), Tint::Red));
        }
        Line { spans }
    }

    /// The first line of the block of the test.
    fn title_line(&self) -> (line: Line)
        ensures
            line@ == title_line(self@),
    {
        let origin = if self.file.as_str().is_empty() {
            String::from_str("see logs for details")
        } else {
            self.file.clone().concat(":").concat(to_decimal(self.line as u64).as_str())
        };
        let mut spans: Vec<Span> = Vec::new();
        spans.push(tinted(String::from_str("    "), Tint::Plain));
        spans.push(
            tinted(self.classname.clone().concat(".").concat(self.name.as_str()), Tint::Cyan),
        );
        spans.push(tinted(String::from_str(" "), Tint::Plain));
        spans.push(
            tinted(String::from_str("(").concat(origin.as_str()).concat(")"), Tint::Faint),
        );
        Line { spans }
    }

    /// The block that shows the test in detail: its title, its first
    /// failure, and how many more it has.
    pub fn detail_lines(&self) -> (lines: Vec<Line>)
        ensures
            lines_of(lines@) == detail_lines(self@),
    {
        let mut lines: Vec<Line> = Vec::new();
        lines.push(self.title_line());
        if self.failures.len() > 0 {
            lines.push(self.failures[0].failure_line());
        }
        if self.failures.len() > 1 {
            let text = String::from_str("    ... and ").concat(
                to_decimal((self.failures.len() - 1) as u64).as_str(),
            ).concat(" more");
            let mut spans: Vec<Span> = Vec::new();
            spans.push(tinted(text, Tint::Magenta));
            let line = Line { spans };
            assert(line@ =~= more_line((self@.failures.len() - 1) as nat));
            lines.push(line);
        }
        lines
    }
}

/// Puts the result lines of `tests` behind the lines that `lines` holds.
fn push_result_lines(tests: &Vec<TestInfo>, lines: &mut Vec<Line>)
    ensures
        lines_of(final(lines)@) == lines_of(old(lines)@) + result_lines(infos_of(tests@)),
{
    let mut at: usize = 0;
    while at < tests.len()
        invariant
            at <= tests@.len(),
            lines_of(lines@) == lines_of(old(lines)@) + result_lines(
                infos_of(tests@.take(at as int)),
            ),
        decreases tests@.len() - at,
    {
        let ghost before = lines@;
        proof {
            lemma_infos_take(tests@, at as int);
        }
        lines.push(tests[at].result_line());
        assert(lines_of(lines@) =~= lines_of(before).push(result_line(tests@[at as int]@)));
        at += 1;
    }
    assert(tests@.take(tests@.len() as int) == tests@);
}

/// Puts the blocks of the failing tests among `tests` behind the lines
/// that `lines` holds.
fn push_failure_blocks(tests: &Vec<TestInfo>, lines: &mut Vec<Line>)
    ensures
        lines_of(final(lines)@) == lines_of(old(lines)@) + failure_blocks(infos_of(tests@)),
{
    let mut at: usize = 0;
    while at < tests.len()
        invariant
            at <= tests@.len(),
            lines_of(lines@) == lines_of(old(lines)@) + failure_blocks(
                infos_of(tests@.take(at as int)),
            ),
        decreases tests@.len() - at,
    {
        let ghost before = lines@;
        proof {
            lemma_infos_take(tests@, at as int);
        }
        if !tests[at].failures.is_empty() {
            let mut block = tests[at].detail_lines();
            block.push(blank());
            lines.append(&mut block);
            assert(lines_of(lines@) =~= lines_of(before) + detail_lines(tests@[at as int]@).push(
                blank_line(),
            ));
        }
        at += 1;
    }
    assert(tests@.take(tests@.len() as int) == tests@);
}

impl UnitTest {
    /// The first line of the summary.
    fn ran_line(&self) -> (line: Line)
        ensures
            line@ == ran_line(self@.tests),
    {
        let text = String::from_str("ran ").concat(to_decimal(self.tests as u64).as_str()).concat(
            " tests",
        );
        let mut spans: Vec<Span> = Vec::new();
        spans.push(tinted(text, Tint::Plain));
        Line { spans }
    }

    /// The last line of the summary.
    fn tally_line(&self) -> (line: Line)
        ensures
            line@ == tally_line(self@),
    {
        let text = String::from_str(". ").concat(
            to_signed_decimal(self.tests as i64 - self.failures as i64).as_str(),
        ).concat(" passed; ").concat(to_decimal(self.failures as u64).as_str()).concat(
            " failed; ",
        ).concat(to_decimal(self.disabled as u64).as_str()).concat(
            " ignored; finished in ",
        ).concat(self.time.as_str());
        let mut spans: Vec<Span> = Vec::new();
        spans.push(tinted(String::from_str("test result: "), Tint::Plain));
        if self.failures > 0 {
            spans.push(tinted(String::from_str("FAILED"), Tint::Red));
        } else {
            spans.push(tinted(String::from_str("ok"), Tint::Green));
        }
        spans.push(tinted(text, Tint::Plain));
        Line { spans }
    }

    /// The summary of the report, line by line.
    pub fn summary_lines(&self) -> (lines: Vec<Line>)
        ensures
            lines_of(lines@) == summary_lines(self@),
    {
        let mut lines: Vec<Line> = Vec::new();
        lines.push(self.ran_line());
        let mut at: usize = 0;
        while at < self.testsuites.len()
            invariant
                at <= self.testsuites@.len(),
                lines_of(lines@) == seq![ran_line(self@.tests)] + all_result_lines(
                    suites_of(self.testsuites@.take(at as int)),
                ),
            decreases self.testsuites@.len() - at,
        {
            proof {
                lemma_suites_take(self.testsuites@, at as int);
            }
            push_result_lines(&self.testsuites[at].testsuite, &mut lines);
            at += 1;
        }
        assert(self.testsuites@.take(self.testsuites@.len() as int) == self.testsuites@);
        let ghost results = lines@;
        lines.push(blank());
        assert(lines_of(lines@) =~= lines_of(results).push(blank_line()));
        let ghost head = lines_of(lines@);
        if self.failures > 0 {
            let mut spans: Vec<Span> = Vec::new();
            spans.push(tinted(String::from_str("failures:"), Tint::Plain));
            let heading = Line { spans };
            assert(heading@ =~= seq![span("failures:"@, Tint::Plain)]);
            lines.push(heading);
            let mut at: usize = 0;
            while at < self.testsuites.len()
                invariant
                    at <= self.testsuites@.len(),
                    lines_of(lines@) == head + (seq![seq![span("failures:"@, Tint::Plain)]]
                        + all_failure_blocks(suites_of(self.testsuites@.take(at as int)))),
                decreases self.testsuites@.len() - at,
            {
                proof {
                    lemma_suites_take(self.testsuites@, at as int);
                }
                push_failure_blocks(&self.testsuites[at].testsuite, &mut lines);
                at += 1;
            }
            let ghost blocks = lines@;
            lines.push(blank());
            assert(lines_of(lines@) =~= lines_of(blocks).push(blank_line()));
        }
        let ghost body = lines@;
        lines.push(self.tally_line());
        assert(lines_of(lines@) =~= lines_of(body).push(tally_line(self@)));
        lines
    }
}

} // verus!
