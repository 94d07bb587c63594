//! Build diagnostics: the findings of an analysis report, each resolved to
//! a byte range of the source file it speaks of.
//!
//! Lines and columns are counted from 1. A column is counted in characters,
//! as the file database counts it, and an offset in bytes.
//!
//! The file database is asked for the range of a line and the columns of
//! its bytes. The rules that turn its answers into an offset and a region
//! stand in functions on plain values: [`line_index`],
//! [`first_with_column`], [`last_byte`] and [`region_of_parts`].

use crate::files::{
    add_file, column_number, column_number_of, line_range, line_range_of, location, location_of,
    new_files, number_of, source_of, sources,
};
use codespan_reporting::files::SimpleFiles;
use vstd::prelude::*;
use vstd::string::StringExecFns;

verus! {

/// A span of bytes in a source file. The span from 0 to 0 stands for "no
/// location".
#[derive(Debug, Clone, Copy, PartialEq, Eq, Structural)]
pub struct Region {
    pub start: u64,
    pub end: u64,
}

impl Region {
    /// The two bounds of the span as numbers.
    pub open spec fn span(self) -> (nat, nat) {
        (self.start as nat, self.end as nat)
    }

    /// A span does not end before it starts.
    pub open spec fn wf(self) -> bool {
        self.start <= self.end
    }
}

impl Default for Region {
    fn default() -> (region: Region)
        ensures
            region.span() == (0nat, 0nat),
    {
        Region { start: 0, end: 0 }
    }
}

/// Where a report says a finding is: by a byte offset and a length, by
/// lines and columns, or by a mix of them. Any of the six may be missing.
/// A negative offset or length counts as missing, as the report format
/// writes -1 for an offset that is not given.
#[derive(Debug, Clone, Copy, PartialEq, Eq)]
pub struct RegionDescriptor {
    pub byte_offset: Option<i64>,
    pub byte_length: Option<i64>,
    pub start_line: Option<i64>,
    pub start_column: Option<i64>,
    pub end_line: Option<i64>,
    pub end_column: Option<i64>,
}

impl Default for RegionDescriptor {
    fn default() -> (region: RegionDescriptor)
        ensures
            region == (RegionDescriptor {
                byte_offset: None,
                byte_length: None,
                start_line: None,
                start_column: None,
                end_line: None,
                end_column: None,
            }),
    {
        RegionDescriptor {
            byte_offset: None,
            byte_length: None,
            start_line: None,
            start_column: None,
            end_line: None,
            end_column: None,
        }
    }
}

/// The byte range of a line of a text that may be missing.
pub open spec fn line_range_at(source: Option<Seq<char>>, line_index: nat) -> Option<(nat, nat)> {
    match source {
        Some(text) => line_range_of(text, line_index),
        None => None,
    }
}

/// The column in which the byte with the given index stands.
pub open spec fn column_at(source: Option<Seq<char>>, byte_index: nat) -> Option<nat> {
    match source {
        Some(text) => match location_of(text, byte_index) {
            Some(place) => Some(place.1),
            None => None,
        },
        None => None,
    }
}

/// The columns of the bytes from `start` up to, and without, `end`, byte
/// by byte.
pub open spec fn columns_in(source: Option<Seq<char>>, start: nat, end: nat) -> Seq<Option<nat>> {
    Seq::new(
        if start <= end {
            (end - start) as nat
        } else {
            0
        },
        |at: int| column_at(source, (start + at) as nat),
    )
}

/// The columns of a vector as numbers.
pub open spec fn numbers_of(columns: Seq<Option<usize>>) -> Seq<Option<nat>> {
    columns.map_values(|column: Option<usize>| number_of(column))
}

/// The position of the first of `columns`, from position `from` on, that
/// is `column`.
pub open spec fn first_column_from(columns: Seq<Option<nat>>, column: int, from: nat) -> Option<nat>
    decreases columns.len() - from,
{
    if from >= columns.len() {
        None
    } else if columns[from as int] == Some(column as nat) && column >= 0 {
        Some(from)
    } else {
        first_column_from(columns, column, from + 1)
    }
}

/// The position of the first of `columns` that is `column`.
pub open spec fn first_column(columns: Seq<Option<nat>>, column: int) -> Option<nat> {
    first_column_from(columns, column, 0)
}

/// The index, from 0, of the line with the given number, where the number
/// is at least 1 and the index can be held in a `usize`.
pub open spec fn line_index_of(line: int) -> Option<nat> {
    if 1 <= line && line - 1 <= usize::MAX {
        Some((line - 1) as nat)
    } else {
        None
    }
}

/// The byte offset of a line and a column in a text: the first byte of the
/// line that stands in the column. There is none where the text is missing,
/// the line is not in the text, or no byte of the line is in the column.
pub open spec fn resolved(source: Option<Seq<char>>, line: int, column: int) -> Option<nat> {
    match line_index_of(line) {
        Some(line_index) => match line_range_at(source, line_index) {
            Some((start, end)) => match first_column(columns_in(source, start, end), column) {
                Some(at) => Some(start + at),
                None => None,
            },
            None => None,
        },
        None => None,
    }
}

/// The last byte of a range of bytes, if the range holds one.
pub open spec fn last_of(start: nat, end: nat) -> Option<nat> {
    if start < end {
        Some((end - 1) as nat)
    } else {
        None
    }
}

/// The column of the last byte of a line: where a region ends when the
/// report names no end column.
pub open spec fn last_column(source: Option<Seq<char>>, line: int) -> Option<nat> {
    match line_index_of(line) {
        Some(line_index) => match line_range_at(source, line_index) {
            Some((start, end)) => match last_of(start, end) {
                Some(last) => match source {
                    Some(text) => column_number_of(text, line_index, last),
                    None => None,
                },
                None => None,
            },
            None => None,
        },
        None => None,
    }
}

/// An offset or a length that the report gives: one that is not negative.
pub open spec fn given(value: Option<i64>) -> Option<nat> {
    match value {
        Some(number) => if number >= 0 {
            Some(number as nat)
        } else {
            None
        },
        None => None,
    }
}

/// The span of bytes that the parts of a descriptor make up, once its
/// lines and columns are resolved. `located` is the offset of the start
/// line and column, and `end` that of the end line and column.
///
/// The region starts at the byte offset, if one is given, else at
/// `located`; without either it is the span from 0 to 0. With a length
/// given it ends that many bytes behind its start. Else it ends at `end`.
/// Where there is no `end`, or it lies before the start, or where the end
/// cannot be held in a `u64`, the region is empty and ends where it
/// starts.
pub open spec fn region_from(
    offset: Option<i64>,
    located: Option<nat>,
    length: Option<i64>,
    end: Option<nat>,
) -> (nat, nat) {
    let start = match given(offset) {
        Some(offset) => Some(offset),
        None => located,
    };
    match start {
        Some(start) => (
            start,
            match given(length) {
                Some(length) => if start + length <= u64::MAX {
                    start + length
                } else {
                    start
                },
                None => match end {
                    Some(end) => if end >= start {
                        end
                    } else {
                        start
                    },
                    None => start,
                },
            },
        ),
        None => (0, 0),
    }
}

/// The column in which a region starts on its start line: the start
/// column, or else 1.
pub open spec fn start_column_of(region: RegionDescriptor) -> i64 {
    match region.start_column {
        Some(column) => column,
        None => 1,
    }
}

/// The offset of the start line and the start column.
pub open spec fn located_start(source: Option<Seq<char>>, region: RegionDescriptor) -> Option<nat> {
    match region.start_line {
        Some(line) => resolved(source, line as int, start_column_of(region) as int),
        None => None,
    }
}

/// The line on which a region ends: the end line, or else the start line.
pub open spec fn end_line_of(region: RegionDescriptor) -> Option<i64> {
    match region.end_line {
        Some(line) => Some(line),
        None => region.start_line,
    }
}

/// The column in which a region ends on its end line: the end column, or
/// else the column of the last byte of that line.
pub open spec fn end_column_of(
    source: Option<Seq<char>>,
    region: RegionDescriptor,
    line: int,
) -> Option<int> {
    match region.end_column {
        Some(column) => Some(column as int),
        None => match last_column(source, line) {
            Some(column) => Some(column as int),
            None => None,
        },
    }
}

/// The offset of the end line and the end column.
pub open spec fn located_end(source: Option<Seq<char>>, region: RegionDescriptor) -> Option<nat> {
    match end_line_of(region) {
        Some(line) => match end_column_of(source, region, line as int) {
            Some(column) => resolved(source, line as int, column),
            None => None,
        },
        None => None,
    }
}

/// The span of bytes that a descriptor stands for in a text.
pub open spec fn region_of(source: Option<Seq<char>>, region: RegionDescriptor) -> (nat, nat) {
    region_from(
        region.byte_offset,
        located_start(source, region),
        region.byte_length,
        located_end(source, region),
    )
}

/// Whatever a descriptor holds and whatever the text, the span it stands
/// for does not end before it starts.
pub proof fn lemma_region_of_is_ordered(source: Option<Seq<char>>, region: RegionDescriptor)
    ensures
        region_of(source, region).0 <= region_of(source, region).1,
{
}

/// What `first_column_from` finds is the first position of the column
/// from `from` on, and it finds none only where the column is at none.
pub proof fn lemma_first_column(columns: Seq<Option<nat>>, column: int, from: nat)
    ensures
        match first_column_from(columns, column, from) {
            Some(at) => from <= at < columns.len() && column >= 0 && columns[at as int] == Some(
                column as nat,
            ) && forall|before: int|
                from <= before < at ==> columns[before] != Some(column as nat),
            None => column < 0 || forall|at: int|
                from <= at < columns.len() ==> columns[at] != Some(column as nat),
        },
    decreases columns.len() - from,
{
    if from < columns.len() && !(columns[from as int] == Some(column as nat) && column >= 0) {
        lemma_first_column(columns, column, from + 1);
    }
}

/// The entry of a vector of columns is the given column.
pub open spec fn is_column(held: Option<usize>, column: int) -> bool {
    held matches Some(number) && number == column
}

impl RegionDescriptor {
    /// The column in which the region starts on its start line: the start
    /// column, or else 1.
    pub fn start_column(&self) -> (column: i64)
        ensures
            column == start_column_of(*self),
    {
        match self.start_column {
            Some(column) => column,
            None => 1,
        }
    }

    /// The line on which the region ends: the end line, or else the start
    /// line.
    pub fn end_line(&self) -> (line: Option<i64>)
        ensures
            line == end_line_of(*self),
    {
        match self.end_line {
            Some(line) => Some(line),
            None => self.start_line,
        }
    }
}

/// The index of the line with the given number: the number less 1, for a
/// number that is at least 1.
pub fn line_index(row: i64) -> (index: Option<usize>)
    ensures
        number_of(index) == line_index_of(row as int),
{
    if row < 1 {
        return None;
    }
    let index: u64 = (row - 1) as u64;
    if index > usize::MAX as u64 {
        return None;
    }
    Some(index as usize)
}

/// The position of the first of `columns` that is `column`: the least
/// position that holds it, and none exactly when no position holds it.
pub fn first_with_column(columns: &Vec<Option<usize>>, column: u64) -> (found: Option<usize>)
    ensures
        number_of(found) == first_column(numbers_of(columns@), column as int),
        match found {
            Some(at) => at < columns@.len() && is_column(columns@[at as int], column as int)
                && forall|before: int|
                0 <= before < at ==> !is_column(#[trigger] columns@[before], column as int),
            None => forall|at: int|
                0 <= at < columns@.len() ==> !is_column(#[trigger] columns@[at], column as int),
        },
{
    let ghost numbers = numbers_of(columns@);
    let mut at: usize = 0;
    while at < columns.len()
        invariant
            at <= columns@.len(),
            numbers == numbers_of(columns@),
            first_column(numbers, column as int) == first_column_from(
                numbers,
                column as int,
                at as nat,
            ),
            forall|before: int|
                0 <= before < at ==> !is_column(#[trigger] columns@[before], column as int),
        decreases columns@.len() - at,
    {
        if let Some(held) = columns[at] {
            if held as u64 == column {
                return Some(at);
            }
        }
        at += 1;
    }
    None
}

/// The last byte of the range from `start` up to, and without, `end`.
pub fn last_byte(start: usize, end: usize) -> (last: Option<usize>)
    ensures
        number_of(last) == last_of(start as nat, end as nat),
{
    if start < end {
        Some(end - 1)
    } else {
        None
    }
}

/// Puts a region together from the parts of its descriptor, once its lines
/// and columns are resolved: `located` is the offset of its start line and
/// column, `end` that of its end line and column.
pub fn region_of_parts(
    offset: Option<i64>,
    located: Option<usize>,
    length: Option<i64>,
    end: Option<usize>,
) -> (range: Region)
    ensures
        range.span() == region_from(offset, number_of(located), length, number_of(end)),
        range.wf(),
{
    let explicit = match offset {
        Some(offset) => if offset >= 0 {
            Some(offset as u64)
        } else {
            None
        },
        None => None,
    };
    let start = match explicit {
        Some(offset) => offset,
        None => match located {
            Some(located) => located as u64,
            None => return Region { start: 0, end: 0 },
        },
    };
    if let Some(length) = length {
        if length >= 0 {
            return match start.checked_add(length as u64) {
                Some(end) => Region { start, end },
                None => Region { start, end: start },
            };
        }
    }
    match end {
        Some(end) => if end as u64 >= start {
            Region { start, end: end as u64 }
        } else {
            Region { start, end: start }
        },
        None => Region { start, end: start },
    }
}

/// The columns of the bytes from `start` up to `end`, in the file with the
/// given id.
fn columns_of(
    file_id: usize,
    files: &SimpleFiles<String, String>,
    start: usize,
    end: usize,
) -> (columns: Vec<Option<usize>>)
    ensures
        numbers_of(columns@) == columns_in(
            source_of(sources(*files), file_id as int),
            start as nat,
            end as nat,
        ),
{
    let ghost source = source_of(sources(*files), file_id as int);
    let mut columns: Vec<Option<usize>> = Vec::new();
    let mut byte = start;
    while byte < end
        invariant
            source == source_of(sources(*files), file_id as int),
            start <= byte,
            start < end ==> byte <= end,
            start >= end ==> byte == start,
            numbers_of(columns@) == columns_in(source, start as nat, byte as nat),
        decreases end - byte,
    {
        let ghost before = columns@;
        let column = match location(files, file_id, byte) {
            Some((_, column)) => Some(column),
            None => None,
        };
        columns.push(column);
        assert(numbers_of(columns@) =~= numbers_of(before).push(number_of(column)));
        byte += 1;
    }
    columns
}

/// Resolves a line, counted from 1, and a column that is not negative.
fn resolve(
    file_id: usize,
    files: &SimpleFiles<String, String>,
    row: i64,
    column: u64,
) -> (offset: Option<usize>)
    ensures
        number_of(offset) == resolved(
            source_of(sources(*files), file_id as int),
            row as int,
            column as int,
        ),
{
    let index = match line_index(row) {
        Some(index) => index,
        None => return None,
    };
    let (start, end) = match line_range(files, file_id, index) {
        Some(range) => range,
        None => return None,
    };
    let columns = columns_of(file_id, files, start, end);
    match first_with_column(&columns, column) {
        Some(at) => Some(start + at),
        None => None,
    }
}

/// Resolves a line and a column, both counted from 1, to the byte offset
/// of the first byte of that line in that column, in the file with the
/// given id. `None` says that the location was not found.
pub fn try_get_byte_offset(
    file_id: usize,
    files: &SimpleFiles<String, String>,
    row: i64,
    column: i64,
) -> (offset: Option<usize>)
    ensures
        number_of(offset) == resolved(
            source_of(sources(*files), file_id as int),
            row as int,
            column as int,
        ),
{
    if column < 0 {
        proof {
            let source = source_of(sources(*files), file_id as int);
            if let Some(index) = line_index_of(row as int) {
                if let Some((start, end)) = line_range_at(source, index) {
                    lemma_first_column(columns_in(source, start, end), column as int, 0);
                }
            }
        }
        None
    } else {
        resolve(file_id, files, row, column as u64)
    }
}

/// The column of the last byte of a line, in the file with the given id.
fn last_column_of(
    file_id: usize,
    files: &SimpleFiles<String, String>,
    row: i64,
) -> (column: Option<usize>)
    ensures
        number_of(column) == last_column(source_of(sources(*files), file_id as int), row as int),
{
    let index = match line_index(row) {
        Some(index) => index,
        None => return None,
    };
    let (start, end) = match line_range(files, file_id, index) {
        Some(range) => range,
        None => return None,
    };
    match last_byte(start, end) {
        Some(last) => column_number(files, file_id, index, last),
        None => None,
    }
}

/// The offset of the start line and column of a descriptor.
fn locate_start(
    file_id: usize,
    files: &SimpleFiles<String, String>,
    region: &RegionDescriptor,
) -> (offset: Option<usize>)
    ensures
        number_of(offset) == located_start(source_of(sources(*files), file_id as int), *region),
{
    match region.start_line {
        Some(line) => try_get_byte_offset(file_id, files, line, region.start_column()),
        None => None,
    }
}

/// The offset of the end line and column of a descriptor.
fn locate_end(
    file_id: usize,
    files: &SimpleFiles<String, String>,
    region: &RegionDescriptor,
) -> (offset: Option<usize>)
    ensures
        number_of(offset) == located_end(source_of(sources(*files), file_id as int), *region),
{
    let line = match region.end_line() {
        Some(line) => line,
        None => return None,
    };
    match region.end_column {
        Some(column) => try_get_byte_offset(file_id, files, line, column),
        None => match last_column_of(file_id, files, line) {
            Some(column) => resolve(file_id, files, line, column as u64),
            None => None,
        },
    }
}

/// Resolves the descriptor of a region to a span of bytes of the file with
/// the given id. A descriptor that does not resolve never stops the
/// caller: without a start the span is the one from 0 to 0, and without an
/// end it is empty.
pub fn get_byte_range(
    file_id: usize,
    files: &SimpleFiles<String, String>,
    region: &RegionDescriptor,
) -> (range: Region)
    ensures
        range.span() == region_of(source_of(sources(*files), file_id as int), *region),
        range.wf(),
{
    let located = locate_start(file_id, files, region);
    let end = locate_end(file_id, files, region);
    region_of_parts(region.byte_offset, located, region.byte_length, end)
}

/// How grave a finding is.
#[derive(Debug, Clone, Copy, PartialEq, Eq, Structural)]
pub enum Severity {
    Error,
    Warning,
    Note,
}

impl Severity {
    /// The place of a severity in the order from the lightest to the
    /// gravest: notes, then warnings, then errors.
    pub open spec fn rank(self) -> nat {
        match self {
            Severity::Note => 0,
            Severity::Warning => 1,
            Severity::Error => 2,
        }
    }

    /// The severity that a level of the report stands for: a finding
    /// without a level is an error, and a level that is neither `error`
    /// nor `warning` is a note.
    pub open spec fn of_level(level: Option<Seq<char>>) -> Severity {
        match level {
            None => Severity::Error,
            Some(text) => if text == "error"@ {
                Severity::Error
            } else if text == "warning"@ {
                Severity::Warning
            } else {
                Severity::Note
            },
        }
    }

    /// The severity that a level of the report stands for.
    pub fn from_level(level: &Option<String>) -> (severity: Severity)
        ensures
            severity == Severity::of_level(level.deep_view()),
    {
        match level {
            None => Severity::Error,
            Some(text) => {
                if *text == String::from_str("error") {
                    Severity::Error
                } else if *text == String::from_str("warning") {
                    Severity::Warning
                } else {
                    Severity::Note
                }
            },
        }
    }
}

/// One finding, resolved: what it says, and of which bytes of which file
/// of its run.
#[derive(Debug, Clone, PartialEq, Eq)]
pub struct Diagnostic {
    pub severity: Severity,
    pub message: String,
    pub file_id: usize,
    pub region: Region,
}

/// What a [`Diagnostic`] holds.
pub struct DiagnosticView {
    pub severity: Severity,
    pub message: Seq<char>,
    pub file_id: nat,
    pub region: (nat, nat),
}

impl View for Diagnostic {
    type V = DiagnosticView;

    open spec fn view(&self) -> DiagnosticView {
        DiagnosticView {
            severity: self.severity,
            message: self.message@,
            file_id: self.file_id as nat,
            region: self.region.span(),
        }
    }
}

/// The diagnostics of a vector, each by its view.
pub open spec fn diagnostics_of(diagnostics: Seq<Diagnostic>) -> Seq<DiagnosticView> {
    diagnostics.map_values(|diagnostic: Diagnostic| diagnostic@)
}

/// One source file as a report lists it.
#[derive(Debug, Clone, PartialEq, Eq)]
pub struct ReportArtifact {
    pub name: String,
    pub base: String,
    pub content: String,
}

/// What a [`ReportArtifact`] holds.
pub struct ReportArtifactView {
    pub name: Seq<char>,
    pub base: Seq<char>,
    pub content: Seq<char>,
}

impl View for ReportArtifact {
    type V = ReportArtifactView;

    open spec fn view(&self) -> ReportArtifactView {
        ReportArtifactView { name: self.name@, base: self.base@, content: self.content@ }
    }
}

/// One finding as a report lists it: its level, if it has one, its message,
/// the file it speaks of by name and base, and where in that file.
#[derive(Debug, Clone, PartialEq, Eq)]
pub struct ReportFinding {
    pub level: Option<String>,
    pub message: String,
    pub name: String,
    pub base: String,
    pub region: RegionDescriptor,
}

/// What a [`ReportFinding`] holds.
pub struct ReportFindingView {
    pub level: Option<Seq<char>>,
    pub message: Seq<char>,
    pub name: Seq<char>,
    pub base: Seq<char>,
    pub region: RegionDescriptor,
}

impl View for ReportFinding {
    type V = ReportFindingView;

    open spec fn view(&self) -> ReportFindingView {
        ReportFindingView {
            level: self.level.deep_view(),
            message: self.message@,
            name: self.name@,
            base: self.base@,
            region: self.region,
        }
    }
}

/// One run of a report: its files and its findings.
#[derive(Debug, Clone, PartialEq, Eq)]
pub struct ReportRun {
    pub artifacts: Vec<ReportArtifact>,
    pub findings: Vec<ReportFinding>,
}

/// What a [`ReportRun`] holds.
pub struct ReportRunView {
    pub artifacts: Seq<ReportArtifactView>,
    pub findings: Seq<ReportFindingView>,
}

impl View for ReportRun {
    type V = ReportRunView;

    open spec fn view(&self) -> ReportRunView {
        ReportRunView {
            artifacts: self.artifacts@.map_values(|artifact: ReportArtifact| artifact@),
            findings: self.findings@.map_values(|finding: ReportFinding| finding@),
        }
    }
}

/// The runs of a vector, each by its view.
pub open spec fn report_runs_of(runs: Seq<ReportRun>) -> Seq<ReportRunView> {
    runs.map_values(|run: ReportRun| run@)
}

/// Why a run of a report gives no diagnostics.
#[derive(Debug, Clone, Copy, PartialEq, Eq, Structural)]
pub enum DiagnosticError {
    /// Two files of the run have the same base and name.
    MalformedReport,
    /// A finding speaks of a file that the run does not list.
    UnresolvedArtifact,
}

/// The base and the name under which a file of a run is known.
#[derive(Debug, Clone, PartialEq, Eq)]
pub struct ArtifactKey {
    pub base: String,
    pub name: String,
}

impl View for ArtifactKey {
    type V = (Seq<char>, Seq<char>);

    open spec fn view(&self) -> (Seq<char>, Seq<char>) {
        (self.base@, self.name@)
    }
}

/// The keys of a vector, each as its base and its name.
pub open spec fn keys_of(keys: Seq<ArtifactKey>) -> Seq<(Seq<char>, Seq<char>)> {
    keys.map_values(|key: ArtifactKey| key@)
}

/// The diagnostics of one run, with the files they speak of. The id of a
/// file is its position in the run, and means nothing in another run.
#[derive(Debug)]
pub struct DiagnosticRun {
    pub files: SimpleFiles<String, String>,
    pub keys: Vec<ArtifactKey>,
    pub diagnostics: Vec<Diagnostic>,
}

/// What a [`DiagnosticRun`] holds: its files, each as its name and its
/// text; the key of each file, as its base and its name; its diagnostics.
pub struct DiagnosticRunView {
    pub files: Seq<(Seq<char>, Seq<char>)>,
    pub keys: Seq<(Seq<char>, Seq<char>)>,
    pub diagnostics: Seq<DiagnosticView>,
}

impl View for DiagnosticRun {
    type V = DiagnosticRunView;

    open spec fn view(&self) -> DiagnosticRunView {
        DiagnosticRunView {
            files: sources(self.files),
            keys: keys_of(self.keys@),
            diagnostics: diagnostics_of(self.diagnostics@),
        }
    }
}

impl DiagnosticRunView {
    /// The run knows each of its files under one key, no key twice, and
    /// each diagnostic speaks of one of its files and of a span that does
    /// not end before it starts.
    pub open spec fn wf(self) -> bool {
        &&& self.keys.len() == self.files.len()
        &&& forall|id: int|
            0 <= id < self.keys.len() ==> (#[trigger] self.keys[id]).1 == self.files[id].0
        &&& self.keys.no_duplicates()
        &&& forall|at: int|
            0 <= at < self.diagnostics.len() ==> {
                &&& (#[trigger] self.diagnostics[at]).file_id < self.files.len()
                &&& self.diagnostics[at].region.0 <= self.diagnostics[at].region.1
            }
    }

    /// Whether a diagnostic of the run is an error.
    pub open spec fn has_errors(self) -> bool {
        exists|at: int|
            0 <= at < self.diagnostics.len() && (#[trigger] self.diagnostics[at]).severity
                == Severity::Error
    }

    /// The severities of the diagnostics of the run, in their order.
    pub open spec fn severities(self) -> Seq<Severity> {
        severities_of(self.diagnostics)
    }
}

/// The severities of a sequence of diagnostics, in their order.
pub open spec fn severities_of(diagnostics: Seq<DiagnosticView>) -> Seq<Severity> {
    diagnostics.map_values(|diagnostic: DiagnosticView| diagnostic.severity)
}

/// The position of the first of `keys`, from position `from` on, that is
/// `key`.
pub open spec fn first_key(
    keys: Seq<(Seq<char>, Seq<char>)>,
    key: (Seq<char>, Seq<char>),
    from: nat,
) -> Option<nat>
    decreases keys.len() - from,
{
    if from >= keys.len() {
        None
    } else if keys[from as int] == key {
        Some(from)
    } else {
        first_key(keys, key, from + 1)
    }
}

/// The keys of the files of a run, each as its base and its name.
pub open spec fn keys_in(artifacts: Seq<ReportArtifactView>) -> Seq<(Seq<char>, Seq<char>)> {
    artifacts.map_values(|artifact: ReportArtifactView| (artifact.base, artifact.name))
}

/// The files of a run, each as its name and its text.
pub open spec fn files_in(artifacts: Seq<ReportArtifactView>) -> Seq<(Seq<char>, Seq<char>)> {
    artifacts.map_values(|artifact: ReportArtifactView| (artifact.name, artifact.content))
}

/// The id of the file that a finding speaks of: the position of the file
/// with the base and the name that the finding gives.
pub open spec fn file_of(artifacts: Seq<ReportArtifactView>, finding: ReportFindingView) -> Option<
    nat,
> {
    first_key(keys_in(artifacts), (finding.base, finding.name), 0)
}

/// Every finding of the run speaks of a file of the run.
pub open spec fn all_resolved(run: ReportRunView) -> bool {
    forall|at: int|
        0 <= at < run.findings.len() ==> file_of(run.artifacts, #[trigger] run.findings[at])
            is Some
}

/// The diagnostic of a finding that speaks of the file with the given id:
/// the severity of its level, its message, and the span that its
/// descriptor has in the text of the file.
pub open spec fn diagnostic_of(
    artifacts: Seq<ReportArtifactView>,
    finding: ReportFindingView,
    file_id: nat,
) -> DiagnosticView {
    DiagnosticView {
        severity: Severity::of_level(finding.level),
        message: finding.message,
        file_id,
        region: region_of(Some(artifacts[file_id as int].content), finding.region),
    }
}

/// What one run of a report gives. A run that lists two files under one
/// base and name is malformed. A run with a finding that speaks of a file
/// it does not list is unresolved. Any other run gives its files, in their
/// order, and for each finding, in their order, its diagnostic.
pub open spec fn extracted(run: ReportRunView) -> Result<DiagnosticRunView, DiagnosticError> {
    if !keys_in(run.artifacts).no_duplicates() {
        Err(DiagnosticError::MalformedReport)
    } else if !all_resolved(run) {
        Err(DiagnosticError::UnresolvedArtifact)
    } else {
        Ok(
            DiagnosticRunView {
                files: files_in(run.artifacts),
                keys: keys_in(run.artifacts),
                diagnostics: run.findings.map_values(
                    |finding: ReportFindingView|
                        diagnostic_of(
                            run.artifacts,
                            finding,
                            file_of(run.artifacts, finding).unwrap(),
                        ),
                ),
            },
        )
    }
}

/// What all the runs of a report give. A malformed run makes the whole
/// report malformed. An unresolved run is left out, and the others are
/// kept in their order.
pub open spec fn collected(runs: Seq<ReportRunView>) -> Result<
    Seq<DiagnosticRunView>,
    DiagnosticError,
>
    decreases runs.len(),
{
    if runs.len() == 0 {
        Ok(Seq::empty())
    } else {
        match collected(runs.drop_last()) {
            Ok(before) => match extracted(runs.last()) {
                Ok(run) => Ok(before.push(run)),
                Err(DiagnosticError::MalformedReport) => Err(DiagnosticError::MalformedReport),
                Err(DiagnosticError::UnresolvedArtifact) => Ok(before),
            },
            Err(error) => Err(error),
        }
    }
}

/// What `first_key` finds is the first position of the key from `from`
/// on, and it finds none only where the key is at none.
pub proof fn lemma_first_key(
    keys: Seq<(Seq<char>, Seq<char>)>,
    key: (Seq<char>, Seq<char>),
    from: nat,
)
    ensures
        match first_key(keys, key, from) {
            Some(id) => from <= id < keys.len() && keys[id as int] == key && forall|before: int|
                from <= before < id ==> keys[before] != key,
            None => forall|id: int| from <= id < keys.len() ==> keys[id] != key,
        },
    decreases keys.len() - from,
{
    if from < keys.len() && keys[from as int] != key {
        lemma_first_key(keys, key, from + 1);
    }
}

/// What a run gives is well formed, has as many files as the run lists and
/// as many diagnostics as the run has findings, and each diagnostic speaks
/// of the file that its finding names.
pub proof fn lemma_extracted_is_well_formed(run: ReportRunView)
    ensures
        extracted(run) matches Ok(found) ==> {
            &&& found.wf()
            &&& found.files.len() == run.artifacts.len()
            &&& found.diagnostics.len() == run.findings.len()
            &&& forall|at: int|
                0 <= at < run.findings.len() ==> {
                    let id = (#[trigger] found.diagnostics[at]).file_id as int;
                    &&& run.artifacts[id].base == run.findings[at].base
                    &&& run.artifacts[id].name == run.findings[at].name
                }
        },
{
    if let Ok(found) = extracted(run) {
        assert forall|at: int| 0 <= at < found.diagnostics.len() implies {
            let id = (#[trigger] found.diagnostics[at]).file_id as int;
            &&& id < found.files.len()
            &&& found.diagnostics[at].region.0 <= found.diagnostics[at].region.1
            &&& run.artifacts[id].base == run.findings[at].base
            &&& run.artifacts[id].name == run.findings[at].name
        } by {
            let finding = run.findings[at];
            lemma_first_key(keys_in(run.artifacts), (finding.base, finding.name), 0);
            let id = file_of(run.artifacts, finding).unwrap();
            lemma_region_of_is_ordered(Some(run.artifacts[id as int].content), finding.region);
        }
    }
}

/// A malformed run among the first runs of a report makes the whole report
/// malformed.
proof fn lemma_collected_error_stays(runs: Seq<ReportRunView>, count: int)
    requires
        0 <= count <= runs.len(),
        collected(runs.take(count)) is Err,
    ensures
        collected(runs) == collected(runs.take(count)),
    decreases runs.len(),
{
    if count < runs.len() {
        assert(runs.drop_last().take(count) =~= runs.take(count));
        lemma_collected_error_stays(runs.drop_last(), count);
    } else {
        assert(runs.take(count) =~= runs);
    }
}

/// The id of the file that `keys` knows under the given base and name.
fn find_key(keys: &Vec<ArtifactKey>, base: &String, name: &String) -> (found: Option<usize>)
    ensures
        number_of(found) == first_key(keys_of(keys@), (base@, name@), 0),
{
    let mut id: usize = 0;
    while id < keys.len()
        invariant
            id <= keys@.len(),
            first_key(keys_of(keys@), (base@, name@), 0) == first_key(
                keys_of(keys@),
                (base@, name@),
                id as nat,
            ),
        decreases keys@.len() - id,
    {
        if keys[id].base == *base && keys[id].name == *name {
            return Some(id);
        }
        id += 1;
    }
    None
}

/// Extracts the diagnostics of one run of a report. A run that lists two
/// files under one base and name is malformed; a run with a finding that
/// speaks of a file it does not list is unresolved; any other run gives
/// one diagnostic for each finding.
pub fn extract_run(input: &ReportRun) -> (found: Result<DiagnosticRun, DiagnosticError>)
    ensures
        match found {
            Ok(run) => extracted(input@) == Ok::<DiagnosticRunView, DiagnosticError>(run@)
                && run@.wf(),
            Err(error) => extracted(input@) == Err::<DiagnosticRunView, DiagnosticError>(error),
        },
{
    let ghost artifacts = input@.artifacts;
    let ghost findings = input@.findings;
    let mut files = new_files();
    let mut keys: Vec<ArtifactKey> = Vec::new();
    let mut id: usize = 0;
    while id < input.artifacts.len()
        invariant
            artifacts == input@.artifacts,
            id <= input.artifacts@.len(),
            keys_of(keys@) == keys_in(artifacts).take(id as int),
            sources(files) == files_in(artifacts).take(id as int),
            keys_in(artifacts).take(id as int).no_duplicates(),
        decreases input.artifacts@.len() - id,
    {
        let artifact = &input.artifacts[id];
        let ghost key = (artifact.base@, artifact.name@);
        proof {
            lemma_first_key(keys_of(keys@), key, 0);
        }
        if let Some(first) = find_key(&keys, &artifact.base, &artifact.name) {
            assert(keys_in(artifacts)[first as int] == keys_in(artifacts)[id as int]);
            return Err(DiagnosticError::MalformedReport);
        }
        add_file(&mut files, artifact.name.clone(), artifact.content.clone());
        keys.push(ArtifactKey { base: artifact.base.clone(), name: artifact.name.clone() });
        id += 1;
    }
    assert(keys_in(artifacts).take(id as int) =~= keys_in(artifacts));
    let mut diagnostics: Vec<Diagnostic> = Vec::new();
    let mut at: usize = 0;
    while at < input.findings.len()
        invariant
            artifacts == input@.artifacts,
            findings == input@.findings,
            at <= input.findings@.len(),
            diagnostics@.len() == at,
            keys_in(artifacts).no_duplicates(),
            keys_of(keys@) == keys_in(artifacts),
            sources(files) == files_in(artifacts),
            forall|before: int|
                0 <= before < at ==> file_of(artifacts, #[trigger] findings[before]) is Some,
            forall|before: int|
                0 <= before < at ==> (#[trigger] diagnostics@[before])@ == diagnostic_of(
                    artifacts,
                    findings[before],
                    file_of(artifacts, findings[before]).unwrap(),
                ),
        decreases input.findings@.len() - at,
    {
        let finding = &input.findings[at];
        assert(finding@ == findings[at as int]);
        proof {
            lemma_first_key(keys_in(artifacts), (finding.base@, finding.name@), 0);
        }
        let file_id = match find_key(&keys, &finding.base, &finding.name) {
            Some(file_id) => file_id,
            None => return Err(DiagnosticError::UnresolvedArtifact),
        };
        let region = get_byte_range(file_id, &files, &finding.region);
        diagnostics.push(
            Diagnostic {
                severity: Severity::from_level(&finding.level),
                message: finding.message.clone(),
                file_id,
                region,
            },
        );
        at += 1;
    }
    let run = DiagnosticRun { files, keys, diagnostics };
    proof {
        lemma_extracted_is_well_formed(input@);
        assert(run@.diagnostics =~= extracted(input@).unwrap().diagnostics);
    }
    Ok(run)
}

/// The positions, in rising order, of the given severity among
/// `severities`.
pub open spec fn positions_of(severities: Seq<Severity>, severity: Severity) -> Seq<nat>
    decreases severities.len(),
{
    if severities.len() == 0 {
        Seq::empty()
    } else {
        let before = positions_of(severities.drop_last(), severity);
        if severities.last() == severity {
            before.push((severities.len() - 1) as nat)
        } else {
            before
        }
    }
}

/// The order in which diagnostics of the given severities are shown, as
/// positions among them: the notes first, then the warnings, then the
/// errors, each group in the order in which it stands.
pub open spec fn render_order(severities: Seq<Severity>) -> Seq<nat> {
    positions_of(severities, Severity::Note) + positions_of(severities, Severity::Warning)
        + positions_of(severities, Severity::Error)
}

/// The positions of one severity are those at which it stands, each once,
/// in rising order.
proof fn lemma_positions_of(severities: Seq<Severity>, severity: Severity)
    ensures
        forall|at: int|
            0 <= at < positions_of(severities, severity).len() ==> {
                &&& (#[trigger] positions_of(severities, severity)[at]) < severities.len()
                &&& severities[positions_of(severities, severity)[at] as int] == severity
            },
        forall|first: int, second: int|
            0 <= first < second < positions_of(severities, severity).len() ==> (
            #[trigger] positions_of(severities, severity)[first]) < (#[trigger] positions_of(
                severities,
                severity,
            )[second]),
        forall|position: int|
            0 <= position < severities.len() && #[trigger] severities[position] == severity
                ==> positions_of(severities, severity).contains(position as nat),
    decreases severities.len(),
{
    if severities.len() > 0 {
        let shorter = severities.drop_last();
        let before = positions_of(shorter, severity);
        let all = positions_of(severities, severity);
        lemma_positions_of(shorter, severity);
        assert forall|position: int|
            0 <= position < severities.len() && #[trigger] severities[position]
                == severity implies all.contains(position as nat) by {
            if position < shorter.len() {
                assert(shorter[position] == severity);
                let at = choose|at: int| 0 <= at < before.len() && before[at] == position as nat;
                assert(all[at] == position as nat);
            } else {
                assert(all[all.len() - 1] == position as nat);
            }
        }
    }
}

/// Each diagnostic has one of the three severities, so the three groups
/// hold as many positions as there are diagnostics.
proof fn lemma_positions_count(severities: Seq<Severity>)
    ensures
        render_order(severities).len() == severities.len(),
    decreases severities.len(),
{
    if severities.len() > 0 {
        lemma_positions_count(severities.drop_last());
    }
}

/// The order of showing is rising in severity, and among diagnostics of
/// one severity it is the order in which they stand. It names every
/// position, and as many positions as there are diagnostics, so each
/// exactly once.
pub proof fn lemma_render_order_is_stable(severities: Seq<Severity>)
    ensures
        render_order(severities).len() == severities.len(),
        forall|at: int|
            0 <= at < severities.len() ==> (#[trigger] render_order(severities)[at])
                < severities.len(),
        forall|position: int|
            0 <= position < severities.len() ==> #[trigger] render_order(severities).contains(
                position as nat,
            ),
        forall|first: int, second: int|
            0 <= first < second < severities.len() ==> {
                let earlier = (#[trigger] render_order(severities)[first]) as int;
                let later = (#[trigger] render_order(severities)[second]) as int;
                ||| severities[earlier].rank() < severities[later].rank()
                ||| (severities[earlier] == severities[later] && earlier < later)
            },
{
    let notes = positions_of(severities, Severity::Note);
    let warnings = positions_of(severities, Severity::Warning);
    let errors = positions_of(severities, Severity::Error);
    let order = render_order(severities);
    lemma_positions_count(severities);
    lemma_positions_of(severities, Severity::Note);
    lemma_positions_of(severities, Severity::Warning);
    lemma_positions_of(severities, Severity::Error);
    assert forall|at: int| 0 <= at < order.len() implies {
        &&& (#[trigger] order[at]) < severities.len()
        &&& at < notes.len() ==> severities[order[at] as int] == Severity::Note && order[at]
            == notes[at]
        &&& notes.len() <= at < notes.len() + warnings.len() ==> severities[order[at] as int]
            == Severity::Warning && order[at] == warnings[at - notes.len()]
        &&& notes.len() + warnings.len() <= at ==> severities[order[at] as int]
            == Severity::Error && order[at] == errors[at - notes.len() - warnings.len()]
    } by {}
    assert forall|position: int| 0 <= position < severities.len() implies #[trigger] order.contains(
        position as nat,
    ) by {
        match severities[position] {
            Severity::Note => {
                let at = choose|at: int| 0 <= at < notes.len() && notes[at] == position as nat;
                assert(order[at] == position as nat);
            },
            Severity::Warning => {
                let at = choose|at: int|
                    0 <= at < warnings.len() && warnings[at] == position as nat;
                assert(order[notes.len() + at] == position as nat);
            },
            Severity::Error => {
                let at = choose|at: int| 0 <= at < errors.len() && errors[at] == position as nat;
                assert(order[notes.len() + warnings.len() + at] == position as nat);
            },
        }
    }
}

/// A sequence of positions as numbers.
pub open spec fn positions(order: Seq<usize>) -> Seq<nat> {
    order.map_values(|position: usize| position as nat)
}

/// Puts the positions of the diagnostics of the given severity behind
/// those that `order` holds.
fn push_positions(diagnostics: &Vec<Diagnostic>, severity: Severity, order: &mut Vec<usize>)
    ensures
        positions(final(order)@) == positions(old(order)@) + positions_of(
            severities_of(diagnostics_of(diagnostics@)),
            severity,
        ),
{
    let ghost severities = severities_of(diagnostics_of(diagnostics@));
    let mut at: usize = 0;
    while at < diagnostics.len()
        invariant
            at <= diagnostics@.len(),
            severities.len() == diagnostics@.len(),
            forall|i: int| 0 <= i < severities.len() ==> severities[i] == diagnostics@[i].severity,
            positions(order@) == positions(old(order)@) + positions_of(
                severities.take(at as int),
                severity,
            ),
        decreases diagnostics@.len() - at,
    {
        let ghost before = order@;
        assert(severities.take(at + 1).drop_last() =~= severities.take(at as int));
        if diagnostics[at].severity == severity {
            order.push(at);
            assert(positions(order@) =~= positions(before).push(at as nat));
        }
        at += 1;
    }
    assert(severities.take(diagnostics@.len() as int) =~= severities);
}

impl DiagnosticRun {
    /// The order in which the diagnostics of the run are shown, as
    /// positions in the run: rising in severity, and within one severity
    /// in the order in which the run holds them.
    pub fn render_order(&self) -> (order: Vec<usize>)
        ensures
            positions(order@) == render_order(self@.severities()),
    {
        let mut order: Vec<usize> = Vec::new();
        push_positions(&self.diagnostics, Severity::Note, &mut order);
        push_positions(&self.diagnostics, Severity::Warning, &mut order);
        push_positions(&self.diagnostics, Severity::Error, &mut order);
        order
    }

    /// Whether a diagnostic of the run is an error.
    pub fn has_errors(&self) -> (found: bool)
        ensures
            found == self@.has_errors(),
    {
        let mut at: usize = 0;
        while at < self.diagnostics.len()
            invariant
                at <= self.diagnostics@.len(),
                forall|before: int|
                    0 <= before < at ==> (#[trigger] self@.diagnostics[before]).severity
                        != Severity::Error,
            decreases self.diagnostics@.len() - at,
        {
            if self.diagnostics[at].severity == Severity::Error {
                assert(self@.diagnostics[at as int].severity == Severity::Error);
                return true;
            }
            at += 1;
        }
        false
    }
}

/// All the diagnostics collected so far, run by run.
#[derive(Debug)]
pub struct BuildDiagnostic {
    pub runs: Vec<DiagnosticRun>,
}

impl View for BuildDiagnostic {
    type V = Seq<DiagnosticRunView>;

    open spec fn view(&self) -> Seq<DiagnosticRunView> {
        self.runs@.map_values(|run: DiagnosticRun| run@)
    }
}

/// Every run of a set is well formed.
pub open spec fn all_well_formed(runs: Seq<DiagnosticRunView>) -> bool {
    forall|at: int| 0 <= at < runs.len() ==> (#[trigger] runs[at]).wf()
}

/// Whether a diagnostic of a run of a set is an error.
pub open spec fn any_has_errors(runs: Seq<DiagnosticRunView>) -> bool {
    exists|at: int| 0 <= at < runs.len() && (#[trigger] runs[at]).has_errors()
}

/// The runs that a report gives are well formed.
pub proof fn lemma_collected_is_well_formed(runs: Seq<ReportRunView>)
    ensures
        collected(runs) matches Ok(found) ==> all_well_formed(found),
    decreases runs.len(),
{
    if runs.len() > 0 {
        lemma_collected_is_well_formed(runs.drop_last());
        lemma_extracted_is_well_formed(runs.last());
    }
}

impl Default for BuildDiagnostic {
    fn default() -> (set: BuildDiagnostic)
        ensures
            set@ == Seq::<DiagnosticRunView>::empty(),
    {
        let set = BuildDiagnostic { runs: Vec::new() };
        set
    }
}

impl BuildDiagnostic {
    /// Extracts the diagnostics of all the runs of a report. A malformed
    /// run makes the whole report malformed. A run with an unresolved
    /// finding is left out, and the others are kept.
    pub fn from_runs(inputs: &Vec<ReportRun>) -> (found: Result<BuildDiagnostic, DiagnosticError>)
        ensures
            match found {
                Ok(set) => collected(report_runs_of(inputs@)) == Ok::<
                    Seq<DiagnosticRunView>,
                    DiagnosticError,
                >(set@) && all_well_formed(set@),
                Err(error) => collected(report_runs_of(inputs@)) == Err::<
                    Seq<DiagnosticRunView>,
                    DiagnosticError,
                >(error),
            },
    {
        let ghost reports = report_runs_of(inputs@);
        let mut set = BuildDiagnostic { runs: Vec::new() };
        let mut at: usize = 0;
        assert(set@ =~= Seq::<DiagnosticRunView>::empty());
        while at < inputs.len()
            invariant
                at <= inputs@.len(),
                reports == report_runs_of(inputs@),
                collected(reports.take(at as int)) == Ok::<Seq<DiagnosticRunView>, DiagnosticError>(
                    set@,
                ),
            decreases inputs@.len() - at,
        {
            let ghost before = set@;
            assert(reports.take(at + 1).drop_last() =~= reports.take(at as int));
            match extract_run(&inputs[at]) {
                Ok(run) => {
                    set.runs.push(run);
                    assert(set@ =~= before.push(run@));
                },
                Err(DiagnosticError::MalformedReport) => {
                    proof {
                        lemma_collected_error_stays(reports, at + 1);
                    }
                    return Err(DiagnosticError::MalformedReport);
                },
                Err(DiagnosticError::UnresolvedArtifact) => {},
            }
            at += 1;
        }
        proof {
            assert(reports.take(inputs@.len() as int) =~= reports);
            lemma_collected_is_well_formed(reports);
        }
        Ok(set)
    }

    /// Whether a diagnostic of a run of the set is an error.
    pub fn has_errors(&self) -> (found: bool)
        ensures
            found == any_has_errors(self@),
    {
        let mut at: usize = 0;
        while at < self.runs.len()
            invariant
                at <= self.runs@.len(),
                forall|before: int| 0 <= before < at ==> !(#[trigger] self@[before]).has_errors(),
            decreases self.runs@.len() - at,
        {
            if self.runs[at].has_errors() {
                assert(self@[at as int].has_errors());
                return true;
            }
            at += 1;
        }
        false
    }

    /// Puts the runs of `other` behind those of the set. No run is dropped
    /// or joined with another.
    pub fn merge(&mut self, other: BuildDiagnostic)
        ensures
            final(self)@ == old(self)@ + other@,
            all_well_formed(old(self)@) && all_well_formed(other@) ==> all_well_formed(
                final(self)@,
            ),
    {
        let mut runs = other.runs;
        self.runs.append(&mut runs);
        assert(self@ =~= old(self)@ + other@);
    }
}

} // verus!
