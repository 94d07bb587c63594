//! The source files of a run, kept in the file database of
//! `codespan_reporting`, and what that database tells of lines and columns.

use codespan_reporting::files::{Files, SimpleFiles};
use vstd::prelude::*;

verus! {

/// `codespan_reporting::files::SimpleFiles`, the file database of a run.
/// Nothing is known of a value of it but what the functions below tell.
#[verifier::external_type_specification]
#[verifier::external_body]
#[verifier::reject_recursive_types(Name)]
#[verifier::reject_recursive_types(Source)]
pub struct ExSimpleFiles<Name, Source>(SimpleFiles<Name, Source>);

/// The files of a database in the order they were added, each as its name
/// and its text. The position of a file is its id.
pub uninterp spec fn sources(files: SimpleFiles<String, String>) -> Seq<(Seq<char>, Seq<char>)>;

/// The byte range that `Files::line_range` gives for the line with the
/// given index (from 0) in a text; `None` where it gives an error.
pub uninterp spec fn line_range_of(source: Seq<char>, line_index: nat) -> Option<(nat, nat)>;

/// The line number and the column number that `Files::location` gives for
/// the byte with the given index in a text; `None` where it gives an error.
pub uninterp spec fn location_of(source: Seq<char>, byte_index: nat) -> Option<(nat, nat)>;

/// The column number that `Files::column_number` gives for the byte with
/// the given index, on the line with the given index, in a text; `None`
/// where it gives an error.
pub uninterp spec fn column_number_of(
    source: Seq<char>,
    line_index: nat,
    byte_index: nat,
) -> Option<nat>;

/// The text of the file with the given id, if the database holds it.
pub open spec fn source_of(files: Seq<(Seq<char>, Seq<char>)>, file_id: int) -> Option<Seq<char>> {
    if 0 <= file_id < files.len() {
        Some(files[file_id].1)
    } else {
        None
    }
}

/// A pair of byte indices as numbers.
pub open spec fn pair_of(pair: Option<(usize, usize)>) -> Option<(nat, nat)> {
    match pair {
        Some((first, second)) => Some((first as nat, second as nat)),
        None => None,
    }
}

/// A byte index or a count as a number.
pub open spec fn number_of(number: Option<usize>) -> Option<nat> {
    match number {
        Some(n) => Some(n as nat),
        None => None,
    }
}

/// `SimpleFiles::new`: a database without files.
#[verifier::external_body]
pub(crate) fn new_files() -> (files: SimpleFiles<String, String>)
    ensures
        sources(files) == Seq::<(Seq<char>, Seq<char>)>::empty(),
{
    SimpleFiles::new()
}

/// `SimpleFiles::add`: the file is added behind those that the database
/// holds, and its id, the number of files held before, is returned.
#[verifier::external_body]
pub(crate) fn add_file(
    files: &mut SimpleFiles<String, String>,
    name: String,
    source: String,
) -> (file_id: usize)
    ensures
        sources(*final(files)) == sources(*old(files)).push((name@, source@)),
        file_id == sources(*old(files)).len(),
{
    files.add(name, source)
}

/// `Files::line_range` of the database: the byte range of a line of a file,
/// which depends on the text of that file and the index of the line alone.
/// An error gives `None`, and a missing file is an error.
#[verifier::external_body]
pub(crate) fn line_range(
    files: &SimpleFiles<String, String>,
    file_id: usize,
    line_index: usize,
) -> (range: Option<(usize, usize)>)
    ensures
        source_of(sources(*files), file_id as int) is None ==> range is None,
        source_of(sources(*files), file_id as int) matches Some(source) ==> pair_of(range)
            == line_range_of(source, line_index as nat),
{
    match files.line_range(file_id, line_index) {
        Ok(range) => Some((range.start, range.end)),
        Err(_) => None,
    }
}

/// `Files::location` of the database: the line number and the column number
/// of a byte of a file, which depend on the text of that file and the index
/// of the byte alone. An error gives `None`, and a missing file is an error.
#[verifier::external_body]
pub(crate) fn location(
    files: &SimpleFiles<String, String>,
    file_id: usize,
    byte_index: usize,
) -> (place: Option<(usize, usize)>)
    ensures
        source_of(sources(*files), file_id as int) is None ==> place is None,
        source_of(sources(*files), file_id as int) matches Some(source) ==> pair_of(place)
            == location_of(source, byte_index as nat),
{
    match files.location(file_id, byte_index) {
        Ok(place) => Some((place.line_number, place.column_number)),
        Err(_) => None,
    }
}

/// `Files::column_number` of the database: the column number of a byte on a
/// line of a file, which depends on the text of that file and the two
/// indices alone. An error gives `None`, and a missing file is an error.
#[verifier::external_body]
pub(crate) fn column_number(
    files: &SimpleFiles<String, String>,
    file_id: usize,
    line_index: usize,
    byte_index: usize,
) -> (column: Option<usize>)
    ensures
        source_of(sources(*files), file_id as int) is None ==> column is None,
        source_of(sources(*files), file_id as int) matches Some(source) ==> number_of(column)
            == column_number_of(source, line_index as nat, byte_index as nat),
{
    match files.column_number(file_id, line_index, byte_index) {
        Ok(number) => Some(number),
        Err(_) => None,
    }
}

} // verus!
