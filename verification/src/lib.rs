//! Diagnostics and test results of an exercise run.
//!
//! The crate resolves the findings of an analysis report to byte ranges of
//! source text, scans a sanitizer log for failure signatures, keeps a
//! hierarchical test report with additive totals, and fuses the two test
//! probes into one outcome. It reads no file and prints nothing: whoever
//! uses it hands in texts and values, and gets values back.
//!
//! - [`sarif`]: regions, diagnostics, and their order of showing.
//! - [`files`]: the file database that the diagnostics of a run speak of.
//! - [`asan`]: the scan of a sanitizer log.
//! - [`gunit`]: suites, reports and their totals.
//! - [`fusion`]: the outcome of the two probes of a test run.
//! - [`summary`]: the summary of a report as lines of text.
//! - [`makefile`]: the flags and the result of a build.
//! - [`cli`] and [`compose`]: texts for the command line and the container.
//! - [`dojo`]: the plain data of an assignment.
//! - [`text`]: searching in text.
//!
//! Every function is verified against its contract, except the few that
//! only call into `std`, `codespan_reporting` or `indent`. Those are marked
//! `external_body`; what each of them claims of the function it calls
//! stands in its doc comment, and is taken on trust.

pub mod asan;
pub mod cli;
pub mod compose;
pub mod dojo;
pub mod files;
pub mod fusion;
pub mod gunit;
pub mod makefile;
pub mod sarif;
pub mod summary;
pub mod text;
