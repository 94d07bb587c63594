//! The build step: which compiler flags the makefile of an exercise sets,
//! how the build is asked for its report, and when its diagnostics make it
//! a failed build.

use crate::sarif::{any_has_errors, BuildDiagnostic};
use crate::text::{lines, lines_in, occurs_at, split_first, split_once, starts_with};
use vstd::prelude::*;
use vstd::string::StringExecFns;

verus! {

/// Why a build did not end well.
#[derive(Debug)]
pub enum BuildError {
    /// The makefile is not one that the build can use; the text says why.
    IncompatibleMakefile(String),
    /// The build gave diagnostics with an error among them.
    BuildFailed(BuildDiagnostic),
}

impl BuildError {
    /// What the error says, in a line.
    pub open spec fn spec_message(self) -> Seq<char> {
        match self {
            BuildError::IncompatibleMakefile(reason) => "incorrect makefile format: "@ + reason@,
            BuildError::BuildFailed(_) => "build failed"@,
        }
    }

    /// What the error says, in a line.
    pub fn message(&self) -> (text: String)
        ensures
            text@ == self.spec_message(),
    {
        match self {
            BuildError::IncompatibleMakefile(reason) => String::from_str(
                "incorrect makefile format: ",
            ).concat(reason.as_str()),
            BuildError::BuildFailed(_) => String::from_str("build failed"),
        }
    }
}

/// The first of the lines that begins with `CFLAGS:=`.
pub open spec fn flags_line(lines: Seq<Seq<char>>) -> Option<Seq<char>>
    decreases lines.len(),
{
    if lines.len() == 0 {
        None
    } else if occurs_at(lines.first(), "CFLAGS:="@, 0) {
        Some(lines.first())
    } else {
        flags_line(lines.drop_first())
    }
}

/// The compiler flags that the lines of a makefile set: what follows the
/// first `=` on the first line that begins with `CFLAGS:=`.
pub open spec fn flags_among(lines: Seq<Seq<char>>) -> Option<Seq<char>> {
    match flags_line(lines) {
        Some(line) => match split_first(line, "="@) {
            Some((_, flags)) => Some(flags),
            None => None,
        },
        None => None,
    }
}

/// The compiler flags that a makefile sets.
pub open spec fn flags_in(makefile: Seq<char>) -> Option<Seq<char>> {
    flags_among(lines_in(makefile))
}

/// The argument that sets the flags of a build and asks for its
/// diagnostics as a report on the error stream.
pub open spec fn report_argument(flags: Seq<char>) -> Seq<char> {
    "CFLAGS="@ + flags + " -fdiagnostics-format=sarif-stderr"@
}

/// The compiler flags that the lines of a makefile set, if they set any.
pub fn flags_of_lines(lines: &Vec<&str>) -> (flags: Option<String>)
    ensures
        flags.deep_view() == flags_among(lines.deep_view()),
{
    let ghost views = lines.deep_view();
    let mut at: usize = 0;
    assert(views.skip(0) =~= views);
    while at < lines.len()
        invariant
            at <= lines@.len(),
            views == lines.deep_view(),
            flags_line(views) == flags_line(views.skip(at as int)),
        decreases lines@.len() - at,
    {
        assert(views.skip(at as int).drop_first() =~= views.skip(at + 1));
        let line = lines[at];
        if starts_with(line, "CFLAGS:=") {
            return match split_once(line, "=") {
                Some((_, flags)) => Some(String::from_str(flags)),
                None => None,
            };
        }
        at += 1;
    }
    None
}

/// The compiler flags that the makefile of an exercise sets. A makefile
/// that could not be read, or that sets no flags, cannot be used.
pub fn cflags_of(makefile: Option<&str>) -> (flags: Result<String, BuildError>)
    ensures
        match flags {
            Ok(text) => makefile matches Some(content) && flags_in(content@) == Some(text@),
            Err(BuildError::IncompatibleMakefile(reason)) => match makefile {
                Some(content) => flags_in(content@) is None && reason@ == "missing CFLAGS"@,
                None => reason@ == "unable to read Makefile"@,
            },
            Err(BuildError::BuildFailed(_)) => false,
        },
{
    let content = match makefile {
        Some(content) => content,
        None => {
            let reason = String::from_str("unable to read Makefile");
            return Err(BuildError::IncompatibleMakefile(reason));
        },
    };
    match flags_of_lines(&lines(content)) {
        Some(flags) => Ok(flags),
        None => Err(BuildError::IncompatibleMakefile(String::from_str("missing CFLAGS"))),
    }
}

/// The argument that hands the flags to the build and asks for its
/// diagnostics as a report.
pub fn sarif_argument(flags: &str) -> (argument: String)
    ensures
        argument@ == report_argument(flags@),
{
    String::from_str("CFLAGS=").concat(flags).concat(" -fdiagnostics-format=sarif-stderr")
}

impl BuildDiagnostic {
    /// Sorts the diagnostics of a build: with an error among them the
    /// build has failed, and they are the error `BuildFailed`; without one
    /// they are returned as they are.
    pub fn into_result(self) -> (sorted: Result<BuildDiagnostic, BuildError>)
        ensures
            match sorted {
                Ok(set) => set == self && !any_has_errors(self@),
                Err(BuildError::BuildFailed(set)) => set == self && any_has_errors(self@),
                Err(BuildError::IncompatibleMakefile(_)) => false,
            },
    {
        if self.has_errors() {
            Err(BuildError::BuildFailed(self))
        } else {
            Ok(self)
        }
    }
}

} // verus!
