use neodojo::makefile::{cflags_of, flags_of_lines, sarif_argument, BuildError};
use neodojo::sarif::{BuildDiagnostic, Diagnostic, DiagnosticRun, Region, Severity};

fn reason(result: Result<String, BuildError>) -> String {
    match result {
        Err(BuildError::IncompatibleMakefile(reason)) => reason,
        other => panic!("{:?}", other),
    }
}

fn set_of(severity: Severity) -> BuildDiagnostic {
    BuildDiagnostic {
        runs: vec![DiagnosticRun {
            files: codespan_reporting::files::SimpleFiles::new(),
            keys: vec![],
            diagnostics: vec![Diagnostic {
                severity,
                message: "m".to_string(),
                file_id: 0,
                region: Region::default(),
            }],
        }],
    }
}

#[test]
fn flags_follow_the_first_equals_sign() {
    let makefile = "CC:=gcc\nCFLAGS:=-Wall -O2 -DX=1\nCFLAGS:=-second\n\nall:\n\t$(CC) $(CFLAGS) main.c\n";
    assert_eq!(cflags_of(Some(makefile)).unwrap(), "-Wall -O2 -DX=1");
}

#[test]
fn flags_of_a_makefile_with_windows_line_endings() {
    assert_eq!(cflags_of(Some("CC:=gcc\r\nCFLAGS:=-g\r\n")).unwrap(), "-g");
}

#[test]
fn flags_may_be_empty() {
    assert_eq!(cflags_of(Some("CFLAGS:=")).unwrap(), "");
}

#[test]
fn a_makefile_without_flags_cannot_be_used() {
    assert_eq!(reason(cflags_of(Some("CC:=gcc\n CFLAGS:=-g\nCFLAGS =-g\nCFLAGS=-g\n"))), "missing CFLAGS");
    assert_eq!(reason(cflags_of(Some(""))), "missing CFLAGS");
}

#[test]
fn a_makefile_that_was_not_read_cannot_be_used() {
    assert_eq!(reason(cflags_of(None)), "unable to read Makefile");
}

#[test]
fn the_build_is_asked_for_a_report() {
    assert_eq!(sarif_argument("-Wall -g"), "CFLAGS=-Wall -g -fdiagnostics-format=sarif-stderr");
    assert_eq!(sarif_argument(""), "CFLAGS= -fdiagnostics-format=sarif-stderr");
}

#[test]
fn diagnostics_with_an_error_are_a_failed_build() {
    match set_of(Severity::Error).into_result() {
        Err(BuildError::BuildFailed(set)) => assert_eq!(set.runs[0].diagnostics[0].message, "m"),
        other => panic!("{:?}", other),
    }
    assert!(matches!(set_of(Severity::Warning).into_result(), Ok(set) if set.runs.len() == 1));
    assert!(matches!(BuildDiagnostic::default().into_result(), Ok(set) if set.runs.is_empty()));
}

#[test]
fn build_error_messages() {
    assert_eq!(
        BuildError::IncompatibleMakefile("missing CFLAGS".to_string()).message(),
        "incorrect makefile format: missing CFLAGS"
    );
    assert_eq!(BuildError::BuildFailed(BuildDiagnostic::default()).message(), "build failed");
}

#[test]
fn flags_of_lines_takes_the_first_flags_line() {
    assert_eq!(
        flags_of_lines(&vec!["CC:=gcc", "CFLAGS:=-Wall -DX=1", "CFLAGS:=-second"]),
        Some("-Wall -DX=1".to_string())
    );
    assert_eq!(flags_of_lines(&vec!["CFLAGS:="]), Some("".to_string()));
    assert_eq!(flags_of_lines(&vec!["CFLAGS:==x"]), Some("=x".to_string()));
    assert_eq!(flags_of_lines(&vec![" CFLAGS:=-g", "CFLAGS=-g", "cflags:=-g"]), None);
    assert_eq!(flags_of_lines(&vec![]), None);
}
