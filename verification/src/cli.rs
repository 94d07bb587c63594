//! The help texts of the command line, as templates for the argument
//! parser to fill in.

use vstd::prelude::*;
use vstd::string::StringExecFns;

verus! {

/// One section of a help text: its title, set off by the codes that switch
/// the heading style on and off, and below it the placeholder for what the
/// section lists.
pub open spec fn section(
    header: Seq<char>,
    reset: Seq<char>,
    title: Seq<char>,
    placeholder: Seq<char>,
) -> Seq<char> {
    header + title + reset + ":\n"@ + placeholder
}

/// The sections that a help text is to have, in their fixed order.
pub open spec fn chosen_sections(
    header: Seq<char>,
    reset: Seq<char>,
    has_arguments: bool,
    has_options: bool,
    has_commands: bool,
) -> Seq<Seq<char>> {
    (if has_arguments {
        seq![section(header, reset, "Arguments"@, "{positionals}"@)]
    } else {
        Seq::empty()
    }) + (if has_options {
        seq![section(header, reset, "Options"@, "{options}"@)]
    } else {
        Seq::empty()
    }) + (if has_commands {
        seq![section(header, reset, "Commands"@, "{subcommands}"@)]
    } else {
        Seq::empty()
    })
}

/// The texts of `parts` in a row, with `separator` between each two.
pub open spec fn joined(parts: Seq<Seq<char>>, separator: Seq<char>) -> Seq<char>
    decreases parts.len(),
{
    if parts.len() == 0 {
        Seq::empty()
    } else if parts.len() == 1 {
        parts[0]
    } else {
        joined(parts.drop_last(), separator) + separator + parts.last()
    }
}

/// The template of a help text. Every template tells what the command is
/// about and how it is used, lists the chosen sections, a blank line
/// between each two, and ends with the closing remark. The template named
/// `help`, that of the program itself, starts with its name, version and
/// author.
pub open spec fn help_text(
    header: Seq<char>,
    reset: Seq<char>,
    template: Seq<char>,
    has_arguments: bool,
    has_options: bool,
    has_commands: bool,
) -> Seq<char> {
    let sections = joined(
        chosen_sections(header, reset, has_arguments, has_options, has_commands),
        "\n\n"@,
    );
    let body = "{about-with-newline}\n"@ + header + "Usage"@ + reset + ": {usage}\n\n"@ + sections
        + "\n{after-help}\n"@;
    if template == "help"@ {
        "neodojo v{version}\n{author-with-newline}"@ + body
    } else {
        body
    }
}

/// The texts of `parts` in a row, with `separator` between each two.
fn join(parts: &Vec<String>, separator: &str) -> (text: String)
    ensures
        text@ == joined(parts.deep_view(), separator@),
{
    let ghost views = parts.deep_view();
    let mut text = String::new();
    let mut at: usize = 0;
    while at < parts.len()
        invariant
            at <= parts@.len(),
            views == parts.deep_view(),
            text@ == joined(views.take(at as int), separator@),
        decreases parts@.len() - at,
    {
        assert(views.take(at + 1).drop_last() =~= views.take(at as int));
        if at > 0 {
            text.append(separator);
        }
        text.append(parts[at].as_str());
        at += 1;
    }
    assert(views.take(parts@.len() as int) =~= views);
    text
}

/// One section of a help text.
fn section_of(header: &str, reset: &str, title: &str, placeholder: &str) -> (text: String)
    ensures
        text@ == section(header@, reset@, title@, placeholder@),
{
    String::from_str(header).concat(title).concat(reset).concat(":\n").concat(placeholder)
}

/// Builds the template of a help text. `header` and `reset` are the codes
/// that switch the style of a heading on and off.
pub fn help_template(
    header: &str,
    reset: &str,
    template: &str,
    has_arguments: bool,
    has_options: bool,
    has_commands: bool,
) -> (text: String)
    ensures
        text@ == help_text(header@, reset@, template@, has_arguments, has_options, has_commands),
{
    let mut parts: Vec<String> = Vec::new();
    if has_arguments {
        parts.push(section_of(header, reset, "Arguments", "{positionals}"));
    }
    if has_options {
        parts.push(section_of(header, reset, "Options", "{options}"));
    }
    if has_commands {
        parts.push(section_of(header, reset, "Commands", "{subcommands}"));
    }
    assert(parts.deep_view() =~= chosen_sections(
        header@,
        reset@,
        has_arguments,
        has_options,
        has_commands,
    ));
    let sections = join(&parts, "\n\n");
    let body = String::from_str("{about-with-newline}\n").concat(header).concat("Usage").concat(
        reset,
    ).concat(": {usage}\n\n").concat(sections.as_str()).concat("\n{after-help}\n");
    if String::from_str(template) == String::from_str("help") {
        String::from_str("neodojo v{version}\n{author-with-newline}").concat(body.as_str())
    } else {
        body
    }
}

} // verus!
