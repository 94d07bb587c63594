use neodojo::cli::help_template;
use neodojo::compose::{compose_override, compose_override_path};

#[test]
fn help_of_the_program_names_it() {
    assert_eq!(
        help_template("[", "]", "help", false, true, true),
        "neodojo v{version}\n{author-with-newline}{about-with-newline}\n[Usage]: {usage}\n\n\
         [Options]:\n{options}\n\n[Commands]:\n{subcommands}\n{after-help}\n"
    );
}

#[test]
fn help_of_a_command_starts_with_what_it_is_about() {
    assert_eq!(
        help_template("\u{1b}[1m\u{1b}[32m", "\u{1b}[0m", "command", true, false, false),
        "{about-with-newline}\n\u{1b}[1m\u{1b}[32mUsage\u{1b}[0m: {usage}\n\n\
         \u{1b}[1m\u{1b}[32mArguments\u{1b}[0m:\n{positionals}\n{after-help}\n"
    );
}

#[test]
fn help_lists_the_chosen_sections_in_their_order() {
    assert_eq!(
        help_template("", "", "other", true, true, true),
        "{about-with-newline}\nUsage: {usage}\n\nArguments:\n{positionals}\n\nOptions:\n{options}\n\n\
         Commands:\n{subcommands}\n{after-help}\n"
    );
    assert_eq!(
        help_template("", "", "Help", false, false, false),
        "{about-with-newline}\nUsage: {usage}\n\n\n{after-help}\n"
    );
    assert_eq!(
        help_template("<", ">", "help", true, false, true),
        "neodojo v{version}\n{author-with-newline}{about-with-newline}\n<Usage>: {usage}\n\n\
         <Arguments>:\n{positionals}\n\n<Commands>:\n{subcommands}\n{after-help}\n"
    );
}

#[test]
fn override_file_puts_the_container_to_sleep() {
    assert_eq!(
        compose_override("/tmp/results", "exercise"),
        "services:\n    exercise:\n        entrypoint:\n            - sleep\n            - infinity\n        \
         environment:\n            - IN_DOCKER=true\n        volumes: !override\n            \
         - /tmp/results:/results/\n        "
    );
}

#[test]
fn override_file_lies_in_the_results_directory() {
    assert_eq!(compose_override_path("/tmp/results"), "/tmp/results/docker-compose.yml");
    assert_eq!(compose_override_path(""), "/docker-compose.yml");
}
