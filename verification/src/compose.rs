//! The override file that puts an exercise's container to sleep and mounts
//! the directory for its results.

use vstd::prelude::*;
use vstd::string::StringExecFns;

verus! {

/// The text of the override file: the service named `container` sleeps
/// instead of running, knows that it runs in a container, and has `dir`
/// as the one volume, mounted where it writes its results.
pub open spec fn override_text(dir: Seq<char>, container: Seq<char>) -> Seq<char> {
    "services:\n    "@ + container
        + ":\n        entrypoint:\n            - sleep\n            - infinity\n        environment:\n            - IN_DOCKER=true\n        volumes: !override\n            - "@
        + dir + ":/results/\n        "@
}

/// The path of the override file in `dir`.
pub open spec fn override_path(dir: Seq<char>) -> Seq<char> {
    dir + "/docker-compose.yml"@
}

/// The text of the override file for the container of an exercise.
pub fn compose_override(dir: &str, container_name: &str) -> (text: String)
    ensures
        text@ == override_text(dir@, container_name@),
{
    String::from_str("services:\n    ").concat(container_name).concat(
        ":\n        entrypoint:\n            - sleep\n            - infinity\n        environment:\n            - IN_DOCKER=true\n        volumes: !override\n            - ",
    ).concat(dir).concat(":/results/\n        ")
}

/// The path of the override file in `dir`.
pub fn compose_override_path(dir: &str) -> (path: String)
    ensures
        path@ == override_path(dir@),
{
    String::from_str(dir).concat("/docker-compose.yml")
}

} // verus!
