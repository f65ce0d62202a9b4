//! The closed set of task identifiers and the mapping from a command-line
//! token to a task.

use vstd::prelude::*;

verus! {

/// Usage text printed for `-h`/`--help` and for an invocation without
/// arguments.
pub const HELP: &'static str = "\
cargo xtask - helper scripts for running common project tasks

USAGE:
    cargo xtask [OPTIONS] [TASK]...

OPTIONS:
    -i, --ignore-missing   Ignores any missing tools; only warns
    -h, --help             Prints help information

TASKS:
    coverage               Generate and print a code coverage report summary
    coverage.html          Generate and open an HTML code coverage report
    fixup                  Run all fixup xtasks, editing files in-place
    fixup.github-actions   Format CUE files in-place and regenerate CI YAML files
    fixup.markdown         Format Markdown files in-place
    fixup.rust             Fix lints and format Rust files in-place
    fixup.spelling         Fix common misspellings across all files in-place
    install                Install required Rust components and cargo dependencies
";

/// One maintenance task, as named on the command line.
#[derive(Clone, Copy, PartialEq, Eq, Structural, Debug)]
pub enum Task {
    Coverage,
    CoverageHtml,
    Fixup,
    FixupGithubActions,
    FixupMarkdown,
    FixupRust,
    FixupSpelling,
    Install,
}

/// The total mapping from a command-line token to a task: exactly the eight
/// task names are accepted, every other token is rejected with `None`.
pub open spec fn task_for_token(token: Seq<char>) -> Option<Task> {
    if token == "coverage"@ {
        Some(Task::Coverage)
    } else if token == "coverage.html"@ {
        Some(Task::CoverageHtml)
    } else if token == "fixup"@ {
        Some(Task::Fixup)
    } else if token == "fixup.github-actions"@ {
        Some(Task::FixupGithubActions)
    } else if token == "fixup.markdown"@ {
        Some(Task::FixupMarkdown)
    } else if token == "fixup.rust"@ {
        Some(Task::FixupRust)
    } else if token == "fixup.spelling"@ {
        Some(Task::FixupSpelling)
    } else if token == "install"@ {
        Some(Task::Install)
    } else {
        None
    }
}

/// Parses one command-line token as a task name.
pub fn parse_task(token: &String) -> (r: Option<Task>)
    ensures
        r == task_for_token(token@),
{
    let coverage: String = "coverage".to_owned();
    let coverage_html: String = "coverage.html".to_owned();
    let fixup: String = "fixup".to_owned();
    let fixup_github_actions: String = "fixup.github-actions".to_owned();
    let fixup_markdown: String = "fixup.markdown".to_owned();
    let fixup_rust: String = "fixup.rust".to_owned();
    let fixup_spelling: String = "fixup.spelling".to_owned();
    let install: String = "install".to_owned();
    if *token == coverage {
        Some(Task::Coverage)
    } else if *token == coverage_html {
        Some(Task::CoverageHtml)
    } else if *token == fixup {
        Some(Task::Fixup)
    } else if *token == fixup_github_actions {
        Some(Task::FixupGithubActions)
    } else if *token == fixup_markdown {
        Some(Task::FixupMarkdown)
    } else if *token == fixup_rust {
        Some(Task::FixupRust)
    } else if *token == fixup_spelling {
        Some(Task::FixupSpelling)
    } else if *token == install {
        Some(Task::Install)
    } else {
        None
    }
}

} // verus!
