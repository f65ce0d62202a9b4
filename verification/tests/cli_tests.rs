use xtask::cli::{parse_args, CliError, CliOutcome};
use xtask::task::{parse_task, Task, HELP};

fn args(tokens: &[&str]) -> Vec<String> {
    tokens.iter().map(|t| t.to_string()).collect()
}

#[test]
fn every_task_token_parses() {
    assert_eq!(parse_task(&"coverage".to_string()), Some(Task::Coverage));
    assert_eq!(parse_task(&"coverage.html".to_string()), Some(Task::CoverageHtml));
    assert_eq!(parse_task(&"fixup".to_string()), Some(Task::Fixup));
    assert_eq!(parse_task(&"fixup.github-actions".to_string()), Some(Task::FixupGithubActions));
    assert_eq!(parse_task(&"fixup.markdown".to_string()), Some(Task::FixupMarkdown));
    assert_eq!(parse_task(&"fixup.rust".to_string()), Some(Task::FixupRust));
    assert_eq!(parse_task(&"fixup.spelling".to_string()), Some(Task::FixupSpelling));
    assert_eq!(parse_task(&"install".to_string()), Some(Task::Install));
    assert_eq!(parse_task(&"bogus".to_string()), None);
    assert_eq!(parse_task(&"Fixup".to_string()), None);
    assert_eq!(parse_task(&"".to_string()), None);
}

#[test]
fn tasks_keep_command_line_order() {
    match parse_args(&args(&["fixup.rust", "coverage", "fixup.rust"])) {
        Ok(CliOutcome::Run(config)) => {
            assert_eq!(
                config.run_tasks,
                vec![Task::FixupRust, Task::Coverage, Task::FixupRust]
            );
            assert!(!config.ignore_missing_commands);
        }
        _ => panic!("expected a run configuration"),
    }
}

#[test]
fn ignore_missing_flag_is_recognised_in_both_forms() {
    for flag in ["-i", "--ignore-missing"] {
        match parse_args(&args(&[flag, "install"])) {
            Ok(CliOutcome::Run(config)) => {
                assert!(config.ignore_missing_commands);
                assert_eq!(config.run_tasks, vec![Task::Install]);
            }
            _ => panic!("expected a run configuration"),
        }
    }
}

#[test]
fn ignore_missing_flag_may_follow_the_tasks() {
    match parse_args(&args(&["install", "-i"])) {
        Ok(CliOutcome::Run(config)) => {
            assert!(config.ignore_missing_commands);
            assert_eq!(config.run_tasks, vec![Task::Install]);
        }
        _ => panic!("expected a run configuration"),
    }
}

#[test]
fn help_wins_whatever_else_the_line_holds() {
    assert!(matches!(parse_args(&args(&["-h"])), Ok(CliOutcome::Help)));
    assert!(matches!(parse_args(&args(&["--help"])), Ok(CliOutcome::Help)));
    assert!(matches!(
        parse_args(&args(&["fixup", "--help", "install"])),
        Ok(CliOutcome::Help)
    ));
    assert!(matches!(
        parse_args(&args(&["bogus", "--help"])),
        Ok(CliOutcome::Help)
    ));
    assert!(matches!(
        parse_args(&args(&["-x", "-h"])),
        Ok(CliOutcome::Help)
    ));
}

#[test]
fn no_arguments_is_told_apart_from_no_task() {
    assert!(matches!(parse_args(&args(&[])), Err(CliError::NoArguments)));
    assert!(matches!(parse_args(&args(&["-i"])), Err(CliError::NoTaskGiven)));
}

#[test]
fn unknown_task_is_named_in_the_error() {
    match parse_args(&args(&["bogus", "fixup"])) {
        Err(CliError::UnknownTask(token)) => {
            assert_eq!(token, "bogus");
            assert_eq!(CliError::UnknownTask(token).message(), "unknown task 'bogus'");
        }
        _ => panic!("expected an unknown-task error"),
    }
}

#[test]
fn unexpected_option_is_named_in_the_error() {
    match parse_args(&args(&["-x", "fixup"])) {
        Err(CliError::UnexpectedOption(token)) => {
            assert_eq!(token, "-x");
            assert_eq!(
                CliError::UnexpectedOption(token).message(),
                "unexpected option '-x'"
            );
        }
        _ => panic!("expected an unexpected-option error"),
    }
}

#[test]
fn a_bare_dash_is_an_ordinary_token() {
    assert!(matches!(
        parse_args(&args(&["-"])),
        Err(CliError::UnknownTask(t)) if t == "-"
    ));
}

#[test]
fn error_messages_are_exact() {
    assert_eq!(CliError::NoTaskGiven.message(), "no task given");
    assert_eq!(CliError::NoArguments.message(), "no arguments given");
}

#[test]
fn usage_text_names_the_surface() {
    assert!(HELP.contains("USAGE"));
    assert!(HELP.contains("--ignore-missing"));
    assert!(HELP.contains("--help"));
    for task in [
        "coverage",
        "coverage.html",
        "fixup",
        "fixup.github-actions",
        "fixup.markdown",
        "fixup.rust",
        "fixup.spelling",
        "install",
    ] {
        assert!(HELP.contains(task));
    }
}
