//! Command-line parsing: from the argument vector (program name excluded) to
//! either a help request or a run configuration, or to a parse error.
//!
//! Grammar: `-h`/`--help` requests help and wins over every other token;
//! `-i`/`--ignore-missing` sets the ignore-missing policy; every other token
//! beginning with `-` (except a bare `-`) is an unexpected option; every
//! remaining token must name a task. Tasks keep the order in which they stand
//! on the line.

use vstd::prelude::*;

use crate::task::Task;
use crate::task::task_for_token;

verus! {

/// The ordered tasks to run and the run-wide ignore-missing policy,
/// built once from the command line and read-only afterwards.
pub struct Config {
    pub run_tasks: Vec<Task>,
    pub ignore_missing_commands: bool,
}

/// A successful parse: either an explicit help request or a configuration
/// to run.
pub enum CliOutcome {
    Help,
    Run(Config),
}

/// A failed parse. `NoArguments` stands apart from `NoTaskGiven`: an empty
/// invocation is answered with the usage text, a flags-only one with an
/// error message.
pub enum CliError {
    NoArguments,
    UnexpectedOption(String),
    UnknownTask(String),
    NoTaskGiven,
}

/// The mathematical result of parsing, over character sequences.
pub enum CliResult {
    Help,
    Run { tasks: Seq<Task>, ignore_missing: bool },
    UnexpectedOption { token: Seq<char> },
    UnknownTask { token: Seq<char> },
    NoTaskGiven,
    NoArguments,
}

pub open spec fn is_help_token(t: Seq<char>) -> bool {
    t == "-h"@ || t == "--help"@
}

pub open spec fn is_ignore_missing_token(t: Seq<char>) -> bool {
    t == "-i"@ || t == "--ignore-missing"@
}

/// An option-shaped token: it begins with `-` and is not the bare `-`,
/// which counts as an ordinary (task) token.
pub open spec fn is_option_token(t: Seq<char>) -> bool {
    t.len() >= 2 && t[0] == '-'
}

/// Whether some token on the line requests help.
pub open spec fn requests_help(args: Seq<String>) -> bool {
    exists|i: int| 0 <= i < args.len() && is_help_token(args[i]@)
}

/// One left-to-right scan over the tokens, collecting tasks in order and
/// stopping at the first offending token.
pub open spec fn scan_tokens(args: Seq<String>, tasks: Seq<Task>, ignore_missing: bool) -> CliResult
    decreases args.len(),
{
    if args.len() == 0 {
        if tasks.len() == 0 {
            CliResult::NoTaskGiven
        } else {
            CliResult::Run { tasks, ignore_missing }
        }
    } else {
        let t = args[0]@;
        if is_help_token(t) {
            CliResult::Help
        } else if is_ignore_missing_token(t) {
            scan_tokens(args.drop_first(), tasks, true)
        } else if is_option_token(t) {
            CliResult::UnexpectedOption { token: t }
        } else {
            match task_for_token(t) {
                Some(task) => scan_tokens(args.drop_first(), tasks.push(task), ignore_missing),
                Option::None => CliResult::UnknownTask { token: t },
            }
        }
    }
}

/// What parsing an argument vector yields.
pub open spec fn parse_spec(args: Seq<String>) -> CliResult {
    if args.len() == 0 {
        CliResult::NoArguments
    } else if requests_help(args) {
        CliResult::Help
    } else {
        scan_tokens(args, Seq::empty(), false)
    }
}

/// How an executable parse result realises the mathematical one.
pub open spec fn parse_result_matches(args: Seq<String>, r: Result<CliOutcome, CliError>) -> bool {
    match parse_spec(args) {
        CliResult::Help => r matches Ok(CliOutcome::Help),
        CliResult::Run { tasks, ignore_missing } => {
            &&& r matches Ok(CliOutcome::Run(config))
            &&& config.run_tasks@ == tasks
            &&& config.ignore_missing_commands == ignore_missing
        },
        CliResult::UnexpectedOption { token } => {
            &&& r matches Err(CliError::UnexpectedOption(t))
            &&& t@ == token
        },
        CliResult::UnknownTask { token } => {
            &&& r matches Err(CliError::UnknownTask(t))
            &&& t@ == token
        },
        CliResult::NoTaskGiven => r matches Err(CliError::NoTaskGiven),
        CliResult::NoArguments => r matches Err(CliError::NoArguments),
    }
}

/// Tests one token for the help flag.
fn is_help_arg(t: &String) -> (r: bool)
    ensures
        r == is_help_token(t@),
{
    let short: String = "-h".to_owned();
    let long: String = "--help".to_owned();
    *t == short || *t == long
}

/// Tests one token for the ignore-missing flag.
fn is_ignore_missing_arg(t: &String) -> (r: bool)
    ensures
        r == is_ignore_missing_token(t@),
{
    let short: String = "-i".to_owned();
    let long: String = "--ignore-missing".to_owned();
    *t == short || *t == long
}

/// Tests one token for the option shape.
fn is_option_arg(t: &String) -> (r: bool)
    ensures
        r == is_option_token(t@),
{
    t.as_str().unicode_len() >= 2 && t.as_str().get_char(0) == '-'
}

/// Parses the argument vector, program name excluded.
///
/// The result realises `parse_spec`: help if any token asks for it, else the
/// first offending token's error, else the tasks in line order together with
/// the ignore-missing policy.
pub fn parse_args(args: &Vec<String>) -> (r: Result<CliOutcome, CliError>)
    ensures
        parse_result_matches(args@, r),
{
    if args.len() == 0 {
        return Err(CliError::NoArguments);
    }

    let mut h: usize = 0;
    while h < args.len()
        invariant
            0 <= h <= args@.len(),
            forall|j: int| 0 <= j < h ==> !is_help_token(args@[j]@),
        decreases args@.len() - h,
    {
        if is_help_arg(&args[h]) {
            return Ok(CliOutcome::Help);
        }
        h += 1;
    }
    assert(!requests_help(args@));

    let ghost all: Seq<String> = args@;
    let mut run_tasks: Vec<Task> = Vec::new();
    let mut ignore_missing_commands = false;
    let mut i: usize = 0;
    proof {
        assert(all.skip(0) =~= all);
    }
    while i < args.len()
        invariant
            0 <= i <= all.len(),
            args@ == all,
            forall|j: int| 0 <= j < all.len() ==> !is_help_token(all[j]@),
            scan_tokens(all, Seq::empty(), false) == scan_tokens(
                all.skip(i as int),
                run_tasks@,
                ignore_missing_commands,
            ),
        decreases all.len() - i,
    {
        let ghost rest = all.skip(i as int);
        proof {
            assert(rest[0] == all[i as int]);
            assert(rest.drop_first() =~= all.skip(i as int + 1));
        }
        let token = &args[i];
        if is_ignore_missing_arg(token) {
            ignore_missing_commands = true;
        } else if is_option_arg(token) {
            return Err(CliError::UnexpectedOption(token.clone()));
        } else {
            match crate::task::parse_task(token) {
                Some(task) => {
                    run_tasks.push(task);
                },
                Option::None => {
                    return Err(CliError::UnknownTask(token.clone()));
                },
            }
        }
        i += 1;
    }
    proof {
        assert(all.skip(all.len() as int) =~= Seq::<String>::empty());
    }
    if run_tasks.len() == 0 {
        return Err(CliError::NoTaskGiven);
    }
    Ok(CliOutcome::Run(Config { run_tasks, ignore_missing_commands }))
}

/// What each parse error says to the user.
pub open spec fn spec_message(e: CliError) -> Seq<char> {
    match e {
        CliError::NoArguments => "no arguments given"@,
        CliError::UnexpectedOption(t) => "unexpected option '"@ + t@ + "'"@,
        CliError::UnknownTask(t) => "unknown task '"@ + t@ + "'"@,
        CliError::NoTaskGiven => "no task given"@,
    }
}

impl CliError {
    /// The error's message, naming the offending token where there is one.
    pub fn message(&self) -> (m: String)
        ensures
            m@ == spec_message(*self),
    {
        match self {
            CliError::NoArguments => "no arguments given".to_owned(),
            CliError::UnexpectedOption(t) => {
                let mut m: String = "unexpected option '".to_owned();
                m.append(t.as_str());
                m.append("'");
                m
            },
            CliError::UnknownTask(t) => {
                let mut m: String = "unknown task '".to_owned();
                m.append(t.as_str());
                m.append("'");
                m
            },
            CliError::NoTaskGiven => "no task given".to_owned(),
        }
    }
}

/// The task tokens of the line (the tokens that are not option-shaped),
/// interpreted in the order they stand in.
pub open spec fn requested_tasks(args: Seq<String>) -> Seq<Task>
    decreases args.len(),
{
    if args.len() == 0 {
        Seq::empty()
    } else {
        let rest = requested_tasks(args.drop_first());
        if is_option_token(args[0]@) {
            rest
        } else {
            match task_for_token(args[0]@) {
                Some(task) => seq![task] + rest,
                Option::None => rest,
            }
        }
    }
}

/// A scan that succeeds collects exactly the already-collected tasks followed
/// by the task tokens of the remaining line, in line order.
proof fn lemma_scan_collects_in_order(
    args: Seq<String>,
    acc: Seq<Task>,
    ign: bool,
    tasks: Seq<Task>,
    ignore_missing: bool,
)
    requires
        scan_tokens(args, acc, ign) == (CliResult::Run { tasks, ignore_missing }),
    ensures
        tasks == acc + requested_tasks(args),
    decreases args.len(),
{
    if args.len() == 0 {
        assert(tasks =~= acc + requested_tasks(args));
    } else {
        let t = args[0]@;
        if is_help_token(t) {
        } else if is_ignore_missing_token(t) {
            lemma_scan_collects_in_order(args.drop_first(), acc, true, tasks, ignore_missing);
            assert(is_option_token(t)) by {
                reveal_strlit("-i");
                reveal_strlit("--ignore-missing");
            }
            assert(tasks =~= acc + requested_tasks(args));
        } else if is_option_token(t) {
        } else {
            match task_for_token(t) {
                Some(task) => {
                    lemma_scan_collects_in_order(
                        args.drop_first(),
                        acc.push(task),
                        ign,
                        tasks,
                        ignore_missing,
                    );
                    assert(tasks =~= acc + requested_tasks(args));
                },
                Option::None => {},
            }
        }
    }
}

/// Tasks run in the order given on the command line: a parse that yields a
/// run configuration yields exactly the line's task tokens, interpreted left
/// to right.
pub proof fn lemma_parse_keeps_line_order(args: Seq<String>, tasks: Seq<Task>, ignore_missing: bool)
    requires
        parse_spec(args) == (CliResult::Run { tasks, ignore_missing }),
    ensures
        tasks == requested_tasks(args),
{
    lemma_scan_collects_in_order(args, Seq::empty(), false, tasks, ignore_missing);
    assert(tasks =~= Seq::<Task>::empty() + requested_tasks(args));
}

/// An explicit help request wins over every other token: if any token is
/// `-h` or `--help`, parsing yields the help outcome, whatever else the line
/// holds.
pub proof fn lemma_help_wins(args: Seq<String>, i: int)
    requires
        0 <= i < args.len(),
        is_help_token(args[i]@),
    ensures
        parse_spec(args) == CliResult::Help,
{
    assert(requests_help(args));
}

} // verus!
