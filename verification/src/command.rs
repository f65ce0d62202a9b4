//! External-tool commands: what each task runs, with which arguments and in
//! which working directory. The library only describes the commands; the
//! binary around it spawns them.

use vstd::prelude::*;

use crate::cli::Config;
use crate::task::Task;
use crate::text::str_views;

verus! {

/// The working directory a command runs in: the repository root, or the
/// CI-configuration subdirectory named by `cue_dir`.
#[derive(Clone, Copy, PartialEq, Eq, Structural, Debug)]
pub enum WorkDir {
    RepoRoot,
    CueDir,
}

/// One external-tool invocation: a program, its fixed arguments, its working
/// directory, and whether the discovered markdown files are appended to the
/// arguments before the program runs.
pub struct ExternalCommand {
    pub program: String,
    pub args: Vec<String>,
    pub dir: WorkDir,
    pub wants_markdown_files: bool,
}

/// The mathematical model of a command, over character sequences.
#[verifier::ext_equal]
pub struct CmdModel {
    pub program: Seq<char>,
    pub args: Seq<Seq<char>>,
    pub dir: WorkDir,
    pub wants_markdown_files: bool,
}

impl View for ExternalCommand {
    type V = CmdModel;

    open spec fn view(&self) -> CmdModel {
        CmdModel {
            program: self.program@,
            args: str_views(self.args@),
            dir: self.dir,
            wants_markdown_files: self.wants_markdown_files,
        }
    }
}

/// The models of a sequence of commands.
pub open spec fn cmd_views(s: Seq<ExternalCommand>) -> Seq<CmdModel> {
    s.map_values(|c: ExternalCommand| c@)
}

/// Concatenating commands concatenates their models.
pub proof fn lemma_cmd_views_concat(a: Seq<ExternalCommand>, b: Seq<ExternalCommand>)
    ensures
        cmd_views(a + b) == cmd_views(a) + cmd_views(b),
{
    assert(cmd_views(a + b) =~= cmd_views(a) + cmd_views(b));
}

/// The CI-configuration directory, relative to the repository root.
pub open spec fn cue_dir_rel() -> Seq<char> {
    ".github/cue"@
}

/// The path of the CI-configuration directory, relative to the repository
/// root; the binary joins it onto the root to resolve `WorkDir::CueDir`.
pub fn cue_dir() -> (r: String)
    ensures
        r@ == cue_dir_rel(),
{
    ".github/cue".to_owned()
}

/// The spell-checker pass: writes corrections in place, over the whole tree.
pub open spec fn spellcheck_cmd() -> CmdModel {
    CmdModel {
        program: "codespell"@,
        args: seq!["--write-changes"@],
        dir: WorkDir::RepoRoot,
        wants_markdown_files: false,
    }
}

/// The strict, concrete validation of the CUE sources: a pure failure gate.
pub open spec fn lint_cue_cmd() -> CmdModel {
    CmdModel {
        program: "cue"@,
        args: seq!["vet"@, "--concrete"@],
        dir: WorkDir::CueDir,
        wants_markdown_files: false,
    }
}

/// The CUE formatter: simplifies and rewrites the CUE sources in place.
pub open spec fn format_cue_cmd() -> CmdModel {
    CmdModel {
        program: "cue"@,
        args: seq!["fmt"@, "--simplify"@],
        dir: WorkDir::CueDir,
        wants_markdown_files: false,
    }
}

/// Regenerates the CI YAML files from the CUE sources.
pub open spec fn regenerate_ci_yaml_cmd() -> CmdModel {
    CmdModel {
        program: "cue"@,
        args: seq!["cmd"@, "regen-ci-yaml"@],
        dir: WorkDir::CueDir,
        wants_markdown_files: false,
    }
}

/// The markdown formatter: takes the discovered markdown files as explicit
/// path arguments and rewrites them in place, wrapping prose always.
pub open spec fn format_markdown_cmd() -> CmdModel {
    CmdModel {
        program: "prettier"@,
        args: seq!["--prose-wrap"@, "always"@, "--write"@],
        dir: WorkDir::RepoRoot,
        wants_markdown_files: true,
    }
}

/// The edition-idiom auto-fix pass over the whole project.
pub open spec fn cargo_fix_cmd() -> CmdModel {
    CmdModel {
        program: "cargo"@,
        args: seq!["fix"@, "--allow-no-vcs"@, "--all-features"@, "--edition-idioms"@],
        dir: WorkDir::RepoRoot,
        wants_markdown_files: false,
    }
}

/// The lint auto-fix pass over all targets and features.
pub open spec fn cargo_clippy_fix_cmd() -> CmdModel {
    CmdModel {
        program: "cargo"@,
        args: seq!["clippy"@, "--all-targets"@, "--all-features"@, "--fix"@, "--allow-no-vcs"@],
        dir: WorkDir::RepoRoot,
        wants_markdown_files: false,
    }
}

/// The strict lint pass that treats warnings as failures: a pure failure
/// gate after the auto-fixes.
pub open spec fn cargo_clippy_check_cmd() -> CmdModel {
    CmdModel {
        program: "cargo"@,
        args: seq!["clippy"@, "--all-targets"@, "--all-features"@, "--"@, "-D"@, "warnings"@],
        dir: WorkDir::RepoRoot,
        wants_markdown_files: false,
    }
}

/// The source formatter over the whole project.
pub open spec fn format_rust_cmd() -> CmdModel {
    CmdModel {
        program: "cargo"@,
        args: seq!["fmt"@],
        dir: WorkDir::RepoRoot,
        wants_markdown_files: false,
    }
}

/// The coverage tool in summary mode.
pub open spec fn coverage_summary_cmd() -> CmdModel {
    CmdModel {
        program: "cargo"@,
        args: seq!["llvm-cov"@],
        dir: WorkDir::RepoRoot,
        wants_markdown_files: false,
    }
}

/// The coverage tool in HTML-report mode, opening the report.
pub open spec fn coverage_html_cmd() -> CmdModel {
    CmdModel {
        program: "cargo"@,
        args: seq!["llvm-cov"@, "--html"@, "--open"@],
        dir: WorkDir::RepoRoot,
        wants_markdown_files: false,
    }
}

/// The dependency installer.
pub open spec fn install_cmd() -> CmdModel {
    CmdModel {
        program: "cargo"@,
        args: seq!["install"@, "cargo-llvm-cov"@],
        dir: WorkDir::RepoRoot,
        wants_markdown_files: false,
    }
}

/// Pushes one owned copy of a fixed argument.
fn push_arg(args: &mut Vec<String>, a: &str)
    ensures
        str_views(final(args)@) == str_views(old(args)@).push(a@),
{
    args.push(a.to_owned());
    proof {
        crate::text::lemma_str_views_push(old(args)@, final(args)@[final(args)@.len() - 1]);
        assert(str_views(final(args)@) =~= str_views(old(args)@).push(a@));
    }
}

/// Builds the spell-checker command.
pub fn spellcheck() -> (c: ExternalCommand)
    ensures
        c@ == spellcheck_cmd(),
{
    let mut args: Vec<String> = Vec::new();
    push_arg(&mut args, "--write-changes");
    let c = ExternalCommand {
        program: "codespell".to_owned(),
        args,
        dir: WorkDir::RepoRoot,
        wants_markdown_files: false,
    };
    proof {
        assert(c@ =~~= spellcheck_cmd());
    }
    c
}

/// Builds the strict CUE validation command.
pub fn lint_cue() -> (c: ExternalCommand)
    ensures
        c@ == lint_cue_cmd(),
{
    let mut args: Vec<String> = Vec::new();
    push_arg(&mut args, "vet");
    push_arg(&mut args, "--concrete");
    let c = ExternalCommand {
        program: "cue".to_owned(),
        args,
        dir: WorkDir::CueDir,
        wants_markdown_files: false,
    };
    proof {
        assert(c@ =~~= lint_cue_cmd());
    }
    c
}

/// Builds the CUE formatting command.
pub fn format_cue() -> (c: ExternalCommand)
    ensures
        c@ == format_cue_cmd(),
{
    let mut args: Vec<String> = Vec::new();
    push_arg(&mut args, "fmt");
    push_arg(&mut args, "--simplify");
    let c = ExternalCommand {
        program: "cue".to_owned(),
        args,
        dir: WorkDir::CueDir,
        wants_markdown_files: false,
    };
    proof {
        assert(c@ =~~= format_cue_cmd());
    }
    c
}

/// Builds the CI-YAML regeneration command.
pub fn regenerate_ci_yaml() -> (c: ExternalCommand)
    ensures
        c@ == regenerate_ci_yaml_cmd(),
{
    let mut args: Vec<String> = Vec::new();
    push_arg(&mut args, "cmd");
    push_arg(&mut args, "regen-ci-yaml");
    let c = ExternalCommand {
        program: "cue".to_owned(),
        args,
        dir: WorkDir::CueDir,
        wants_markdown_files: false,
    };
    proof {
        assert(c@ =~~= regenerate_ci_yaml_cmd());
    }
    c
}

/// Builds the markdown formatting command; the discovered markdown files are
/// appended as explicit path arguments before it runs.
pub fn format_markdown() -> (c: ExternalCommand)
    ensures
        c@ == format_markdown_cmd(),
{
    let mut args: Vec<String> = Vec::new();
    push_arg(&mut args, "--prose-wrap");
    push_arg(&mut args, "always");
    push_arg(&mut args, "--write");
    let c = ExternalCommand {
        program: "prettier".to_owned(),
        args,
        dir: WorkDir::RepoRoot,
        wants_markdown_files: true,
    };
    proof {
        assert(c@ =~~= format_markdown_cmd());
    }
    c
}

/// Builds the source formatting command.
pub fn format_rust() -> (c: ExternalCommand)
    ensures
        c@ == format_rust_cmd(),
{
    let mut args: Vec<String> = Vec::new();
    push_arg(&mut args, "fmt");
    let c = ExternalCommand {
        program: "cargo".to_owned(),
        args,
        dir: WorkDir::RepoRoot,
        wants_markdown_files: false,
    };
    proof {
        assert(c@ =~~= format_rust_cmd());
    }
    c
}

/// The three lint commands, in their fixed order: auto-fix the edition
/// idioms, auto-fix the lints, then check strictly with warnings denied.
/// The auto-fixes come first because they can produce code the strict pass
/// must then judge.
pub open spec fn lint_rust_cmds() -> Seq<CmdModel> {
    seq![cargo_fix_cmd(), cargo_clippy_fix_cmd(), cargo_clippy_check_cmd()]
}

/// Builds the lint commands, in their fixed order.
pub fn lint_rust() -> (cs: Vec<ExternalCommand>)
    ensures
        cmd_views(cs@) == lint_rust_cmds(),
{
    let mut cs: Vec<ExternalCommand> = Vec::new();

    let mut fix_args: Vec<String> = Vec::new();
    push_arg(&mut fix_args, "fix");
    push_arg(&mut fix_args, "--allow-no-vcs");
    push_arg(&mut fix_args, "--all-features");
    push_arg(&mut fix_args, "--edition-idioms");
    cs.push(ExternalCommand {
        program: "cargo".to_owned(),
        args: fix_args,
        dir: WorkDir::RepoRoot,
        wants_markdown_files: false,
    });

    let mut clippy_fix_args: Vec<String> = Vec::new();
    push_arg(&mut clippy_fix_args, "clippy");
    push_arg(&mut clippy_fix_args, "--all-targets");
    push_arg(&mut clippy_fix_args, "--all-features");
    push_arg(&mut clippy_fix_args, "--fix");
    push_arg(&mut clippy_fix_args, "--allow-no-vcs");
    cs.push(ExternalCommand {
        program: "cargo".to_owned(),
        args: clippy_fix_args,
        dir: WorkDir::RepoRoot,
        wants_markdown_files: false,
    });

    let mut clippy_check_args: Vec<String> = Vec::new();
    push_arg(&mut clippy_check_args, "clippy");
    push_arg(&mut clippy_check_args, "--all-targets");
    push_arg(&mut clippy_check_args, "--all-features");
    push_arg(&mut clippy_check_args, "--");
    push_arg(&mut clippy_check_args, "-D");
    push_arg(&mut clippy_check_args, "warnings");
    cs.push(ExternalCommand {
        program: "cargo".to_owned(),
        args: clippy_check_args,
        dir: WorkDir::RepoRoot,
        wants_markdown_files: false,
    });

    proof {
        assert(cs@[0]@ =~~= cargo_fix_cmd());
        assert(cs@[1]@ =~~= cargo_clippy_fix_cmd());
        assert(cs@[2]@ =~~= cargo_clippy_check_cmd());
        assert(cmd_views(cs@) =~= lint_rust_cmds());
    }
    cs
}

/// The single spelling command.
pub open spec fn spelling_cmds() -> Seq<CmdModel> {
    seq![spellcheck_cmd()]
}

/// The CI-configuration commands, in their fixed order: validate, format,
/// regenerate.
pub open spec fn github_actions_cmds() -> Seq<CmdModel> {
    seq![lint_cue_cmd(), format_cue_cmd(), regenerate_ci_yaml_cmd()]
}

/// The single markdown command.
pub open spec fn markdown_cmds() -> Seq<CmdModel> {
    seq![format_markdown_cmd()]
}

/// The source commands, in their fixed order: the three lint passes, then
/// the formatter. The auto-fixes precede formatting because they can produce
/// code that needs reformatting.
pub open spec fn rust_cmds() -> Seq<CmdModel> {
    lint_rust_cmds() + seq![format_rust_cmd()]
}

/// Every fixup sub-step, in the fixed order spelling, CI configuration,
/// markdown, sources. Spelling runs first because it can touch files of
/// every kind that the later steps then rewrite.
pub open spec fn fixup_cmds() -> Seq<CmdModel> {
    spelling_cmds() + github_actions_cmds() + markdown_cmds() + rust_cmds()
}

/// The commands a task stands for, in the order they run.
pub open spec fn task_cmds(t: Task) -> Seq<CmdModel> {
    match t {
        Task::Coverage => seq![coverage_summary_cmd()],
        Task::CoverageHtml => seq![coverage_html_cmd()],
        Task::Fixup => fixup_cmds(),
        Task::FixupGithubActions => github_actions_cmds(),
        Task::FixupMarkdown => markdown_cmds(),
        Task::FixupRust => rust_cmds(),
        Task::FixupSpelling => spelling_cmds(),
        Task::Install => seq![install_cmd()],
    }
}

/// `fixup` always stands for its four sub-tasks' commands in the fixed
/// order spelling, then CI configuration, then markdown, then sources —
/// exactly the commands of `fixup.spelling`, `fixup.github-actions`,
/// `fixup.markdown` and `fixup.rust`, concatenated in that order.
pub proof fn lemma_fixup_order()
    ensures
        task_cmds(Task::Fixup) == spelling_cmds() + github_actions_cmds() + markdown_cmds()
            + rust_cmds(),
        task_cmds(Task::Fixup) == task_cmds(Task::FixupSpelling) + task_cmds(
            Task::FixupGithubActions,
        ) + task_cmds(Task::FixupMarkdown) + task_cmds(Task::FixupRust),
{
}

/// Builds a single command.
fn single_command(c: ExternalCommand) -> (cs: Vec<ExternalCommand>)
    ensures
        cmd_views(cs@) == seq![c@],
{
    let mut cs: Vec<ExternalCommand> = Vec::new();
    cs.push(c);
    proof {
        assert(cmd_views(cs@) =~= seq![c@]);
    }
    cs
}

/// Builds the coverage summary command.
fn coverage_summary() -> (c: ExternalCommand)
    ensures
        c@ == coverage_summary_cmd(),
{
    let mut args: Vec<String> = Vec::new();
    push_arg(&mut args, "llvm-cov");
    let c = ExternalCommand {
        program: "cargo".to_owned(),
        args,
        dir: WorkDir::RepoRoot,
        wants_markdown_files: false,
    };
    proof {
        assert(c@ =~~= coverage_summary_cmd());
    }
    c
}

/// Builds the HTML coverage command.
fn coverage_html() -> (c: ExternalCommand)
    ensures
        c@ == coverage_html_cmd(),
{
    let mut args: Vec<String> = Vec::new();
    push_arg(&mut args, "llvm-cov");
    push_arg(&mut args, "--html");
    push_arg(&mut args, "--open");
    let c = ExternalCommand {
        program: "cargo".to_owned(),
        args,
        dir: WorkDir::RepoRoot,
        wants_markdown_files: false,
    };
    proof {
        assert(c@ =~~= coverage_html_cmd());
    }
    c
}

/// Builds the installer command.
fn install_dependencies() -> (c: ExternalCommand)
    ensures
        c@ == install_cmd(),
{
    let mut args: Vec<String> = Vec::new();
    push_arg(&mut args, "install");
    push_arg(&mut args, "cargo-llvm-cov");
    let c = ExternalCommand {
        program: "cargo".to_owned(),
        args,
        dir: WorkDir::RepoRoot,
        wants_markdown_files: false,
    };
    proof {
        assert(c@ =~~= install_cmd());
    }
    c
}

/// The commands one task runs, in order.
pub fn task_commands(t: Task) -> (cs: Vec<ExternalCommand>)
    ensures
        cmd_views(cs@) == task_cmds(t),
{
    match t {
        Task::Coverage => single_command(coverage_summary()),
        Task::CoverageHtml => single_command(coverage_html()),
        Task::Fixup => {
            let mut cs: Vec<ExternalCommand> = Vec::new();
            cs.push(spellcheck());
            cs.push(lint_cue());
            cs.push(format_cue());
            cs.push(regenerate_ci_yaml());
            cs.push(format_markdown());
            let mut rust_cs = lint_rust();
            cs.append(&mut rust_cs);
            cs.push(format_rust());
            proof {
                assert(cmd_views(cs@) =~= fixup_cmds());
            }
            cs
        },
        Task::FixupGithubActions => {
            let mut cs: Vec<ExternalCommand> = Vec::new();
            cs.push(lint_cue());
            cs.push(format_cue());
            cs.push(regenerate_ci_yaml());
            proof {
                assert(cmd_views(cs@) =~= github_actions_cmds());
            }
            cs
        },
        Task::FixupMarkdown => single_command(format_markdown()),
        Task::FixupRust => {
            let mut cs = lint_rust();
            cs.push(format_rust());
            proof {
                assert(cmd_views(cs@) =~= rust_cmds());
            }
            cs
        },
        Task::FixupSpelling => single_command(spellcheck()),
        Task::Install => single_command(install_dependencies()),
    }
}

/// The whole run's commands: each requested task's commands, task after
/// task, in the order the tasks were requested.
pub open spec fn flat_plan(tasks: Seq<Task>) -> Seq<CmdModel>
    decreases tasks.len(),
{
    if tasks.len() == 0 {
        Seq::empty()
    } else {
        task_cmds(tasks[0]) + flat_plan(tasks.drop_first())
    }
}

/// Builds the whole run's commands from a configuration.
pub fn run_plan(config: &Config) -> (r: Vec<ExternalCommand>)
    ensures
        cmd_views(r@) == flat_plan(config.run_tasks@),
{
    let tasks = &config.run_tasks;
    let mut out: Vec<ExternalCommand> = Vec::new();
    let mut i: usize = 0;
    proof {
        assert(tasks@.skip(0) =~= tasks@);
    }
    while i < tasks.len()
        invariant
            0 <= i <= tasks@.len(),
            cmd_views(out@) + flat_plan(tasks@.skip(i as int)) == flat_plan(tasks@),
        decreases tasks@.len() - i,
    {
        let ghost rest = tasks@.skip(i as int);
        proof {
            assert(rest[0] == tasks@[i as int]);
            assert(rest.drop_first() =~= tasks@.skip(i as int + 1));
        }
        let mut cs = task_commands(tasks[i]);
        let ghost cs_snap = cs@;
        out.append(&mut cs);
        proof {
            lemma_cmd_views_concat(out@.subrange(0, out@.len() - cs_snap.len()), cs_snap);
            assert(out@.subrange(0, out@.len() - cs_snap.len()) + cs_snap =~= out@);
            assert(cmd_views(out@) + flat_plan(tasks@.skip(i as int + 1)) == flat_plan(tasks@));
        }
        i += 1;
    }
    proof {
        assert(tasks@.skip(tasks@.len() as int) =~= Seq::<Task>::empty());
        assert(cmd_views(out@) =~= cmd_views(out@) + Seq::<CmdModel>::empty());
    }
    out
}

/// Tasks run in the order requested: in the whole run's command sequence,
/// the commands of the task at position `i` stand contiguously, after every
/// earlier task's commands and before every later task's.
pub proof fn lemma_plan_order(tasks: Seq<Task>, i: int)
    requires
        0 <= i < tasks.len(),
    ensures
        flat_plan(tasks) == flat_plan(tasks.take(i)) + task_cmds(tasks[i]) + flat_plan(
            tasks.skip(i + 1),
        ),
    decreases i,
{
    if i == 0 {
        assert(tasks.take(0) =~= Seq::<Task>::empty());
        assert(tasks.drop_first() =~= tasks.skip(1));
        assert(flat_plan(tasks) =~= flat_plan(tasks.take(0)) + task_cmds(tasks[0]) + flat_plan(
            tasks.skip(1),
        ));
    } else {
        let rest = tasks.drop_first();
        lemma_plan_order(rest, i - 1);
        assert(tasks.take(i).drop_first() =~= rest.take(i - 1));
        assert(tasks.take(i).len() != 0);
        assert(flat_plan(tasks.take(i)) == task_cmds(tasks[0]) + flat_plan(rest.take(i - 1)));
        assert(rest.skip(i - 1 + 1) =~= tasks.skip(i + 1));
        assert(rest[i - 1] == tasks[i]);
        assert(flat_plan(tasks) =~= flat_plan(tasks.take(i)) + task_cmds(tasks[i]) + flat_plan(
            tasks.skip(i + 1),
        ));
    }
}

/// Tasks execute in the exact order given on the command line: for a line
/// parsed to a run configuration, the configured tasks are the line's task
/// tokens left to right, and in the whole run's command sequence each task's
/// commands stand after those of every task named before it.
pub proof fn lemma_command_line_order(
    args: Seq<String>,
    tasks: Seq<Task>,
    ignore_missing: bool,
    i: int,
)
    requires
        crate::cli::parse_spec(args) == (crate::cli::CliResult::Run { tasks, ignore_missing }),
        0 <= i < tasks.len(),
    ensures
        tasks == crate::cli::requested_tasks(args),
        flat_plan(tasks) == flat_plan(tasks.take(i)) + task_cmds(tasks[i]) + flat_plan(
            tasks.skip(i + 1),
        ),
{
    crate::cli::lemma_parse_keeps_line_order(args, tasks, ignore_missing);
    lemma_plan_order(tasks, i);
}

} // verus!
