use xtask::cli::Config;
use xtask::command::{
    cue_dir, format_cue, format_markdown, format_rust, lint_cue, lint_rust, regenerate_ci_yaml,
    run_plan, spellcheck, task_commands, ExternalCommand, WorkDir,
};
use xtask::task::Task;

fn check(c: &ExternalCommand, program: &str, args: &[&str], dir: WorkDir, wants_md: bool) {
    assert_eq!(c.program, program);
    let have: Vec<&str> = c.args.iter().map(|a| a.as_str()).collect();
    assert_eq!(have, args);
    assert_eq!(c.dir, dir);
    assert_eq!(c.wants_markdown_files, wants_md);
}

#[test]
fn cue_dir_is_the_ci_config_subdirectory() {
    assert_eq!(cue_dir(), ".github/cue");
}

#[test]
fn each_single_command_is_exact() {
    check(&spellcheck(), "codespell", &["--write-changes"], WorkDir::RepoRoot, false);
    check(&lint_cue(), "cue", &["vet", "--concrete"], WorkDir::CueDir, false);
    check(&format_cue(), "cue", &["fmt", "--simplify"], WorkDir::CueDir, false);
    check(&regenerate_ci_yaml(), "cue", &["cmd", "regen-ci-yaml"], WorkDir::CueDir, false);
    check(
        &format_markdown(),
        "prettier",
        &["--prose-wrap", "always", "--write"],
        WorkDir::RepoRoot,
        true,
    );
    check(&format_rust(), "cargo", &["fmt"], WorkDir::RepoRoot, false);
}

#[test]
fn lint_rust_runs_fix_then_clippy_fix_then_strict_clippy() {
    let cs = lint_rust();
    assert_eq!(cs.len(), 3);
    check(
        &cs[0],
        "cargo",
        &["fix", "--allow-no-vcs", "--all-features", "--edition-idioms"],
        WorkDir::RepoRoot,
        false,
    );
    check(
        &cs[1],
        "cargo",
        &["clippy", "--all-targets", "--all-features", "--fix", "--allow-no-vcs"],
        WorkDir::RepoRoot,
        false,
    );
    check(
        &cs[2],
        "cargo",
        &["clippy", "--all-targets", "--all-features", "--", "-D", "warnings"],
        WorkDir::RepoRoot,
        false,
    );
}

#[test]
fn fixup_runs_spelling_then_cue_then_markdown_then_rust() {
    let cs = task_commands(Task::Fixup);
    assert_eq!(cs.len(), 9);
    let programs: Vec<&str> = cs.iter().map(|c| c.program.as_str()).collect();
    assert_eq!(
        programs,
        vec!["codespell", "cue", "cue", "cue", "prettier", "cargo", "cargo", "cargo", "cargo"]
    );
    check(&cs[0], "codespell", &["--write-changes"], WorkDir::RepoRoot, false);
    check(&cs[1], "cue", &["vet", "--concrete"], WorkDir::CueDir, false);
    check(&cs[2], "cue", &["fmt", "--simplify"], WorkDir::CueDir, false);
    check(&cs[3], "cue", &["cmd", "regen-ci-yaml"], WorkDir::CueDir, false);
    check(
        &cs[4],
        "prettier",
        &["--prose-wrap", "always", "--write"],
        WorkDir::RepoRoot,
        true,
    );
    check(
        &cs[5],
        "cargo",
        &["fix", "--allow-no-vcs", "--all-features", "--edition-idioms"],
        WorkDir::RepoRoot,
        false,
    );
    check(
        &cs[6],
        "cargo",
        &["clippy", "--all-targets", "--all-features", "--fix", "--allow-no-vcs"],
        WorkDir::RepoRoot,
        false,
    );
    check(
        &cs[7],
        "cargo",
        &["clippy", "--all-targets", "--all-features", "--", "-D", "warnings"],
        WorkDir::RepoRoot,
        false,
    );
    check(&cs[8], "cargo", &["fmt"], WorkDir::RepoRoot, false);
}

#[test]
fn github_actions_task_validates_formats_and_regenerates() {
    let cs = task_commands(Task::FixupGithubActions);
    assert_eq!(cs.len(), 3);
    check(&cs[0], "cue", &["vet", "--concrete"], WorkDir::CueDir, false);
    check(&cs[1], "cue", &["fmt", "--simplify"], WorkDir::CueDir, false);
    check(&cs[2], "cue", &["cmd", "regen-ci-yaml"], WorkDir::CueDir, false);
}

#[test]
fn coverage_and_install_tasks_are_single_commands() {
    let summary = task_commands(Task::Coverage);
    assert_eq!(summary.len(), 1);
    check(&summary[0], "cargo", &["llvm-cov"], WorkDir::RepoRoot, false);

    let html = task_commands(Task::CoverageHtml);
    assert_eq!(html.len(), 1);
    check(&html[0], "cargo", &["llvm-cov", "--html", "--open"], WorkDir::RepoRoot, false);

    let install = task_commands(Task::Install);
    assert_eq!(install.len(), 1);
    check(&install[0], "cargo", &["install", "cargo-llvm-cov"], WorkDir::RepoRoot, false);
}

#[test]
fn the_plan_follows_the_requested_task_order() {
    let config = Config {
        run_tasks: vec![Task::FixupSpelling, Task::Install],
        ignore_missing_commands: false,
    };
    let plan = run_plan(&config);
    assert_eq!(plan.len(), 2);
    check(&plan[0], "codespell", &["--write-changes"], WorkDir::RepoRoot, false);
    check(&plan[1], "cargo", &["install", "cargo-llvm-cov"], WorkDir::RepoRoot, false);

    let reversed = Config {
        run_tasks: vec![Task::Install, Task::FixupSpelling],
        ignore_missing_commands: false,
    };
    let plan = run_plan(&reversed);
    assert_eq!(plan.len(), 2);
    check(&plan[0], "cargo", &["install", "cargo-llvm-cov"], WorkDir::RepoRoot, false);
    check(&plan[1], "codespell", &["--write-changes"], WorkDir::RepoRoot, false);
}

#[test]
fn an_empty_task_list_plans_nothing() {
    let config = Config { run_tasks: vec![], ignore_missing_commands: false };
    assert_eq!(run_plan(&config).len(), 0);
}
