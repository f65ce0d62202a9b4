//! Judging spawn outcomes and short-circuiting a run. The binary spawns each
//! command of the plan in turn and hands the outcome back; this module
//! decides, for every outcome, whether the run proceeds, skips a missing
//! tool, or stops — and states how a whole run unfolds for any sequence of
//! outcomes.

use vstd::prelude::*;

use crate::command::ExternalCommand;

verus! {

/// What spawning one external command came to: the program ran and exited
/// with a status, it was not found on the search path, or spawning failed
/// some other way (say, for permissions).
#[derive(Clone, Copy, PartialEq, Eq, Structural, Debug)]
pub enum SpawnOutcome {
    Exited(i32),
    NotFound,
    SpawnFailed,
}

/// Why a run stopped: a tool reported failure by its exit status, a tool was
/// absent and the policy did not excuse it, or spawning failed outright.
pub enum TaskError {
    ToolFailed { program: String, code: i32 },
    ToolNotFound { program: String },
    SpawnFailed { program: String },
}

/// The decision after one command: go on to the next command, go on but
/// only because a missing tool is excused, or stop the run with an error.
pub enum StepVerdict {
    Proceed,
    SkipMissing,
    Abort(TaskError),
}

/// Whether an outcome stops the run under the given ignore-missing policy:
/// a nonzero exit always, a missing tool unless excused, any other spawn
/// failure always.
pub open spec fn is_stop(o: SpawnOutcome, ignore_missing: bool) -> bool {
    match o {
        SpawnOutcome::Exited(code) => code != 0,
        SpawnOutcome::NotFound => !ignore_missing,
        SpawnOutcome::SpawnFailed => true,
    }
}

/// The error a stopping outcome turns into, for the program that ran.
pub open spec fn error_matches(program: Seq<char>, o: SpawnOutcome, e: TaskError) -> bool {
    match o {
        SpawnOutcome::Exited(code) => {
            &&& e matches TaskError::ToolFailed { program: p, code: c }
            &&& p@ == program
            &&& c == code
        },
        SpawnOutcome::NotFound => {
            &&& e matches TaskError::ToolNotFound { program: p }
            &&& p@ == program
        },
        SpawnOutcome::SpawnFailed => {
            &&& e matches TaskError::SpawnFailed { program: p }
            &&& p@ == program
        },
    }
}

/// Judges one command's outcome: success proceeds; a missing tool is a
/// skip exactly under the ignore-missing policy; everything else stops the
/// run with the matching error.
pub fn judge_outcome(program: &String, outcome: SpawnOutcome, ignore_missing: bool) -> (v:
    StepVerdict)
    ensures
        v is Proceed <==> outcome == SpawnOutcome::Exited(0),
        v is SkipMissing <==> outcome is NotFound && ignore_missing,
        v is Abort <==> is_stop(outcome, ignore_missing),
        v matches StepVerdict::Abort(e) ==> error_matches(program@, outcome, e),
{
    match outcome {
        SpawnOutcome::Exited(code) => {
            if code == 0 {
                StepVerdict::Proceed
            } else {
                StepVerdict::Abort(TaskError::ToolFailed { program: program.clone(), code })
            }
        },
        SpawnOutcome::NotFound => {
            if ignore_missing {
                StepVerdict::SkipMissing
            } else {
                StepVerdict::Abort(TaskError::ToolNotFound { program: program.clone() })
            }
        },
        SpawnOutcome::SpawnFailed => {
            StepVerdict::Abort(TaskError::SpawnFailed { program: program.clone() })
        },
    }
}

/// The position of the first outcome that stops the run, if any.
pub open spec fn first_stop(outcomes: Seq<SpawnOutcome>, ignore_missing: bool) -> Option<int>
    decreases outcomes.len(),
{
    if outcomes.len() == 0 {
        Option::None
    } else if is_stop(outcomes[0], ignore_missing) {
        Some(0int)
    } else {
        match first_stop(outcomes.drop_first(), ignore_missing) {
            Some(i) => Some(i + 1),
            Option::None => Option::None,
        }
    }
}

/// `first_stop` names a stopping outcome and nothing stops before it; when
/// it names none, nothing stops at all.
pub proof fn lemma_first_stop(outcomes: Seq<SpawnOutcome>, ignore_missing: bool)
    ensures
        match first_stop(outcomes, ignore_missing) {
            Some(i) => {
                &&& 0 <= i < outcomes.len()
                &&& is_stop(outcomes[i], ignore_missing)
                &&& forall|j: int| 0 <= j < i ==> !is_stop(outcomes[j], ignore_missing)
            },
            Option::None => forall|j: int|
                0 <= j < outcomes.len() ==> !is_stop(outcomes[j], ignore_missing),
        },
    decreases outcomes.len(),
{
    if outcomes.len() == 0 {
    } else if is_stop(outcomes[0], ignore_missing) {
    } else {
        lemma_first_stop(outcomes.drop_first(), ignore_missing);
        assert(forall|j: int|
            1 <= j < outcomes.len() ==> outcomes[j] == outcomes.drop_first()[j - 1]);
    }
}

/// Conversely: a stopping outcome with nothing stopping before it is where
/// `first_stop` points.
pub proof fn lemma_first_stop_at(outcomes: Seq<SpawnOutcome>, ignore_missing: bool, i: int)
    requires
        0 <= i < outcomes.len(),
        is_stop(outcomes[i], ignore_missing),
        forall|j: int| 0 <= j < i ==> !is_stop(outcomes[j], ignore_missing),
    ensures
        first_stop(outcomes, ignore_missing) == Some(i),
    decreases i,
{
    if i == 0 {
    } else {
        assert(!is_stop(outcomes[0], ignore_missing));
        assert(forall|j: int|
            0 <= j < i - 1 ==> outcomes.drop_first()[j] == outcomes[j + 1]);
        lemma_first_stop_at(outcomes.drop_first(), ignore_missing, i - 1);
    }
}

/// A run with no stopping outcome runs everything.
pub proof fn lemma_no_stop(outcomes: Seq<SpawnOutcome>, ignore_missing: bool)
    requires
        forall|j: int| 0 <= j < outcomes.len() ==> !is_stop(outcomes[j], ignore_missing),
    ensures
        first_stop(outcomes, ignore_missing) is None,
    decreases outcomes.len(),
{
    if outcomes.len() == 0 {
    } else {
        assert(forall|j: int|
            0 <= j < outcomes.len() - 1 ==> outcomes.drop_first()[j] == outcomes[j + 1]);
        lemma_no_stop(outcomes.drop_first(), ignore_missing);
    }
}

/// How a whole run came out: how many commands of the plan were spawned,
/// and the error that stopped the run, if one did.
pub struct RunReport {
    pub executed: usize,
    pub failure: Option<TaskError>,
}

/// How a report realises a run of the plan under the given outcomes: every
/// command up to and including the first stopping one is executed, in plan
/// order, and the stopping command's error is the run's; with no stopping
/// outcome the whole plan is executed.
pub open spec fn report_matches(
    plan: Seq<ExternalCommand>,
    outcomes: Seq<SpawnOutcome>,
    ignore_missing: bool,
    r: RunReport,
) -> bool {
    match first_stop(outcomes, ignore_missing) {
        Some(i) => {
            &&& r.executed == i + 1
            &&& r.failure matches Some(e)
            &&& error_matches(plan[i]@.program, outcomes[i], e)
        },
        Option::None => {
            &&& r.executed == plan.len()
            &&& r.failure is None
        },
    }
}

/// Runs the plan against a sequence of outcomes, one per command: commands
/// are taken strictly in plan order and the first stopping outcome ends the
/// run, leaving every later command unexecuted. This is the whole dispatch
/// loop on plain values; the binary replays it step by step, obtaining each
/// outcome by actually spawning the command.
pub fn dispatch(
    plan: &Vec<ExternalCommand>,
    outcomes: &Vec<SpawnOutcome>,
    ignore_missing: bool,
) -> (r: RunReport)
    requires
        plan@.len() == outcomes@.len(),
    ensures
        report_matches(plan@, outcomes@, ignore_missing, r),
        r.executed <= plan@.len(),
{
    let mut i: usize = 0;
    while i < plan.len()
        invariant
            plan@.len() == outcomes@.len(),
            0 <= i <= plan@.len(),
            forall|j: int| 0 <= j < i ==> !is_stop(outcomes@[j], ignore_missing),
        decreases plan@.len() - i,
    {
        let verdict = judge_outcome(&plan[i].program, outcomes[i], ignore_missing);
        match verdict {
            StepVerdict::Abort(e) => {
                proof {
                    lemma_first_stop_at(outcomes@, ignore_missing, i as int);
                }
                return RunReport { executed: i + 1, failure: Some(e) };
            },
            _ => {},
        }
        i += 1;
    }
    proof {
        lemma_no_stop(outcomes@, ignore_missing);
    }
    RunReport { executed: i, failure: Option::None }
}

/// Under the ignore-missing policy a missing tool never stops the run, so
/// the commands after it still execute; without the policy the same
/// condition always stops it.
pub proof fn lemma_ignore_missing_policy(o: SpawnOutcome)
    requires
        o is NotFound,
    ensures
        !is_stop(o, true),
        is_stop(o, false),
{
}

/// A run whose every outcome is success or an excused missing tool stops
/// nowhere: all commands execute.
pub proof fn lemma_missing_tools_do_not_abort(outcomes: Seq<SpawnOutcome>)
    requires
        forall|j: int|
            0 <= j < outcomes.len() ==> (outcomes[j] == SpawnOutcome::Exited(0) || outcomes[j]
                is NotFound),
    ensures
        first_stop(outcomes, true) is None,
{
    assert(forall|j: int| 0 <= j < outcomes.len() ==> !is_stop(outcomes[j], true));
    lemma_no_stop(outcomes, true);
}

/// A tool that exits with a nonzero status — status 1, say — stops the run
/// right there: exactly the commands up to and including it execute, and
/// every later command is abandoned, whatever the policy.
pub proof fn lemma_failure_aborts_rest(
    outcomes: Seq<SpawnOutcome>,
    ignore_missing: bool,
    i: int,
    code: i32,
)
    requires
        0 <= i < outcomes.len(),
        outcomes[i] == SpawnOutcome::Exited(code),
        code != 0,
        forall|j: int| 0 <= j < i ==> !is_stop(outcomes[j], ignore_missing),
    ensures
        first_stop(outcomes, ignore_missing) == Some(i),
{
    lemma_first_stop_at(outcomes, ignore_missing, i);
}

} // verus!
