//! What holds of every pipeline run, whatever the stages are and however the
//! steps go.

use crate::executor::{
    changes_directory, is_absolute, requested, resolved, CommandView, ExecutionView, FailureView,
    Settled, Sink, Source,
};
use crate::pipeline::{law_stages_match_kept_pieces, plan_of, Resolution};
use crate::text::is_blank;
use vstd::prelude::*;

verus! {

/// The state after the steps of a run went as `outcomes` tell, one after
/// the other.
pub open spec fn settle_all(
    execution: ExecutionView,
    directory: Seq<char>,
    outcomes: Seq<Result<(), Seq<char>>>,
) -> Settled
    decreases outcomes.len(),
{
    if outcomes.len() == 0 {
        Settled { execution, directory, report: None }
    } else {
        let first = execution.settle(directory, outcomes[0]);
        settle_all(first.execution, first.directory, outcomes.drop_first())
    }
}

/// Whether no change of directory succeeds while the steps of a run go as
/// `outcomes` tell.
pub open spec fn no_change_succeeds(
    execution: ExecutionView,
    directory: Seq<char>,
    outcomes: Seq<Result<(), Seq<char>>>,
) -> bool
    decreases outcomes.len(),
{
    if outcomes.len() == 0 {
        true
    } else {
        let first = execution.settle(directory, outcomes[0]);
        &&& !(execution.pending(directory) is ChangeDirectory && outcomes[0] is Ok)
        &&& no_change_succeeds(first.execution, first.directory, outcomes.drop_first())
    }
}

/// How much of a run is left: two for each stage not yet taken up, and one
/// for a program that is still to be waited for or passed on.
pub open spec fn remaining(execution: ExecutionView) -> int {
    2 * (execution.stages.len() - execution.cursor) + if execution.upstream is Some {
        1int
    } else {
        0int
    }
}

/// A step leaves a run well formed.
pub proof fn law_settle_keeps_well_formed(
    execution: ExecutionView,
    directory: Seq<char>,
    outcome: Result<(), Seq<char>>,
)
    requires
        execution.well_formed(),
    ensures
        execution.settle(directory, outcome).execution.well_formed(),
        execution.settle(directory, outcome).execution.stages == execution.stages,
{
}

/// Every step before the end brings a run nearer to its end, so a run of
/// `n` stages is through after at most `2 * n` steps; at the end a step
/// changes nothing.
pub proof fn law_settle_makes_progress(
    execution: ExecutionView,
    directory: Seq<char>,
    outcome: Result<(), Seq<char>>,
)
    requires
        execution.well_formed(),
    ensures
        0 <= remaining(execution) <= 2 * execution.stages.len(),
        remaining(execution) == 0 <==> execution.pending(directory) is Finished,
        !(execution.pending(directory) is Finished) ==> remaining(
            execution.settle(directory, outcome).execution,
        ) < remaining(execution),
        execution.pending(directory) is Finished ==> execution.settle(directory, outcome) == (
        Settled { execution, directory, report: None }),
{
}

/// The stages are taken up from left to right, one at each step, whether
/// the step succeeds or fails: no failure ends the run early.
pub proof fn law_stages_run_in_order(
    execution: ExecutionView,
    directory: Seq<char>,
    outcome: Result<(), Seq<char>>,
)
    requires
        execution.well_formed(),
        execution.cursor < execution.stages.len(),
    ensures
        execution.settle(directory, outcome).execution.cursor == execution.cursor + 1,
        match execution.pending(directory) {
            CommandView::ChangeDirectory { target } => changes_directory(
                execution.stages[execution.cursor as int],
            ),
            CommandView::Start { program, arguments, .. } => {
                &&& !changes_directory(execution.stages[execution.cursor as int])
                &&& program == execution.stages[execution.cursor as int].program
                &&& arguments == execution.stages[execution.cursor as int].arguments
            },
            _ => false,
        },
{
}

/// A program reads from the stage before it exactly when that stage was
/// started and is still held; it writes to a pipe exactly when a stage
/// follows it.
pub proof fn law_start_is_wired(execution: ExecutionView, directory: Seq<char>)
    requires
        execution.well_formed(),
        execution.pending(directory) is Start,
    ensures
        execution.pending(directory)->Start_input == (match execution.upstream {
            Some(i) => Source::Stage(i),
            None => Source::Shell,
        }),
        execution.upstream is Some ==> execution.upstream->0 + 1 == execution.cursor,
        execution.pending(directory)->Start_output == Sink::Pipe <==> execution.cursor + 1
            < execution.stages.len(),
        execution.pending(directory)->Start_directory == directory,
{
}

/// Where a program cannot be started, the failure is reported as one of
/// starting it, the next stage is taken up all the same, and where that
/// stage starts a program, the program reads the shell's own input, not the
/// output of a stage before it.
pub proof fn law_failed_start_resets_chain(
    execution: ExecutionView,
    directory: Seq<char>,
    reason: Seq<char>,
)
    requires
        execution.well_formed(),
        execution.pending(directory) is Start,
    ensures
        ({
            let after = execution.settle(directory, Err(reason));
            let next = after.execution.pending(after.directory);
            &&& after.report == Some(
                FailureView::Spawn {
                    program: execution.stages[execution.cursor as int].program,
                    reason,
                },
            )
            &&& after.directory == directory
            &&& after.execution.cursor == execution.cursor + 1
            &&& after.execution.upstream is None
            &&& next is Start ==> next->Start_input == Source::Shell
            &&& execution.cursor + 1 < execution.stages.len() ==> next is Start
                || next is ChangeDirectory
            &&& execution.cursor + 1 == execution.stages.len() ==> next is Finished
        }),
{
}

/// Where a program is started and a stage follows, the program writes to a
/// pipe, and where that stage starts a program, it reads from that pipe.
/// Where no stage follows, the program writes to the shell's own output, and
/// the run is not through before the end of the program was waited for.
pub proof fn law_started_stage_feeds_next(
    execution: ExecutionView,
    directory: Seq<char>,
    waited: Result<(), Seq<char>>,
)
    requires
        execution.well_formed(),
        execution.pending(directory) is Start,
    ensures
        ({
            let after = execution.settle(directory, Ok(()));
            let next = after.execution.pending(after.directory);
            let last = after.execution.settle(after.directory, waited);
            &&& after.report is None
            &&& after.directory == directory
            &&& after.execution.upstream == Some(execution.cursor as usize)
            &&& execution.cursor + 1 < execution.stages.len() ==> {
                &&& execution.pending(directory)->Start_output == Sink::Pipe
                &&& next is Start || next is ChangeDirectory
                &&& next is Start ==> next->Start_input == Source::Stage(execution.cursor as usize)
            }
            &&& execution.cursor + 1 == execution.stages.len() ==> {
                &&& execution.pending(directory)->Start_output == Sink::Shell
                &&& next == CommandView::Wait { stage: execution.cursor as usize }
                &&& last.execution.pending(last.directory) is Finished
                &&& last.directory == directory
                &&& waited is Ok ==> last.report is None
                &&& waited is Err ==> last.report == Some(
                    FailureView::Wait { reason: waited->Err_0 },
                )
            }
        }),
{
}

/// A pipeline of two programs of which the first cannot be started: the
/// failure is reported, the second program is started all the same, and it
/// reads the shell's own input and writes to the shell's own output.
pub proof fn law_second_runs_when_first_fails(
    execution: ExecutionView,
    directory: Seq<char>,
    reason: Seq<char>,
)
    requires
        execution.well_formed(),
        execution.cursor + 2 == execution.stages.len(),
        !changes_directory(execution.stages[execution.cursor as int]),
        !changes_directory(execution.stages[execution.cursor as int + 1]),
    ensures
        ({
            let first = execution.stages[execution.cursor as int];
            let second = execution.stages[execution.cursor as int + 1];
            let after = execution.settle(directory, Err(reason));
            &&& after.report == Some(FailureView::Spawn { program: first.program, reason })
            &&& after.execution.pending(after.directory) == CommandView::Start {
                program: second.program,
                arguments: second.arguments,
                input: Source::Shell,
                output: Sink::Shell,
                directory,
            }
        }),
{
}

/// A pipeline of two programs that are both started: the first writes to a
/// pipe, the second reads from that pipe and writes to the shell's own
/// output, and the run is through only when the end of the second was
/// waited for.
pub proof fn law_two_programs_are_piped(
    execution: ExecutionView,
    directory: Seq<char>,
    waited: Result<(), Seq<char>>,
)
    requires
        execution.well_formed(),
        execution.cursor + 2 == execution.stages.len(),
        !changes_directory(execution.stages[execution.cursor as int]),
        !changes_directory(execution.stages[execution.cursor as int + 1]),
    ensures
        ({
            let first = execution.stages[execution.cursor as int];
            let second = execution.stages[execution.cursor as int + 1];
            let one = execution.settle(directory, Ok(()));
            let two = one.execution.settle(one.directory, Ok(()));
            let end = two.execution.settle(two.directory, waited);
            &&& execution.pending(directory) is Start
            &&& execution.pending(directory)->Start_program == first.program
            &&& execution.pending(directory)->Start_output == Sink::Pipe
            &&& one.execution.pending(one.directory) == CommandView::Start {
                program: second.program,
                arguments: second.arguments,
                input: Source::Stage(execution.cursor as usize),
                output: Sink::Shell,
                directory,
            }
            &&& one.report is None
            &&& two.report is None
            &&& two.execution.pending(two.directory) == CommandView::Wait {
                stage: (execution.cursor + 1) as usize,
            }
            &&& end.execution.pending(end.directory) is Finished
        }),
{
}

/// A change of directory starts no program and breaks the chain: whether it
/// succeeds or not, a program that is started next reads the shell's own
/// input.
pub proof fn law_change_breaks_chain(
    execution: ExecutionView,
    directory: Seq<char>,
    outcome: Result<(), Seq<char>>,
)
    requires
        execution.well_formed(),
        execution.pending(directory) is ChangeDirectory,
    ensures
        ({
            let after = execution.settle(directory, outcome);
            let next = after.execution.pending(after.directory);
            &&& after.execution.upstream is None
            &&& after.execution.cursor == execution.cursor + 1
            &&& next is Start ==> next->Start_input == Source::Shell
        }),
{
}

/// The directory that a change of directory aims at is the one asked for,
/// resolved against the working directory: the first argument of the stage,
/// or the root where it has none; and an absolute path is its own target.
pub proof fn law_change_targets_request(execution: ExecutionView, directory: Seq<char>)
    requires
        execution.well_formed(),
        execution.pending(directory) is ChangeDirectory,
    ensures
        ({
            let stage = execution.stages[execution.cursor as int];
            let target = execution.pending(directory)->ChangeDirectory_target;
            &&& target == resolved(directory, requested(stage))
            &&& is_absolute(requested(stage)) ==> target == requested(stage)
            &&& stage.arguments.len() == 0 ==> target == seq!['/']
        }),
{
    reveal_strlit("/");
    assert("/"@ =~= seq!['/']);
}

/// While no change of directory succeeds, the working directory stays what
/// it is, whatever else succeeds or fails.
pub proof fn law_directory_stays(
    execution: ExecutionView,
    directory: Seq<char>,
    outcomes: Seq<Result<(), Seq<char>>>,
)
    requires
        execution.well_formed(),
        no_change_succeeds(execution, directory, outcomes),
    ensures
        settle_all(execution, directory, outcomes).directory == directory,
        settle_all(execution, directory, outcomes).execution.well_formed(),
    decreases outcomes.len(),
{
    if outcomes.len() > 0 {
        let first = execution.settle(directory, outcomes[0]);
        law_directory_stays(first.execution, first.directory, outcomes.drop_first());
    }
}

/// Where a change of directory is refused, the failure is reported as one
/// of the directory, the working directory stays what it was, and every
/// program that is started later in the run, before another change
/// succeeds, is started in that unchanged directory.
pub proof fn law_refused_change_keeps_directory(
    execution: ExecutionView,
    directory: Seq<char>,
    reason: Seq<char>,
    later: Seq<Result<(), Seq<char>>>,
)
    requires
        execution.well_formed(),
        execution.pending(directory) is ChangeDirectory,
        ({
            let after = execution.settle(directory, Err(reason));
            no_change_succeeds(after.execution, after.directory, later)
        }),
    ensures
        ({
            let after = execution.settle(directory, Err(reason));
            let then = settle_all(after.execution, after.directory, later);
            let next = then.execution.pending(then.directory);
            &&& after.report == Some(
                FailureView::Directory {
                    path: execution.pending(directory)->ChangeDirectory_target,
                    reason,
                },
            )
            &&& after.directory == directory
            &&& then.directory == directory
            &&& next is Start ==> next->Start_directory == directory
        }),
{
    let after = execution.settle(directory, Err(reason));
    law_directory_stays(after.execution, after.directory, later);
}

/// Where a change of directory succeeds, nothing is reported, the working
/// directory is the target of the change, and every program that is started
/// later in the run, before another change succeeds, is started in that
/// directory.
pub proof fn law_changed_directory_is_seen(
    execution: ExecutionView,
    directory: Seq<char>,
    later: Seq<Result<(), Seq<char>>>,
)
    requires
        execution.well_formed(),
        execution.pending(directory) is ChangeDirectory,
        ({
            let after = execution.settle(directory, Ok(()));
            no_change_succeeds(after.execution, after.directory, later)
        }),
    ensures
        ({
            let target = execution.pending(directory)->ChangeDirectory_target;
            let after = execution.settle(directory, Ok(()));
            let then = settle_all(after.execution, after.directory, later);
            let next = then.execution.pending(then.directory);
            &&& after.report is None
            &&& after.directory == target
            &&& then.directory == target
            &&& next is Start ==> next->Start_directory == target
        }),
{
    let after = execution.settle(directory, Ok(()));
    law_directory_stays(after.execution, after.directory, later);
}

/// A run without stages is through before its first step: for a blank line
/// nothing is done at all.
pub proof fn law_blank_line_runs_nothing(
    line: Seq<char>,
    resolution: Resolution,
    directory: Seq<char>,
)
    requires
        is_blank(line),
    ensures
        ExecutionView::fresh(plan_of(line, resolution)).pending(directory) is Finished,
{
    law_stages_match_kept_pieces(line, resolution);
}

} // verus!
