//! What holds of every clone run, proved from the model of the pipeline.

use vstd::prelude::*;
use crate::classify::{count_warnings, lemma_warnings_only_is_success, only_warnings, Tool};
use crate::command::{
    command_args_text, conninfo_text, format_flags, invocation_of, restore_args_text,
};
use crate::events::{
    lemma_log_lines_push, log_lines, EffectView, EventView, RequestView, StepView, ToolOutputView,
};
use crate::number::decimal;
use crate::pipeline::{CloneRunView, OutcomeView, Phase};
use crate::policy::{dump_format_of, DumpFormat, MAX_RESTORE_JOBS, MIN_RESTORE_JOBS};
use crate::sql::{drop_block_text, truncate_block_text};
use crate::text::split_lines;
use crate::time::Timestamp;
use crate::types::{CloneProgressView, CloneStatus, CloneType};

verus! {

/// A log line among the effects is a line of their log.
pub proof fn lemma_logged_line(effects: Seq<EffectView>, line: Seq<char>)
    requires
        effects.contains(EffectView::Log(line)),
    ensures
        log_lines(effects).contains(line),
    decreases effects.len(),
{
    let i = choose|i: int| 0 <= i < effects.len() && effects[i] == EffectView::Log(line);
    let front = effects.drop_last();
    assert(effects =~= front.push(effects.last()));
    lemma_log_lines_push(front, effects.last());
    if i == effects.len() - 1 {
        let lines = log_lines(front).push(line);
        assert(lines[lines.len() - 1] == line);
    } else {
        assert(front[i] == EffectView::Log(line));
        lemma_logged_line(front, line);
        let k = choose|k: int| 0 <= k < log_lines(front).len() && log_lines(front)[k] == line;
        assert(log_lines(effects)[k] == line);
    }
}

/// Whether the phase of a run fits its options: it waits for a backup only
/// where a backup was asked for, for the cleaning only where a clean
/// destination was asked for, for a parallel restore only where the dump is
/// a custom archive, and for a step of the tuned script only where the dump
/// is plain.
pub open spec fn coherent(run: CloneRunView) -> bool {
    match run.phase {
        Phase::BackupDir | Phase::BackupDump => run.options.create_backup,
        Phase::Clean => run.options.clean_destination,
        Phase::RestoreArchive => run.options.clone_type != CloneType::Data,
        Phase::RestoreRead | Phase::RestoreWrite | Phase::RestoreScript => run.options.clone_type
            == CloneType::Data,
        _ => true,
    }
}

/// A step changes nothing of a run but its phase and its history entry, and
/// of the history entry only the log, the status, the completion time, the
/// duration and the error message. A run whose phase fits its options stays
/// so, and a run that has not begun fits them.
pub proof fn lemma_step_keeps_coherence(run: CloneRunView, event: EventView, now: Timestamp)
    ensures
        run.phase == Phase::Created ==> coherent(run),
        coherent(run) ==> coherent(run.advance(event, now).0),
        run.advance(event, now).0.options == run.options,
        run.advance(event, now).0.source == run.source,
        run.advance(event, now).0.destination == run.destination,
        run.advance(event, now).0.tools == run.tools,
        run.advance(event, now).0.files == run.files,
        run.advance(event, now).0.entry.id == run.entry.id,
        run.advance(event, now).0.entry.started_at == run.entry.started_at,
        run.advance(event, now).0.entry.clone_type == run.entry.clone_type,
{
}

/// A run that is over stays as it is: whatever arrives, it hands out no
/// effect, logs nothing and asks for nothing.
pub proof fn lemma_over_is_over(run: CloneRunView, event: EventView, now: Timestamp)
    requires
        run.phase.is_terminal(),
    ensures
        run.advance(event, now) == (
            run,
            StepView { effects: Seq::empty(), request: RequestView::Finish },
        ),
{
}

/// Every step of an open run adds the log lines that it hands out to the
/// history entry, and nothing else. The run asks for nothing more exactly
/// when the step ends it, and then its last effect is the closing progress
/// report: complete at 100 percent after a success, complete and in error
/// at 0 percent after a failure, with status `Success` or `Error` in the
/// history entry to match.
pub proof fn lemma_step_shape(run: CloneRunView, event: EventView, now: Timestamp)
    requires
        !run.phase.is_terminal(),
    ensures
        ({
            let (next, step) = run.advance(event, now);
            &&& next.phase != Phase::Created
            &&& (step.request == RequestView::Finish) == next.phase.is_terminal()
            &&& next.phase == Phase::Done ==> {
                &&& next.entry.status == CloneStatus::Success
                &&& next.entry.error_message is None
                &&& next.entry.completed_at is Some
                &&& step.effects.len() > 0
                &&& step.effects.last() == EffectView::Progress(
                    CloneProgressView::completed("Clone completed successfully!"@),
                )
                &&& next.entry.logs == run.entry.logs + log_lines(step.effects)
            }
            &&& next.phase == Phase::Failed ==> {
                &&& next.entry.status == CloneStatus::Error
                &&& next.entry.error_message is Some
                &&& next.entry.completed_at is Some
                &&& step.effects.len() > 0
                &&& step.effects.last() == EffectView::Progress(
                    CloneProgressView::error(next.entry.error_message->0),
                )
                &&& next.entry.logs == run.entry.logs + log_lines(step.effects)
            }
            &&& !next.phase.is_terminal() ==> {
                &&& next.entry.status == run.entry.status
                &&& next.entry.error_message == run.entry.error_message
                &&& next.entry.completed_at == run.entry.completed_at
                &&& next.entry.logs == run.entry.logs + log_lines(step.effects)
            }
        }),
{
    let reaction = run.react(event);
    match reaction.outcome {
        OutcomeView::Continue { phase, request } => {},
        OutcomeView::Succeeded => {
            lemma_log_lines_push(
                reaction.effects,
                EffectView::Progress(CloneProgressView::completed("Clone completed successfully!"@)),
            );
        },
        OutcomeView::Failed { message } => {
            lemma_log_lines_push(
                reaction.effects,
                EffectView::Progress(CloneProgressView::error(message)),
            );
        },
    }
}

/// The cleaning of the destination goes by the clone type: whenever a step
/// sends a run into the cleaning, what it asks the SQL shell to run is the
/// truncating block for a data-only clone, and the dropping block for every
/// other clone.
pub proof fn lemma_cleaning_by_clone_type(run: CloneRunView, event: EventView, now: Timestamp)
    requires
        !run.phase.is_terminal(),
        run.advance(event, now).0.phase == Phase::Clean,
    ensures
        run.options.clean_destination,
        run.advance(event, now).1.request == RequestView::Run(
            invocation_of(
                run.tools,
                Tool::Psql,
                run.destination,
                command_args_text(
                    conninfo_text(run.destination),
                    if run.options.clone_type == CloneType::Data {
                        truncate_block_text()
                    } else {
                        drop_block_text()
                    },
                ),
            ),
        ),
{
}

/// The dump and the restore go by the clone type. Whenever a step sends a
/// run into the dump, the dump is asked for in plain format for a data-only
/// clone and in custom format for every other. Whenever a step sends a run
/// that fits its options into the restore, a data-only clone asks for the
/// text of the dump, the first step of the tuned script, and every other
/// clone asks for the parallel restore of the archive, with no fewer than
/// two and no more than eight jobs.
pub proof fn lemma_format_by_clone_type(run: CloneRunView, event: EventView, now: Timestamp)
    requires
        !run.phase.is_terminal(),
        coherent(run),
    ensures
        ({
            let (next, step) = run.advance(event, now);
            let data_only = run.options.clone_type == CloneType::Data;
            &&& next.phase == Phase::Dump ==> {
                &&& step.request == RequestView::Run(
                    invocation_of(run.tools, Tool::PgDump, run.source, run.dump_args()),
                )
                &&& run.dump_args().subrange(
                    2,
                    2 + format_flags(dump_format_of(run.options.clone_type)).len() as int,
                ) == format_flags(
                    if data_only {
                        DumpFormat::Plain
                    } else {
                        DumpFormat::Custom
                    },
                )
            }
            &&& next.phase == Phase::RestoreRead ==> {
                &&& data_only
                &&& step.request == RequestView::ReadFile(run.files.dump_path)
            }
            &&& next.phase == Phase::RestoreArchive ==> {
                &&& !data_only
                &&& MIN_RESTORE_JOBS <= run.jobs() <= MAX_RESTORE_JOBS
                &&& step.request == RequestView::Run(
                    invocation_of(
                        run.tools,
                        Tool::PgRestore,
                        run.destination,
                        restore_args_text(
                            conninfo_text(run.destination),
                            run.jobs(),
                            run.files.dump_path,
                        ),
                    ),
                )
            }
            &&& (next.phase == Phase::RestoreWrite || next.phase == Phase::RestoreScript)
                ==> data_only
        }),
{
    let args = run.dump_args();
    let flags = format_flags(dump_format_of(run.options.clone_type));
    assert(args.subrange(2, 2 + flags.len() as int) =~= flags);
}

/// A dump that exits with a status other than zero ends the run in failure.
/// The history entry gets status `Error` and an error message that is not
/// empty; the one line that enters its log reports the failed dump; the run
/// asks for nothing more, so nothing of a restore or a verification is ever
/// logged.
pub proof fn lemma_failed_dump_ends_run(run: CloneRunView, output: ToolOutputView, now: Timestamp)
    requires
        run.phase == Phase::Dump,
        !output.exited_zero,
    ensures
        ({
            let (next, step) = run.advance(EventView::Exited(output), now);
            &&& next.phase == Phase::Failed
            &&& next.entry.status == CloneStatus::Error
            &&& next.entry.error_message == Some(
                "Failed to dump source database: "@ + output.stderr,
            )
            &&& next.entry.error_message->0.len() > 0
            &&& next.entry.logs == run.entry.logs.push("[ERROR] Dump failed: "@ + output.stderr)
            &&& step.request == RequestView::Finish
            &&& forall|event: EventView, later: Timestamp| #[trigger]
                next.advance(event, later).0.entry.logs == next.entry.logs
        }),
{
    let line = "[ERROR] Dump failed: "@ + output.stderr;
    let message = "Failed to dump source database: "@ + output.stderr;
    let reaction = run.react(EventView::Exited(output));
    let first = Seq::<EffectView>::empty().push(EffectView::Log(line));
    let both = first.push(EffectView::DeleteFile(run.files.dump_path));
    assert(reaction.effects =~= both);
    lemma_log_lines_push(Seq::<EffectView>::empty(), EffectView::Log(line));
    lemma_log_lines_push(first, EffectView::DeleteFile(run.files.dump_path));
    assert(log_lines(both) =~= seq![line]);
    assert(run.entry.logs + seq![line] =~= run.entry.logs.push(line));
    assert(message.len() > 0) by {
        reveal_strlit("Failed to dump source database: ");
    }
}

/// The log line that reports a restore that finished with `n` warnings.
pub open spec fn restore_warning_line(n: nat, stderr: Seq<char>) -> Seq<char> {
    "[WARNING] Restore finished with "@ + decimal(n) + " warning(s): "@ + stderr
}

/// A restore that exits with a status other than zero, with an error output
/// that holds only known warnings, does not fail the run. The run goes on
/// to the verification, its history entry keeps the status that it had, and
/// its log gets a line that counts the warnings, of which there is at least
/// one. Whatever the verification then reports, the run ends with status
/// `Success`.
pub proof fn lemma_warnings_do_not_fail_restore(
    run: CloneRunView,
    output: ToolOutputView,
    now: Timestamp,
)
    requires
        run.phase == Phase::RestoreArchive || run.phase == Phase::RestoreScript,
        !output.exited_zero,
        output.stderr.len() <= usize::MAX,
        only_warnings(
            if run.phase == Phase::RestoreArchive {
                Tool::PgRestore
            } else {
                Tool::Psql
            },
            output.stderr,
        ),
    ensures
        ({
            let tool = if run.phase == Phase::RestoreArchive {
                Tool::PgRestore
            } else {
                Tool::Psql
            };
            let n = count_warnings(tool, split_lines(output.stderr));
            let (next, step) = run.advance(EventView::Exited(output), now);
            &&& n > 0
            &&& next.phase == Phase::Verify
            &&& next.entry.status == run.entry.status
            &&& next.entry.error_message == run.entry.error_message
            &&& step.effects.contains(EffectView::Log(restore_warning_line(n, output.stderr)))
            &&& next.entry.logs.contains(restore_warning_line(n, output.stderr))
            &&& forall|count: ToolOutputView, later: Timestamp|
                {
                    let end = #[trigger] next.advance(EventView::Exited(count), later).0;
                    end.phase == Phase::Done && end.entry.status == CloneStatus::Success
                }
        }),
{
    let tool = if run.phase == Phase::RestoreArchive {
        Tool::PgRestore
    } else {
        Tool::Psql
    };
    lemma_warnings_only_is_success(tool, output.stderr);
    let n = count_warnings(tool, split_lines(output.stderr));
    let line = restore_warning_line(n, output.stderr);
    let reaction = run.react(EventView::Exited(output));
    let cleaned = run.cleanup();
    let k = cleaned.len() as int;
    assert(reaction.effects[k] == EffectView::Log(line));
    lemma_logged_line(reaction.effects, line);
    let (next, step) = run.advance(EventView::Exited(output), now);
    let lines = log_lines(reaction.effects);
    let j = choose|j: int| 0 <= j < lines.len() && lines[j] == line;
    assert(next.entry.logs[run.entry.logs.len() + j] == line);
}

} // verus!
