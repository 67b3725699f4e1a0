//! The clone pipeline: the state machine that turns the options of a clone
//! into an ordered series of tool invocations.
//!
//! A run does no outside work itself. Each step takes the outcome of the
//! last request as an event, and hands back effects for the caller to carry
//! out and the next request to answer. The stages follow one another in a
//! fixed order; a failure that is fatal ends the run at once.
//!
//! The behaviour is defined by a model over mathematical values
//! (`CloneRunView::advance`); the executable run is proved to follow it.

use vstd::prelude::*;
use crate::classify::{classify, verdict_of, Tool, ToolStage, Verdict};
use crate::command::{
    backup_args, backup_args_text, command_args, command_args_text, conninfo, conninfo_text,
    dump_args, dump_args_text, invocation, invocation_of, query_args, query_args_text,
    restore_args, restore_args_text, script_args, script_args_text, ToolPaths, ToolPathsView,
};
use crate::events::{
    discard, effect_views, lemma_log_lines_push, log_lines, push_effect, say, Effect, EffectView,
    Event, EventView, Request, RequestView, Step, StepView, ToolOutput, ToolOutputView,
};
use crate::number::{decimal, format_i64, format_u64, parse_i32, parse_int, signed_decimal};
use crate::policy::{
    cleaning_mode, cleaning_mode_of, dump_format, dump_format_of, restore_jobs, restore_jobs_of,
    restore_method, restore_method_of, CleaningMode, DumpFormat, RestoreMethod,
};
use crate::sql::{
    cleaning_sql, cleaning_sql_text, table_count_query, table_count_query_text, tuned_script,
    tuned_script_text,
};
use crate::text::{debug_list, debug_text, glue, glue3, string_views, to_chars, trim, trimmed};
use crate::time::{current_time, Timestamp};
use crate::types::{
    CloneHistoryEntry, CloneHistoryEntryView, CloneOptions, CloneOptionsView, CloneProgress,
    CloneProgressView, CloneStatus, CloneType, ConnectionProfile, ConnectionProfileView,
};

verus! {

/// The stages of a run that report progress.
#[derive(Clone, Copy, Debug, PartialEq, Eq, Structural)]
pub enum Stage {
    Preparing,
    Backup,
    Cleaning,
    Dumping,
    Restoring,
    Verifying,
}

impl Stage {
    /// The place of the stage in the order of a run.
    pub open spec fn position(self) -> int {
        match self {
            Stage::Preparing => 0,
            Stage::Backup => 1,
            Stage::Cleaning => 2,
            Stage::Dumping => 3,
            Stage::Restoring => 4,
            Stage::Verifying => 5,
        }
    }

    /// How far a run has come, in percent, when it enters the stage.
    pub open spec fn percent_of(self) -> u8 {
        match self {
            Stage::Preparing => 5,
            Stage::Backup => 15,
            Stage::Cleaning => 25,
            Stage::Dumping => 40,
            Stage::Restoring => 70,
            Stage::Verifying => 90,
        }
    }

    /// The identifier of the stage in progress reports.
    pub open spec fn name_text(self) -> Seq<char> {
        match self {
            Stage::Preparing => "preparing"@,
            Stage::Backup => "backup"@,
            Stage::Cleaning => "cleaning"@,
            Stage::Dumping => "dumping"@,
            Stage::Restoring => "restoring"@,
            Stage::Verifying => "verifying"@,
        }
    }

    /// What a progress report says when a run enters the stage.
    pub open spec fn message_text(self) -> Seq<char> {
        match self {
            Stage::Preparing => "Preparing clone operation..."@,
            Stage::Backup => "Creating backup of destination..."@,
            Stage::Cleaning => "Cleaning destination database..."@,
            Stage::Dumping => "Dumping source database..."@,
            Stage::Restoring => "Restoring to destination..."@,
            Stage::Verifying => "Verifying clone..."@,
        }
    }

    /// The progress report of a run that enters the stage.
    pub open spec fn report_of(self) -> CloneProgressView {
        CloneProgressView::running(self.name_text(), self.percent_of(), self.message_text())
    }

    /// How far a run has come, in percent, when it enters the stage.
    pub fn percent(&self) -> (r: u8)
        ensures
            r == self.percent_of(),
            0 < r < 100,
    {
        match self {
            Stage::Preparing => 5,
            Stage::Backup => 15,
            Stage::Cleaning => 25,
            Stage::Dumping => 40,
            Stage::Restoring => 70,
            Stage::Verifying => 90,
        }
    }

    /// The identifier of the stage in progress reports.
    pub fn name(&self) -> (r: &'static str)
        ensures
            r@ == self.name_text(),
    {
        match self {
            Stage::Preparing => "preparing",
            Stage::Backup => "backup",
            Stage::Cleaning => "cleaning",
            Stage::Dumping => "dumping",
            Stage::Restoring => "restoring",
            Stage::Verifying => "verifying",
        }
    }

    /// What a progress report says when a run enters the stage.
    pub fn message(&self) -> (r: &'static str)
        ensures
            r@ == self.message_text(),
    {
        match self {
            Stage::Preparing => "Preparing clone operation...",
            Stage::Backup => "Creating backup of destination...",
            Stage::Cleaning => "Cleaning destination database...",
            Stage::Dumping => "Dumping source database...",
            Stage::Restoring => "Restoring to destination...",
            Stage::Verifying => "Verifying clone...",
        }
    }

    /// The progress report of a run that enters the stage.
    pub fn report(&self) -> (r: CloneProgress)
        ensures
            r@ == self.report_of(),
    {
        CloneProgress::new(self.name(), self.percent(), self.message())
    }
}

/// A later stage never reports less progress than an earlier one.
pub proof fn lemma_progress_never_falls(earlier: Stage, later: Stage)
    requires
        earlier.position() <= later.position(),
    ensures
        earlier.percent_of() <= later.percent_of(),
{
}

/// Where a run stands: what it waits for, or how it ended.
#[derive(Clone, Copy, Debug, PartialEq, Eq, Structural)]
pub enum Phase {
    /// Not begun.
    Created,
    /// Waiting for the backup directory.
    BackupDir,
    /// Waiting for the backup dump.
    BackupDump,
    /// Waiting for the cleaning of the destination.
    Clean,
    /// Waiting for the dump of the source.
    Dump,
    /// Waiting for the size of the dump file.
    DumpSize,
    /// Waiting for the parallel restore of the archive.
    RestoreArchive,
    /// Waiting for the text of the plain dump.
    RestoreRead,
    /// Waiting for the tuned script to be written.
    RestoreWrite,
    /// Waiting for the SQL shell to run the tuned script.
    RestoreScript,
    /// Waiting for the table count.
    Verify,
    /// Ended in success.
    Done,
    /// Ended in failure.
    Failed,
}

impl Phase {
    /// Whether the run is over.
    pub open spec fn is_terminal(self) -> bool {
        self == Phase::Done || self == Phase::Failed
    }
}

/// Where the backup of the destination goes.
#[derive(Debug)]
pub struct BackupTarget {
    /// The directory that holds the backups.
    pub dir: String,
    /// The path of the backup file in that directory.
    pub path: String,
}

pub struct BackupTargetView {
    pub dir: Seq<char>,
    pub path: Seq<char>,
}

impl View for BackupTarget {
    type V = BackupTargetView;

    open spec fn view(&self) -> BackupTargetView {
        BackupTargetView { dir: self.dir@, path: self.path@ }
    }
}

/// The files of a run.
#[derive(Debug)]
pub struct RunFiles {
    /// Where the backup goes; `None` where no place for backups could be
    /// determined.
    pub backup: Option<BackupTarget>,
    /// The temporary file that takes the dump.
    pub dump_path: String,
    /// The temporary file that takes the tuned script of a plain restore.
    pub script_path: String,
}

pub struct RunFilesView {
    pub backup: Option<BackupTargetView>,
    pub dump_path: Seq<char>,
    pub script_path: Seq<char>,
}

impl View for RunFiles {
    type V = RunFilesView;

    open spec fn view(&self) -> RunFilesView {
        RunFilesView {
            backup: match self.backup {
                Some(target) => Some(target@),
                None => None,
            },
            dump_path: self.dump_path@,
            script_path: self.script_path@,
        }
    }
}

/// How a step leaves the run.
#[derive(Debug)]
pub enum Outcome {
    /// The run goes on: it enters `phase` and waits for `request`.
    Continue { phase: Phase, request: Request },
    /// The run is done.
    Succeeded,
    /// The run failed, for the reason in `message`.
    Failed { message: String },
}

pub enum OutcomeView {
    Continue { phase: Phase, request: RequestView },
    Succeeded,
    Failed { message: Seq<char> },
}

impl View for Outcome {
    type V = OutcomeView;

    open spec fn view(&self) -> OutcomeView {
        match self {
            Outcome::Continue { phase, request } => OutcomeView::Continue {
                phase: *phase,
                request: request@,
            },
            Outcome::Succeeded => OutcomeView::Succeeded,
            Outcome::Failed { message } => OutcomeView::Failed { message: message@ },
        }
    }
}

/// What a run answers to an event, before the history entry is brought up
/// to date.
#[derive(Debug)]
pub struct Reaction {
    pub effects: Vec<Effect>,
    pub outcome: Outcome,
}

pub struct ReactionView {
    pub effects: Seq<EffectView>,
    pub outcome: OutcomeView,
}

impl View for Reaction {
    type V = ReactionView;

    open spec fn view(&self) -> ReactionView {
        ReactionView { effects: effect_views(self.effects@), outcome: self.outcome@ }
    }
}

/// One clone run.
#[derive(Debug)]
pub struct CloneRun {
    pub options: CloneOptions,
    pub source: ConnectionProfile,
    pub destination: ConnectionProfile,
    pub tools: ToolPaths,
    pub files: RunFiles,
    /// The units of parallelism that the host reports.
    pub host_parallelism: usize,
    /// The history entry of the run, which the run alone changes until it
    /// is over.
    pub entry: CloneHistoryEntry,
    pub phase: Phase,
}

pub struct CloneRunView {
    pub options: CloneOptionsView,
    pub source: ConnectionProfileView,
    pub destination: ConnectionProfileView,
    pub tools: ToolPathsView,
    pub files: RunFilesView,
    pub host_parallelism: usize,
    pub entry: CloneHistoryEntryView,
    pub phase: Phase,
}

impl View for CloneRun {
    type V = CloneRunView;

    open spec fn view(&self) -> CloneRunView {
        CloneRunView {
            options: self.options@,
            source: self.source@,
            destination: self.destination@,
            tools: self.tools@,
            files: self.files@,
            host_parallelism: self.host_parallelism,
            entry: self.entry@,
            phase: self.phase,
        }
    }
}

/// The log line that tells what a dump holds.
pub open spec fn content_line(clone_type: CloneType) -> Seq<char> {
    match clone_type {
        CloneType::Structure => "[INFO] Dumping schema only"@,
        CloneType::Data => "[INFO] Dumping data only"@,
        CloneType::Both => "[INFO] Dumping schema and data"@,
    }
}

/// The log line that tells the format of a dump.
pub open spec fn format_line(format: DumpFormat) -> Seq<char> {
    match format {
        DumpFormat::Custom => "[INFO] Dump format: custom archive"@,
        DumpFormat::Plain => "[INFO] Dump format: plain SQL"@,
    }
}

/// The log line that tells how the destination is cleaned.
pub open spec fn cleaning_line(mode: CleaningMode) -> Seq<char> {
    match mode {
        CleaningMode::Truncate => "[INFO] Truncating all tables; their structure stays"@,
        CleaningMode::Drop => "[INFO] Dropping all tables"@,
    }
}

/// The log lines that name the tables left out of a dump, in their order.
pub open spec fn exclusion_lines(tables: Seq<Seq<char>>) -> Seq<EffectView>
    decreases tables.len(),
{
    if tables.len() == 0 {
        Seq::empty()
    } else {
        exclusion_lines(tables.drop_last()).push(
            EffectView::Log("[INFO] Excluding table: "@ + tables.last()),
        )
    }
}

/// The number of base tables that the output of the count query reports:
/// the number that the trimmed output denotes, or zero where it denotes
/// none.
pub open spec fn table_count_of(stdout: Seq<char>) -> int {
    match parse_int(trim(stdout), i32::MIN as int, i32::MAX as int) {
        Some(n) => n,
        None => 0,
    }
}

/// What is said of an event that answers no request of the run.
pub open spec fn unexpected_text() -> Seq<char> {
    "Unexpected answer to the request of the run"@
}

impl CloneRunView {
    /// Whether the run is consistent: its history entry is.
    pub open spec fn wf(self) -> bool {
        self.entry.wf()
    }

    /// The number of jobs of a parallel restore on this host.
    pub open spec fn jobs(self) -> usize {
        restore_jobs_of(self.host_parallelism)
    }

    /// The temporary files that may exist in the phase of the run, as
    /// deletions.
    pub open spec fn cleanup(self) -> Seq<EffectView> {
        match self.phase {
            Phase::Dump | Phase::DumpSize | Phase::RestoreArchive | Phase::RestoreRead => seq![
                EffectView::DeleteFile(self.files.dump_path),
            ],
            Phase::RestoreWrite | Phase::RestoreScript => seq![
                EffectView::DeleteFile(self.files.script_path),
                EffectView::DeleteFile(self.files.dump_path),
            ],
            _ => Seq::empty(),
        }
    }

    /// The run fails: `line` goes to the log, the temporary files go, and
    /// `message` is the reason.
    pub open spec fn fail(self, effects: Seq<EffectView>, line: Seq<char>, message: Seq<char>)
        -> ReactionView {
        ReactionView {
            effects: effects.push(EffectView::Log(line)) + self.cleanup(),
            outcome: OutcomeView::Failed { message },
        }
    }

    /// The run fails for the reason in `message`, which also goes to the
    /// log.
    pub open spec fn abort(self, effects: Seq<EffectView>, message: Seq<char>) -> ReactionView {
        self.fail(effects, "[ERROR] "@ + message, message)
    }

    /// The run goes on into `phase` and waits for `request`.
    pub open spec fn proceed(effects: Seq<EffectView>, phase: Phase, request: RequestView)
        -> ReactionView {
        ReactionView { effects, outcome: OutcomeView::Continue { phase, request } }
    }

    /// The run begins.
    pub open spec fn begin(self) -> ReactionView {
        self.enter_backup(
            seq![
                EffectView::Progress(Stage::Preparing.report_of()),
                EffectView::Log(
                    "[INFO] Starting clone from '"@ + self.source.name + "' to '"@
                        + self.destination.name + "'"@,
                ),
                EffectView::Log("[INFO] Clone type: "@ + self.options.clone_type.label_text()),
            ],
        )
    }

    /// The run comes to the backup stage, which it enters only where a
    /// backup is asked for.
    pub open spec fn enter_backup(self, effects: Seq<EffectView>) -> ReactionView {
        if self.options.create_backup {
            let said = effects.push(EffectView::Progress(Stage::Backup.report_of())).push(
                EffectView::Log("[INFO] Creating backup of destination database..."@),
            );
            match self.files.backup {
                None => self.abort(said, "Could not determine backup directory"@),
                Some(target) => Self::proceed(
                    said,
                    Phase::BackupDir,
                    RequestView::CreateDir(target.dir),
                ),
            }
        } else {
            self.enter_cleaning(effects)
        }
    }

    /// The backup directory is there: the backup dump runs.
    pub open spec fn backup_dir_ready(self) -> ReactionView {
        match self.files.backup {
            None => self.abort(Seq::empty(), "Could not determine backup directory"@),
            Some(target) => Self::proceed(
                Seq::empty(),
                Phase::BackupDump,
                RequestView::Run(
                    invocation_of(
                        self.tools,
                        Tool::PgDump,
                        self.destination,
                        backup_args_text(conninfo_text(self.destination), target.path),
                    ),
                ),
            ),
        }
    }

    /// The backup dump ended. A backup that went wrong is a warning, no
    /// more.
    pub open spec fn backup_done(self, output: ToolOutputView) -> ReactionView {
        let path = match self.files.backup {
            Some(target) => target.path,
            None => Seq::empty(),
        };
        let line = match verdict_of(
            ToolStage::Backup,
            Tool::PgDump,
            output.exited_zero,
            output.stderr,
        ) {
            Verdict::Success => "[SUCCESS] Backup created: "@ + path,
            _ => "[WARNING] Backup warning: "@ + output.stderr,
        };
        self.enter_cleaning(seq![EffectView::Log(line)])
    }

    /// The run comes to the cleaning stage, which it enters only where a
    /// clean destination is asked for.
    pub open spec fn enter_cleaning(self, effects: Seq<EffectView>) -> ReactionView {
        if self.options.clean_destination {
            let mode = cleaning_mode_of(self.options.clone_type);
            Self::proceed(
                effects.push(EffectView::Progress(Stage::Cleaning.report_of())).push(
                    EffectView::Log("[INFO] Cleaning destination database..."@),
                ).push(EffectView::Log(cleaning_line(mode))),
                Phase::Clean,
                RequestView::Run(
                    invocation_of(
                        self.tools,
                        Tool::Psql,
                        self.destination,
                        command_args_text(
                            conninfo_text(self.destination),
                            cleaning_sql_text(mode),
                        ),
                    ),
                ),
            )
        } else {
            self.enter_dump(effects)
        }
    }

    /// The cleaning ended. A cleaning that went wrong is a warning, no more.
    pub open spec fn cleaning_done(self, output: ToolOutputView) -> ReactionView {
        let line = match verdict_of(
            ToolStage::Cleaning,
            Tool::Psql,
            output.exited_zero,
            output.stderr,
        ) {
            Verdict::Success => "[SUCCESS] Destination database cleaned"@,
            _ => "[WARNING] Clean warning: "@ + output.stderr,
        };
        self.enter_dump(seq![EffectView::Log(line)])
    }

    /// The arguments of the dump of this run.
    pub open spec fn dump_args(self) -> Seq<Seq<char>> {
        dump_args_text(
            conninfo_text(self.source),
            self.options.clone_type,
            self.options.exclude_tables,
            self.files.dump_path,
        )
    }

    /// The run enters the dump stage; `listed` is the text of the arguments
    /// of the dump for the log.
    pub open spec fn enter_dump_listed(self, effects: Seq<EffectView>, listed: Seq<char>)
        -> ReactionView {
        Self::proceed(
            (effects.push(EffectView::Progress(Stage::Dumping.report_of())).push(
                EffectView::Log("[INFO] Dumping source database..."@),
            ).push(EffectView::Log(content_line(self.options.clone_type))).push(
                EffectView::Log(format_line(dump_format_of(self.options.clone_type))),
            ) + exclusion_lines(self.options.exclude_tables)).push(
                EffectView::Log("[INFO] Running pg_dump with args: "@ + listed),
            ),
            Phase::Dump,
            RequestView::Run(
                invocation_of(self.tools, Tool::PgDump, self.source, self.dump_args()),
            ),
        )
    }

    /// The run enters the dump stage. The log shows the arguments of the
    /// dump in the `{:?}` format of a list of strings.
    pub open spec fn enter_dump(self, effects: Seq<EffectView>) -> ReactionView {
        self.enter_dump_listed(effects, debug_text(self.dump_args()))
    }

    /// The dump ended. A dump that exits with a status other than zero is
    /// fatal.
    pub open spec fn dump_done(self, output: ToolOutputView) -> ReactionView {
        match verdict_of(ToolStage::Dumping, Tool::PgDump, output.exited_zero, output.stderr) {
            Verdict::Fatal => self.fail(
                Seq::empty(),
                "[ERROR] Dump failed: "@ + output.stderr,
                "Failed to dump source database: "@ + output.stderr,
            ),
            _ => Self::proceed(
                seq![
                    EffectView::Log("[SUCCESS] Source database dumped successfully"@),
                    EffectView::Log(
                        "[INFO] Dump took "@ + decimal(output.elapsed_ms as nat) + " ms"@,
                    ),
                ],
                Phase::DumpSize,
                RequestView::FileSize(self.files.dump_path),
            ),
        }
    }

    /// The size of the dump file is known, or cannot be known.
    pub open spec fn dump_sized(self, size: Option<u64>) -> ReactionView {
        match size {
            Some(n) => self.enter_restore(
                seq![
                    EffectView::Log("[INFO] Dump file size: "@ + decimal(n as nat) + " bytes"@),
                ],
            ),
            None => self.enter_restore(Seq::empty()),
        }
    }

    /// The run enters the restore stage, on the way that the format of the
    /// dump asks for.
    pub open spec fn enter_restore(self, effects: Seq<EffectView>) -> ReactionView {
        let said = effects.push(EffectView::Progress(Stage::Restoring.report_of())).push(
            EffectView::Log("[INFO] Restoring to destination database..."@),
        );
        match restore_method_of(dump_format_of(self.options.clone_type)) {
            RestoreMethod::ParallelRestore => Self::proceed(
                said.push(
                    EffectView::Log(
                        "[INFO] Restoring the archive with "@ + decimal(self.jobs() as nat)
                            + " parallel jobs"@,
                    ),
                ),
                Phase::RestoreArchive,
                RequestView::Run(
                    invocation_of(
                        self.tools,
                        Tool::PgRestore,
                        self.destination,
                        restore_args_text(
                            conninfo_text(self.destination),
                            self.jobs(),
                            self.files.dump_path,
                        ),
                    ),
                ),
            ),
            RestoreMethod::TunedScript => Self::proceed(
                said.push(
                    EffectView::Log("[INFO] Restoring the script with tuned session settings"@),
                ),
                Phase::RestoreRead,
                RequestView::ReadFile(self.files.dump_path),
            ),
        }
    }

    /// The text of the plain dump is there: the tuned script is written.
    pub open spec fn dump_read(self, dump: Seq<char>) -> ReactionView {
        Self::proceed(
            Seq::empty(),
            Phase::RestoreWrite,
            RequestView::WriteFile {
                path: self.files.script_path,
                content: tuned_script_text(dump),
            },
        )
    }

    /// The tuned script is written: the SQL shell runs it.
    pub open spec fn script_written(self) -> ReactionView {
        Self::proceed(
            Seq::empty(),
            Phase::RestoreScript,
            RequestView::Run(
                invocation_of(
                    self.tools,
                    Tool::Psql,
                    self.destination,
                    script_args_text(conninfo_text(self.destination), self.files.script_path),
                ),
            ),
        )
    }

    /// The restore by `tool` ended. The temporary files go, whatever came
    /// of it. A restore that exits with a status other than zero is fatal
    /// only where its error output reports an error that is no part of a
    /// known warning.
    pub open spec fn restore_done(self, tool: Tool, output: ToolOutputView) -> ReactionView {
        let cleaned = self.cleanup();
        match verdict_of(ToolStage::Restoring, tool, output.exited_zero, output.stderr) {
            Verdict::Fatal => ReactionView {
                effects: cleaned.push(EffectView::Log("[ERROR] Restore errors: "@ + output.stderr)),
                outcome: OutcomeView::Failed {
                    message: "Failed to restore to destination: "@ + output.stderr,
                },
            },
            Verdict::SuccessWithWarnings(n) => self.enter_verify(
                cleaned.push(
                    EffectView::Log(
                        "[WARNING] Restore finished with "@ + decimal(n as nat) + " warning(s): "@
                            + output.stderr,
                    ),
                ).push(EffectView::Log("[SUCCESS] Database restored successfully"@)),
            ),
            Verdict::Success => self.enter_verify(
                cleaned.push(EffectView::Log("[SUCCESS] Database restored successfully"@)),
            ),
        }
    }

    /// The run enters the verifying stage.
    pub open spec fn enter_verify(self, effects: Seq<EffectView>) -> ReactionView {
        Self::proceed(
            effects.push(EffectView::Progress(Stage::Verifying.report_of())).push(
                EffectView::Log("[INFO] Verifying clone..."@),
            ),
            Phase::Verify,
            RequestView::Run(
                invocation_of(
                    self.tools,
                    Tool::Psql,
                    self.destination,
                    query_args_text(conninfo_text(self.destination), table_count_query_text()),
                ),
            ),
        )
    }

    /// The table count is there. Whatever it says, the run is done: an
    /// output that denotes no number counts as zero.
    pub open spec fn verified(self, output: ToolOutputView) -> ReactionView {
        ReactionView {
            effects: seq![
                EffectView::Log(
                    "[SUCCESS] Verification complete. Tables in destination: "@ + signed_decimal(
                        table_count_of(output.stdout),
                    ),
                ),
            ],
            outcome: OutcomeView::Succeeded,
        }
    }

    /// What the run answers to `event` in the phase in which it stands.
    pub open spec fn react(self, event: EventView) -> ReactionView {
        match (self.phase, event) {
            (Phase::Created, EventView::Begin) => self.begin(),
            (Phase::BackupDir, EventView::DirCreated) => self.backup_dir_ready(),
            (Phase::BackupDir, EventView::Failed(reason)) => self.abort(
                Seq::empty(),
                "Failed to create backup directory: "@ + reason,
            ),
            (Phase::BackupDump, EventView::Exited(output)) => self.backup_done(output),
            (Phase::BackupDump, EventView::Failed(reason)) => self.abort(
                Seq::empty(),
                "Failed to create backup: "@ + reason,
            ),
            (Phase::Clean, EventView::Exited(output)) => self.cleaning_done(output),
            (Phase::Clean, EventView::Failed(reason)) => self.abort(
                Seq::empty(),
                "Failed to clean destination: "@ + reason,
            ),
            (Phase::Dump, EventView::Exited(output)) => self.dump_done(output),
            (Phase::Dump, EventView::Failed(reason)) => self.abort(
                Seq::empty(),
                "Failed to dump source: "@ + reason,
            ),
            (Phase::DumpSize, EventView::Size(size)) => self.dump_sized(size),
            (Phase::DumpSize, EventView::Failed(reason)) => self.dump_sized(None),
            (Phase::RestoreArchive, EventView::Exited(output)) => self.restore_done(
                Tool::PgRestore,
                output,
            ),
            (Phase::RestoreArchive, EventView::Failed(reason)) => self.abort(
                Seq::empty(),
                "Failed to start restore: "@ + reason,
            ),
            (Phase::RestoreRead, EventView::Content(dump)) => self.dump_read(dump),
            (Phase::RestoreRead, EventView::Failed(reason)) => self.abort(
                Seq::empty(),
                "Failed to read dump file: "@ + reason,
            ),
            (Phase::RestoreWrite, EventView::Written) => self.script_written(),
            (Phase::RestoreWrite, EventView::Failed(reason)) => self.abort(
                Seq::empty(),
                "Failed to write restore script: "@ + reason,
            ),
            (Phase::RestoreScript, EventView::Exited(output)) => self.restore_done(
                Tool::Psql,
                output,
            ),
            (Phase::RestoreScript, EventView::Failed(reason)) => self.abort(
                Seq::empty(),
                "Failed to start restore: "@ + reason,
            ),
            (Phase::Verify, EventView::Exited(output)) => self.verified(output),
            (Phase::Verify, EventView::Failed(reason)) => self.abort(
                Seq::empty(),
                "Failed to verify: "@ + reason,
            ),
            _ => self.abort(Seq::empty(), unexpected_text()),
        }
    }

    /// The run with the log lines of `effects` added to its history entry.
    pub open spec fn recorded(self, effects: Seq<EffectView>) -> CloneRunView {
        CloneRunView {
            entry: CloneHistoryEntryView {
                logs: self.entry.logs + log_lines(effects),
                ..self.entry
            },
            ..self
        }
    }

    /// One step of the run: the run after `event`, which arrives at `now`,
    /// and what the run hands to the caller.
    ///
    /// A run that is over stays as it is and asks for nothing. Any other
    /// run answers the event as `react` says; the log lines among the
    /// effects go into its history entry. Where the run goes on, it enters
    /// the next phase. Where it ends, the history entry is closed at `now`,
    /// with status `Success`, or with status `Error` and the reason, and a
    /// last progress report goes out: complete at 100 percent, or in error
    /// at 0 percent.
    pub open spec fn advance(self, event: EventView, now: Timestamp) -> (CloneRunView, StepView) {
        if self.phase.is_terminal() {
            (self, StepView { effects: Seq::empty(), request: RequestView::Finish })
        } else {
            let reaction = self.react(event);
            let run = self.recorded(reaction.effects);
            match reaction.outcome {
                OutcomeView::Continue { phase, request } => (
                    CloneRunView { phase, ..run },
                    StepView { effects: reaction.effects, request },
                ),
                OutcomeView::Succeeded => (
                    CloneRunView {
                        phase: Phase::Done,
                        entry: run.entry.completed(now, CloneStatus::Success, None),
                        ..run
                    },
                    StepView {
                        effects: reaction.effects.push(
                            EffectView::Progress(
                                CloneProgressView::completed("Clone completed successfully!"@),
                            ),
                        ),
                        request: RequestView::Finish,
                    },
                ),
                OutcomeView::Failed { message } => (
                    CloneRunView {
                        phase: Phase::Failed,
                        entry: run.entry.completed(now, CloneStatus::Error, Some(message)),
                        ..run
                    },
                    StepView {
                        effects: reaction.effects.push(
                            EffectView::Progress(CloneProgressView::error(message)),
                        ),
                        request: RequestView::Finish,
                    },
                ),
            }
        }
    }
}

/// The number of base tables that the output of the count query reports.
pub fn table_count(stdout: &str) -> (r: i32)
    ensures
        r == table_count_of(stdout@),
{
    let chars = to_chars(stdout);
    let t = trimmed(&chars);
    match parse_i32(&t) {
        Some(n) => n,
        None => 0,
    }
}

/// An empty list of effects.
fn no_effects() -> (r: Vec<Effect>)
    ensures
        effect_views(r@) == Seq::<EffectView>::empty(),
{
    let r: Vec<Effect> = Vec::new();
    proof {
        assert(effect_views(r@) =~= Seq::<EffectView>::empty());
    }
    r
}

/// Appends the progress report of `stage` to `effects`.
fn announce(effects: &mut Vec<Effect>, stage: Stage)
    ensures
        effect_views(final(effects)@) == effect_views(old(effects)@).push(
            EffectView::Progress(stage.report_of()),
        ),
{
    push_effect(effects, Effect::Progress(stage.report()));
}

/// The run goes on into `phase` and waits for `request`.
fn proceed(effects: Vec<Effect>, phase: Phase, request: Request) -> (r: Reaction)
    ensures
        r@ == CloneRunView::proceed(effect_views(effects@), phase, request@),
{
    Reaction { effects, outcome: Outcome::Continue { phase, request } }
}

impl CloneRun {
    /// Whether the run is consistent; see `CloneRunView::wf`.
    pub open spec fn wf(&self) -> bool {
        self@.wf()
    }

    /// A run that has not begun.
    pub fn new(
        options: CloneOptions,
        source: ConnectionProfile,
        destination: ConnectionProfile,
        tools: ToolPaths,
        files: RunFiles,
        host_parallelism: usize,
        entry: CloneHistoryEntry,
    ) -> (r: CloneRun)
        ensures
            r@ == (CloneRunView {
                options: options@,
                source: source@,
                destination: destination@,
                tools: tools@,
                files: files@,
                host_parallelism,
                entry: entry@,
                phase: Phase::Created,
            }),
    {
        CloneRun {
            options,
            source,
            destination,
            tools,
            files,
            host_parallelism,
            entry,
            phase: Phase::Created,
        }
    }

    /// Whether the run is over.
    pub fn is_over(&self) -> (r: bool)
        ensures
            r == self.phase.is_terminal(),
    {
        self.phase == Phase::Done || self.phase == Phase::Failed
    }

    /// Appends to `effects` the deletion of the temporary files that may
    /// exist in the phase of the run.
    fn release(&self, effects: &mut Vec<Effect>)
        ensures
            effect_views(final(effects)@) == effect_views(old(effects)@) + self@.cleanup(),
    {
        let ghost before = effect_views(effects@);
        match self.phase {
            Phase::Dump | Phase::DumpSize | Phase::RestoreArchive | Phase::RestoreRead => {
                discard(effects, self.files.dump_path.as_str());
            },
            Phase::RestoreWrite | Phase::RestoreScript => {
                discard(effects, self.files.script_path.as_str());
                discard(effects, self.files.dump_path.as_str());
            },
            _ => {},
        }
        proof {
            assert(effect_views(effects@) =~= before + self@.cleanup());
        }
    }

    fn fail(&self, effects: Vec<Effect>, line: String, message: String) -> (r: Reaction)
        ensures
            r@ == self@.fail(effect_views(effects@), line@, message@),
    {
        let mut effects = effects;
        say(&mut effects, line);
        self.release(&mut effects);
        Reaction { effects, outcome: Outcome::Failed { message } }
    }

    fn abort(&self, effects: Vec<Effect>, message: String) -> (r: Reaction)
        ensures
            r@ == self@.abort(effect_views(effects@), message@),
    {
        let line = glue("[ERROR] ", message.as_str());
        self.fail(effects, line, message)
    }

    fn begin(&self) -> (r: Reaction)
        ensures
            r@ == self@.begin(),
    {
        let mut effects = no_effects();
        announce(&mut effects, Stage::Preparing);
        let mut line = glue3(
            "[INFO] Starting clone from '",
            self.source.name.as_str(),
            "' to '",
        );
        line.append(self.destination.name.as_str());
        line.append("'");
        say(&mut effects, line);
        say(&mut effects, glue("[INFO] Clone type: ", self.options.clone_type.label()));
        proof {
            assert(effect_views(effects@) =~= seq![
                EffectView::Progress(Stage::Preparing.report_of()),
                EffectView::Log(
                    "[INFO] Starting clone from '"@ + self@.source.name + "' to '"@
                        + self@.destination.name + "'"@,
                ),
                EffectView::Log("[INFO] Clone type: "@ + self@.options.clone_type.label_text()),
            ]);
        }
        self.enter_backup(effects)
    }

    fn enter_backup(&self, effects: Vec<Effect>) -> (r: Reaction)
        ensures
            r@ == self@.enter_backup(effect_views(effects@)),
    {
        if self.options.create_backup {
            let mut effects = effects;
            announce(&mut effects, Stage::Backup);
            say(&mut effects, "[INFO] Creating backup of destination database...".to_owned());
            match &self.files.backup {
                None => self.abort(effects, "Could not determine backup directory".to_owned()),
                Some(target) => proceed(
                    effects,
                    Phase::BackupDir,
                    Request::CreateDir(target.dir.clone()),
                ),
            }
        } else {
            self.enter_cleaning(effects)
        }
    }

    fn backup_dir_ready(&self) -> (r: Reaction)
        ensures
            r@ == self@.backup_dir_ready(),
    {
        match &self.files.backup {
            None => self.abort(no_effects(), "Could not determine backup directory".to_owned()),
            Some(target) => {
                let conn = conninfo(&self.destination);
                let args = backup_args(conn.as_str(), target.path.as_str());
                proceed(
                    no_effects(),
                    Phase::BackupDump,
                    Request::Run(invocation(&self.tools, Tool::PgDump, &self.destination, args)),
                )
            },
        }
    }

    fn backup_done(&self, output: ToolOutput) -> (r: Reaction)
        ensures
            r@ == self@.backup_done(output@),
    {
        let line = match classify(
            ToolStage::Backup,
            Tool::PgDump,
            output.exited_zero,
            output.stderr.as_str(),
        ) {
            Verdict::Success => match &self.files.backup {
                Some(target) => glue("[SUCCESS] Backup created: ", target.path.as_str()),
                None => glue("[SUCCESS] Backup created: ", ""),
            },
            _ => glue("[WARNING] Backup warning: ", output.stderr.as_str()),
        };
        let mut effects = no_effects();
        say(&mut effects, line);
        proof {
            reveal_strlit("");
            assert(""@ =~= Seq::<char>::empty());
            assert(effect_views(effects@) =~= seq![EffectView::Log(line@)]);
        }
        self.enter_cleaning(effects)
    }

    fn enter_cleaning(&self, effects: Vec<Effect>) -> (r: Reaction)
        ensures
            r@ == self@.enter_cleaning(effect_views(effects@)),
    {
        if self.options.clean_destination {
            let mode = cleaning_mode(self.options.clone_type);
            let mut effects = effects;
            announce(&mut effects, Stage::Cleaning);
            say(&mut effects, "[INFO] Cleaning destination database...".to_owned());
            let line = match mode {
                CleaningMode::Truncate => "[INFO] Truncating all tables; their structure stays",
                CleaningMode::Drop => "[INFO] Dropping all tables",
            };
            say(&mut effects, line.to_owned());
            let conn = conninfo(&self.destination);
            let args = command_args(conn.as_str(), cleaning_sql(mode));
            proceed(
                effects,
                Phase::Clean,
                Request::Run(invocation(&self.tools, Tool::Psql, &self.destination, args)),
            )
        } else {
            self.enter_dump(effects)
        }
    }

    fn cleaning_done(&self, output: ToolOutput) -> (r: Reaction)
        ensures
            r@ == self@.cleaning_done(output@),
    {
        let line = match classify(
            ToolStage::Cleaning,
            Tool::Psql,
            output.exited_zero,
            output.stderr.as_str(),
        ) {
            Verdict::Success => "[SUCCESS] Destination database cleaned".to_owned(),
            _ => glue("[WARNING] Clean warning: ", output.stderr.as_str()),
        };
        let mut effects = no_effects();
        say(&mut effects, line);
        proof {
            assert(effect_views(effects@) =~= seq![EffectView::Log(line@)]);
        }
        self.enter_dump(effects)
    }

    fn enter_dump(&self, effects: Vec<Effect>) -> (r: Reaction)
        ensures
            r@ == self@.enter_dump(effect_views(effects@)),
    {
        let args = self.dump_arguments();
        let listed = debug_list(&args);
        self.enter_dump_listed(effects, listed.as_str())
    }

    /// The arguments of the dump of this run.
    pub fn dump_arguments(&self) -> (r: Vec<String>)
        ensures
            string_views(r@) == self@.dump_args(),
    {
        let conn = conninfo(&self.source);
        dump_args(
            conn.as_str(),
            self.options.clone_type,
            &self.options.exclude_tables,
            self.files.dump_path.as_str(),
        )
    }

    /// What the run answers when it enters the dump stage, given the text
    /// `listed` of the arguments of the dump for the log: the progress
    /// report of the stage, the log lines that describe the dump, and the
    /// run of the dump tool to wait for.
    pub fn enter_dump_listed(&self, effects: Vec<Effect>, listed: &str) -> (r: Reaction)
        ensures
            r@ == self@.enter_dump_listed(effect_views(effects@), listed@),
    {
        let clone_type = self.options.clone_type;
        let mut effects = effects;
        announce(&mut effects, Stage::Dumping);
        say(&mut effects, "[INFO] Dumping source database...".to_owned());
        let content = match clone_type {
            CloneType::Structure => "[INFO] Dumping schema only",
            CloneType::Data => "[INFO] Dumping data only",
            CloneType::Both => "[INFO] Dumping schema and data",
        };
        say(&mut effects, content.to_owned());
        let format = match dump_format(clone_type) {
            DumpFormat::Custom => "[INFO] Dump format: custom archive",
            DumpFormat::Plain => "[INFO] Dump format: plain SQL",
        };
        say(&mut effects, format.to_owned());
        let ghost head = effect_views(effects@);
        let ghost tables = self@.options.exclude_tables;
        let mut i: usize = 0;
        proof {
            assert(tables.take(0) =~= Seq::<Seq<char>>::empty());
            assert(head + exclusion_lines(tables.take(0)) =~= head);
        }
        while i < self.options.exclude_tables.len()
            invariant
                i <= self.options.exclude_tables.len(),
                tables == string_views(self.options.exclude_tables@),
                effect_views(effects@) == head + exclusion_lines(tables.take(i as int)),
            decreases self.options.exclude_tables.len() - i,
        {
            say(
                &mut effects,
                glue("[INFO] Excluding table: ", self.options.exclude_tables[i].as_str()),
            );
            proof {
                let next = tables.take(i + 1);
                assert(next.drop_last() =~= tables.take(i as int));
                assert(next.last() == self.options.exclude_tables@[i as int]@);
                assert(effect_views(effects@) =~= head + exclusion_lines(next));
            }
            i += 1;
        }
        proof {
            assert(tables.take(tables.len() as int) =~= tables);
        }
        let args = self.dump_arguments();
        say(&mut effects, glue("[INFO] Running pg_dump with args: ", listed));
        proceed(
            effects,
            Phase::Dump,
            Request::Run(invocation(&self.tools, Tool::PgDump, &self.source, args)),
        )
    }

    fn dump_done(&self, output: ToolOutput) -> (r: Reaction)
        ensures
            r@ == self@.dump_done(output@),
    {
        match classify(
            ToolStage::Dumping,
            Tool::PgDump,
            output.exited_zero,
            output.stderr.as_str(),
        ) {
            Verdict::Fatal => self.fail(
                no_effects(),
                glue("[ERROR] Dump failed: ", output.stderr.as_str()),
                glue("Failed to dump source database: ", output.stderr.as_str()),
            ),
            _ => {
                let mut effects = no_effects();
                say(&mut effects, "[SUCCESS] Source database dumped successfully".to_owned());
                let took = format_u64(output.elapsed_ms);
                say(&mut effects, glue3("[INFO] Dump took ", took.as_str(), " ms"));
                proof {
                    assert(effect_views(effects@) =~= seq![
                        EffectView::Log("[SUCCESS] Source database dumped successfully"@),
                        EffectView::Log(
                            "[INFO] Dump took "@ + decimal(output.elapsed_ms as nat) + " ms"@,
                        ),
                    ]);
                }
                proceed(effects, Phase::DumpSize, Request::FileSize(self.files.dump_path.clone()))
            },
        }
    }

    fn dump_sized(&self, size: Option<u64>) -> (r: Reaction)
        ensures
            r@ == self@.dump_sized(size),
    {
        let mut effects = no_effects();
        match size {
            Some(n) => {
                let bytes = format_u64(n);
                say(&mut effects, glue3("[INFO] Dump file size: ", bytes.as_str(), " bytes"));
                proof {
                    assert(effect_views(effects@) =~= seq![
                        EffectView::Log("[INFO] Dump file size: "@ + decimal(n as nat) + " bytes"@),
                    ]);
                }
            },
            None => {},
        }
        self.enter_restore(effects)
    }

    fn enter_restore(&self, effects: Vec<Effect>) -> (r: Reaction)
        ensures
            r@ == self@.enter_restore(effect_views(effects@)),
    {
        let mut effects = effects;
        announce(&mut effects, Stage::Restoring);
        say(&mut effects, "[INFO] Restoring to destination database...".to_owned());
        match restore_method(dump_format(self.options.clone_type)) {
            RestoreMethod::ParallelRestore => {
                let jobs = restore_jobs(self.host_parallelism);
                let count = format_u64(jobs as u64);
                say(
                    &mut effects,
                    glue3("[INFO] Restoring the archive with ", count.as_str(), " parallel jobs"),
                );
                let conn = conninfo(&self.destination);
                let args = restore_args(conn.as_str(), jobs, self.files.dump_path.as_str());
                proceed(
                    effects,
                    Phase::RestoreArchive,
                    Request::Run(invocation(&self.tools, Tool::PgRestore, &self.destination, args)),
                )
            },
            RestoreMethod::TunedScript => {
                say(
                    &mut effects,
                    "[INFO] Restoring the script with tuned session settings".to_owned(),
                );
                proceed(effects, Phase::RestoreRead, Request::ReadFile(self.files.dump_path.clone()))
            },
        }
    }

    fn dump_read(&self, dump: String) -> (r: Reaction)
        ensures
            r@ == self@.dump_read(dump@),
    {
        proceed(
            no_effects(),
            Phase::RestoreWrite,
            Request::WriteFile {
                path: self.files.script_path.clone(),
                content: tuned_script(dump.as_str()),
            },
        )
    }

    fn script_written(&self) -> (r: Reaction)
        ensures
            r@ == self@.script_written(),
    {
        let conn = conninfo(&self.destination);
        let args = script_args(conn.as_str(), self.files.script_path.as_str());
        proceed(
            no_effects(),
            Phase::RestoreScript,
            Request::Run(invocation(&self.tools, Tool::Psql, &self.destination, args)),
        )
    }

    fn restore_done(&self, tool: Tool, output: ToolOutput) -> (r: Reaction)
        ensures
            r@ == self@.restore_done(tool, output@),
    {
        let mut effects = no_effects();
        self.release(&mut effects);
        proof {
            assert(effect_views(effects@) =~= self@.cleanup());
        }
        match classify(ToolStage::Restoring, tool, output.exited_zero, output.stderr.as_str()) {
            Verdict::Fatal => {
                say(&mut effects, glue("[ERROR] Restore errors: ", output.stderr.as_str()));
                Reaction {
                    effects,
                    outcome: Outcome::Failed {
                        message: glue(
                            "Failed to restore to destination: ",
                            output.stderr.as_str(),
                        ),
                    },
                }
            },
            Verdict::SuccessWithWarnings(n) => {
                let count = format_u64(n as u64);
                let mut line = glue3(
                    "[WARNING] Restore finished with ",
                    count.as_str(),
                    " warning(s): ",
                );
                line.append(output.stderr.as_str());
                say(&mut effects, line);
                say(&mut effects, "[SUCCESS] Database restored successfully".to_owned());
                self.enter_verify(effects)
            },
            Verdict::Success => {
                say(&mut effects, "[SUCCESS] Database restored successfully".to_owned());
                self.enter_verify(effects)
            },
        }
    }

    fn enter_verify(&self, effects: Vec<Effect>) -> (r: Reaction)
        ensures
            r@ == self@.enter_verify(effect_views(effects@)),
    {
        let mut effects = effects;
        announce(&mut effects, Stage::Verifying);
        say(&mut effects, "[INFO] Verifying clone...".to_owned());
        let conn = conninfo(&self.destination);
        let args = query_args(conn.as_str(), table_count_query());
        proceed(
            effects,
            Phase::Verify,
            Request::Run(invocation(&self.tools, Tool::Psql, &self.destination, args)),
        )
    }

    fn verified(&self, output: ToolOutput) -> (r: Reaction)
        ensures
            r@ == self@.verified(output@),
    {
        let count = format_i64(table_count(output.stdout.as_str()) as i64);
        let mut effects = no_effects();
        say(
            &mut effects,
            glue("[SUCCESS] Verification complete. Tables in destination: ", count.as_str()),
        );
        proof {
            assert(effect_views(effects@) =~= seq![
                EffectView::Log(
                    "[SUCCESS] Verification complete. Tables in destination: "@ + signed_decimal(
                        table_count_of(output@.stdout),
                    ),
                ),
            ]);
        }
        Reaction { effects, outcome: Outcome::Succeeded }
    }

    fn unexpected(&self) -> (r: Reaction)
        ensures
            r@ == self@.abort(Seq::empty(), unexpected_text()),
    {
        self.abort(no_effects(), "Unexpected answer to the request of the run".to_owned())
    }

    fn refused(&self, what: &str, reason: String) -> (r: Reaction)
        ensures
            r@ == self@.abort(Seq::empty(), what@ + reason@),
    {
        self.abort(no_effects(), glue(what, reason.as_str()))
    }

    /// What the run answers to `event` in the phase in which it stands. The
    /// run itself does not change.
    pub fn react(&self, event: Event) -> (r: Reaction)
        ensures
            r@ == self@.react(event@),
    {
        match self.phase {
            Phase::Created => match event {
                Event::Begin => self.begin(),
                _ => self.unexpected(),
            },
            Phase::BackupDir => match event {
                Event::DirCreated => self.backup_dir_ready(),
                Event::Failed(reason) => self.refused("Failed to create backup directory: ", reason),
                _ => self.unexpected(),
            },
            Phase::BackupDump => match event {
                Event::Exited(output) => self.backup_done(output),
                Event::Failed(reason) => self.refused("Failed to create backup: ", reason),
                _ => self.unexpected(),
            },
            Phase::Clean => match event {
                Event::Exited(output) => self.cleaning_done(output),
                Event::Failed(reason) => self.refused("Failed to clean destination: ", reason),
                _ => self.unexpected(),
            },
            Phase::Dump => match event {
                Event::Exited(output) => self.dump_done(output),
                Event::Failed(reason) => self.refused("Failed to dump source: ", reason),
                _ => self.unexpected(),
            },
            Phase::DumpSize => match event {
                Event::Size(size) => self.dump_sized(size),
                Event::Failed(_) => self.dump_sized(None),
                _ => self.unexpected(),
            },
            Phase::RestoreArchive => match event {
                Event::Exited(output) => self.restore_done(Tool::PgRestore, output),
                Event::Failed(reason) => self.refused("Failed to start restore: ", reason),
                _ => self.unexpected(),
            },
            Phase::RestoreRead => match event {
                Event::Content(dump) => self.dump_read(dump),
                Event::Failed(reason) => self.refused("Failed to read dump file: ", reason),
                _ => self.unexpected(),
            },
            Phase::RestoreWrite => match event {
                Event::Written => self.script_written(),
                Event::Failed(reason) => self.refused("Failed to write restore script: ", reason),
                _ => self.unexpected(),
            },
            Phase::RestoreScript => match event {
                Event::Exited(output) => self.restore_done(Tool::Psql, output),
                Event::Failed(reason) => self.refused("Failed to start restore: ", reason),
                _ => self.unexpected(),
            },
            Phase::Verify => match event {
                Event::Exited(output) => self.verified(output),
                Event::Failed(reason) => self.refused("Failed to verify: ", reason),
                _ => self.unexpected(),
            },
            Phase::Done => self.unexpected(),
            Phase::Failed => self.unexpected(),
        }
    }

    /// Adds the log lines of `effects` to the history entry of the run.
    fn record(&mut self, effects: &Vec<Effect>)
        ensures
            final(self)@ == old(self)@.recorded(effect_views(effects@)),
    {
        let ghost start = self@;
        let ghost all = effect_views(effects@);
        let mut i: usize = 0;
        proof {
            assert(all.take(0) =~= Seq::<EffectView>::empty());
            assert(start.entry.logs + log_lines(all.take(0)) =~= start.entry.logs);
        }
        while i < effects.len()
            invariant
                i <= effects.len(),
                all == effect_views(effects@),
                self@ == (CloneRunView {
                    entry: CloneHistoryEntryView {
                        logs: start.entry.logs + log_lines(all.take(i as int)),
                        ..start.entry
                    },
                    ..start
                }),
            decreases effects.len() - i,
        {
            proof {
                assert(all.take(i + 1) =~= all.take(i as int).push(effects@[i as int]@));
                lemma_log_lines_push(all.take(i as int), effects@[i as int]@);
            }
            match &effects[i] {
                Effect::Log(line) => {
                    self.entry.add_log(line.clone());
                    proof {
                        assert(self@.entry.logs =~= start.entry.logs + log_lines(all.take(i + 1)));
                    }
                },
                _ => {},
            }
            i += 1;
        }
        proof {
            assert(all.take(effects@.len() as int) =~= all);
        }
    }

    /// One step of the run: takes the event that arrived at `now`, brings
    /// the run and its history entry up to date, and hands back the effects
    /// to carry out and the next request. See `CloneRunView::advance`.
    pub fn advance_at(&mut self, event: Event, now: Timestamp) -> (step: Step)
        requires
            old(self).wf(),
            now.wf(),
        ensures
            (final(self)@, step@) == old(self)@.advance(event@, now),
            final(self).wf(),
    {
        if self.is_over() {
            return Step { effects: no_effects(), request: Request::Finish };
        }
        let reaction = self.react(event);
        let mut effects = reaction.effects;
        self.record(&effects);
        match reaction.outcome {
            Outcome::Continue { phase, request } => {
                self.phase = phase;
                Step { effects, request }
            },
            Outcome::Succeeded => {
                self.entry.complete_at(now, CloneStatus::Success, None);
                self.phase = Phase::Done;
                push_effect(
                    &mut effects,
                    Effect::Progress(CloneProgress::completed("Clone completed successfully!")),
                );
                Step { effects, request: Request::Finish }
            },
            Outcome::Failed { message } => {
                push_effect(&mut effects, Effect::Progress(CloneProgress::error(message.as_str())));
                self.entry.complete_at(now, CloneStatus::Error, Some(message));
                self.phase = Phase::Failed;
                Step { effects, request: Request::Finish }
            },
        }
    }

    /// One step of the run, taken now: reads the clock and advances as
    /// `advance_at` does with the time that it read.
    pub fn advance(&mut self, event: Event) -> (step: Step)
        requires
            old(self).wf(),
        ensures
            final(self).wf(),
            exists|now: Timestamp|
                now.wf() && (final(self)@, step@) == #[trigger] old(self)@.advance(event@, now),
    {
        let now = current_time();
        self.advance_at(event, now)
    }
}

} // verus!
