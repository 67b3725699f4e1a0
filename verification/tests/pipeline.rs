use db_clone::classify::Tool;
use db_clone::command::ToolPaths;
use db_clone::events::{Effect, Event, Request, Step, ToolOutput};
use db_clone::pipeline::{BackupTarget, CloneRun, Phase, RunFiles, Stage};
use db_clone::sql::{cleaning_sql, table_count_query, tuned_script};
use db_clone::policy::CleaningMode;
use db_clone::time::Timestamp;
use db_clone::types::{
    CloneHistoryEntry, CloneOptions, CloneStatus, CloneType, ConnectionProfile,
};

fn at(secs: i64) -> Timestamp {
    Timestamp { secs, nanos: 0 }
}

fn profile(id: &str, name: &str, database: &str, ssl: bool) -> ConnectionProfile {
    ConnectionProfile::with_identity(
        id.to_string(),
        at(1_000),
        name.to_string(),
        "db.example".to_string(),
        5432,
        database.to_string(),
        "alice".to_string(),
        "secret".to_string(),
        ssl,
        None,
    )
}

fn run_of(clone_type: CloneType, clean: bool, backup: bool, exclude: Vec<&str>) -> CloneRun {
    let source = profile("A", "Source A", "shop", false);
    let destination = profile("B", "Target B", "shop_copy", true);
    let options = CloneOptions {
        source_id: "A".to_string(),
        destination_id: "B".to_string(),
        clean_destination: clean,
        create_backup: backup,
        clone_type,
        exclude_tables: exclude.iter().map(|s| s.to_string()).collect(),
    };
    let tools = ToolPaths {
        pg_dump: "/usr/bin/pg_dump".to_string(),
        psql: "/usr/bin/psql".to_string(),
        pg_restore: "/usr/bin/pg_restore".to_string(),
    };
    let files = RunFiles {
        backup: Some(BackupTarget {
            dir: "/data/backups".to_string(),
            path: "/data/backups/shop_copy_backup_x.sql".to_string(),
        }),
        dump_path: "/tmp/pg_clone_1.sql".to_string(),
        script_path: "/tmp/pg_clone_1_restore.sql".to_string(),
    };
    let entry =
        CloneHistoryEntry::started("run-1".to_string(), at(2_000), &source, &destination, clone_type);
    CloneRun::new(options, source, destination, tools, files, 16, entry)
}

fn exited(zero: bool, stdout: &str, stderr: &str) -> Event {
    Event::Exited(ToolOutput {
        exited_zero: zero,
        stdout: stdout.to_string(),
        stderr: stderr.to_string(),
        elapsed_ms: 1500,
    })
}

fn logs(step: &Step) -> Vec<String> {
    let mut out = Vec::new();
    for e in step.effects.iter() {
        if let Effect::Log(line) = e {
            out.push(line.clone());
        }
    }
    out
}

fn reports(step: &Step) -> Vec<(String, u8, bool, bool)> {
    let mut out = Vec::new();
    for e in step.effects.iter() {
        if let Effect::Progress(p) = e {
            out.push((p.stage.clone(), p.progress, p.is_complete, p.is_error));
        }
    }
    out
}

fn deletions(step: &Step) -> Vec<String> {
    let mut out = Vec::new();
    for e in step.effects.iter() {
        if let Effect::DeleteFile(path) = e {
            out.push(path.clone());
        }
    }
    out
}

fn invocation(step: &Step) -> (Tool, String, Vec<String>, Vec<(String, String)>) {
    match &step.request {
        Request::Run(i) => (i.tool, i.program.clone(), i.args.clone(), i.env.clone()),
        other => panic!("expected a tool run, got {:?}", other),
    }
}

const SRC: &str = "host=db.example port=5432 dbname=shop user=alice";
const DST: &str = "host=db.example port=5432 dbname=shop_copy user=alice";

fn src_env() -> Vec<(String, String)> {
    vec![
        ("PGPASSWORD".to_string(), "secret".to_string()),
        ("PGSSLMODE".to_string(), "prefer".to_string()),
    ]
}

fn dst_env() -> Vec<(String, String)> {
    vec![
        ("PGPASSWORD".to_string(), "secret".to_string()),
        ("PGSSLMODE".to_string(), "require".to_string()),
    ]
}

fn strings(v: &[&str]) -> Vec<String> {
    v.iter().map(|s| s.to_string()).collect()
}

#[test]
fn a_data_only_clone_with_cleaning_runs_its_stages_in_order() {
    let mut run = run_of(CloneType::Data, true, false, vec!["audit_log"]);
    let mut percents: Vec<u8> = Vec::new();

    // Preparing, then cleaning by truncation.
    let step = run.advance_at(Event::Begin, at(2_001));
    percents.extend(reports(&step).iter().map(|r| r.1));
    assert_eq!(
        reports(&step),
        vec![
            ("preparing".to_string(), 5, false, false),
            ("cleaning".to_string(), 25, false, false)
        ]
    );
    assert_eq!(
        logs(&step),
        vec![
            "[INFO] Starting clone from 'Source A' to 'Target B'",
            "[INFO] Clone type: Data",
            "[INFO] Cleaning destination database...",
            "[INFO] Truncating all tables; their structure stays",
        ]
    );
    let (tool, program, args, env) = invocation(&step);
    assert_eq!(tool, Tool::Psql);
    assert_eq!(program, "/usr/bin/psql");
    assert_eq!(args, strings(&["-d", DST, "-c", cleaning_sql(CleaningMode::Truncate)]));
    assert!(args[3].contains("TRUNCATE TABLE"));
    assert!(!args[3].contains("DROP"));
    assert_eq!(env, dst_env());
    assert_eq!(run.phase, Phase::Clean);

    // Dumping in plain format.
    let step = run.advance_at(exited(true, "", ""), at(2_002));
    percents.extend(reports(&step).iter().map(|r| r.1));
    assert_eq!(reports(&step), vec![("dumping".to_string(), 40, false, false)]);
    let dump_args = strings(&[
        "-d",
        SRC,
        "-Fp",
        "--data-only",
        "--disable-triggers",
        "--exclude-table",
        "audit_log",
        "-f",
        "/tmp/pg_clone_1.sql",
    ]);
    assert_eq!(
        logs(&step),
        vec![
            "[SUCCESS] Destination database cleaned".to_string(),
            "[INFO] Dumping source database...".to_string(),
            "[INFO] Dumping data only".to_string(),
            "[INFO] Dump format: plain SQL".to_string(),
            "[INFO] Excluding table: audit_log".to_string(),
            format!("[INFO] Running pg_dump with args: {:?}", dump_args),
        ]
    );
    let (tool, program, args, env) = invocation(&step);
    assert_eq!(tool, Tool::PgDump);
    assert_eq!(program, "/usr/bin/pg_dump");
    assert_eq!(args, dump_args);
    assert_eq!(env, src_env());
    assert_eq!(run.phase, Phase::Dump);

    // The dump succeeded; its size is asked for.
    let step = run.advance_at(exited(true, "", ""), at(2_010));
    assert_eq!(
        logs(&step),
        vec!["[SUCCESS] Source database dumped successfully", "[INFO] Dump took 1500 ms"]
    );
    assert!(matches!(&step.request, Request::FileSize(p) if p == "/tmp/pg_clone_1.sql"));

    // Restoring through the tuned script.
    let step = run.advance_at(Event::Size(Some(2048)), at(2_011));
    percents.extend(reports(&step).iter().map(|r| r.1));
    assert_eq!(reports(&step), vec![("restoring".to_string(), 70, false, false)]);
    assert_eq!(
        logs(&step),
        vec![
            "[INFO] Dump file size: 2048 bytes",
            "[INFO] Restoring to destination database...",
            "[INFO] Restoring the script with tuned session settings",
        ]
    );
    assert!(matches!(&step.request, Request::ReadFile(p) if p == "/tmp/pg_clone_1.sql"));

    let step = run.advance_at(Event::Content("COPY t FROM stdin;\n".to_string()), at(2_012));
    assert!(step.effects.is_empty());
    match &step.request {
        Request::WriteFile { path, content } => {
            assert_eq!(path, "/tmp/pg_clone_1_restore.sql");
            assert_eq!(content, &tuned_script("COPY t FROM stdin;\n"));
            assert!(content.starts_with("SET synchronous_commit = off;\n"));
            assert!(content.contains("SET session_replication_role = replica;\nCOPY t FROM stdin;\n\nSET session_replication_role = DEFAULT;"));
            assert!(content.ends_with("RESET synchronous_commit;\n"));
        }
        other => panic!("expected a file to write, got {:?}", other),
    }

    let step = run.advance_at(Event::Written, at(2_013));
    let (tool, program, args, env) = invocation(&step);
    assert_eq!(tool, Tool::Psql);
    assert_eq!(program, "/usr/bin/psql");
    assert_eq!(args, strings(&["-d", DST, "-f", "/tmp/pg_clone_1_restore.sql"]));
    assert_eq!(env, dst_env());

    // The restore succeeded: the temporary files go, the verification runs.
    let step = run.advance_at(exited(true, "", ""), at(2_020));
    percents.extend(reports(&step).iter().map(|r| r.1));
    assert_eq!(deletions(&step), vec!["/tmp/pg_clone_1_restore.sql", "/tmp/pg_clone_1.sql"]);
    assert_eq!(reports(&step), vec![("verifying".to_string(), 90, false, false)]);
    assert_eq!(
        logs(&step),
        vec!["[SUCCESS] Database restored successfully", "[INFO] Verifying clone..."]
    );
    let (tool, _, args, _) = invocation(&step);
    assert_eq!(tool, Tool::Psql);
    assert_eq!(args, strings(&["-d", DST, "-t", "-c", table_count_query()]));

    // Done.
    let step = run.advance_at(exited(true, "    12\n\n", ""), at(2_031));
    percents.extend(reports(&step).iter().map(|r| r.1));
    assert_eq!(logs(&step), vec!["[SUCCESS] Verification complete. Tables in destination: 12"]);
    assert_eq!(reports(&step), vec![("completed".to_string(), 100, true, false)]);
    assert!(matches!(step.request, Request::Finish));
    assert_eq!(percents, vec![5, 25, 40, 70, 90, 100]);

    assert_eq!(run.phase, Phase::Done);
    assert!(run.is_over());
    assert_eq!(run.entry.id, "run-1");
    assert_eq!(run.entry.clone_type, CloneType::Data);
    assert_eq!(run.entry.status, CloneStatus::Success);
    assert_eq!(run.entry.source_name, "Source A");
    assert_eq!(run.entry.destination_id, "B");
    assert_eq!(run.entry.error_message, None);
    assert_eq!(run.entry.started_at, at(2_000));
    assert_eq!(run.entry.completed_at, Some(at(2_031)));
    assert_eq!(run.entry.duration, Some(31));
    assert_eq!(run.entry.logs.len(), 18);
    assert_eq!(run.entry.logs[0], "[INFO] Starting clone from 'Source A' to 'Target B'");
    assert_eq!(
        run.entry.logs[17],
        "[SUCCESS] Verification complete. Tables in destination: 12"
    );
}

#[test]
fn a_full_clone_restores_the_archive_in_parallel() {
    let mut run = run_of(CloneType::Both, true, true, vec![]);

    let step = run.advance_at(Event::Begin, at(2_001));
    assert_eq!(
        reports(&step),
        vec![("preparing".to_string(), 5, false, false), ("backup".to_string(), 15, false, false)]
    );
    assert_eq!(
        logs(&step),
        vec![
            "[INFO] Starting clone from 'Source A' to 'Target B'",
            "[INFO] Clone type: Both",
            "[INFO] Creating backup of destination database...",
        ]
    );
    assert!(matches!(&step.request, Request::CreateDir(p) if p == "/data/backups"));

    let step = run.advance_at(Event::DirCreated, at(2_002));
    let (tool, program, args, env) = invocation(&step);
    assert_eq!(tool, Tool::PgDump);
    assert_eq!(program, "/usr/bin/pg_dump");
    assert_eq!(args, strings(&["-d", DST, "-f", "/data/backups/shop_copy_backup_x.sql"]));
    assert_eq!(env, dst_env());

    let step = run.advance_at(exited(true, "", ""), at(2_003));
    assert_eq!(
        logs(&step),
        vec![
            "[SUCCESS] Backup created: /data/backups/shop_copy_backup_x.sql",
            "[INFO] Cleaning destination database...",
            "[INFO] Dropping all tables",
        ]
    );
    assert_eq!(reports(&step), vec![("cleaning".to_string(), 25, false, false)]);
    let (_, _, args, _) = invocation(&step);
    assert_eq!(args, strings(&["-d", DST, "-c", cleaning_sql(CleaningMode::Drop)]));
    assert!(args[3].contains("DROP TABLE IF EXISTS"));
    assert!(!args[3].contains("TRUNCATE"));

    let step = run.advance_at(exited(true, "", ""), at(2_004));
    let (tool, _, args, _) = invocation(&step);
    assert_eq!(tool, Tool::PgDump);
    assert_eq!(args, strings(&["-d", SRC, "-Fc", "-Z", "1", "-f", "/tmp/pg_clone_1.sql"]));
    assert!(logs(&step).contains(&"[INFO] Dumping schema and data".to_string()));
    assert!(logs(&step).contains(&"[INFO] Dump format: custom archive".to_string()));

    let step = run.advance_at(exited(true, "", ""), at(2_005));
    assert!(matches!(&step.request, Request::FileSize(_)));
    let step = run.advance_at(Event::Size(None), at(2_006));
    assert_eq!(
        logs(&step),
        vec![
            "[INFO] Restoring to destination database...",
            "[INFO] Restoring the archive with 8 parallel jobs",
        ]
    );
    let (tool, program, args, env) = invocation(&step);
    assert_eq!(tool, Tool::PgRestore);
    assert_eq!(program, "/usr/bin/pg_restore");
    assert_eq!(
        args,
        strings(&["-d", DST, "-j", "8", "--no-owner", "--no-privileges", "-v", "/tmp/pg_clone_1.sql"])
    );
    assert_eq!(env, dst_env());
    assert_eq!(run.phase, Phase::RestoreArchive);

    let step = run.advance_at(exited(true, "", "pg_restore: creating TABLE t"), at(2_007));
    assert_eq!(deletions(&step), vec!["/tmp/pg_clone_1.sql"]);
    let step = run.advance_at(exited(true, "not a number", ""), at(2_008));
    assert_eq!(logs(&step), vec!["[SUCCESS] Verification complete. Tables in destination: 0"]);
    assert_eq!(run.entry.status, CloneStatus::Success);
    assert_eq!(run.phase, Phase::Done);
}

#[test]
fn a_schema_only_clone_dumps_the_schema_in_custom_format() {
    let mut run = run_of(CloneType::Structure, false, false, vec!["a", "b.c"]);
    let step = run.advance_at(Event::Begin, at(2_001));
    assert_eq!(
        reports(&step),
        vec![("preparing".to_string(), 5, false, false), ("dumping".to_string(), 40, false, false)]
    );
    let (_, _, args, _) = invocation(&step);
    assert_eq!(
        args,
        strings(&[
            "-d",
            SRC,
            "-Fc",
            "-Z",
            "1",
            "--schema-only",
            "--exclude-table",
            "a",
            "--exclude-table",
            "b.c",
            "-f",
            "/tmp/pg_clone_1.sql"
        ])
    );
    assert!(logs(&step).contains(&"[INFO] Dumping schema only".to_string()));
    assert!(logs(&step).contains(&"[INFO] Excluding table: a".to_string()));
    assert!(logs(&step).contains(&"[INFO] Excluding table: b.c".to_string()));
}

#[test]
fn a_failed_dump_ends_the_run_in_error() {
    let mut run = run_of(CloneType::Both, false, false, vec![]);
    run.advance_at(Event::Begin, at(2_001));
    let before = run.entry.logs.len();
    let step = run.advance_at(exited(false, "", "pg_dump: error: connection refused"), at(2_004));
    assert_eq!(logs(&step), vec!["[ERROR] Dump failed: pg_dump: error: connection refused"]);
    assert_eq!(deletions(&step), vec!["/tmp/pg_clone_1.sql"]);
    assert_eq!(reports(&step), vec![("error".to_string(), 0, true, true)]);
    assert!(matches!(step.request, Request::Finish));
    assert_eq!(run.phase, Phase::Failed);
    assert_eq!(run.entry.status, CloneStatus::Error);
    assert_eq!(
        run.entry.error_message,
        Some("Failed to dump source database: pg_dump: error: connection refused".to_string())
    );
    assert_eq!(run.entry.logs.len(), before + 1);
    assert_eq!(run.entry.duration, Some(4));
    for line in run.entry.logs.iter() {
        assert!(!line.contains("Restoring"));
        assert!(!line.contains("Verifying"));
    }

    // The run is over: nothing more comes of it.
    let step = run.advance_at(exited(true, "3", ""), at(2_005));
    assert!(step.effects.is_empty());
    assert!(matches!(step.request, Request::Finish));
    assert_eq!(run.entry.logs.len(), before + 1);
    assert_eq!(run.entry.completed_at, Some(at(2_004)));
    assert_eq!(run.phase, Phase::Failed);
}

#[test]
fn a_failed_dump_with_empty_error_output_still_has_a_message() {
    let mut run = run_of(CloneType::Data, false, false, vec![]);
    run.advance_at(Event::Begin, at(2_001));
    run.advance_at(exited(false, "", ""), at(2_002));
    assert_eq!(run.entry.status, CloneStatus::Error);
    assert_eq!(run.entry.error_message, Some("Failed to dump source database: ".to_string()));
}

#[test]
fn a_restore_with_warnings_only_goes_on_to_success() {
    let mut run = run_of(CloneType::Both, false, false, vec![]);
    run.advance_at(Event::Begin, at(2_001));
    run.advance_at(exited(true, "", ""), at(2_002));
    run.advance_at(Event::Size(Some(1)), at(2_003));
    assert_eq!(run.phase, Phase::RestoreArchive);
    let stderr = "pg_restore: warning: errors ignored on restore: 1\nWARNING:  role missing\n";
    let step = run.advance_at(exited(false, "", stderr), at(2_004));
    assert_eq!(
        logs(&step),
        vec![
            format!("[WARNING] Restore finished with 2 warning(s): {}", stderr),
            "[SUCCESS] Database restored successfully".to_string(),
            "[INFO] Verifying clone...".to_string(),
        ]
    );
    assert_eq!(run.phase, Phase::Verify);
    assert_eq!(run.entry.status, CloneStatus::Success);
    run.advance_at(exited(true, "4", ""), at(2_005));
    assert_eq!(run.phase, Phase::Done);
    assert_eq!(run.entry.status, CloneStatus::Success);
    assert!(run.entry.logs.iter().any(|l| l.starts_with("[WARNING] Restore finished with 2 ")));
}

#[test]
fn a_restore_that_reports_an_error_fails_the_run() {
    let mut run = run_of(CloneType::Data, false, false, vec![]);
    run.advance_at(Event::Begin, at(2_001));
    run.advance_at(exited(true, "", ""), at(2_002));
    run.advance_at(Event::Failed("no such file".to_string()), at(2_003));
    assert_eq!(run.phase, Phase::RestoreRead);
    run.advance_at(Event::Content("x".to_string()), at(2_004));
    run.advance_at(Event::Written, at(2_005));
    assert_eq!(run.phase, Phase::RestoreScript);
    let step = run.advance_at(exited(false, "", "psql:x.sql:1: ERROR:  syntax error"), at(2_006));
    assert_eq!(deletions(&step), vec!["/tmp/pg_clone_1_restore.sql", "/tmp/pg_clone_1.sql"]);
    assert_eq!(logs(&step), vec!["[ERROR] Restore errors: psql:x.sql:1: ERROR:  syntax error"]);
    assert_eq!(reports(&step), vec![("error".to_string(), 0, true, true)]);
    assert_eq!(run.phase, Phase::Failed);
    assert_eq!(run.entry.status, CloneStatus::Error);
    assert_eq!(
        run.entry.error_message,
        Some("Failed to restore to destination: psql:x.sql:1: ERROR:  syntax error".to_string())
    );
}

#[test]
fn a_failed_backup_or_cleaning_is_logged_and_the_run_goes_on() {
    let mut run = run_of(CloneType::Both, true, true, vec![]);
    run.advance_at(Event::Begin, at(2_001));
    run.advance_at(Event::DirCreated, at(2_002));
    let step = run.advance_at(exited(false, "", "disk full"), at(2_003));
    assert_eq!(logs(&step)[0], "[WARNING] Backup warning: disk full");
    assert_eq!(run.phase, Phase::Clean);
    let step = run.advance_at(exited(false, "", "permission denied"), at(2_004));
    assert_eq!(logs(&step)[0], "[WARNING] Clean warning: permission denied");
    assert_eq!(run.phase, Phase::Dump);
    assert_eq!(run.entry.status, CloneStatus::Success);
}

#[test]
fn what_cannot_be_started_ends_the_run() {
    let cases: Vec<(Vec<Event>, &str)> = vec![
        (vec![Event::Begin], "Failed to create backup directory: denied"),
        (vec![Event::Begin, Event::DirCreated], "Failed to create backup: denied"),
        (
            vec![Event::Begin, Event::DirCreated, exited(true, "", "")],
            "Failed to clean destination: denied",
        ),
        (
            vec![Event::Begin, Event::DirCreated, exited(true, "", ""), exited(true, "", "")],
            "Failed to dump source: denied",
        ),
        (
            vec![
                Event::Begin,
                Event::DirCreated,
                exited(true, "", ""),
                exited(true, "", ""),
                exited(true, "", ""),
                Event::Size(None),
            ],
            "Failed to start restore: denied",
        ),
        (
            vec![
                Event::Begin,
                Event::DirCreated,
                exited(true, "", ""),
                exited(true, "", ""),
                exited(true, "", ""),
                Event::Size(None),
                exited(true, "", ""),
            ],
            "Failed to verify: denied",
        ),
    ];
    for (events, message) in cases {
        let mut run = run_of(CloneType::Both, true, true, vec![]);
        let mut now = 2_001;
        for e in events {
            run.advance_at(e, at(now));
            now += 1;
        }
        assert!(!run.is_over());
        let step = run.advance_at(Event::Failed("denied".to_string()), at(now));
        assert_eq!(run.phase, Phase::Failed, "{}", message);
        assert_eq!(run.entry.status, CloneStatus::Error);
        assert_eq!(run.entry.error_message, Some(message.to_string()));
        assert_eq!(logs(&step), vec![format!("[ERROR] {}", message)]);
        assert_eq!(run.entry.logs.last(), Some(&format!("[ERROR] {}", message)));
        assert_eq!(reports(&step).last(), Some(&("error".to_string(), 0, true, true)));
    }
}

#[test]
fn the_tuned_script_fails_where_its_files_fail() {
    let mut run = run_of(CloneType::Data, false, false, vec![]);
    run.advance_at(Event::Begin, at(2_001));
    run.advance_at(exited(true, "", ""), at(2_002));
    run.advance_at(Event::Size(Some(10)), at(2_003));
    let step = run.advance_at(Event::Failed("gone".to_string()), at(2_004));
    assert_eq!(run.entry.error_message, Some("Failed to read dump file: gone".to_string()));
    assert_eq!(deletions(&step), vec!["/tmp/pg_clone_1.sql"]);

    let mut run = run_of(CloneType::Data, false, false, vec![]);
    run.advance_at(Event::Begin, at(2_001));
    run.advance_at(exited(true, "", ""), at(2_002));
    run.advance_at(Event::Size(Some(10)), at(2_003));
    run.advance_at(Event::Content("x".to_string()), at(2_004));
    let step = run.advance_at(Event::Failed("full".to_string()), at(2_005));
    assert_eq!(run.entry.error_message, Some("Failed to write restore script: full".to_string()));
    assert_eq!(deletions(&step), vec!["/tmp/pg_clone_1_restore.sql", "/tmp/pg_clone_1.sql"]);
}

#[test]
fn a_backup_without_a_place_for_it_ends_the_run() {
    let mut run = run_of(CloneType::Both, false, true, vec![]);
    run.files.backup = None;
    let step = run.advance_at(Event::Begin, at(2_001));
    assert_eq!(run.phase, Phase::Failed);
    assert_eq!(
        run.entry.error_message,
        Some("Could not determine backup directory".to_string())
    );
    assert_eq!(logs(&step).last().unwrap(), "[ERROR] Could not determine backup directory");
    assert!(matches!(step.request, Request::Finish));
}

#[test]
fn an_answer_to_no_request_ends_the_run() {
    let mut run = run_of(CloneType::Both, false, false, vec![]);
    let step = run.advance_at(Event::Written, at(2_001));
    assert_eq!(run.phase, Phase::Failed);
    assert_eq!(
        run.entry.error_message,
        Some("Unexpected answer to the request of the run".to_string())
    );
    assert_eq!(reports(&step), vec![("error".to_string(), 0, true, true)]);
}

#[test]
fn a_clock_that_runs_backwards_closes_the_run_at_its_start() {
    let mut run = run_of(CloneType::Both, false, false, vec![]);
    run.advance_at(Event::Begin, at(1_990));
    run.advance_at(exited(false, "", "x"), at(1_995));
    assert_eq!(run.entry.completed_at, Some(at(2_000)));
    assert_eq!(run.entry.duration, Some(0));
}

#[test]
fn a_step_taken_now_reads_the_clock() {
    let mut run = run_of(CloneType::Both, false, false, vec![]);
    run.entry.started_at = at(0);
    run.advance(Event::Begin);
    run.advance(exited(false, "", "x"));
    assert_eq!(run.phase, Phase::Failed);
    let end = run.entry.completed_at.expect("the run is closed");
    // The run ended after September 2020 by any working clock, and its
    // duration is the whole seconds since its start.
    assert!(end.secs > 1_600_000_000);
    assert!(end.nanos < 1_000_000_000);
    assert_eq!(run.entry.duration, Some(end.secs));
}

#[test]
fn the_stages_report_fixed_progress() {
    let stages = [
        (Stage::Preparing, "preparing", 5, "Preparing clone operation..."),
        (Stage::Backup, "backup", 15, "Creating backup of destination..."),
        (Stage::Cleaning, "cleaning", 25, "Cleaning destination database..."),
        (Stage::Dumping, "dumping", 40, "Dumping source database..."),
        (Stage::Restoring, "restoring", 70, "Restoring to destination..."),
        (Stage::Verifying, "verifying", 90, "Verifying clone..."),
    ];
    let mut last = 0;
    for (stage, name, percent, message) in stages {
        assert_eq!(stage.name(), name);
        assert_eq!(stage.percent(), percent);
        assert_eq!(stage.message(), message);
        let report = stage.report();
        assert_eq!(report.stage, name);
        assert_eq!(report.progress, percent);
        assert_eq!(report.message, message);
        assert!(!report.is_complete && !report.is_error);
        assert!(percent > last);
        last = percent;
    }
}

#[test]
fn the_dump_is_announced_with_the_text_of_its_arguments() {
    let run = run_of(CloneType::Data, false, false, vec!["t"]);
    assert_eq!(
        run.dump_arguments(),
        strings(&[
            "-d",
            SRC,
            "-Fp",
            "--data-only",
            "--disable-triggers",
            "--exclude-table",
            "t",
            "-f",
            "/tmp/pg_clone_1.sql"
        ])
    );
    let reaction = run.enter_dump_listed(Vec::new(), "<the arguments>");
    let lines: Vec<String> = reaction
        .effects
        .iter()
        .filter_map(|e| match e {
            Effect::Log(line) => Some(line.clone()),
            _ => None,
        })
        .collect();
    assert_eq!(
        lines,
        vec![
            "[INFO] Dumping source database...",
            "[INFO] Dumping data only",
            "[INFO] Dump format: plain SQL",
            "[INFO] Excluding table: t",
            "[INFO] Running pg_dump with args: <the arguments>",
        ]
    );
    assert_eq!(run.phase, Phase::Created);
}
