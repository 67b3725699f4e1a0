use db_clone::classify::Tool;
use db_clone::events::{Event, Request};
use db_clone::launch::{
    backup_file_name, backup_file_name_at, dump_file_name, prepare_clone, require_tools,
    script_file_name, start_clone, LocatedTools, StartError,
};
use db_clone::pipeline::{Phase, RunFiles};
use db_clone::store::AppData;
use db_clone::time::Timestamp;
use db_clone::types::{CloneOptions, CloneStatus, CloneType, ConnectionProfile};

fn at(secs: i64) -> Timestamp {
    Timestamp { secs, nanos: 0 }
}

fn data() -> AppData {
    let mut data = AppData::new();
    for (id, name) in [("A", "alpha"), ("B", "beta")] {
        data.add_profile(ConnectionProfile::with_identity(
            id.to_string(),
            at(1),
            name.to_string(),
            "h".to_string(),
            5432,
            "d".to_string(),
            "u".to_string(),
            "p".to_string(),
            false,
            None,
        ));
    }
    data
}

fn options(source: &str, destination: &str) -> CloneOptions {
    CloneOptions {
        source_id: source.to_string(),
        destination_id: destination.to_string(),
        clean_destination: false,
        create_backup: false,
        clone_type: CloneType::Structure,
        exclude_tables: vec![],
    }
}

fn tools(pg_dump: bool, psql: bool, pg_restore: bool) -> LocatedTools {
    LocatedTools {
        pg_dump: if pg_dump { Some("/bin/pg_dump".to_string()) } else { None },
        psql: if psql { Some("/bin/psql".to_string()) } else { None },
        pg_restore: if pg_restore { Some("/bin/pg_restore".to_string()) } else { None },
    }
}

fn files() -> RunFiles {
    RunFiles { backup: None, dump_path: "/tmp/d".to_string(), script_path: "/tmp/s".to_string() }
}

fn refused(source: &str, destination: &str, located: LocatedTools) -> StartError {
    prepare_clone(&data(), options(source, destination), located, files(), 4, "id".to_string(), at(5))
        .err()
        .expect("the clone must not start")
}

#[test]
fn a_clone_needs_both_profiles_and_all_tools() {
    assert_eq!(refused("X", "Y", tools(false, false, false)), StartError::SourceNotFound);
    assert_eq!(refused("X", "B", tools(true, true, true)), StartError::SourceNotFound);
    assert_eq!(refused("A", "Y", tools(false, false, false)), StartError::DestinationNotFound);
    assert_eq!(
        refused("A", "B", tools(false, false, false)),
        StartError::ToolNotFound(Tool::PgDump)
    );
    assert_eq!(refused("A", "B", tools(true, false, false)), StartError::ToolNotFound(Tool::Psql));
    assert_eq!(
        refused("A", "B", tools(true, true, false)),
        StartError::ToolNotFound(Tool::PgRestore)
    );
}

#[test]
fn start_errors_say_what_is_missing() {
    assert_eq!(StartError::SourceNotFound.message(), "Source profile not found");
    assert_eq!(StartError::DestinationNotFound.message(), "Destination profile not found");
    assert_eq!(
        StartError::ToolNotFound(Tool::PgDump).message(),
        "pg_dump not found. Please install PostgreSQL client tools."
    );
    assert_eq!(
        StartError::ToolNotFound(Tool::Psql).message(),
        "psql not found. Please install PostgreSQL client tools."
    );
    assert_eq!(
        StartError::ToolNotFound(Tool::PgRestore).message(),
        "pg_restore not found. Please install PostgreSQL client tools."
    );
}

#[test]
fn the_tools_are_required_in_order() {
    let found = require_tools(tools(true, true, true)).expect("all tools are there");
    assert_eq!(found.pg_dump, "/bin/pg_dump");
    assert_eq!(found.psql, "/bin/psql");
    assert_eq!(found.pg_restore, "/bin/pg_restore");
    assert_eq!(
        require_tools(tools(false, true, false)).err(),
        Some(StartError::ToolNotFound(Tool::PgDump))
    );
    assert_eq!(
        require_tools(tools(true, false, true)).err(),
        Some(StartError::ToolNotFound(Tool::Psql))
    );
}

#[test]
fn a_prepared_clone_waits_for_its_first_event() {
    let run = prepare_clone(
        &data(),
        options("B", "A"),
        tools(true, true, true),
        files(),
        4,
        "run-7".to_string(),
        at(50),
    )
    .expect("the clone can start");
    assert_eq!(run.phase, Phase::Created);
    assert_eq!(run.source.name, "beta");
    assert_eq!(run.destination.name, "alpha");
    assert_eq!(run.tools.psql, "/bin/psql");
    assert_eq!(run.host_parallelism, 4);
    assert_eq!(run.files.dump_path, "/tmp/d");
    assert_eq!(run.entry.id, "run-7");
    assert_eq!(run.entry.source_id, "B");
    assert_eq!(run.entry.source_name, "beta");
    assert_eq!(run.entry.destination_id, "A");
    assert_eq!(run.entry.destination_name, "alpha");
    assert_eq!(run.entry.clone_type, CloneType::Structure);
    assert_eq!(run.entry.status, CloneStatus::Success);
    assert_eq!(run.entry.started_at, at(50));
    assert_eq!(run.entry.completed_at, None);
    assert_eq!(run.entry.duration, None);
    assert!(run.entry.logs.is_empty());
}

#[test]
fn a_started_clone_has_a_fresh_id_that_resolves_in_the_history() {
    let mut store = data();
    let mut first = start_clone(&store, options("A", "B"), tools(true, true, true), files(), 4)
        .expect("the clone can start");
    let second = start_clone(&store, options("A", "B"), tools(true, true, true), files(), 4)
        .expect("the clone can start");
    let id = first.entry.id.clone();
    assert_eq!(id.len(), 36);
    for (i, c) in id.chars().enumerate() {
        if i == 8 || i == 13 || i == 18 || i == 23 {
            assert_eq!(c, '-');
        } else {
            assert!(c.is_ascii_digit() || ('a'..='f').contains(&c));
        }
    }
    assert_ne!(first.entry.id, second.entry.id);
    assert!(first.entry.started_at.secs > 1_600_000_000);
    assert!(first.entry.started_at.nanos < 1_000_000_000);

    let step = first.advance(Event::Begin);
    assert!(matches!(step.request, Request::Run(_)));
    first.advance(Event::Failed("no".to_string()));
    assert!(first.is_over());
    store.record_history(first.entry);
    let found = store.find_history_entry(&id).expect("the run is in the history");
    assert_eq!(found.id, id);
    assert_eq!(found.status, CloneStatus::Error);
}

#[test]
fn the_files_of_a_run_are_named_after_it() {
    assert_eq!(dump_file_name("abc"), "pg_clone_abc.sql");
    assert_eq!(script_file_name("abc"), "pg_clone_abc_restore.sql");
    assert_eq!(backup_file_name("shop", "20240102_030405"), "shop_backup_20240102_030405.sql");
    assert_eq!(
        backup_file_name_at("shop", Timestamp { secs: 1_704_164_645, nanos: 5 }),
        "shop_backup_20240102_030405.sql"
    );
    assert_eq!(backup_file_name_at("x", at(0)), "x_backup_19700101_000000.sql");
    // Beyond the reach of the calendar the seconds mark the file.
    assert_eq!(
        backup_file_name_at("x", at(4_611_686_018_427_387_903)),
        "x_backup_4611686018427387903.sql"
    );
}
