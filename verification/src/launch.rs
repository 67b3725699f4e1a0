//! The start of a clone: the checks that come before any outside work, and
//! the names of the files of a run.

use vstd::prelude::*;
use crate::classify::Tool;
use crate::command::ToolPaths;
use crate::ident::{fresh_id, is_hyphenated_id};
use crate::pipeline::{CloneRun, Phase, RunFiles};
use crate::store::{has_profile, is_first_profile, AppData};
use crate::text::{glue, glue3};
use crate::time::{current_time, Timestamp};
use crate::types::{opt_text, CloneHistoryEntry, CloneHistoryEntryView, CloneOptions};

verus! {

/// What the search for the client tools found.
#[derive(Debug)]
pub struct LocatedTools {
    pub pg_dump: Option<String>,
    pub psql: Option<String>,
    pub pg_restore: Option<String>,
}

/// Why a clone did not start.
#[derive(Clone, Copy, Debug, PartialEq, Eq, Structural)]
pub enum StartError {
    /// The options name a source profile that does not exist.
    SourceNotFound,
    /// The options name a destination profile that does not exist.
    DestinationNotFound,
    /// A client tool could not be found.
    ToolNotFound(Tool),
}

impl StartError {
    /// What the error says to the user.
    pub open spec fn message_text(self) -> Seq<char> {
        match self {
            StartError::SourceNotFound => "Source profile not found"@,
            StartError::DestinationNotFound => "Destination profile not found"@,
            StartError::ToolNotFound(tool) => tool.name_text()
                + " not found. Please install PostgreSQL client tools."@,
        }
    }

    /// What the error says to the user.
    pub fn message(&self) -> (r: String)
        ensures
            r@ == self.message_text(),
    {
        match self {
            StartError::SourceNotFound => "Source profile not found".to_owned(),
            StartError::DestinationNotFound => "Destination profile not found".to_owned(),
            StartError::ToolNotFound(tool) => glue(
                tool.name(),
                " not found. Please install PostgreSQL client tools.",
            ),
        }
    }
}

/// The name of the temporary file that takes the dump of the run `id`.
pub open spec fn dump_file_name_text(id: Seq<char>) -> Seq<char> {
    "pg_clone_"@ + id + ".sql"@
}

/// The name of the temporary file that takes the tuned script of the run
/// `id`.
pub open spec fn script_file_name_text(id: Seq<char>) -> Seq<char> {
    "pg_clone_"@ + id + "_restore.sql"@
}

/// The name of the backup of `database` that is marked with `stamp`.
pub open spec fn backup_file_name_text(database: Seq<char>, stamp: Seq<char>) -> Seq<char> {
    database + "_backup_"@ + stamp + ".sql"@
}

/// The name of the temporary file that takes the dump of the run `id`.
pub fn dump_file_name(id: &str) -> (r: String)
    ensures
        r@ == dump_file_name_text(id@),
{
    glue3("pg_clone_", id, ".sql")
}

/// The name of the temporary file that takes the tuned script of the run
/// `id`.
pub fn script_file_name(id: &str) -> (r: String)
    ensures
        r@ == script_file_name_text(id@),
{
    glue3("pg_clone_", id, "_restore.sql")
}

/// The name of the backup of `database` that is marked with `stamp`.
pub fn backup_file_name(database: &str, stamp: &str) -> (r: String)
    ensures
        r@ == backup_file_name_text(database@, stamp@),
{
    let mut r = glue3(database, "_backup_", stamp);
    r.append(".sql");
    r
}

/// The name of the backup of `database` taken at `now`: marked with the
/// calendar date and time of `now`, or with its seconds since the epoch
/// where the calendar does not reach.
pub fn backup_file_name_at(database: &str, now: Timestamp) -> (r: String)
    ensures
        r@ == backup_file_name_text(
            database@,
            crate::time::calendar_stamp(now.secs as int, now.nanos as int),
        ) || r@ == backup_file_name_text(
            database@,
            crate::number::signed_decimal(now.secs as int),
        ),
{
    let stamp = crate::time::stamp(now);
    backup_file_name(database, stamp.as_str())
}

/// The paths of the three tools, where all three were found; else the first
/// that is missing, in the order dump tool, SQL shell, restore tool.
pub fn require_tools(located: LocatedTools) -> (r: Result<ToolPaths, StartError>)
    ensures
        match r {
            Ok(tools) => {
                &&& opt_text(located.pg_dump) == Some(tools@.pg_dump)
                &&& opt_text(located.psql) == Some(tools@.psql)
                &&& opt_text(located.pg_restore) == Some(tools@.pg_restore)
            },
            Err(e) => e == if located.pg_dump is None {
                StartError::ToolNotFound(Tool::PgDump)
            } else if located.psql is None {
                StartError::ToolNotFound(Tool::Psql)
            } else {
                StartError::ToolNotFound(Tool::PgRestore)
            } && (located.pg_dump is None || located.psql is None || located.pg_restore is None),
        },
{
    match located.pg_dump {
        None => Err(StartError::ToolNotFound(Tool::PgDump)),
        Some(pg_dump) => match located.psql {
            None => Err(StartError::ToolNotFound(Tool::Psql)),
            Some(psql) => match located.pg_restore {
                None => Err(StartError::ToolNotFound(Tool::PgRestore)),
                Some(pg_restore) => Ok(ToolPaths { pg_dump, psql, pg_restore }),
            },
        },
    }
}

/// What stands in the way of a clone with these options, if anything: a
/// missing source profile, else a missing destination profile, else the
/// first missing tool.
pub open spec fn start_obstacle(
    data: crate::store::AppDataView,
    options: crate::types::CloneOptionsView,
    located: LocatedTools,
) -> Option<StartError> {
    if !has_profile(data.profiles, options.source_id) {
        Some(StartError::SourceNotFound)
    } else if !has_profile(data.profiles, options.destination_id) {
        Some(StartError::DestinationNotFound)
    } else if located.pg_dump is None {
        Some(StartError::ToolNotFound(Tool::PgDump))
    } else if located.psql is None {
        Some(StartError::ToolNotFound(Tool::Psql))
    } else if located.pg_restore is None {
        Some(StartError::ToolNotFound(Tool::PgRestore))
    } else {
        None
    }
}

/// Sets up the run of a clone that starts at `now` under the identifier
/// `id`. Nothing has happened yet when this returns: the run waits for its
/// first event.
///
/// Fails where the source or the destination profile does not exist or a
/// tool is missing; see `start_obstacle`. Otherwise the run is made of the
/// first profiles with the two identifiers, the options, the tools and the
/// files, and its history entry is open, with `id` and `now`.
pub fn prepare_clone(
    data: &AppData,
    options: CloneOptions,
    located: LocatedTools,
    files: RunFiles,
    host_parallelism: usize,
    id: String,
    now: Timestamp,
) -> (r: Result<CloneRun, StartError>)
    ensures
        match r {
            Err(e) => start_obstacle(data@, options@, located) == Some(e),
            Ok(run) => {
                &&& start_obstacle(data@, options@, located) is None
                &&& exists|s: int, d: int|
                    {
                        &&& is_first_profile(data@.profiles, options@.source_id, s)
                        &&& is_first_profile(data@.profiles, options@.destination_id, d)
                        &&& run@.source == #[trigger] data@.profiles[s]
                        &&& run@.destination == #[trigger] data@.profiles[d]
                    }
                &&& run@.options == options@
                &&& run@.files == files@
                &&& run@.host_parallelism == host_parallelism
                &&& run@.phase == Phase::Created
                &&& opt_text(located.pg_dump) == Some(run@.tools.pg_dump)
                &&& opt_text(located.psql) == Some(run@.tools.psql)
                &&& opt_text(located.pg_restore) == Some(run@.tools.pg_restore)
                &&& run@.entry == CloneHistoryEntryView::started(
                    id@,
                    now,
                    run@.source,
                    run@.destination,
                    options@.clone_type,
                )
                &&& now.wf() ==> run.wf()
            },
        },
{
    let source = match data.find_profile(options.source_id.as_str()) {
        Some(p) => p,
        None => {
            return Err(StartError::SourceNotFound);
        },
    };
    let destination = match data.find_profile(options.destination_id.as_str()) {
        Some(p) => p,
        None => {
            return Err(StartError::DestinationNotFound);
        },
    };
    let tools = match require_tools(located) {
        Ok(t) => t,
        Err(e) => {
            return Err(e);
        },
    };
    let entry = CloneHistoryEntry::started(id, now, &source, &destination, options.clone_type);
    proof {
        let s = choose|s: int|
            is_first_profile(data@.profiles, options@.source_id, s) && source@
                == #[trigger] data@.profiles[s];
        let d = choose|d: int|
            is_first_profile(data@.profiles, options@.destination_id, d) && destination@
                == #[trigger] data@.profiles[d];
        assert(data@.profiles[s].id == options@.source_id);
        assert(data@.profiles[d].id == options@.destination_id);
        assert(has_profile(data@.profiles, options@.source_id));
        assert(has_profile(data@.profiles, options@.destination_id));
    }
    Ok(CloneRun::new(options, source, destination, tools, files, host_parallelism, entry))
}

/// Sets up the run of a clone that starts now under a fresh identifier; see
/// `prepare_clone`. The identifier of the run is that of its history entry.
pub fn start_clone(
    data: &AppData,
    options: CloneOptions,
    located: LocatedTools,
    files: RunFiles,
    host_parallelism: usize,
) -> (r: Result<CloneRun, StartError>)
    ensures
        match r {
            Err(e) => start_obstacle(data@, options@, located) == Some(e),
            Ok(run) => {
                &&& start_obstacle(data@, options@, located) is None
                &&& run.wf()
                &&& is_hyphenated_id(run@.entry.id)
                &&& exists|s: int, d: int|
                    {
                        &&& is_first_profile(data@.profiles, options@.source_id, s)
                        &&& is_first_profile(data@.profiles, options@.destination_id, d)
                        &&& run@.source == #[trigger] data@.profiles[s]
                        &&& run@.destination == #[trigger] data@.profiles[d]
                    }
                &&& run@.options == options@
                &&& run@.files == files@
                &&& run@.host_parallelism == host_parallelism
                &&& run@.phase == Phase::Created
                &&& opt_text(located.pg_dump) == Some(run@.tools.pg_dump)
                &&& opt_text(located.psql) == Some(run@.tools.psql)
                &&& opt_text(located.pg_restore) == Some(run@.tools.pg_restore)
                &&& run@.entry == CloneHistoryEntryView::started(
                    run@.entry.id,
                    run@.entry.started_at,
                    run@.source,
                    run@.destination,
                    options@.clone_type,
                )
            },
        },
{
    prepare_clone(data, options, located, files, host_parallelism, fresh_id(), current_time())
}

} // verus!
