//! The data that the library works on: connection profiles, clone options,
//! progress reports and history entries, each with its mathematical view.

use vstd::prelude::*;
use crate::ident::fresh_id;
use crate::number::{decimal, format_u64};
use crate::text::string_views;
use crate::time::{current_time, later, seconds_between, Timestamp};

verus! {

/// The view of an optional string.
pub open spec fn opt_text(o: Option<String>) -> Option<Seq<char>> {
    match o {
        Some(s) => Some(s@),
        None => None,
    }
}

/// A copy of a list of strings.
pub fn copy_strings(v: &Vec<String>) -> (out: Vec<String>)
    ensures
        string_views(out@) == string_views(v@),
{
    let mut out: Vec<String> = Vec::new();
    let mut i: usize = 0;
    while i < v.len()
        invariant
            i <= v.len(),
            out.len() == i,
            string_views(out@) == string_views(v@).take(i as int),
        decreases v.len() - i,
    {
        let ghost before = out@;
        out.push(v[i].clone());
        i += 1;
        proof {
            assert forall|k: int| 0 <= k < i implies string_views(out@)[k] == string_views(
                v@,
            ).take(i as int)[k] by {
                if k < i - 1 {
                    assert(string_views(before)[k] == string_views(v@).take(i - 1)[k]);
                }
            }
            assert(string_views(out@) =~= string_views(v@).take(i as int));
        }
    }
    proof {
        assert(string_views(v@).take(v@.len() as int) =~= string_views(v@));
    }
    out
}

/// A copy of an optional string.
pub fn copy_opt(o: &Option<String>) -> (out: Option<String>)
    ensures
        opt_text(out) == opt_text(*o),
{
    match o {
        Some(s) => Some(s.clone()),
        None => None,
    }
}

/// A label that groups connection profiles.
#[derive(Debug)]
pub struct Tag {
    pub id: String,
    pub name: String,
    /// The colour in hexadecimal notation, `#RRGGBB`.
    pub color: String,
}

pub struct TagView {
    pub id: Seq<char>,
    pub name: Seq<char>,
    pub color: Seq<char>,
}

impl View for Tag {
    type V = TagView;

    open spec fn view(&self) -> TagView {
        TagView { id: self.id@, name: self.name@, color: self.color@ }
    }
}

impl Clone for Tag {
    fn clone(&self) -> (r: Self)
        ensures
            r@ == self@,
    {
        Tag { id: self.id.clone(), name: self.name.clone(), color: self.color.clone() }
    }
}

impl Tag {
    /// The tag with the given identifier, name and colour.
    pub fn with_id(id: String, name: String, color: String) -> (r: Tag)
        ensures
            r@ == (TagView { id: id@, name: name@, color: color@ }),
    {
        Tag { id, name, color }
    }

    /// A tag with a fresh identifier.
    pub fn new(name: String, color: String) -> (r: Tag)
        ensures
            r@.name == name@,
            r@.color == color@,
            crate::ident::is_hyphenated_id(r@.id),
    {
        Tag::with_id(fresh_id(), name, color)
    }
}

/// The views of a sequence of string pairs.
pub open spec fn pair_views(v: Seq<(String, String)>) -> Seq<(Seq<char>, Seq<char>)> {
    Seq::new(v.len(), |i: int| (v[i].0@, v[i].1@))
}

/// How to reach one database.
#[derive(Debug)]
pub struct ConnectionProfile {
    pub id: String,
    pub name: String,
    pub host: String,
    pub port: u16,
    pub database: String,
    pub user: String,
    pub password: String,
    pub ssl: bool,
    pub tag_id: Option<String>,
    pub created_at: Timestamp,
    pub updated_at: Timestamp,
}

pub struct ConnectionProfileView {
    pub id: Seq<char>,
    pub name: Seq<char>,
    pub host: Seq<char>,
    pub port: u16,
    pub database: Seq<char>,
    pub user: Seq<char>,
    pub password: Seq<char>,
    pub ssl: bool,
    pub tag_id: Option<Seq<char>>,
    pub created_at: Timestamp,
    pub updated_at: Timestamp,
}

impl View for ConnectionProfile {
    type V = ConnectionProfileView;

    open spec fn view(&self) -> ConnectionProfileView {
        ConnectionProfileView {
            id: self.id@,
            name: self.name@,
            host: self.host@,
            port: self.port,
            database: self.database@,
            user: self.user@,
            password: self.password@,
            ssl: self.ssl,
            tag_id: opt_text(self.tag_id),
            created_at: self.created_at,
            updated_at: self.updated_at,
        }
    }
}

impl Clone for ConnectionProfile {
    fn clone(&self) -> (r: Self)
        ensures
            r@ == self@,
    {
        ConnectionProfile {
            id: self.id.clone(),
            name: self.name.clone(),
            host: self.host.clone(),
            port: self.port,
            database: self.database.clone(),
            user: self.user.clone(),
            password: self.password.clone(),
            ssl: self.ssl,
            tag_id: copy_opt(&self.tag_id),
            created_at: self.created_at,
            updated_at: self.updated_at,
        }
    }
}

/// What `sslmode` a connection asks for: `require` with SSL, else `prefer`.
pub open spec fn ssl_mode_text(ssl: bool) -> Seq<char> {
    if ssl {
        "require"@
    } else {
        "prefer"@
    }
}

impl ConnectionProfileView {
    /// The URL of the database, with the SSL parameter only when SSL is on.
    pub open spec fn connection_url(self) -> Seq<char> {
        "postgresql://"@ + self.user + ":"@ + self.password + "@"@ + self.host + ":"@ + decimal(
            self.port as nat,
        ) + "/"@ + self.database + if self.ssl {
            "?sslmode=require"@
        } else {
            ""@
        }
    }

    /// The connection settings as environment variables of the client tools.
    pub open spec fn env_vars(self) -> Seq<(Seq<char>, Seq<char>)> {
        let base = seq![
            ("PGHOST"@, self.host),
            ("PGPORT"@, decimal(self.port as nat)),
            ("PGDATABASE"@, self.database),
            ("PGUSER"@, self.user),
            ("PGPASSWORD"@, self.password),
        ];
        if self.ssl {
            base.push(("PGSSLMODE"@, "require"@))
        } else {
            base
        }
    }
}

impl ConnectionProfile {
    /// The profile with the given identifier, created and last updated at
    /// `now`.
    pub fn with_identity(
        id: String,
        now: Timestamp,
        name: String,
        host: String,
        port: u16,
        database: String,
        user: String,
        password: String,
        ssl: bool,
        tag_id: Option<String>,
    ) -> (r: ConnectionProfile)
        ensures
            r@ == (ConnectionProfileView {
                id: id@,
                name: name@,
                host: host@,
                port,
                database: database@,
                user: user@,
                password: password@,
                ssl,
                tag_id: opt_text(tag_id),
                created_at: now,
                updated_at: now,
            }),
    {
        ConnectionProfile {
            id,
            name,
            host,
            port,
            database,
            user,
            password,
            ssl,
            tag_id,
            created_at: now,
            updated_at: now,
        }
    }

    /// A profile with a fresh identifier, created now.
    pub fn new(
        name: String,
        host: String,
        port: u16,
        database: String,
        user: String,
        password: String,
        ssl: bool,
        tag_id: Option<String>,
    ) -> (r: ConnectionProfile)
        ensures
            crate::ident::is_hyphenated_id(r@.id),
            r@.created_at.wf(),
            r@ == (ConnectionProfileView {
                id: r@.id,
                name: name@,
                host: host@,
                port,
                database: database@,
                user: user@,
                password: password@,
                ssl,
                tag_id: opt_text(tag_id),
                created_at: r@.created_at,
                updated_at: r@.created_at,
            }),
    {
        ConnectionProfile::with_identity(
            fresh_id(),
            current_time(),
            name,
            host,
            port,
            database,
            user,
            password,
            ssl,
            tag_id,
        )
    }

    /// The URL of the database.
    pub fn connection_url(&self) -> (r: String)
        ensures
            r@ == self@.connection_url(),
    {
        let port = format_u64(self.port as u64);
        let mut r = String::new();
        r.append("postgresql://");
        r.append(self.user.as_str());
        r.append(":");
        r.append(self.password.as_str());
        r.append("@");
        r.append(self.host.as_str());
        r.append(":");
        r.append(port.as_str());
        r.append("/");
        r.append(self.database.as_str());
        if self.ssl {
            r.append("?sslmode=require");
        } else {
            r.append("");
        }
        r
    }

    /// The connection settings as environment variables of the client tools.
    pub fn env_vars(&self) -> (r: Vec<(String, String)>)
        ensures
            pair_views(r@) == self@.env_vars(),
    {
        let mut r: Vec<(String, String)> = Vec::new();
        r.push(("PGHOST".to_owned(), self.host.clone()));
        r.push(("PGPORT".to_owned(), format_u64(self.port as u64)));
        r.push(("PGDATABASE".to_owned(), self.database.clone()));
        r.push(("PGUSER".to_owned(), self.user.clone()));
        r.push(("PGPASSWORD".to_owned(), self.password.clone()));
        if self.ssl {
            r.push(("PGSSLMODE".to_owned(), "require".to_owned()));
        }
        r
    }

    /// The `sslmode` that a connection with this profile asks for.
    pub fn ssl_mode(&self) -> (r: &'static str)
        ensures
            r@ == ssl_mode_text(self.ssl),
    {
        if self.ssl {
            "require"
        } else {
            "prefer"
        }
    }
}

/// What is known of one table of a database.
#[derive(Debug)]
pub struct TableInfo {
    pub name: String,
    pub schema: String,
    pub row_count: i64,
    pub size: i64,
}

pub struct TableInfoView {
    pub name: Seq<char>,
    pub schema: Seq<char>,
    pub row_count: i64,
    pub size: i64,
}

impl View for TableInfo {
    type V = TableInfoView;

    open spec fn view(&self) -> TableInfoView {
        TableInfoView {
            name: self.name@,
            schema: self.schema@,
            row_count: self.row_count,
            size: self.size,
        }
    }
}

/// The views of a sequence of table descriptions.
pub open spec fn table_views(v: Seq<TableInfo>) -> Seq<TableInfoView> {
    Seq::new(v.len(), |i: int| v[i]@)
}

/// What a connection test found out about a database.
#[derive(Debug)]
pub struct DatabaseInfo {
    pub tables: Vec<TableInfo>,
    pub total_size: i64,
    pub version: String,
}

pub struct DatabaseInfoView {
    pub tables: Seq<TableInfoView>,
    pub total_size: i64,
    pub version: Seq<char>,
}

impl View for DatabaseInfo {
    type V = DatabaseInfoView;

    open spec fn view(&self) -> DatabaseInfoView {
        DatabaseInfoView {
            tables: table_views(self.tables@),
            total_size: self.total_size,
            version: self.version@,
        }
    }
}

/// How much of a database a clone transfers.
#[derive(Clone, Copy, Debug, PartialEq, Eq, Structural)]
pub enum CloneType {
    /// The schema only.
    Structure,
    /// The rows only; the destination must already have the schema.
    Data,
    /// Schema and rows.
    Both,
}

impl CloneType {
    /// The name of the clone type as it appears in log lines.
    pub open spec fn label_text(self) -> Seq<char> {
        match self {
            CloneType::Structure => "Structure"@,
            CloneType::Data => "Data"@,
            CloneType::Both => "Both"@,
        }
    }

    /// The name of the clone type as it appears in log lines.
    pub fn label(&self) -> (r: &'static str)
        ensures
            r@ == self.label_text(),
    {
        match self {
            CloneType::Structure => "Structure",
            CloneType::Data => "Data",
            CloneType::Both => "Both",
        }
    }
}

/// What a caller asks of one clone run.
#[derive(Debug)]
pub struct CloneOptions {
    pub source_id: String,
    pub destination_id: String,
    pub clean_destination: bool,
    pub create_backup: bool,
    pub clone_type: CloneType,
    pub exclude_tables: Vec<String>,
}

pub struct CloneOptionsView {
    pub source_id: Seq<char>,
    pub destination_id: Seq<char>,
    pub clean_destination: bool,
    pub create_backup: bool,
    pub clone_type: CloneType,
    pub exclude_tables: Seq<Seq<char>>,
}

impl View for CloneOptions {
    type V = CloneOptionsView;

    open spec fn view(&self) -> CloneOptionsView {
        CloneOptionsView {
            source_id: self.source_id@,
            destination_id: self.destination_id@,
            clean_destination: self.clean_destination,
            create_backup: self.create_backup,
            clone_type: self.clone_type,
            exclude_tables: string_views(self.exclude_tables@),
        }
    }
}

impl Clone for CloneOptions {
    fn clone(&self) -> (r: Self)
        ensures
            r@ == self@,
    {
        CloneOptions {
            source_id: self.source_id.clone(),
            destination_id: self.destination_id.clone(),
            clean_destination: self.clean_destination,
            create_backup: self.create_backup,
            clone_type: self.clone_type,
            exclude_tables: copy_strings(&self.exclude_tables),
        }
    }
}

/// One report on how far a clone run has come.
#[derive(Debug)]
pub struct CloneProgress {
    pub stage: String,
    pub progress: u8,
    pub message: String,
    pub is_complete: bool,
    pub is_error: bool,
}

pub struct CloneProgressView {
    pub stage: Seq<char>,
    pub progress: u8,
    pub message: Seq<char>,
    pub is_complete: bool,
    pub is_error: bool,
}

impl View for CloneProgress {
    type V = CloneProgressView;

    open spec fn view(&self) -> CloneProgressView {
        CloneProgressView {
            stage: self.stage@,
            progress: self.progress,
            message: self.message@,
            is_complete: self.is_complete,
            is_error: self.is_error,
        }
    }
}

impl CloneProgressView {
    /// The report of a stage that is under way.
    pub open spec fn running(stage: Seq<char>, progress: u8, message: Seq<char>) -> Self {
        CloneProgressView { stage, progress, message, is_complete: false, is_error: false }
    }

    /// The last report of a run that succeeded.
    pub open spec fn completed(message: Seq<char>) -> Self {
        CloneProgressView {
            stage: "completed"@,
            progress: 100,
            message,
            is_complete: true,
            is_error: false,
        }
    }

    /// The last report of a run that failed.
    pub open spec fn error(message: Seq<char>) -> Self {
        CloneProgressView {
            stage: "error"@,
            progress: 0,
            message,
            is_complete: true,
            is_error: true,
        }
    }
}

impl CloneProgress {
    /// The report of a stage that is under way.
    pub fn new(stage: &str, progress: u8, message: &str) -> (r: CloneProgress)
        ensures
            r@ == CloneProgressView::running(stage@, progress, message@),
    {
        CloneProgress {
            stage: stage.to_owned(),
            progress,
            message: message.to_owned(),
            is_complete: false,
            is_error: false,
        }
    }

    /// The last report of a run that succeeded: complete, at 100 percent.
    pub fn completed(message: &str) -> (r: CloneProgress)
        ensures
            r@ == CloneProgressView::completed(message@),
    {
        CloneProgress {
            stage: "completed".to_owned(),
            progress: 100,
            message: message.to_owned(),
            is_complete: true,
            is_error: false,
        }
    }

    /// The last report of a run that failed: complete, in error, back at 0
    /// percent.
    pub fn error(message: &str) -> (r: CloneProgress)
        ensures
            r@ == CloneProgressView::error(message@),
    {
        CloneProgress {
            stage: "error".to_owned(),
            progress: 0,
            message: message.to_owned(),
            is_complete: true,
            is_error: true,
        }
    }
}

/// How a clone run ended.
#[derive(Clone, Copy, Debug, PartialEq, Eq, Structural)]
pub enum CloneStatus {
    Success,
    Error,
    Cancelled,
}

/// The record of one clone run.
#[derive(Debug)]
pub struct CloneHistoryEntry {
    pub id: String,
    pub source_id: String,
    pub source_name: String,
    pub destination_id: String,
    pub destination_name: String,
    pub clone_type: CloneType,
    pub status: CloneStatus,
    pub started_at: Timestamp,
    pub completed_at: Option<Timestamp>,
    pub duration: Option<i64>,
    pub error_message: Option<String>,
    pub logs: Vec<String>,
}

pub struct CloneHistoryEntryView {
    pub id: Seq<char>,
    pub source_id: Seq<char>,
    pub source_name: Seq<char>,
    pub destination_id: Seq<char>,
    pub destination_name: Seq<char>,
    pub clone_type: CloneType,
    pub status: CloneStatus,
    pub started_at: Timestamp,
    pub completed_at: Option<Timestamp>,
    pub duration: Option<i64>,
    pub error_message: Option<Seq<char>>,
    pub logs: Seq<Seq<char>>,
}

impl View for CloneHistoryEntry {
    type V = CloneHistoryEntryView;

    open spec fn view(&self) -> CloneHistoryEntryView {
        CloneHistoryEntryView {
            id: self.id@,
            source_id: self.source_id@,
            source_name: self.source_name@,
            destination_id: self.destination_id@,
            destination_name: self.destination_name@,
            clone_type: self.clone_type,
            status: self.status,
            started_at: self.started_at,
            completed_at: self.completed_at,
            duration: self.duration,
            error_message: opt_text(self.error_message),
            logs: string_views(self.logs@),
        }
    }
}

impl Clone for CloneHistoryEntry {
    fn clone(&self) -> (r: Self)
        ensures
            r@ == self@,
    {
        CloneHistoryEntry {
            id: self.id.clone(),
            source_id: self.source_id.clone(),
            source_name: self.source_name.clone(),
            destination_id: self.destination_id.clone(),
            destination_name: self.destination_name.clone(),
            clone_type: self.clone_type,
            status: self.status,
            started_at: self.started_at,
            completed_at: self.completed_at,
            duration: self.duration,
            error_message: copy_opt(&self.error_message),
            logs: copy_strings(&self.logs),
        }
    }
}

impl CloneHistoryEntryView {
    /// Whether the record is consistent: its start is a well-formed instant;
    /// while the run is open it has neither completion time nor duration;
    /// once the run is closed the completion is not before the start and the
    /// duration is the whole seconds between the two.
    pub open spec fn wf(self) -> bool {
        &&& self.started_at.wf()
        &&& match self.completed_at {
            None => self.duration is None,
            Some(end) => {
                &&& end.wf()
                &&& self.started_at.nanos_since_epoch() <= end.nanos_since_epoch()
                &&& self.duration == Some(seconds_between(self.started_at, end) as i64)
                &&& seconds_between(self.started_at, end) >= 0
            },
        }
    }

    /// The record of a run from `source` to `destination` that starts at
    /// `now`: open, optimistically marked as a success, with an empty log.
    pub open spec fn started(
        id: Seq<char>,
        now: Timestamp,
        source: ConnectionProfileView,
        destination: ConnectionProfileView,
        clone_type: CloneType,
    ) -> Self {
        CloneHistoryEntryView {
            id,
            source_id: source.id,
            source_name: source.name,
            destination_id: destination.id,
            destination_name: destination.name,
            clone_type,
            status: CloneStatus::Success,
            started_at: now,
            completed_at: None,
            duration: None,
            error_message: None,
            logs: Seq::empty(),
        }
    }

    /// The record closed at `now` with the given status and message. A clock
    /// that reads earlier than the start closes the run at its start.
    pub open spec fn completed(
        self,
        now: Timestamp,
        status: CloneStatus,
        error_message: Option<Seq<char>>,
    ) -> Self {
        let end = later(self.started_at, now);
        CloneHistoryEntryView {
            status,
            completed_at: Some(end),
            duration: Some(seconds_between(self.started_at, end) as i64),
            error_message,
            ..self
        }
    }

    /// The record with one more log line at the end.
    pub open spec fn logged(self, line: Seq<char>) -> Self {
        CloneHistoryEntryView { logs: self.logs.push(line), ..self }
    }
}

impl CloneHistoryEntry {
    /// Whether the record is consistent; see `CloneHistoryEntryView::wf`.
    pub open spec fn wf(&self) -> bool {
        self@.wf()
    }

    /// The record of a run that starts at `now` under the identifier `id`.
    pub fn started(
        id: String,
        now: Timestamp,
        source: &ConnectionProfile,
        destination: &ConnectionProfile,
        clone_type: CloneType,
    ) -> (r: CloneHistoryEntry)
        ensures
            r@ == CloneHistoryEntryView::started(id@, now, source@, destination@, clone_type),
            now.wf() ==> r.wf(),
    {
        let r = CloneHistoryEntry {
            id,
            source_id: source.id.clone(),
            source_name: source.name.clone(),
            destination_id: destination.id.clone(),
            destination_name: destination.name.clone(),
            clone_type,
            status: CloneStatus::Success,
            started_at: now,
            completed_at: None,
            duration: None,
            error_message: None,
            logs: Vec::new(),
        };
        proof {
            assert(string_views(r.logs@) =~= Seq::<Seq<char>>::empty());
        }
        r
    }

    /// The record of a run that starts now under a fresh identifier.
    pub fn new(
        source: &ConnectionProfile,
        destination: &ConnectionProfile,
        clone_type: CloneType,
    ) -> (r: CloneHistoryEntry)
        ensures
            r.wf(),
            crate::ident::is_hyphenated_id(r@.id),
            r@ == CloneHistoryEntryView::started(
                r@.id,
                r@.started_at,
                source@,
                destination@,
                clone_type,
            ),
    {
        CloneHistoryEntry::started(fresh_id(), current_time(), source, destination, clone_type)
    }

    /// Closes the record at `now` with the final status and message.
    pub fn complete_at(
        &mut self,
        now: Timestamp,
        status: CloneStatus,
        error_message: Option<String>,
    )
        requires
            old(self).started_at.wf(),
            now.wf(),
        ensures
            final(self)@ == old(self)@.completed(now, status, opt_text(error_message)),
            final(self).wf(),
    {
        let end = Timestamp::later_of(self.started_at, now);
        self.completed_at = Some(end);
        self.duration = Some(end.seconds_since(&self.started_at));
        self.status = status;
        self.error_message = error_message;
    }

    /// Closes the record now with the final status and message.
    pub fn complete(&mut self, status: CloneStatus, error_message: Option<String>)
        requires
            old(self).started_at.wf(),
        ensures
            final(self).wf(),
            final(self)@.completed_at is Some,
            final(self)@.completed_at->0.wf(),
            final(self)@ == old(self)@.completed(
                final(self)@.completed_at->0,
                status,
                opt_text(error_message),
            ),
    {
        let now = current_time();
        self.complete_at(now, status, error_message);
    }

    /// Appends one line to the log of the run.
    pub fn add_log(&mut self, log: String)
        ensures
            final(self)@ == old(self)@.logged(log@),
    {
        let ghost before = self.logs@;
        self.logs.push(log);
        proof {
            assert(string_views(self.logs@) =~= string_views(before).push(log@));
        }
    }
}

/// A clone that the user saved to run again.
#[derive(Debug)]
pub struct SavedOperation {
    pub id: String,
    pub name: String,
    pub source_id: String,
    pub destination_id: String,
    pub clean_destination: bool,
    pub create_backup: bool,
    pub clone_type: CloneType,
    pub created_at: Timestamp,
}

pub struct SavedOperationView {
    pub id: Seq<char>,
    pub name: Seq<char>,
    pub source_id: Seq<char>,
    pub destination_id: Seq<char>,
    pub clean_destination: bool,
    pub create_backup: bool,
    pub clone_type: CloneType,
    pub created_at: Timestamp,
}

impl View for SavedOperation {
    type V = SavedOperationView;

    open spec fn view(&self) -> SavedOperationView {
        SavedOperationView {
            id: self.id@,
            name: self.name@,
            source_id: self.source_id@,
            destination_id: self.destination_id@,
            clean_destination: self.clean_destination,
            create_backup: self.create_backup,
            clone_type: self.clone_type,
            created_at: self.created_at,
        }
    }
}

impl SavedOperation {
    /// The saved operation with the given identifier, created at `now`.
    pub fn with_identity(
        id: String,
        now: Timestamp,
        name: String,
        source_id: String,
        destination_id: String,
        clean_destination: bool,
        create_backup: bool,
        clone_type: CloneType,
    ) -> (r: SavedOperation)
        ensures
            r@ == (SavedOperationView {
                id: id@,
                name: name@,
                source_id: source_id@,
                destination_id: destination_id@,
                clean_destination,
                create_backup,
                clone_type,
                created_at: now,
            }),
    {
        SavedOperation {
            id,
            name,
            source_id,
            destination_id,
            clean_destination,
            create_backup,
            clone_type,
            created_at: now,
        }
    }

    /// A saved operation with a fresh identifier, created now.
    pub fn new(
        name: String,
        source_id: String,
        destination_id: String,
        clean_destination: bool,
        create_backup: bool,
        clone_type: CloneType,
    ) -> (r: SavedOperation)
        ensures
            crate::ident::is_hyphenated_id(r@.id),
            r@.created_at.wf(),
            r@ == (SavedOperationView {
                id: r@.id,
                name: name@,
                source_id: source_id@,
                destination_id: destination_id@,
                clean_destination,
                create_backup,
                clone_type,
                created_at: r@.created_at,
            }),
    {
        SavedOperation::with_identity(
            fresh_id(),
            current_time(),
            name,
            source_id,
            destination_id,
            clean_destination,
            create_backup,
            clone_type,
        )
    }
}

} // verus!
