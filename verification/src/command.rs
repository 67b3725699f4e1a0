//! The invocations of the client tools: which program runs, with which
//! arguments, and with which environment. Credentials travel in the
//! environment, never among the arguments.

use vstd::prelude::*;
use crate::classify::Tool;
use crate::number::{decimal, format_u64};
use crate::policy::{dump_format, dump_format_of, DumpFormat};
use crate::text::{push_str, push_text, string_views};
use crate::types::{pair_views, ssl_mode_text, CloneType, ConnectionProfile, ConnectionProfileView};

verus! {

/// Where the three client tools are.
#[derive(Debug)]
pub struct ToolPaths {
    pub pg_dump: String,
    pub psql: String,
    pub pg_restore: String,
}

pub struct ToolPathsView {
    pub pg_dump: Seq<char>,
    pub psql: Seq<char>,
    pub pg_restore: Seq<char>,
}

impl View for ToolPaths {
    type V = ToolPathsView;

    open spec fn view(&self) -> ToolPathsView {
        ToolPathsView { pg_dump: self.pg_dump@, psql: self.psql@, pg_restore: self.pg_restore@ }
    }
}

impl ToolPathsView {
    /// The path of `tool`.
    pub open spec fn path_of(self, tool: Tool) -> Seq<char> {
        match tool {
            Tool::PgDump => self.pg_dump,
            Tool::Psql => self.psql,
            Tool::PgRestore => self.pg_restore,
        }
    }
}

impl ToolPaths {
    /// The path of `tool`.
    pub fn path_of(&self, tool: Tool) -> (r: &String)
        ensures
            r@ == self@.path_of(tool),
    {
        match tool {
            Tool::PgDump => &self.pg_dump,
            Tool::Psql => &self.psql,
            Tool::PgRestore => &self.pg_restore,
        }
    }
}

/// One run of a client tool.
#[derive(Debug)]
pub struct Invocation {
    pub tool: Tool,
    pub program: String,
    pub args: Vec<String>,
    pub env: Vec<(String, String)>,
}

pub struct InvocationView {
    pub tool: Tool,
    pub program: Seq<char>,
    pub args: Seq<Seq<char>>,
    pub env: Seq<(Seq<char>, Seq<char>)>,
}

impl View for Invocation {
    type V = InvocationView;

    open spec fn view(&self) -> InvocationView {
        InvocationView {
            tool: self.tool,
            program: self.program@,
            args: string_views(self.args@),
            env: pair_views(self.env@),
        }
    }
}

/// The connection string of a profile: host, port, database and user. The
/// password is not part of it.
pub open spec fn conninfo_text(p: ConnectionProfileView) -> Seq<char> {
    "host="@ + p.host + " port="@ + decimal(p.port as nat) + " dbname="@ + p.database + " user="@
        + p.user
}

/// The environment that carries the credentials of a profile: the password
/// and the SSL mode.
pub open spec fn credentials_text(p: ConnectionProfileView) -> Seq<(Seq<char>, Seq<char>)> {
    seq![("PGPASSWORD"@, p.password), ("PGSSLMODE"@, ssl_mode_text(p.ssl))]
}

/// The flags that choose the format of a dump: custom with light
/// compression, or plain.
pub open spec fn format_flags(format: DumpFormat) -> Seq<Seq<char>> {
    match format {
        DumpFormat::Custom => seq!["-Fc"@, "-Z"@, "1"@],
        DumpFormat::Plain => seq!["-Fp"@],
    }
}

/// The flags that choose what a dump holds.
pub open spec fn content_flags(clone_type: CloneType) -> Seq<Seq<char>> {
    match clone_type {
        CloneType::Structure => seq!["--schema-only"@],
        CloneType::Data => seq!["--data-only"@, "--disable-triggers"@],
        CloneType::Both => Seq::empty(),
    }
}

/// The flags that keep the given tables out of a dump, in their order.
pub open spec fn exclusion_flags(tables: Seq<Seq<char>>) -> Seq<Seq<char>>
    decreases tables.len(),
{
    if tables.len() == 0 {
        Seq::empty()
    } else {
        exclusion_flags(tables.drop_last()).push("--exclude-table"@).push(tables.last())
    }
}

/// The arguments of the dump of a clone.
pub open spec fn dump_args_text(
    conninfo: Seq<char>,
    clone_type: CloneType,
    exclude_tables: Seq<Seq<char>>,
    path: Seq<char>,
) -> Seq<Seq<char>> {
    seq!["-d"@, conninfo] + format_flags(dump_format_of(clone_type)) + content_flags(clone_type)
        + exclusion_flags(exclude_tables) + seq!["-f"@, path]
}

/// The arguments of a full plain dump into `path`, as a backup takes it.
pub open spec fn backup_args_text(conninfo: Seq<char>, path: Seq<char>) -> Seq<Seq<char>> {
    seq!["-d"@, conninfo, "-f"@, path]
}

/// The arguments of a parallel restore of `archive` with `jobs` jobs.
pub open spec fn restore_args_text(conninfo: Seq<char>, jobs: usize, archive: Seq<char>) -> Seq<
    Seq<char>,
> {
    seq![
        "-d"@,
        conninfo,
        "-j"@,
        decimal(jobs as nat),
        "--no-owner"@,
        "--no-privileges"@,
        "-v"@,
        archive,
    ]
}

/// The arguments with which the SQL shell runs the script at `path`.
pub open spec fn script_args_text(conninfo: Seq<char>, path: Seq<char>) -> Seq<Seq<char>> {
    seq!["-d"@, conninfo, "-f"@, path]
}

/// The arguments with which the SQL shell runs the command `sql`.
pub open spec fn command_args_text(conninfo: Seq<char>, sql: Seq<char>) -> Seq<Seq<char>> {
    seq!["-d"@, conninfo, "-c"@, sql]
}

/// The arguments with which the SQL shell runs the query `sql` and prints
/// the rows only.
pub open spec fn query_args_text(conninfo: Seq<char>, sql: Seq<char>) -> Seq<Seq<char>> {
    seq!["-d"@, conninfo, "-t"@, "-c"@, sql]
}

/// The invocation of `tool` against the database of `profile`.
pub open spec fn invocation_of(
    tools: ToolPathsView,
    tool: Tool,
    profile: ConnectionProfileView,
    args: Seq<Seq<char>>,
) -> InvocationView {
    InvocationView { tool, program: tools.path_of(tool), args, env: credentials_text(profile) }
}

/// The connection string of a profile.
pub fn conninfo(profile: &ConnectionProfile) -> (r: String)
    ensures
        r@ == conninfo_text(profile@),
{
    let port = format_u64(profile.port as u64);
    let mut r = String::new();
    r.append("host=");
    r.append(profile.host.as_str());
    r.append(" port=");
    r.append(port.as_str());
    r.append(" dbname=");
    r.append(profile.database.as_str());
    r.append(" user=");
    r.append(profile.user.as_str());
    r
}

/// The environment that carries the credentials of a profile.
pub fn credentials(profile: &ConnectionProfile) -> (r: Vec<(String, String)>)
    ensures
        pair_views(r@) == credentials_text(profile@),
{
    let mut r: Vec<(String, String)> = Vec::new();
    r.push(("PGPASSWORD".to_owned(), profile.password.clone()));
    r.push(("PGSSLMODE".to_owned(), profile.ssl_mode().to_owned()));
    r
}

/// The arguments of the dump of a clone.
pub fn dump_args(
    conninfo: &str,
    clone_type: CloneType,
    exclude_tables: &Vec<String>,
    path: &str,
) -> (r: Vec<String>)
    ensures
        string_views(r@) == dump_args_text(
            conninfo@,
            clone_type,
            string_views(exclude_tables@),
            path@,
        ),
{
    let mut r: Vec<String> = Vec::new();
    proof {
        assert(string_views(r@) =~= Seq::<Seq<char>>::empty());
    }
    push_str(&mut r, "-d");
    push_str(&mut r, conninfo);
    match dump_format(clone_type) {
        DumpFormat::Custom => {
            push_str(&mut r, "-Fc");
            push_str(&mut r, "-Z");
            push_str(&mut r, "1");
        },
        DumpFormat::Plain => {
            push_str(&mut r, "-Fp");
        },
    }
    match clone_type {
        CloneType::Structure => {
            push_str(&mut r, "--schema-only");
        },
        CloneType::Data => {
            push_str(&mut r, "--data-only");
            push_str(&mut r, "--disable-triggers");
        },
        CloneType::Both => {},
    }
    let ghost head = seq!["-d"@, conninfo@] + format_flags(dump_format_of(clone_type))
        + content_flags(clone_type);
    let ghost tables = string_views(exclude_tables@);
    proof {
        assert(string_views(r@) =~= head);
        assert(tables.take(0) =~= Seq::<Seq<char>>::empty());
        assert(head + exclusion_flags(tables.take(0)) =~= head);
    }
    let mut i: usize = 0;
    while i < exclude_tables.len()
        invariant
            i <= exclude_tables.len(),
            tables == string_views(exclude_tables@),
            string_views(r@) == head + exclusion_flags(tables.take(i as int)),
        decreases exclude_tables.len() - i,
    {
        let ghost before = string_views(r@);
        push_str(&mut r, "--exclude-table");
        push_text(&mut r, exclude_tables[i].clone());
        proof {
            let next = tables.take(i + 1);
            assert(next.drop_last() =~= tables.take(i as int));
            assert(next.last() == exclude_tables@[i as int]@);
            assert(string_views(r@) =~= head + exclusion_flags(next));
        }
        i += 1;
    }
    proof {
        assert(tables.take(exclude_tables@.len() as int) =~= tables);
    }
    let ghost body = string_views(r@);
    push_str(&mut r, "-f");
    push_str(&mut r, path);
    proof {
        assert(string_views(r@) =~= body + seq!["-f"@, path@]);
    }
    r
}

/// The arguments of a full plain dump into `path`.
pub fn backup_args(conninfo: &str, path: &str) -> (r: Vec<String>)
    ensures
        string_views(r@) == backup_args_text(conninfo@, path@),
{
    let mut r: Vec<String> = Vec::new();
    proof {
        assert(string_views(r@) =~= Seq::<Seq<char>>::empty());
    }
    push_str(&mut r, "-d");
    push_str(&mut r, conninfo);
    push_str(&mut r, "-f");
    push_str(&mut r, path);
    proof {
        assert(string_views(r@) =~= backup_args_text(conninfo@, path@));
    }
    r
}

/// The arguments of a parallel restore of `archive` with `jobs` jobs.
pub fn restore_args(conninfo: &str, jobs: usize, archive: &str) -> (r: Vec<String>)
    ensures
        string_views(r@) == restore_args_text(conninfo@, jobs, archive@),
{
    let mut r: Vec<String> = Vec::new();
    proof {
        assert(string_views(r@) =~= Seq::<Seq<char>>::empty());
    }
    push_str(&mut r, "-d");
    push_str(&mut r, conninfo);
    push_str(&mut r, "-j");
    push_text(&mut r, format_u64(jobs as u64));
    push_str(&mut r, "--no-owner");
    push_str(&mut r, "--no-privileges");
    push_str(&mut r, "-v");
    push_str(&mut r, archive);
    proof {
        assert(string_views(r@) =~= restore_args_text(conninfo@, jobs, archive@));
    }
    r
}

/// The arguments with which the SQL shell runs the script at `path`.
pub fn script_args(conninfo: &str, path: &str) -> (r: Vec<String>)
    ensures
        string_views(r@) == script_args_text(conninfo@, path@),
{
    let mut r: Vec<String> = Vec::new();
    proof {
        assert(string_views(r@) =~= Seq::<Seq<char>>::empty());
    }
    push_str(&mut r, "-d");
    push_str(&mut r, conninfo);
    push_str(&mut r, "-f");
    push_str(&mut r, path);
    proof {
        assert(string_views(r@) =~= script_args_text(conninfo@, path@));
    }
    r
}

/// The arguments with which the SQL shell runs the command `sql`.
pub fn command_args(conninfo: &str, sql: &str) -> (r: Vec<String>)
    ensures
        string_views(r@) == command_args_text(conninfo@, sql@),
{
    let mut r: Vec<String> = Vec::new();
    proof {
        assert(string_views(r@) =~= Seq::<Seq<char>>::empty());
    }
    push_str(&mut r, "-d");
    push_str(&mut r, conninfo);
    push_str(&mut r, "-c");
    push_str(&mut r, sql);
    proof {
        assert(string_views(r@) =~= command_args_text(conninfo@, sql@));
    }
    r
}

/// The arguments with which the SQL shell runs the query `sql` and prints
/// the rows only.
pub fn query_args(conninfo: &str, sql: &str) -> (r: Vec<String>)
    ensures
        string_views(r@) == query_args_text(conninfo@, sql@),
{
    let mut r: Vec<String> = Vec::new();
    proof {
        assert(string_views(r@) =~= Seq::<Seq<char>>::empty());
    }
    push_str(&mut r, "-d");
    push_str(&mut r, conninfo);
    push_str(&mut r, "-t");
    push_str(&mut r, "-c");
    push_str(&mut r, sql);
    proof {
        assert(string_views(r@) =~= query_args_text(conninfo@, sql@));
    }
    r
}

/// The invocation of `tool` against the database of `profile`.
pub fn invocation(tools: &ToolPaths, tool: Tool, profile: &ConnectionProfile, args: Vec<String>)
    -> (r: Invocation)
    ensures
        r@ == invocation_of(tools@, tool, profile@, string_views(args@)),
{
    Invocation { tool, program: tools.path_of(tool).clone(), args, env: credentials(profile) }
}

} // verus!
