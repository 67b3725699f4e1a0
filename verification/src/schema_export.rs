//! The schema export: dumps the schema of one database as plain SQL and
//! filters out the kinds of statements that the caller left out.
//!
//! The export has two steps around one run of the dump tool: `begin_export`
//! says what to report and what to run, `finish_export` takes what the tool
//! printed and gives the filtered schema.

use vstd::prelude::*;
use vstd::utf8::encode_utf8;
use crate::classify::Tool;
use crate::command::{
    conninfo, conninfo_text, credentials, credentials_text, Invocation, InvocationView,
};
use crate::events::{ToolOutput, ToolOutputView};
use crate::number::{decimal, format_u64};
use crate::schema_filter::{filter_text, filtered_text, removed_count, FilteredSchema, Inclusions};
use crate::text::{glue, glue3, push_str, push_text, string_views};
use crate::types::{CloneProgress, CloneProgressView, ConnectionProfile, ConnectionProfileView};

verus! {

/// The progress reports of a schema export have the shape of those of a
/// clone.
pub type SchemaProgress = CloneProgress;

/// What a caller asks of one schema export.
#[derive(Debug)]
pub struct SchemaExportOptions {
    pub profile_id: String,
    /// The schemas to export; all of them where the list is empty.
    pub schemas: Vec<String>,
    /// The tables to export; all of them where the list is empty.
    pub tables: Vec<String>,
    pub include_comments: bool,
    pub include_indexes: bool,
    pub include_constraints: bool,
    pub include_triggers: bool,
    pub include_sequences: bool,
    pub include_types: bool,
    pub include_functions: bool,
    pub include_views: bool,
}

pub struct SchemaExportOptionsView {
    pub profile_id: Seq<char>,
    pub schemas: Seq<Seq<char>>,
    pub tables: Seq<Seq<char>>,
    pub inclusions: Inclusions,
}

impl View for SchemaExportOptions {
    type V = SchemaExportOptionsView;

    open spec fn view(&self) -> SchemaExportOptionsView {
        SchemaExportOptionsView {
            profile_id: self.profile_id@,
            schemas: string_views(self.schemas@),
            tables: string_views(self.tables@),
            inclusions: self.inclusions_of(),
        }
    }
}

impl SchemaExportOptionsView {
    /// Whether the options differ from a plain export of everything.
    pub open spec fn is_advanced(self) -> bool {
        self.schemas.len() > 0 || self.tables.len() > 0 || !self.inclusions.keeps_everything()
    }
}

impl SchemaExportOptions {
    /// Which kinds of statements stay in the export.
    pub open spec fn inclusions_of(&self) -> Inclusions {
        Inclusions {
            comments: self.include_comments,
            indexes: self.include_indexes,
            constraints: self.include_constraints,
            triggers: self.include_triggers,
            sequences: self.include_sequences,
            types: self.include_types,
            functions: self.include_functions,
            views: self.include_views,
        }
    }

    /// The options that export everything from the database of the profile
    /// `profile_id`: no restriction to schemas or tables, every kind of
    /// statement included.
    pub fn everything(profile_id: String) -> (r: SchemaExportOptions)
        ensures
            r@ == (SchemaExportOptionsView {
                profile_id: profile_id@,
                schemas: Seq::empty(),
                tables: Seq::empty(),
                inclusions: Inclusions::everything(),
            }),
            !r@.is_advanced(),
    {
        let r = SchemaExportOptions {
            profile_id,
            schemas: Vec::new(),
            tables: Vec::new(),
            include_comments: true,
            include_indexes: true,
            include_constraints: true,
            include_triggers: true,
            include_sequences: true,
            include_types: true,
            include_functions: true,
            include_views: true,
        };
        proof {
            assert(string_views(r.schemas@) =~= Seq::<Seq<char>>::empty());
            assert(string_views(r.tables@) =~= Seq::<Seq<char>>::empty());
        }
        r
    }

    /// Which kinds of statements stay in the export.
    pub fn inclusions(&self) -> (r: Inclusions)
        ensures
            r == self@.inclusions,
    {
        Inclusions {
            comments: self.include_comments,
            indexes: self.include_indexes,
            constraints: self.include_constraints,
            triggers: self.include_triggers,
            sequences: self.include_sequences,
            types: self.include_types,
            functions: self.include_functions,
            views: self.include_views,
        }
    }

    /// Whether the options differ from a plain export of everything.
    pub fn has_advanced_options(&self) -> (r: bool)
        ensures
            r == self@.is_advanced(),
    {
        self.schemas.len() > 0 || self.tables.len() > 0 || !self.include_comments
            || !self.include_indexes || !self.include_constraints || !self.include_triggers
            || !self.include_sequences || !self.include_types || !self.include_functions
            || !self.include_views
    }
}

impl Default for SchemaExportOptions {
    fn default() -> (r: Self)
        ensures
            r@ == (SchemaExportOptionsView {
                profile_id: Seq::empty(),
                schemas: Seq::empty(),
                tables: Seq::empty(),
                inclusions: Inclusions::everything(),
            }),
    {
        SchemaExportOptions::everything(String::new())
    }
}

/// Removes from the schema dump `content` the kinds of statements that
/// `options` leaves out, and counts the statements removed.
pub fn filter_schema_content(content: &str, options: &SchemaExportOptions) -> (r: FilteredSchema)
    ensures
        r.content@ == filtered_text(content@, options@.inclusions),
        r.excluded == removed_count(content@, options@.inclusions),
{
    let inclusions = options.inclusions();
    filter_text(content, &inclusions)
}

/// Something for the caller of an export to do.
#[derive(Debug)]
pub enum SchemaEffect {
    /// Report how far the export has come.
    Progress(SchemaProgress),
    /// Show one line of the export's log.
    Log(String),
    /// Tell the user that the schema was extracted, with its size in bytes.
    Extracted(usize),
}

pub enum SchemaEffectView {
    Progress(CloneProgressView),
    Log(Seq<char>),
    Extracted(usize),
}

impl View for SchemaEffect {
    type V = SchemaEffectView;

    open spec fn view(&self) -> SchemaEffectView {
        match self {
            SchemaEffect::Progress(p) => SchemaEffectView::Progress(p@),
            SchemaEffect::Log(line) => SchemaEffectView::Log(line@),
            SchemaEffect::Extracted(bytes) => SchemaEffectView::Extracted(*bytes),
        }
    }
}

/// The views of a sequence of export effects.
pub open spec fn schema_effect_views(v: Seq<SchemaEffect>) -> Seq<SchemaEffectView> {
    Seq::new(v.len(), |i: int| v[i]@)
}

/// How an export begins: what to report, then what to run.
#[derive(Debug)]
pub struct SchemaStart {
    pub effects: Vec<SchemaEffect>,
    pub invocation: Invocation,
}

pub struct SchemaStartView {
    pub effects: Seq<SchemaEffectView>,
    pub invocation: InvocationView,
}

impl View for SchemaStart {
    type V = SchemaStartView;

    open spec fn view(&self) -> SchemaStartView {
        SchemaStartView { effects: schema_effect_views(self.effects@), invocation: self.invocation@ }
    }
}

/// How an export ends: what to report, and the schema or the reason of the
/// failure.
#[derive(Debug)]
pub struct SchemaEnd {
    pub effects: Vec<SchemaEffect>,
    pub outcome: Result<String, String>,
}

pub struct SchemaEndView {
    pub effects: Seq<SchemaEffectView>,
    pub outcome: Result<Seq<char>, Seq<char>>,
}

impl View for SchemaEnd {
    type V = SchemaEndView;

    open spec fn view(&self) -> SchemaEndView {
        SchemaEndView {
            effects: schema_effect_views(self.effects@),
            outcome: match self.outcome {
                Ok(text) => Ok(text@),
                Err(reason) => Err(reason@),
            },
        }
    }
}

/// The items of `items` with a comma and a space between them.
pub open spec fn comma_list(items: Seq<Seq<char>>) -> Seq<char>
    decreases items.len(),
{
    if items.len() == 0 {
        Seq::empty()
    } else if items.len() == 1 {
        items[0]
    } else {
        comma_list(items.drop_last()) + ", "@ + items.last()
    }
}

/// The flag `flag` before each of `items`, in their order.
pub open spec fn flagged(flag: Seq<char>, items: Seq<Seq<char>>) -> Seq<Seq<char>>
    decreases items.len(),
{
    if items.len() == 0 {
        Seq::empty()
    } else {
        flagged(flag, items.drop_last()).push(flag).push(items.last())
    }
}

/// The arguments of the dump of a schema export: schema only, plain format,
/// restricted to the schemas and tables that the options name, and without
/// trigger handling where triggers are left out.
pub open spec fn schema_dump_args_text(conninfo: Seq<char>, options: SchemaExportOptionsView)
    -> Seq<Seq<char>> {
    seq!["-d"@, conninfo, "--schema-only"@, "-Fp"@] + flagged("--schema"@, options.schemas)
        + flagged("--table"@, options.tables) + if options.inclusions.triggers {
        Seq::<Seq<char>>::empty()
    } else {
        seq!["--disable-triggers"@]
    }
}

/// How the export of the database of `profile` begins.
pub open spec fn export_start(
    pg_dump: Seq<char>,
    profile: ConnectionProfileView,
    options: SchemaExportOptionsView,
) -> SchemaStartView {
    let opening = seq![
        SchemaEffectView::Progress(
            CloneProgressView::running("preparing"@, 10, "Preparing schema download..."@),
        ),
        SchemaEffectView::Log("[INFO] Starting schema download from '"@ + profile.name + "'"@),
        SchemaEffectView::Log(
            "[INFO] Database: "@ + profile.host + ":"@ + decimal(profile.port as nat) + "/"@
                + profile.database,
        ),
    ];
    let advanced = if options.is_advanced() {
        seq![SchemaEffectView::Log("[INFO] Using advanced export options"@)] + if options.schemas.len()
            > 0 {
            seq![SchemaEffectView::Log("[INFO] Schemas: "@ + comma_list(options.schemas))]
        } else {
            Seq::<SchemaEffectView>::empty()
        } + if options.tables.len() > 0 {
            seq![SchemaEffectView::Log("[INFO] Tables: "@ + comma_list(options.tables))]
        } else {
            Seq::<SchemaEffectView>::empty()
        }
    } else {
        Seq::<SchemaEffectView>::empty()
    };
    let dumping = seq![
        SchemaEffectView::Progress(
            CloneProgressView::running("dumping"@, 30, "Extracting database schema..."@),
        ),
        SchemaEffectView::Log("[INFO] Dumping schema only (no data)..."@),
    ];
    let triggers = if options.inclusions.triggers {
        Seq::<SchemaEffectView>::empty()
    } else {
        seq![SchemaEffectView::Log("[INFO] Excluding triggers"@)]
    };
    SchemaStartView {
        effects: opening + advanced + dumping + triggers,
        invocation: InvocationView {
            tool: Tool::PgDump,
            program: pg_dump,
            args: schema_dump_args_text(conninfo_text(profile), options),
            env: credentials_text(profile),
        },
    }
}

/// The log line that counts the statements that the filter removed, where
/// it removed any.
pub open spec fn filter_report(excluded: nat) -> Seq<SchemaEffectView> {
    if excluded > 0 {
        seq![
            SchemaEffectView::Log("[INFO] Filtered out "@ + decimal(excluded) + " statements"@),
        ]
    } else {
        Seq::empty()
    }
}

/// How the export ends once the dump tool has ended. A dump that exits with
/// a status other than zero fails the export, with what the tool wrote to
/// its error output. Any other dump is filtered and handed back.
pub open spec fn export_end(options: SchemaExportOptionsView, output: ToolOutputView)
    -> SchemaEndView {
    if !output.exited_zero {
        SchemaEndView {
            effects: seq![
                SchemaEffectView::Log("[ERROR] Schema dump failed: "@ + output.stderr),
                SchemaEffectView::Progress(
                    CloneProgressView::error("Dump failed: "@ + output.stderr),
                ),
            ],
            outcome: Err("Failed to dump schema: "@ + output.stderr),
        }
    } else {
        let text = filtered_text(output.stdout, options.inclusions);
        SchemaEndView {
            effects: seq![
                SchemaEffectView::Progress(
                    CloneProgressView::running("processing"@, 70, "Processing schema..."@),
                ),
            ] + filter_report(removed_count(output.stdout, options.inclusions)) + seq![
                SchemaEffectView::Extracted(encode_utf8(text).len() as usize),
                SchemaEffectView::Progress(
                    CloneProgressView::completed("Schema ready for download"@),
                ),
                SchemaEffectView::Log("[INFO] Schema ready for download"@),
            ],
            outcome: Ok(text),
        }
    }
}

/// What an export says where the dump tool could not be started.
pub open spec fn launch_failure_text(reason: Seq<char>) -> Seq<char> {
    "Failed to dump schema: "@ + reason
}

/// Appends `effect` to `effects`.
fn push_schema_effect(effects: &mut Vec<SchemaEffect>, effect: SchemaEffect)
    ensures
        schema_effect_views(final(effects)@) == schema_effect_views(old(effects)@).push(effect@),
{
    let ghost before = effects@;
    effects.push(effect);
    proof {
        assert(schema_effect_views(effects@) =~= schema_effect_views(before).push(effect@));
    }
}

/// Appends the log line `line` to `effects`.
fn note(effects: &mut Vec<SchemaEffect>, line: String)
    ensures
        schema_effect_views(final(effects)@) == schema_effect_views(old(effects)@).push(
            SchemaEffectView::Log(line@),
        ),
{
    push_schema_effect(effects, SchemaEffect::Log(line));
}

/// The items of `items` with a comma and a space between them.
pub fn comma_separated(items: &Vec<String>) -> (r: String)
    ensures
        r@ == comma_list(string_views(items@)),
{
    let mut r = String::new();
    let ghost all = string_views(items@);
    let mut i: usize = 0;
    proof {
        assert(all.take(0) =~= Seq::<Seq<char>>::empty());
    }
    while i < items.len()
        invariant
            i <= items.len(),
            all == string_views(items@),
            r@ == comma_list(all.take(i as int)),
        decreases items.len() - i,
    {
        if i > 0 {
            r.append(", ");
        }
        r.append(items[i].as_str());
        proof {
            let next = all.take(i + 1);
            assert(next.drop_last() =~= all.take(i as int));
            assert(next.last() == items@[i as int]@);
            if i == 0 {
                assert(r@ =~= next[0]);
            }
        }
        i += 1;
    }
    proof {
        assert(all.take(items@.len() as int) =~= all);
    }
    r
}

/// Appends the flag `flag` and an item to `args` for each of `items`.
fn push_flagged(args: &mut Vec<String>, flag: &str, items: &Vec<String>)
    ensures
        string_views(final(args)@) == string_views(old(args)@) + flagged(
            flag@,
            string_views(items@),
        ),
{
    let ghost head = string_views(args@);
    let ghost all = string_views(items@);
    let mut i: usize = 0;
    proof {
        assert(all.take(0) =~= Seq::<Seq<char>>::empty());
        assert(head + flagged(flag@, all.take(0)) =~= head);
    }
    while i < items.len()
        invariant
            i <= items.len(),
            all == string_views(items@),
            string_views(args@) == head + flagged(flag@, all.take(i as int)),
        decreases items.len() - i,
    {
        push_str(args, flag);
        push_text(args, items[i].clone());
        proof {
            let next = all.take(i + 1);
            assert(next.drop_last() =~= all.take(i as int));
            assert(next.last() == items@[i as int]@);
            assert(string_views(args@) =~= head + flagged(flag@, next));
        }
        i += 1;
    }
    proof {
        assert(all.take(items@.len() as int) =~= all);
    }
}

/// The arguments of the dump of a schema export.
pub fn schema_dump_args(conninfo: &str, options: &SchemaExportOptions) -> (r: Vec<String>)
    ensures
        string_views(r@) == schema_dump_args_text(conninfo@, options@),
{
    let mut r: Vec<String> = Vec::new();
    proof {
        assert(string_views(r@) =~= Seq::<Seq<char>>::empty());
    }
    push_str(&mut r, "-d");
    push_str(&mut r, conninfo);
    push_str(&mut r, "--schema-only");
    push_str(&mut r, "-Fp");
    proof {
        assert(string_views(r@) =~= seq!["-d"@, conninfo@, "--schema-only"@, "-Fp"@]);
    }
    push_flagged(&mut r, "--schema", &options.schemas);
    push_flagged(&mut r, "--table", &options.tables);
    if !options.include_triggers {
        let ghost before = string_views(r@);
        push_str(&mut r, "--disable-triggers");
        proof {
            assert(string_views(r@) =~= before + seq!["--disable-triggers"@]);
        }
    } else {
        proof {
            assert(string_views(r@) + Seq::<Seq<char>>::empty() =~= string_views(r@));
        }
    }
    r
}

/// How the export of the database of `profile` begins: what to report, and
/// the run of the dump tool at `pg_dump` to wait for.
pub fn begin_export(pg_dump: &str, profile: &ConnectionProfile, options: &SchemaExportOptions)
    -> (r: SchemaStart)
    ensures
        r@ == export_start(pg_dump@, profile@, options@),
{
    let mut effects: Vec<SchemaEffect> = Vec::new();
    proof {
        assert(schema_effect_views(effects@) =~= Seq::<SchemaEffectView>::empty());
    }
    push_schema_effect(
        &mut effects,
        SchemaEffect::Progress(
            CloneProgress::new("preparing", 10, "Preparing schema download..."),
        ),
    );
    note(&mut effects, glue3("[INFO] Starting schema download from '", profile.name.as_str(), "'"));
    let port = format_u64(profile.port as u64);
    let mut line = glue3("[INFO] Database: ", profile.host.as_str(), ":");
    line.append(port.as_str());
    line.append("/");
    line.append(profile.database.as_str());
    note(&mut effects, line);
    if options.has_advanced_options() {
        note(&mut effects, "[INFO] Using advanced export options".to_owned());
        if options.schemas.len() > 0 {
            let list = comma_separated(&options.schemas);
            note(&mut effects, glue("[INFO] Schemas: ", list.as_str()));
        }
        if options.tables.len() > 0 {
            let list = comma_separated(&options.tables);
            note(&mut effects, glue("[INFO] Tables: ", list.as_str()));
        }
    }
    push_schema_effect(
        &mut effects,
        SchemaEffect::Progress(CloneProgress::new("dumping", 30, "Extracting database schema...")),
    );
    note(&mut effects, "[INFO] Dumping schema only (no data)...".to_owned());
    if !options.include_triggers {
        note(&mut effects, "[INFO] Excluding triggers".to_owned());
    }
    let conn = conninfo(profile);
    let args = schema_dump_args(conn.as_str(), options);
    let r = SchemaStart {
        effects,
        invocation: Invocation {
            tool: Tool::PgDump,
            program: pg_dump.to_owned(),
            args,
            env: credentials(profile),
        },
    };
    proof {
        assert(r@.effects =~= export_start(pg_dump@, profile@, options@).effects);
    }
    r
}

/// How the export ends once the dump tool has ended; see `export_end`.
pub fn finish_export(options: &SchemaExportOptions, output: ToolOutput) -> (r: SchemaEnd)
    ensures
        r@ == export_end(options@, output@),
{
    let mut effects: Vec<SchemaEffect> = Vec::new();
    proof {
        assert(schema_effect_views(effects@) =~= Seq::<SchemaEffectView>::empty());
    }
    if !output.exited_zero {
        note(&mut effects, glue("[ERROR] Schema dump failed: ", output.stderr.as_str()));
        let message = glue("Dump failed: ", output.stderr.as_str());
        push_schema_effect(
            &mut effects,
            SchemaEffect::Progress(CloneProgress::error(message.as_str())),
        );
        let r = SchemaEnd {
            effects,
            outcome: Err(glue("Failed to dump schema: ", output.stderr.as_str())),
        };
        proof {
            assert(r@.effects =~= export_end(options@, output@).effects);
        }
        r
    } else {
        push_schema_effect(
            &mut effects,
            SchemaEffect::Progress(CloneProgress::new("processing", 70, "Processing schema...")),
        );
        let filtered = filter_schema_content(output.stdout.as_str(), options);
        if filtered.excluded > 0 {
            let count = format_u64(filtered.excluded as u64);
            note(&mut effects, glue3("[INFO] Filtered out ", count.as_str(), " statements"));
        }
        let size = filtered.content.as_str().len();
        push_schema_effect(&mut effects, SchemaEffect::Extracted(size));
        push_schema_effect(
            &mut effects,
            SchemaEffect::Progress(CloneProgress::completed("Schema ready for download")),
        );
        note(&mut effects, "[INFO] Schema ready for download".to_owned());
        let r = SchemaEnd { effects, outcome: Ok(filtered.content) };
        proof {
            assert(r@.effects =~= export_end(options@, output@).effects);
        }
        r
    }
}

/// What an export says where the dump tool could not be started.
pub fn launch_failure(reason: &str) -> (r: String)
    ensures
        r@ == launch_failure_text(reason@),
{
    glue("Failed to dump schema: ", reason)
}

} // verus!
