//! The connection test: the queries that it runs through the SQL shell and
//! the reading of what the shell prints.

use vstd::prelude::*;
use crate::command::{query_args, query_args_text};
use crate::events::ToolOutput;
use crate::number::{parse_i64, parse_int};
use crate::text::{
    from_chars, glue, glue3, lines_of, push_str, split_lines, string_views, to_chars, trim,
    trimmed, views,
};
use crate::types::{table_views, DatabaseInfo, DatabaseInfoView, TableInfo, TableInfoView};

verus! {

/// The character that separates the fields of a row of the table query.
pub const FIELD_SEPARATOR: char = '|';

/// The query for the version of the server.
pub open spec fn version_query_text() -> Seq<char> {
    "SELECT version();"@
}

/// The query for the tables outside the system schemas, with the number of
/// live rows and the total size of each, ordered by schema and name.
pub open spec fn tables_query_text() -> Seq<char> {
    "\n        SELECT\n            t.table_name,\n            t.table_schema,\n            COALESCE(s.n_live_tup, 0)::bigint as row_count,\n            COALESCE(pg_total_relation_size(quote_ident(t.table_schema) || '.' || quote_ident(t.table_name)), 0)::bigint as size\n        FROM information_schema.tables t\n        LEFT JOIN pg_stat_user_tables s ON t.table_name = s.relname AND t.table_schema = s.schemaname\n        WHERE t.table_schema NOT IN ('pg_catalog', 'information_schema')\n        AND t.table_type = 'BASE TABLE'\n        ORDER BY t.table_schema, t.table_name;\n    "@
}

/// The query for the size of `database`.
pub open spec fn size_query_text(database: Seq<char>) -> Seq<char> {
    "SELECT pg_database_size('"@ + database + "');"@
}

/// The arguments with which the SQL shell prints the rows of the table
/// query unaligned, with `|` between the fields.
pub open spec fn tables_args_text(conninfo: Seq<char>) -> Seq<Seq<char>> {
    seq!["-d"@, conninfo, "-t"@, "-A"@, "-F"@, "|"@, "-c"@, tables_query_text()]
}

/// The position of the first `c` in `s`, or the length of `s` when it holds
/// none.
pub open spec fn first_of(s: Seq<char>, c: char) -> int
    decreases s.len(),
{
    if s.len() == 0 || s[0] == c {
        0
    } else {
        1 + first_of(s.drop_first(), c)
    }
}

/// The fields of `s` between the separators `c`. There is one field more
/// than there are separators; a field may be empty.
pub open spec fn split_on(s: Seq<char>, c: char) -> Seq<Seq<char>>
    decreases s.len(),
{
    let i = first_of(s, c);
    if 0 <= i < s.len() {
        seq![s.subrange(0, i)] + split_on(s.subrange(i + 1, s.len() as int), c)
    } else {
        seq![s]
    }
}

/// The number that `field` denotes, or zero where it denotes none that fits
/// in 64 bits.
pub open spec fn number_or_zero(field: Seq<char>) -> i64 {
    match parse_int(field, i64::MIN as int, i64::MAX as int) {
        Some(n) => n as i64,
        None => 0,
    }
}

/// The table that a row of the table query describes. A row with fewer than
/// four fields describes none.
pub open spec fn table_of(line: Seq<char>) -> Option<TableInfoView> {
    let fields = split_on(line, FIELD_SEPARATOR);
    if fields.len() >= 4 {
        Some(
            TableInfoView {
                name: fields[0],
                schema: fields[1],
                row_count: number_or_zero(fields[2]),
                size: number_or_zero(fields[3]),
            },
        )
    } else {
        None
    }
}

/// The tables that the rows `lines` describe, in their order.
pub open spec fn tables_of(lines: Seq<Seq<char>>) -> Seq<TableInfoView>
    decreases lines.len(),
{
    if lines.len() == 0 {
        Seq::empty()
    } else {
        match table_of(lines.last()) {
            Some(table) => tables_of(lines.drop_last()).push(table),
            None => tables_of(lines.drop_last()),
        }
    }
}

/// What a connection test found, given what the SQL shell printed for the
/// three queries.
pub open spec fn database_info_of(version: Seq<char>, tables: Seq<char>, size: Seq<char>)
    -> DatabaseInfoView {
    DatabaseInfoView {
        tables: tables_of(split_lines(tables)),
        total_size: number_or_zero(trim(size)),
        version: trim(version),
    }
}

/// `first_of` is the first position that holds `c`.
proof fn lemma_first_of(s: Seq<char>, c: char)
    ensures
        0 <= first_of(s, c) <= s.len(),
        forall|k: int| 0 <= k < first_of(s, c) ==> #[trigger] s[k] != c,
        first_of(s, c) < s.len() ==> s[first_of(s, c)] == c,
    decreases s.len(),
{
    if s.len() == 0 || s[0] == c {
    } else {
        let t = s.drop_first();
        lemma_first_of(t, c);
        assert forall|k: int| 0 <= k < first_of(s, c) implies #[trigger] s[k] != c by {
            if k > 0 {
                assert(s[k] == t[k - 1]);
            }
        }
    }
}

/// A position that holds `c` and has none before it is the first.
proof fn lemma_first_of_is(s: Seq<char>, c: char, i: int)
    requires
        0 <= i <= s.len(),
        forall|k: int| 0 <= k < i ==> #[trigger] s[k] != c,
        i < s.len() ==> s[i] == c,
    ensures
        first_of(s, c) == i,
{
    lemma_first_of(s, c);
    let f = first_of(s, c);
    if f < i {
        assert(s[f] == c);
    } else if f > i {
        assert(s[i] != c);
    }
}

/// The fields of `line` between the separators `c`.
pub fn fields_of(line: &Vec<char>, c: char) -> (out: Vec<Vec<char>>)
    ensures
        views(out@) == split_on(line@, c),
{
    let n = line.len();
    let mut out: Vec<Vec<char>> = Vec::new();
    let mut field: Vec<char> = Vec::new();
    let mut start: usize = 0;
    let mut pos: usize = 0;
    proof {
        assert(line@.subrange(0, n as int) =~= line@);
        assert(views(out@) + split_on(line@, c) =~= split_on(line@, c));
    }
    while pos < n
        invariant
            n == line.len(),
            start <= pos <= n,
            field@ == line@.subrange(start as int, pos as int),
            forall|k: int| start <= k < pos ==> #[trigger] line@[k] != c,
            split_on(line@, c) == views(out@) + split_on(line@.subrange(start as int, n as int), c),
        decreases n - pos,
    {
        let x = line[pos];
        if x == c {
            let ghost rest = line@.subrange(start as int, n as int);
            let ghost before = views(out@);
            let ghost begin = start as int;
            proof {
                assert forall|k: int| 0 <= k < pos - start implies #[trigger] rest[k] != c by {
                    assert(rest[k] == line@[start + k]);
                }
                lemma_first_of_is(rest, c, pos - start);
                assert(rest.subrange(0, pos - start) =~= field@);
                assert(rest.subrange(pos - start + 1, rest.len() as int) =~= line@.subrange(
                    pos + 1,
                    n as int,
                ));
            }
            out.push(field);
            field = Vec::new();
            start = pos + 1;
            proof {
                assert(views(out@) =~= before + seq![line@.subrange(begin, pos as int)]);
                assert(line@.subrange(start as int, start as int) =~= Seq::<char>::empty());
            }
        } else {
            field.push(x);
            proof {
                assert(line@.subrange(start as int, pos + 1) =~= line@.subrange(
                    start as int,
                    pos as int,
                ).push(x));
            }
        }
        pos += 1;
    }
    let ghost before = views(out@);
    proof {
        let rest = line@.subrange(start as int, n as int);
        assert forall|k: int| 0 <= k < rest.len() implies #[trigger] rest[k] != c by {
            assert(rest[k] == line@[start + k]);
        }
        lemma_first_of_is(rest, c, rest.len() as int);
    }
    out.push(field);
    proof {
        assert(views(out@) =~= before + seq![line@.subrange(start as int, n as int)]);
    }
    out
}

/// The number that `field` denotes, or zero.
pub fn parse_or_zero(field: &Vec<char>) -> (r: i64)
    ensures
        r == number_or_zero(field@),
{
    match parse_i64(field) {
        Some(n) => n,
        None => 0,
    }
}

/// The tables that the output of the table query describes.
pub fn parse_tables(stdout: &str) -> (r: Vec<TableInfo>)
    ensures
        table_views(r@) == tables_of(split_lines(stdout@)),
{
    let chars = to_chars(stdout);
    let lines = lines_of(&chars);
    let ghost all = views(lines@);
    let mut r: Vec<TableInfo> = Vec::new();
    let mut i: usize = 0;
    proof {
        assert(all.take(0) =~= Seq::<Seq<char>>::empty());
        assert(table_views(r@) =~= Seq::<TableInfoView>::empty());
    }
    while i < lines.len()
        invariant
            i <= lines.len(),
            all == views(lines@),
            table_views(r@) == tables_of(all.take(i as int)),
        decreases lines.len() - i,
    {
        let fields = fields_of(&lines[i], FIELD_SEPARATOR);
        proof {
            let next = all.take(i + 1);
            assert(next.drop_last() =~= all.take(i as int));
            assert(next.last() == lines@[i as int]@);
            assert(views(fields@).len() == fields@.len());
        }
        if fields.len() >= 4 {
            let ghost before = r@;
            let table = TableInfo {
                name: from_chars(&fields[0]),
                schema: from_chars(&fields[1]),
                row_count: parse_or_zero(&fields[2]),
                size: parse_or_zero(&fields[3]),
            };
            proof {
                assert(views(fields@)[0] == fields@[0]@);
                assert(views(fields@)[1] == fields@[1]@);
                assert(views(fields@)[2] == fields@[2]@);
                assert(views(fields@)[3] == fields@[3]@);
            }
            r.push(table);
            proof {
                assert(table_views(r@) =~= table_views(before).push(table@));
            }
        }
        i += 1;
    }
    proof {
        assert(all.take(lines@.len() as int) =~= all);
    }
    r
}

/// The arguments with which the SQL shell asks the server for its version.
pub fn version_args(conninfo: &str) -> (r: Vec<String>)
    ensures
        string_views(r@) == query_args_text(conninfo@, version_query_text()),
{
    query_args(conninfo, "SELECT version();")
}

/// The arguments with which the SQL shell asks for the size of `database`.
pub fn size_args(conninfo: &str, database: &str) -> (r: Vec<String>)
    ensures
        string_views(r@) == query_args_text(conninfo@, size_query_text(database@)),
{
    let sql = glue3("SELECT pg_database_size('", database, "');");
    query_args(conninfo, sql.as_str())
}

/// The arguments with which the SQL shell lists the tables.
pub fn tables_args(conninfo: &str) -> (r: Vec<String>)
    ensures
        string_views(r@) == tables_args_text(conninfo@),
{
    let mut r: Vec<String> = Vec::new();
    proof {
        assert(string_views(r@) =~= Seq::<Seq<char>>::empty());
    }
    push_str(&mut r, "-d");
    push_str(&mut r, conninfo);
    push_str(&mut r, "-t");
    push_str(&mut r, "-A");
    push_str(&mut r, "-F");
    push_str(&mut r, "|");
    push_str(&mut r, "-c");
    push_str(
        &mut r,
        "\n        SELECT\n            t.table_name,\n            t.table_schema,\n            COALESCE(s.n_live_tup, 0)::bigint as row_count,\n            COALESCE(pg_total_relation_size(quote_ident(t.table_schema) || '.' || quote_ident(t.table_name)), 0)::bigint as size\n        FROM information_schema.tables t\n        LEFT JOIN pg_stat_user_tables s ON t.table_name = s.relname AND t.table_schema = s.schemaname\n        WHERE t.table_schema NOT IN ('pg_catalog', 'information_schema')\n        AND t.table_type = 'BASE TABLE'\n        ORDER BY t.table_schema, t.table_name;\n    ",
    );
    proof {
        assert(string_views(r@) =~= tables_args_text(conninfo@));
    }
    r
}

/// Whether the server answered the version query: its version, trimmed, or
/// the reason why the connection failed.
pub fn check_connection(output: &ToolOutput) -> (r: Result<String, String>)
    ensures
        match r {
            Ok(version) => output.exited_zero && version@ == trim(output@.stdout),
            Err(reason) => !output.exited_zero && reason@ == "Connection failed: "@
                + output@.stderr,
        },
{
    if output.exited_zero {
        let chars = to_chars(output.stdout.as_str());
        let t = trimmed(&chars);
        Ok(from_chars(&t))
    } else {
        Err(glue("Connection failed: ", output.stderr.as_str()))
    }
}

/// What a connection test found, given the output of the version query and
/// what the SQL shell printed for the table query and the size query.
///
/// The test fails exactly where the version query exited with a status
/// other than zero. Rows and sizes that cannot be read count as absent and
/// as zero.
pub fn test_connection(version: &ToolOutput, tables_stdout: &str, size_stdout: &str) -> (r: Result<
    DatabaseInfo,
    String,
>)
    ensures
        match r {
            Ok(info) => version.exited_zero && info@ == database_info_of(
                version@.stdout,
                tables_stdout@,
                size_stdout@,
            ),
            Err(reason) => !version.exited_zero && reason@ == "Connection failed: "@
                + version@.stderr,
        },
{
    match check_connection(version) {
        Err(reason) => Err(reason),
        Ok(version) => {
            let chars = to_chars(size_stdout);
            let t = trimmed(&chars);
            Ok(
                DatabaseInfo {
                    tables: parse_tables(tables_stdout),
                    total_size: parse_or_zero(&t),
                    version,
                },
            )
        },
    }
}

} // verus!
