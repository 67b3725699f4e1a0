use db_clone::connection::{
    check_connection, fields_of, parse_or_zero, parse_tables, size_args, tables_args,
    test_connection, version_args,
};
use db_clone::events::ToolOutput;

fn chars(s: &str) -> Vec<char> {
    s.chars().collect()
}

fn fields(s: &str) -> Vec<String> {
    fields_of(&chars(s), '|').iter().map(|f| f.iter().collect()).collect()
}

fn output(zero: bool, stdout: &str, stderr: &str) -> ToolOutput {
    ToolOutput {
        exited_zero: zero,
        stdout: stdout.to_string(),
        stderr: stderr.to_string(),
        elapsed_ms: 0,
    }
}

#[test]
fn a_row_is_split_at_every_separator() {
    assert_eq!(fields(""), vec![""]);
    assert_eq!(fields("a"), vec!["a"]);
    assert_eq!(fields("a|b"), vec!["a", "b"]);
    assert_eq!(fields("a|"), vec!["a", ""]);
    assert_eq!(fields("|"), vec!["", ""]);
    assert_eq!(fields("users|public|42|8192"), vec!["users", "public", "42", "8192"]);
    for s in ["", "|", "||", "a||b", "x|y|z|", "|lead"] {
        let expected: Vec<String> = s.split('|').map(|f| f.to_string()).collect();
        assert_eq!(fields(s), expected);
    }
}

#[test]
fn the_rows_of_the_table_query_become_tables() {
    let stdout = "users|public|42|8192\norders|shop|x|-5\nshort|row|1\n\nwide|s|1|2|extra\nspaced|s| 7|7 \n";
    let tables = parse_tables(stdout);
    assert_eq!(tables.len(), 4);
    assert_eq!(tables[0].name, "users");
    assert_eq!(tables[0].schema, "public");
    assert_eq!(tables[0].row_count, 42);
    assert_eq!(tables[0].size, 8192);
    assert_eq!(tables[1].name, "orders");
    assert_eq!(tables[1].schema, "shop");
    assert_eq!(tables[1].row_count, 0);
    assert_eq!(tables[1].size, -5);
    assert_eq!(tables[2].name, "wide");
    assert_eq!(tables[2].row_count, 1);
    assert_eq!(tables[2].size, 2);
    assert_eq!(tables[3].name, "spaced");
    assert_eq!(tables[3].row_count, 0);
    assert_eq!(tables[3].size, 0);
    assert!(parse_tables("").is_empty());
}

#[test]
fn a_number_that_cannot_be_read_counts_as_zero() {
    assert_eq!(parse_or_zero(&chars("123")), 123);
    assert_eq!(parse_or_zero(&chars("-9")), -9);
    assert_eq!(parse_or_zero(&chars("")), 0);
    assert_eq!(parse_or_zero(&chars("1e3")), 0);
    assert_eq!(parse_or_zero(&chars("9223372036854775808")), 0);
}

#[test]
fn a_connection_test_reads_version_tables_and_size() {
    let version = output(true, " PostgreSQL 16.1 on x86_64-pc-linux-gnu\n\n", "");
    let info = test_connection(&version, "t|public|3|100\n", " 7340032\n\n").expect("connected");
    assert_eq!(info.version, "PostgreSQL 16.1 on x86_64-pc-linux-gnu");
    assert_eq!(info.total_size, 7340032);
    assert_eq!(info.tables.len(), 1);
    assert_eq!(info.tables[0].name, "t");
    let info = test_connection(&version, "", "unknown").expect("connected");
    assert_eq!(info.total_size, 0);
    assert!(info.tables.is_empty());
    assert_eq!(check_connection(&version), Ok("PostgreSQL 16.1 on x86_64-pc-linux-gnu".to_string()));
}

#[test]
fn a_failed_version_query_fails_the_connection_test() {
    let version = output(false, "", "psql: error: connection refused");
    let failed = test_connection(&version, "t|public|3|100\n", "1");
    assert_eq!(failed.err(), Some("Connection failed: psql: error: connection refused".to_string()));
    assert_eq!(
        check_connection(&version),
        Err("Connection failed: psql: error: connection refused".to_string())
    );
}

#[test]
fn the_queries_of_a_connection_test() {
    assert_eq!(version_args("c"), vec!["-d", "c", "-t", "-c", "SELECT version();"]);
    assert_eq!(
        size_args("c", "shop"),
        vec!["-d", "c", "-t", "-c", "SELECT pg_database_size('shop');"]
    );
    let args = tables_args("c");
    assert_eq!(args.len(), 8);
    assert_eq!(&args[..7], &["-d", "c", "-t", "-A", "-F", "|", "-c"]);
    assert!(args[7].contains("FROM information_schema.tables t"));
    assert!(args[7].contains("ORDER BY t.table_schema, t.table_name;"));
}
