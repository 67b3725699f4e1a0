//! The SQL that the pipeline hands to the SQL shell.

use vstd::prelude::*;
use crate::policy::CleaningMode;

verus! {

/// The block that removes every table of schema `public`.
pub open spec fn drop_block_text() -> Seq<char> {
    "DO $$ DECLARE\n    r RECORD;\nBEGIN\n    FOR r IN (SELECT tablename FROM pg_tables WHERE schemaname = 'public') LOOP\n        EXECUTE 'DROP TABLE IF EXISTS public.' || quote_ident(r.tablename) || ' CASCADE';\n    END LOOP;\nEND $$;\n"@
}

/// The block that empties every table of schema `public` and resets its
/// sequences, with trigger firing switched off around it.
pub open spec fn truncate_block_text() -> Seq<char> {
    "SET session_replication_role = replica;\nDO $$ DECLARE\n    r RECORD;\nBEGIN\n    FOR r IN (SELECT tablename FROM pg_tables WHERE schemaname = 'public') LOOP\n        EXECUTE 'TRUNCATE TABLE public.' || quote_ident(r.tablename) || ' RESTART IDENTITY CASCADE';\n    END LOOP;\nEND $$;\nSET session_replication_role = DEFAULT;\n"@
}

/// The SQL that cleans the destination in the given mode.
pub open spec fn cleaning_sql_text(mode: CleaningMode) -> Seq<char> {
    match mode {
        CleaningMode::Truncate => truncate_block_text(),
        CleaningMode::Drop => drop_block_text(),
    }
}

/// The query that counts the base tables of schema `public`.
pub open spec fn table_count_query_text() -> Seq<char> {
    "SELECT COUNT(*) FROM information_schema.tables WHERE table_schema = 'public' AND table_type = 'BASE TABLE';"@
}

/// The settings that speed up a bulk load in the session that runs it:
/// no wait for the log to reach disk, more working memory, no parallel
/// workers, no trigger firing.
pub open spec fn tuning_preamble_text() -> Seq<char> {
    "SET synchronous_commit = off;\nSET work_mem = '256MB';\nSET maintenance_work_mem = '512MB';\nSET max_parallel_workers_per_gather = 0;\nSET session_replication_role = replica;\n"@
}

/// The settings that put the session back to normal after a bulk load.
pub open spec fn tuning_postamble_text() -> Seq<char> {
    "\nSET session_replication_role = DEFAULT;\nRESET max_parallel_workers_per_gather;\nRESET maintenance_work_mem;\nRESET work_mem;\nRESET synchronous_commit;\n"@
}

/// The script that restores a plain dump: the tuning settings, the dump,
/// and the settings that undo the tuning.
pub open spec fn tuned_script_text(dump: Seq<char>) -> Seq<char> {
    tuning_preamble_text() + dump + tuning_postamble_text()
}

/// The SQL that cleans the destination in the given mode.
pub fn cleaning_sql(mode: CleaningMode) -> (r: &'static str)
    ensures
        r@ == cleaning_sql_text(mode),
{
    match mode {
        CleaningMode::Truncate => "SET session_replication_role = replica;\nDO $$ DECLARE\n    r RECORD;\nBEGIN\n    FOR r IN (SELECT tablename FROM pg_tables WHERE schemaname = 'public') LOOP\n        EXECUTE 'TRUNCATE TABLE public.' || quote_ident(r.tablename) || ' RESTART IDENTITY CASCADE';\n    END LOOP;\nEND $$;\nSET session_replication_role = DEFAULT;\n",
        CleaningMode::Drop => "DO $$ DECLARE\n    r RECORD;\nBEGIN\n    FOR r IN (SELECT tablename FROM pg_tables WHERE schemaname = 'public') LOOP\n        EXECUTE 'DROP TABLE IF EXISTS public.' || quote_ident(r.tablename) || ' CASCADE';\n    END LOOP;\nEND $$;\n",
    }
}

/// The query that counts the base tables of schema `public`.
pub fn table_count_query() -> (r: &'static str)
    ensures
        r@ == table_count_query_text(),
{
    "SELECT COUNT(*) FROM information_schema.tables WHERE table_schema = 'public' AND table_type = 'BASE TABLE';"
}

/// The script that restores the plain dump `dump` with a tuned session.
pub fn tuned_script(dump: &str) -> (r: String)
    ensures
        r@ == tuned_script_text(dump@),
{
    let mut r = String::new();
    r.append("SET synchronous_commit = off;\nSET work_mem = '256MB';\nSET maintenance_work_mem = '512MB';\nSET max_parallel_workers_per_gather = 0;\nSET session_replication_role = replica;\n");
    r.append(dump);
    r.append("\nSET session_replication_role = DEFAULT;\nRESET max_parallel_workers_per_gather;\nRESET maintenance_work_mem;\nRESET work_mem;\nRESET synchronous_commit;\n");
    r
}

} // verus!
