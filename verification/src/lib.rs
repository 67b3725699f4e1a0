pub mod classify;
pub mod command;
pub mod connection;
pub mod events;
pub mod ident;
pub mod launch;
pub mod number;
pub mod pg_tools;
pub mod pipeline;
pub mod pipeline_laws;
pub mod policy;
pub mod schema_export;
pub mod schema_filter;
pub mod sql;
pub mod store;
pub mod text;
pub mod time;
pub mod types;
