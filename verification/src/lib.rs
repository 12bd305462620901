pub mod cache;
pub mod cli;
pub mod client;
pub mod dependencies;
pub mod extract;
pub mod filter;
pub mod json;
pub mod numfmt;
pub mod record;
pub mod schema_gen;
pub mod schema_types;
pub mod strutil;
pub mod tables;
pub mod ui;
pub mod writer;
