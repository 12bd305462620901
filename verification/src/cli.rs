//! The command surface, as plain data. Argument parsing itself belongs to
//! callers.

use vstd::prelude::*;

verus! {

/// The parsed command line.
#[derive(Debug)]
pub struct Cli {
    pub command: Commands,
}

/// The commands the tool offers.
#[derive(Debug)]
pub enum Commands {
    /// Download the source data if needed, then convert it.
    Sync {
        output_db: String,
        includes: Option<Vec<String>>,
        excludes: Option<Vec<String>>,
        force: bool,
        cache_dir: Option<String>,
    },
    /// Download the latest source-data archive.
    Download { output: Option<String>, force: bool },
    /// Convert local source files into a database.
    Convert {
        input_dir: String,
        output_db: String,
        includes: Option<Vec<String>>,
        excludes: Option<Vec<String>>,
    },
    /// List every available table name.
    ListTables,
}

} // verus!
