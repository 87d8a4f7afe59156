use vstd::prelude::*;

verus! {

/// The command-line arguments: which subcommand to run.
pub struct Args {
    pub cmd: Commands,
}

/// The available subcommands.
#[derive(Debug, Clone)]
pub enum Commands {
    Generate,
}

/// The run's configuration, as loaded from the configuration file.
pub struct Settings {
    pub sql: SqlSettings,
}

/// Where the SQL inputs live and where generated files go.
pub struct SqlSettings {
    pub schemas: String,
    pub queries: String,
    pub output: String,
}

} // verus!
