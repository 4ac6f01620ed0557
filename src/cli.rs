use vstd::prelude::*;

verus! {

/// The command line: an optional configuration path, the debug switch and
/// an optional command (without one, the server runs).
#[derive(Clone, Debug, PartialEq, Eq)]
pub struct Cli {
    pub config: Option<String>,
    pub debug: bool,
    pub command: Option<Command>,
}

/// A command other than running the server.
#[derive(Clone, Debug, PartialEq, Eq)]
pub enum Command {
    /// Manage the system service.
    Service { command: ServiceCommand },
    /// Manage the database.
    Database { command: DatabaseCommand },
    /// Test a server by connecting to it as the node at `mac`.
    Test { host: String, mac: String, port: Option<u16> },
}

/// An operation on the system service.
#[derive(Clone, Copy, Debug, PartialEq, Eq, Structural)]
pub enum ServiceCommand {
    Start,
    Stop,
    Enable,
    Disable,
    Install,
    Uninstall,
    Status,
    Reinstall,
}

/// An operation on the database.
#[derive(Clone, Copy, Debug, PartialEq, Eq, Structural)]
pub enum DatabaseCommand {
    /// Test the connection.
    Test,
    /// Run the migrations.
    Init,
    /// Erase the data, and the tables unless `content_only`.
    Erase { content_only: bool, keep_devices: bool },
}

impl Cli {
    /// The configuration file to read: the one given, otherwise
    /// `default_path`.
    pub fn config_path(&self, default_path: String) -> (r: String)
        ensures
            self.config is Some ==> r@ == self.config->0@,
            self.config is None ==> r@ == default_path@,
    {
        match &self.config {
            Some(path) => path.clone(),
            None => default_path,
        }
    }
}

} // verus!
