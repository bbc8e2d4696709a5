use vstd::prelude::*;

verus! {

/// A parsed command line.
#[derive(Debug, PartialEq, Eq)]
pub struct Cli {
    pub command: Command,
}

/// The commands of the tool.
#[derive(Debug, PartialEq, Eq)]
pub enum Command {
    /// Run a script of the manifest, or list them all when no name is given.
    Run { script_name: Option<String> },
    /// Run the manifest's `test` script.
    Test,
    /// Create a manifest.
    Init,
}

impl Command {
    /// The script request that the command makes: `Some(None)` lists the
    /// scripts, `Some(Some(name))` runs one, `None` runs no script.
    pub fn script_request(&self) -> (r: Option<Option<String>>)
        ensures
            match *self {
                Command::Run { script_name } => r == Some(script_name),
                Command::Test => r matches Some(Some(n)) && n@ == "test"@,
                Command::Init => r is None,
            },
    {
        match self {
            Command::Run { script_name } => Some(script_name.clone()),
            Command::Test => Some(Some(String::from_str("test"))),
            Command::Init => None,
        }
    }
}

} // verus!
