//! Command-line settings.

use vstd::prelude::*;

verus! {

/// The settings the service starts with.
#[derive(Debug, Clone)]
pub struct Args {
    /// The MongoDB connection string.
    pub uri: String,
}

/// The connection string used when none is given.
pub open spec fn default_uri() -> Seq<char> {
    "mongodb://localhost:27017"@
}

/// The settings from the `--uri` option as given on the command line, or the
/// local default server when it is absent.
pub fn args(uri: Option<String>) -> (a: Args)
    ensures
        a.uri@ == match uri {
            Some(u) => u@,
            None => default_uri(),
        },
{
    match uri {
        Some(u) => Args { uri: u },
        None => Args { uri: "mongodb://localhost:27017".to_owned() },
    }
}

} // verus!
