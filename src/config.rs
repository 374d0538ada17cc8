//! What a viewer is started with.

use vstd::prelude::*;

verus! {

/// The settings of a log viewer: the file it shows.
pub struct Config {
    pub filename: String,
}

impl Config {
    /// Settings that show `filename`.
    pub fn new(filename: String) -> (r: Config)
        ensures
            r.filename@ == filename@,
    {
        Config { filename }
    }
}

} // verus!
