//! Application configuration: where the external tool is told to place files.

use vstd::prelude::*;

verus! {

/// Configuration for a downloader: the directory the output-path template
/// is rooted at. The directory is kept as plain text; creating it on disk
/// is the caller's concern.
pub struct Config {
    pub output_dir: String,
}

impl Config {
    pub fn new(output_dir: String) -> (c: Config)
        ensures
            c.output_dir@ == output_dir@,
    {
        Config { output_dir }
    }
}

} // verus!
