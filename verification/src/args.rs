//! Command line arguments, as plain values.
//!
//! Decoding the process's argument list happens outside the core; the decoded
//! options arrive here already parsed.

use crate::filter::Filter;
use vstd::prelude::*;

verus! {

/// Command line arguments.
#[derive(Debug)]
pub struct Args {
    /// Folder to scan.
    pub root_path: String,
    /// Folder depth to see in the view.
    pub depth: u8,
    /// Filters for files whose name contains a text.
    pub filter: Vec<Filter>,
    /// Filters for files whose extension contains a text.
    pub extension_filter: Vec<Filter>,
    /// Disable `.ignore`, `.gitignore` filtering.
    pub no_ignores: bool,
    /// Disable hidden file filtering.
    pub show_hidden: bool,
}

impl Args {
    /// Consume args and produce the combined filter list: name filters first,
    /// then extension filters.
    pub fn filters(self) -> (r: Vec<Filter>)
        ensures
            r@ == self.filter@ + self.extension_filter@,
    {
        let Args { filter: mut combined, extension_filter: mut ext, .. } = self;
        combined.append(&mut ext);
        combined
    }
}

} // verus!
