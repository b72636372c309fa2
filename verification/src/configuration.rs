//! The settings of the web-application server.

use vstd::prelude::*;
use vstd::string::*;

verus! {

/// The directory of the installed applications, below the node's data
/// directory.
pub const DAPPS_DIRECTORY: &'static str = "/dapps";

/// The settings of the web-application server. They are fixed at startup.
#[derive(Debug, PartialEq, Clone)]
pub struct Configuration {
    /// Whether the server runs at all.
    pub enabled: bool,
    /// Where the installed applications are kept.
    pub dapps_path: String,
    /// Further applications to serve, in the order given.
    pub extra_dapps: Vec<String>,
}

impl Configuration {
    /// The default settings for a node that keeps its data in `data_dir`:
    /// enabled, with the applications in the directory `dapps` below it and
    /// no further ones.
    pub fn with_data_dir(data_dir: String) -> (r: Configuration)
        ensures
            r.enabled,
            r.dapps_path@ == data_dir@ + DAPPS_DIRECTORY@,
            r.extra_dapps@.len() == 0,
    {
        Configuration {
            enabled: true,
            dapps_path: data_dir.concat(DAPPS_DIRECTORY),
            extra_dapps: Vec::new(),
        }
    }

    /// The address the server is reached at: the given one while the server
    /// is enabled, none otherwise.
    pub fn address(&self, address: Option<(String, u16)>) -> (r: Option<(String, u16)>)
        ensures
            r == if self.enabled { address } else { None },
    {
        match self.enabled {
            true => address,
            false => None,
        }
    }
}

} // verus!
