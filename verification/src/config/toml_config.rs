//! The shape of the configuration file, once the structured-document parser
//! has turned it into plain values.
//!
//! Parsing the document itself happens outside the crate; resolution receives
//! these records and merges them with the other sources. Every field is
//! optional: an absent key means the file says nothing and a lower-priority
//! source decides.

use vstd::prelude::*;

use crate::cli::DirectoryCreation;

verus! {

/// A parsed configuration file: an optional `directories` table and an
/// optional `listen` table.
#[derive(Debug, Clone)]
pub struct TomlConfig {
    pub directories: Option<TomlDirectories>,
    pub listen: Option<TomlListen>,
}

impl TomlConfig {
    /// A file that sets nothing.
    pub fn empty() -> (r: Self)
        ensures
            r.directories is None,
            r.listen is None,
    {
        TomlConfig { directories: None, listen: None }
    }
}

/// The `directories` table of the configuration file.
#[derive(Debug, Clone)]
pub struct TomlDirectories {
    pub create_directories: Option<DirectoryCreation>,
    pub runtime: Option<String>,
    pub state: Option<String>,
    pub cache: Option<String>,
    pub logs: Option<String>,
    pub configuration: Option<String>,
}

impl TomlDirectories {
    /// A table that sets nothing.
    pub fn empty() -> (r: Self)
        ensures
            r.create_directories is None,
            r.runtime is None,
            r.state is None,
            r.cache is None,
            r.logs is None,
            r.configuration is None,
    {
        TomlDirectories {
            create_directories: None,
            runtime: None,
            state: None,
            cache: None,
            logs: None,
            configuration: None,
        }
    }
}

/// The `listen` table of the configuration file: listen addresses in their
/// textual URL form, in file order.
#[derive(Debug, Clone)]
pub struct TomlListen {
    pub addresses: Vec<String>,
}

} // verus!
