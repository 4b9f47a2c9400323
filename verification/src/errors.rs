use vstd::prelude::*;

verus! {

/// What went wrong while resolving a configuration setting. Every variant
/// carries the names a reader needs to diagnose the failure without
/// re-running the lookup.
#[derive(Debug, Clone)]
pub enum ConfigDetail {
    /// The configuration file could not be read or parsed.
    Load { file: String },
    /// The requested section does not exist in the file.
    MissingSection { section: String, file: String },
    /// The section exists but the requested key does not.
    MissingKey { section: String, key: String, file: String },
    /// A resolved value could not be parsed as a port number.
    BadPort { value: String },
    /// A key was built from a buffer of the wrong length.
    BadKeyLength { expected: usize, actual: usize },
}

/// The two failure kinds this layer surfaces: a configuration problem,
/// with its diagnostic payload, or a missing privilege.
#[derive(Debug, Clone)]
pub enum Error {
    Configuration(ConfigDetail),
    Permission,
}

/// `e` reports that the file named `file` could not be loaded.
pub open spec fn is_load_error(e: Error, file: Seq<char>) -> bool {
    match e {
        Error::Configuration(d) => match d {
            ConfigDetail::Load { file: f } => f@ == file,
            _ => false,
        },
        _ => false,
    }
}

/// `e` reports that `section` is missing from the file named `file`.
pub open spec fn is_missing_section(e: Error, section: Seq<char>, file: Seq<char>) -> bool {
    match e {
        Error::Configuration(d) => match d {
            ConfigDetail::MissingSection { section: s, file: f } => s@ == section && f@ == file,
            _ => false,
        },
        _ => false,
    }
}

/// `e` reports that `key` is missing from `section` of the file named `file`.
pub open spec fn is_missing_key(e: Error, section: Seq<char>, key: Seq<char>, file: Seq<char>) -> bool {
    match e {
        Error::Configuration(d) => match d {
            ConfigDetail::MissingKey { section: s, key: k, file: f } => s@ == section && k@ == key
                && f@ == file,
            _ => false,
        },
        _ => false,
    }
}

/// `e` reports a value that could not be parsed as a port number,
/// whatever value it quotes.
pub open spec fn is_port_error(e: Error) -> bool {
    match e {
        Error::Configuration(d) => match d {
            ConfigDetail::BadPort { value: _ } => true,
            _ => false,
        },
        _ => false,
    }
}

/// `e` reports that `value` could not be parsed as a port number.
pub open spec fn is_bad_port(e: Error, value: Seq<char>) -> bool {
    match e {
        Error::Configuration(d) => match d {
            ConfigDetail::BadPort { value: v } => v@ == value,
            _ => false,
        },
        _ => false,
    }
}

} // verus!
