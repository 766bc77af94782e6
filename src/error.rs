//! The failures that the library reports.
use vstd::prelude::*;

verus! {

/// What went wrong; each kind carries the path or name concerned.
#[derive(Debug, Clone, PartialEq, Eq)]
pub enum DecompSettingsError {
    /// The ascending search reached the filesystem root from this start
    /// directory without finding the descriptor.
    ConfigNotFound(String),
    /// This path is missing, is not a regular file, or could not be read.
    ConfigReadError(String),
    /// This scan start is missing or is not a directory.
    ConfigScanError(String),
    /// `default_version` names this version, which the descriptor lacks.
    VersionNotFound(String),
    /// A default version was asked for, but `default_version` is unset.
    NoDefaultVersion,
    /// The descriptor is not a well-formed YAML document of the schema; the
    /// text says where.
    ConfigFormatError(String),
}

} // verus!
