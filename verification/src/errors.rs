//! Error types for configuration loading and per-URL certificate checks.
use vstd::prelude::*;

verus! {

/// A failure while assembling the application configuration.
///
/// The file-related variants carry the path of the offending file and,
/// where one exists, a human-readable detail string.
#[derive(Debug)]
pub enum ConfigError {
    FileReadError(String, String),
    TomlParseError(String, String),
    FileNotFound(String),
    MissingUrls,
}

/// A failure of one URL's certificate check.
///
/// Each variant carries enough context to report the failure: the detail
/// of a transport error, or the URL that produced the problem.
#[derive(Debug)]
pub enum SslCheckError {
    NetworkError(String),
    NoCertificatesFound(String),
    UrlParseError(String, String),
}

} // verus!
