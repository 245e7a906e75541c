//! The error taxonomy of the publishing pipeline. Every error is terminal:
//! the first one encountered aborts the run.

use vstd::prelude::*;

verus! {

/// The named configuration inputs that resolution can report as missing or
/// invalid.
#[derive(Clone, Copy, PartialEq, Eq, Structural, Debug)]
pub enum ConfigField {
    Tag,
    RepoOwner,
    RepoName,
    ApiKey,
    Draft,
    Prerelease,
}

/// A configuration failure; only the first offending input is reported.
#[derive(Debug)]
pub enum ConfigError {
    /// A required input is absent or empty.
    MissingField { field: ConfigField },
    /// A boolean input is neither `true` nor `false`.
    InvalidBool { field: ConfigField },
    /// A referenced text file could not be read.
    UnreadableFile { path: String },
    /// Neither an explicit base URL nor a usable repository link was given.
    MissingBaseUrl,
    /// The base URL is not an HTTP(S) URL.
    InvalidBaseUrl { url: String },
}

/// The mathematical model of a configuration failure.
pub ghost enum ConfigErrorV {
    MissingField { field: ConfigField },
    InvalidBool { field: ConfigField },
    UnreadableFile { path: Seq<char> },
    MissingBaseUrl,
    InvalidBaseUrl { url: Seq<char> },
}

impl View for ConfigError {
    type V = ConfigErrorV;

    open spec fn view(&self) -> ConfigErrorV {
        match self {
            ConfigError::MissingField { field } => ConfigErrorV::MissingField { field: *field },
            ConfigError::InvalidBool { field } => ConfigErrorV::InvalidBool { field: *field },
            ConfigError::UnreadableFile { path } => ConfigErrorV::UnreadableFile { path: path@ },
            ConfigError::MissingBaseUrl => ConfigErrorV::MissingBaseUrl,
            ConfigError::InvalidBaseUrl { url } => ConfigErrorV::InvalidBaseUrl { url: url@ },
        }
    }
}

/// Any failure that ends a run, carrying enough context to diagnose it.
#[derive(Debug)]
pub enum PublishError {
    /// The configuration could not be resolved.
    Config { error: ConfigError },
    /// An asset pattern is not a valid glob.
    Glob { pattern: String },
    /// A matched path could not be read.
    AssetRead { path: String },
    /// The release-creation call returned a status outside the 2xx range.
    ReleaseCreation { status: u16, body: String },
    /// A 2xx release-creation response did not carry the required fields.
    ResponseParse { body: String },
    /// An asset-upload call returned a status outside the 2xx range.
    AssetUpload { path: String, status: u16, body: String },
}

/// The mathematical model of a run-ending failure.
pub ghost enum PublishErrorV {
    Config { error: ConfigErrorV },
    Glob { pattern: Seq<char> },
    AssetRead { path: Seq<char> },
    ReleaseCreation { status: u16, body: Seq<char> },
    ResponseParse { body: Seq<char> },
    AssetUpload { path: Seq<char>, status: u16, body: Seq<char> },
}

impl View for PublishError {
    type V = PublishErrorV;

    open spec fn view(&self) -> PublishErrorV {
        match self {
            PublishError::Config { error } => PublishErrorV::Config { error: error@ },
            PublishError::Glob { pattern } => PublishErrorV::Glob { pattern: pattern@ },
            PublishError::AssetRead { path } => PublishErrorV::AssetRead { path: path@ },
            PublishError::ReleaseCreation { status, body } => PublishErrorV::ReleaseCreation {
                status: *status,
                body: body@,
            },
            PublishError::ResponseParse { body } => PublishErrorV::ResponseParse { body: body@ },
            PublishError::AssetUpload { path, status, body } => PublishErrorV::AssetUpload {
                path: path@,
                status: *status,
                body: body@,
            },
        }
    }
}

} // verus!
