use vstd::prelude::*;

use crate::text::concat2;

verus! {

/// The failure conditions this library distinguishes.
///
/// Two conditions are deliberately not errors anywhere in this library: the
/// absence of any recognized manifest file when searching a working directory,
/// and the absence of a lock file in a directory that was checked.
#[derive(Debug)]
pub enum Error {
    /// A starting path handed to the manifest locator was not absolute, or a
    /// configuration value was unusable.
    InvalidInput { message: String },
    /// The registry reported no version for a package when one was required.
    NotFound { message: String },
    /// The registry response body could not be understood, or the request failed.
    RegistryError { message: String },
    /// A downloaded archive could not be extracted.
    ArchiveError { message: String },
    /// A manifest file was present but unparseable or missing a required field.
    ManifestError { message: String },
    /// A lock file was present but did not hold a valid lock record.
    LockParseError { path: String },
    /// The package manager's own resolver failed.
    DependencyResolutionError { message: String },
    /// A generic input/output failure.
    FilesystemError { message: String },
}

impl Error {
    /// A diagnostic description of the error, carrying enough context
    /// (path, package name) to diagnose the failure.
    pub fn message(&self) -> (r: String)
        ensures
            self matches Error::InvalidInput { message } ==> r@ == "invalid input: "@ + message@,
            self matches Error::NotFound { message } ==> r@ == "not found: "@ + message@,
            self matches Error::RegistryError { message } ==> r@ == "registry error: "@
                + message@,
            self matches Error::ArchiveError { message } ==> r@ == "archive error: "@ + message@,
            self matches Error::ManifestError { message } ==> r@ == "manifest error: "@
                + message@,
            self matches Error::LockParseError { path } ==> r@ == "failed to parse lock file: "@
                + path@,
            self matches Error::DependencyResolutionError { message } ==> r@
                == "dependency resolution error: "@ + message@,
            self matches Error::FilesystemError { message } ==> r@ == "filesystem error: "@
                + message@,
    {
        match self {
            Error::InvalidInput { message } => concat2("invalid input: ", message.as_str()),
            Error::NotFound { message } => concat2("not found: ", message.as_str()),
            Error::RegistryError { message } => concat2("registry error: ", message.as_str()),
            Error::ArchiveError { message } => concat2("archive error: ", message.as_str()),
            Error::ManifestError { message } => concat2("manifest error: ", message.as_str()),
            Error::LockParseError { path } => concat2("failed to parse lock file: ", path.as_str()),
            Error::DependencyResolutionError { message } => concat2(
                "dependency resolution error: ",
                message.as_str(),
            ),
            Error::FilesystemError { message } => concat2("filesystem error: ", message.as_str()),
        }
    }
}

} // verus!
