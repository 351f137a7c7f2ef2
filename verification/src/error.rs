//! Application errors

use vstd::prelude::*;

verus! {

/// `std::io::Error`, carried from the place where a path was inspected to
/// the place where the failure is reported.
#[verifier::external_type_specification]
#[verifier::external_body]
pub struct ExIoError(std::io::Error);

/// Every failure is fatal to the run in which it occurs.
#[derive(Debug)]
pub enum Error {
    /// The platform names no configuration directory.
    ProjectDirs,
    /// The given path exists but is not a regular file.
    InvalidFile,
    /// The given path could not be inspected or read.
    IoError(std::io::Error),
    /// The text of the metadata program is not a valid program.
    ScriptCompileError(rhai::ParseError),
    /// The metadata program stopped before it came to its end.
    ScriptRuntimeError(Box<rhai::EvalAltResult>),
    /// The metadata program ended without an object in its `object` variable.
    MissingObject,
    /// The metadata program left the key of the object unset.
    MissingKey,
    /// Neither a public URL nor an endpoint URL is configured.
    NoPublicUrl,
    /// The configured URL and the key of the object do not make a URL.
    InvalidUrl(url::ParseError),
    /// The object store refused or failed the upload.
    StoreError(String),
}

impl From<std::io::Error> for Error {
    fn from(cause: std::io::Error) -> (error: Error) {
        Error::IoError(cause)
    }
}

impl vstd::std_specs::convert::FromSpecImpl<std::io::Error> for Error {
    open spec fn obeys_from_spec() -> bool {
        true
    }

    open spec fn from_spec(cause: std::io::Error) -> Error {
        Error::IoError(cause)
    }
}

/// Which failure an [`Error`] reports, without what caused it.
#[derive(Clone, Copy, Debug, PartialEq, Eq, Structural)]
pub enum ErrorKind {
    ProjectDirs,
    InvalidFile,
    IoError,
    ScriptCompileError,
    ScriptRuntimeError,
    MissingObject,
    MissingKey,
    NoPublicUrl,
    InvalidUrl,
    StoreError,
}

impl Error {
    /// The mathematical content of [`Error::kind`].
    pub open spec fn spec_kind(&self) -> ErrorKind {
        match self {
            Error::ProjectDirs => ErrorKind::ProjectDirs,
            Error::InvalidFile => ErrorKind::InvalidFile,
            Error::IoError(_) => ErrorKind::IoError,
            Error::ScriptCompileError(_) => ErrorKind::ScriptCompileError,
            Error::ScriptRuntimeError(_) => ErrorKind::ScriptRuntimeError,
            Error::MissingObject => ErrorKind::MissingObject,
            Error::MissingKey => ErrorKind::MissingKey,
            Error::NoPublicUrl => ErrorKind::NoPublicUrl,
            Error::InvalidUrl(_) => ErrorKind::InvalidUrl,
            Error::StoreError(_) => ErrorKind::StoreError,
        }
    }

    /// The mathematical content of [`Error::message`].
    pub open spec fn spec_message(&self) -> Seq<char> {
        match self {
            Error::ProjectDirs => "Could not determine project directories"@,
            Error::InvalidFile => "The given path is not a valid file"@,
            Error::IoError(_) => "I/O error"@,
            Error::ScriptCompileError(_) => "The metadata program does not compile"@,
            Error::ScriptRuntimeError(_) => "The metadata program failed"@,
            Error::MissingObject => "The metadata program left no object behind"@,
            Error::MissingKey => "The metadata program did not set the key of the object"@,
            Error::NoPublicUrl => "Could not derive public url"@,
            Error::InvalidUrl(_) => "The key of the object does not join to the public url"@,
            Error::StoreError(_) => "The object store did not take the object"@,
        }
    }

    /// Returns the line that tells a user what went wrong. What caused the
    /// failure is in the error itself.
    pub fn message(&self) -> (message: String)
        ensures
            message@ == self.spec_message(),
    {
        match self {
            Error::ProjectDirs => "Could not determine project directories".to_owned(),
            Error::InvalidFile => "The given path is not a valid file".to_owned(),
            Error::IoError(_) => "I/O error".to_owned(),
            Error::ScriptCompileError(_) => "The metadata program does not compile".to_owned(),
            Error::ScriptRuntimeError(_) => "The metadata program failed".to_owned(),
            Error::MissingObject => "The metadata program left no object behind".to_owned(),
            Error::MissingKey => "The metadata program did not set the key of the object".to_owned(),
            Error::NoPublicUrl => "Could not derive public url".to_owned(),
            Error::InvalidUrl(_) => "The key of the object does not join to the public url".to_owned(),
            Error::StoreError(_) => "The object store did not take the object".to_owned(),
        }
    }

    /// Returns which failure this error reports.
    #[verifier::when_used_as_spec(spec_kind)]
    pub fn kind(&self) -> (kind: ErrorKind)
        ensures
            kind == self.spec_kind(),
    {
        match self {
            Error::ProjectDirs => ErrorKind::ProjectDirs,
            Error::InvalidFile => ErrorKind::InvalidFile,
            Error::IoError(_) => ErrorKind::IoError,
            Error::ScriptCompileError(_) => ErrorKind::ScriptCompileError,
            Error::ScriptRuntimeError(_) => ErrorKind::ScriptRuntimeError,
            Error::MissingObject => ErrorKind::MissingObject,
            Error::MissingKey => ErrorKind::MissingKey,
            Error::NoPublicUrl => ErrorKind::NoPublicUrl,
            Error::InvalidUrl(_) => ErrorKind::InvalidUrl,
            Error::StoreError(_) => ErrorKind::StoreError,
        }
    }
}

} // verus!
