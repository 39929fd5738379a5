//! The failures that a test run can meet, and the text shown for each.

use crate::text::{debug_quoted, quote};
use vstd::prelude::*;
use vstd::string::StringExecFns;

verus! {

/// A failure of one fixture, or of the preparation of a whole run.
///
/// Where the cause is an error of the operating system or of a parser, the
/// variant carries that error's rendered text.
#[derive(Debug, PartialEq, Eq)]
pub enum Error {
    /// The compiler driver could not be started.
    Cargo(String),
    /// The compiler driver ran and reported a failure on a fixture that was
    /// expected to build.
    CargoFail,
    /// A manifest at the given path could not be read.
    GetManifest(String, Box<Error>),
    /// A directory could not be read while a pattern was matched.
    Glob(String),
    /// Any other failure of the file system.
    Io(String),
    /// The build metadata could not be read.
    Metadata(String),
    /// The compiler's diagnostics differ from the snapshot.
    Mismatch,
    /// The workspace manifest names no edition.
    NoWorkspaceManifest,
    /// The fixture at the given path could not be opened.
    Open(String, String),
    /// A pattern is not well formed.
    Pattern(String),
    /// The project directory has no name.
    ProjectDir,
    /// The snapshot exists and could not be read.
    ReadStderr(String),
    /// The built program ended with a failure status.
    RunFailed,
    /// A fixture that was expected not to build did build.
    ShouldNotHaveCompiled,
    /// A manifest is not well formed.
    Toml(String),
    /// The update variable holds the given, unknown, value.
    UpdateVar(String),
    /// The snapshot could not be written.
    WriteStderr(String),
}

pub type Result<T> = std::result::Result<T, Error>;

impl Error {
    /// The text shown for this failure.
    pub open spec fn message_text(self) -> Seq<char>
        decreases self,
    {
        match self {
            Error::Cargo(e) => "failed to execute cargo: "@ + e@,
            Error::CargoFail => "cargo reported an error"@,
            Error::GetManifest(path, e) => "failed to read manifest "@ + path@ + ": "@
                + e.message_text(),
            Error::Glob(e) => e@,
            Error::Io(e) => e@,
            Error::Metadata(e) => "failed to read cargo metadata: "@ + e@,
            Error::Mismatch => "compiler error does not match expected error"@,
            Error::NoWorkspaceManifest => "Cargo.toml uses edition.workspace=true, but no edition found in workspace's manifest"@,
            Error::Open(path, e) => path@ + ": "@ + e@,
            Error::Pattern(e) => e@,
            Error::ProjectDir => "failed to determine name of project dir"@,
            Error::ReadStderr(e) => "failed to read stderr file: "@ + e@,
            Error::RunFailed => "execution of the test case was unsuccessful"@,
            Error::ShouldNotHaveCompiled => "expected test case to fail to compile, but it succeeded"@,
            Error::Toml(e) => e@,
            Error::UpdateVar(var) => "unrecognized value of TRYBUILD: "@ + debug_quoted(var@),
            Error::WriteStderr(e) => "failed to write stderr file: "@ + e@,
        }
    }

    /// Whether the failure was already shown in full when it was found, so
    /// that no general message is owed for it: a failed build, a mismatch,
    /// a failed run, and a build that should have failed.
    pub open spec fn is_already_printed(self) -> bool {
        self is CargoFail || self is Mismatch || self is RunFailed || self is ShouldNotHaveCompiled
    }

    /// Renders the failure as the text shown to the user.
    pub fn message(&self) -> (r: String)
        ensures
            r@ == self.message_text(),
        decreases self,
    {
        match self {
            Error::Cargo(e) => String::from_str("failed to execute cargo: ").concat(e.as_str()),
            Error::CargoFail => String::from_str("cargo reported an error"),
            Error::GetManifest(path, e) => {
                let inner = e.message();
                String::from_str("failed to read manifest ").concat(path.as_str()).concat(
                    ": ",
                ).concat(inner.as_str())
            },
            Error::Glob(e) => e.clone(),
            Error::Io(e) => e.clone(),
            Error::Metadata(e) => String::from_str("failed to read cargo metadata: ").concat(
                e.as_str(),
            ),
            Error::Mismatch => String::from_str("compiler error does not match expected error"),
            Error::NoWorkspaceManifest => String::from_str(
                "Cargo.toml uses edition.workspace=true, but no edition found in workspace's manifest",
            ),
            Error::Open(path, e) => path.clone().concat(": ").concat(e.as_str()),
            Error::Pattern(e) => e.clone(),
            Error::ProjectDir => String::from_str("failed to determine name of project dir"),
            Error::ReadStderr(e) => String::from_str("failed to read stderr file: ").concat(
                e.as_str(),
            ),
            Error::RunFailed => String::from_str("execution of the test case was unsuccessful"),
            Error::ShouldNotHaveCompiled => String::from_str(
                "expected test case to fail to compile, but it succeeded",
            ),
            Error::Toml(e) => e.clone(),
            Error::UpdateVar(var) => {
                let quoted = quote(var.as_str());
                String::from_str("unrecognized value of TRYBUILD: ").concat(quoted.as_str())
            },
            Error::WriteStderr(e) => String::from_str("failed to write stderr file: ").concat(
                e.as_str(),
            ),
        }
    }

    /// Whether the failure was already shown in full when it was found.
    pub fn already_printed(&self) -> (r: bool)
        ensures
            r == self.is_already_printed(),
    {
        match self {
            Error::CargoFail | Error::Mismatch | Error::RunFailed | Error::ShouldNotHaveCompiled => true,
            _ => false,
        }
    }
}

impl Clone for Error {
    fn clone(&self) -> (r: Self)
        ensures
            r == *self,
        decreases self,
    {
        match self {
            Error::Cargo(e) => Error::Cargo(e.clone()),
            Error::CargoFail => Error::CargoFail,
            Error::GetManifest(path, e) => {
                let inner: Error = (**e).clone();
                Error::GetManifest(path.clone(), Box::new(inner))
            },
            Error::Glob(e) => Error::Glob(e.clone()),
            Error::Io(e) => Error::Io(e.clone()),
            Error::Metadata(e) => Error::Metadata(e.clone()),
            Error::Mismatch => Error::Mismatch,
            Error::NoWorkspaceManifest => Error::NoWorkspaceManifest,
            Error::Open(path, e) => Error::Open(path.clone(), e.clone()),
            Error::Pattern(e) => Error::Pattern(e.clone()),
            Error::ProjectDir => Error::ProjectDir,
            Error::ReadStderr(e) => Error::ReadStderr(e.clone()),
            Error::RunFailed => Error::RunFailed,
            Error::ShouldNotHaveCompiled => Error::ShouldNotHaveCompiled,
            Error::Toml(e) => Error::Toml(e.clone()),
            Error::UpdateVar(var) => Error::UpdateVar(var.clone()),
            Error::WriteStderr(e) => Error::WriteStderr(e.clone()),
        }
    }
}

} // verus!
