//! The ways a build or a packaging step can fail.
use vstd::prelude::*;

verus! {

/// Why a build or a packaging step failed. Each variant that carries a
/// `String` holds the offending value.
#[derive(Debug, Clone)]
pub enum BuildError {
    /// `--arm64` was given together with an explicit target.
    ConflictingOptions,
    /// A triple outside the two supported Linux families.
    UnsupportedTarget(String),
    /// A requested binary name that the manifest does not declare.
    UnknownBinaryTarget(String),
    /// The compiler cannot produce output for the target and it could not be added.
    ToolchainUnavailable(String),
    /// The linker helper is missing and could not be installed.
    LinkerUnavailable(String),
    /// The compiler process exited with this code.
    BuildFailed(i32),
    /// No compiled binary at this path.
    BinaryNotFound(String),
    /// The binary is built for an architecture other than arm64 and x86_64,
    /// or is not an object file; the value names what was found.
    UnsupportedArchitecture(String),
    /// Reading or writing a file or an archive failed.
    IoError(String),
}

} // verus!
