//! Target resolution and artifact packaging for functions deployed to a
//! serverless Linux runtime: which triple to compile for, where the compiled
//! binaries land, and how each is turned into a checksummed `bootstrap`
//! artifact.
pub mod command;
pub mod error;
pub mod package;
pub mod target;
pub mod text;

pub use command::Build;
pub use package::BinaryArchive;
