//! Populate configuration values from environment-variable text.
//!
//! The library is split along the two layers of the loader.  The
//! per-value converter applies a type's textual-parse contract to the
//! tri-state outcome of one environment lookup — absent, present but
//! not valid text, or present as text.  The structure assembler
//! derives one variable name per field from the field identifier and
//! an optional structure-level prefix, converts, and applies the
//! mandatory-versus-optional policy in declaration order, stopping at
//! the first failure.  Reading the process environment itself is left
//! to the caller, who hands in an [`environment::Environment`]
//! snapshot of plain values.

pub mod assemble;
pub mod convert;
pub mod environment;
pub mod error;
pub mod name;
pub mod parse;

pub use assemble::{assemble, FieldDecl, FromEnv};
pub use convert::{from_env_var, mandatory_field, optional_field, RawLookupResult};
pub use environment::{EnvEntry, EnvValue, Environment};
pub use error::{EnvError, EnvVarError};
pub use name::derive_env_var_name;
pub use parse::FromEnvVar;
