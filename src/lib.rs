//! Structured, chainable error values: a common error capability, a checked
//! downcast, a construction and conversion protocol, and a cause-chain
//! formatter.

pub mod cli;
pub mod convert;
pub mod error;
pub mod format;
pub mod io;
pub mod laws;
pub mod location;

pub use cli::{CliError, CliErrorKind, LookupError, LookupErrorKind};
pub use convert::{
    capture_location, fail, propagate, CommonErrorData, ConstructError, FromError,
};
pub use error::{AnyError, Error, ErrorExt};
pub use format::{chain_locations, ErrorFormatter};
pub use io::{IoError, IoErrorKind};
pub use location::ErrorLocation;
