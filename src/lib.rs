//! Errors that record, frame by frame, where they passed on their way up.

use vstd::prelude::*;

pub mod error;
pub mod laws;
pub mod location;
pub mod transform;

pub use error::{Error, ErrorTrait, ErrorView, Failure};
pub use location::Location;

verus! {

/// A result whose error is this library's [`Error`].
pub type Result<T> = core::result::Result<T, Error>;

} // verus!
