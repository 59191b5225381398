//! Errors of the windowing collaborator. The window itself — creation,
//! events, buffer swaps — lives entirely outside the rendering core; only
//! the error type it reports with belongs to the library's taxonomy.

use vstd::prelude::*;

verus! {

/// A failure reported by the windowing collaborator.
#[derive(Debug, Clone, PartialEq, Eq)]
pub enum WindowError {
    RendererError { message: String },
}

impl WindowError {
    /// The human-readable message carried by the error.
    pub fn message(&self) -> (r: &String)
        ensures
            *self == (WindowError::RendererError { message: *r }),
    {
        match self {
            WindowError::RendererError { message } => message,
        }
    }
}

impl From<String> for WindowError {
    fn from(error: String) -> (r: Self) {
        WindowError::RendererError { message: error }
    }
}

impl vstd::std_specs::convert::FromSpecImpl<String> for WindowError {
    open spec fn obeys_from_spec() -> bool {
        true
    }

    open spec fn from_spec(error: String) -> Self {
        WindowError::RendererError { message: error }
    }
}

} // verus!
