//! What can go wrong.

use vstd::prelude::*;

verus! {

/// The ways in which a pass can fail.
#[derive(Debug)]
pub enum GrantProgramError {
    /// The summary could not be written as JSON text.
    Json(serde_json::Error),
}

} // verus!
