//! Client library for a remote memory-agent service.
//!
//! The library builds typed requests, renders them as JSON text, resolves
//! the target URL for each remote capability, and classifies every HTTP
//! outcome into either a typed domain value or a diagnostic error that
//! captures the URL, the request body, and the response status and body.

pub mod client;
pub mod codec;
pub mod domain;
pub mod error;
pub mod json;
pub mod laws;
pub mod parse;
pub mod render;
pub mod text;
pub mod updates;
pub mod url;

use vstd::prelude::*;

verus! {

/// A result is split into the mathematical models of its two sides, so that
/// contracts can speak of one value whichever way a call went.
pub open spec fn res_view<T: View, E: View>(r: Result<T, E>) -> Result<T::V, E::V> {
    match r {
        Ok(v) => Ok(v.view()),
        Err(e) => Err(e.view()),
    }
}

} // verus!
