//! Native bridge core for a dynamically-typed host scripting runtime.
//!
//! The crate models the pieces a native extension needs to talk to the host:
//! the tagged type and value model shared across the boundary, the per-object
//! state box with checked downcasts, the class/function descriptor registry
//! built once at module start, the call-time dispatcher, and the translation
//! of native errors into host exceptions.

use vstd::prelude::*;

pub mod dispatch;
pub mod errors;
pub mod registry;
pub mod state;
pub mod types;
pub mod values;

verus! {

} // verus!
