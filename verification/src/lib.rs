//! A memory-safe façade over a CSS stylesheet engine.
//!
//! The crate models the engine boundary that the façade wraps: streaming
//! stylesheet construction, a selection context that owns the sheets
//! registered with it, a capability-based node handler protocol consulted
//! during selection, a tagged codec for per-property hint values, and a
//! closed error taxonomy for the engine's status codes.

pub mod computed;
pub mod errors;
pub mod hint;
pub mod parser;
pub mod properties;
pub mod raw_handler;
pub mod select;
pub mod stylesheet;
pub mod types;
