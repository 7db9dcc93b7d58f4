//! A Node.js-style filesystem surface for a sandboxed script runtime: argument
//! decoding, open-flag translation, metadata and error marshalling, and the
//! settlement of asynchronous reads. Host calls are made by the embedder.
use vstd::prelude::*;

pub mod error;
pub mod flags;
pub mod module;
pub mod read;
pub mod reply;
pub mod request;
pub mod stat;
pub mod value;

pub use module::init_module;

verus! {

} // verus!
