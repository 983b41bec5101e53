//! The payload served at the root path of a small JSON service, and the
//! exact bytes of its response.

pub mod json;
pub mod payload;
