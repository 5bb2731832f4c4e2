//! Task records of a structured database, normalised into flat tasks.

pub mod assemble;
pub mod decode;
pub mod json;
pub mod laws;
pub mod notion;
pub mod request;
pub mod response;
pub mod rollup;
