//! Text-to-speech client logic: the voice catalog, the request that is sent
//! to the synthesis endpoint, the decoding of its reply, and the order in
//! which one run goes through its stages.

pub mod base64;
pub mod catalog;
pub mod error;
pub mod json;
pub mod response;
pub mod pipeline;
pub mod request;
