//! Plain-value picture of the native demultiplexing and decoding service:
//! what the stages read from packets, frames and stream descriptions.
pub mod decoding;
pub mod demuxing;
pub mod encoding;
pub mod error;
