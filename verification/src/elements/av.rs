pub mod audiodecoder;
pub mod demuxsrc;
pub mod videodecoder;
