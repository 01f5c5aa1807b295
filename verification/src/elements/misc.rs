pub mod testsink;
pub mod testsrc;
