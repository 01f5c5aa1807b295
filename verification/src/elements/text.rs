pub mod stdoutlog;
pub mod texttestsrc;
