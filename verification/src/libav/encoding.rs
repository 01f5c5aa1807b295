use vstd::prelude::*;
use vstd::string::StringExecFns;

verus! {

/// The encoders the service is asked for by name.
#[derive(Debug, Clone, Copy, PartialEq, Eq, Structural)]
pub enum Codec {
    H264,
    H265,
    Opus,
}

impl Codec {
    /// The name under which the native service knows the encoder.
    pub open spec fn name(self) -> Seq<char> {
        match self {
            Codec::H264 => "libx264"@,
            Codec::H265 => "libx265"@,
            Codec::Opus => "libopus"@,
        }
    }

    pub fn to_string(&self) -> (s: String)
        ensures
            s@ == self.name(),
    {
        match self {
            Codec::H264 => String::from_str("libx264"),
            Codec::H265 => String::from_str("libx265"),
            Codec::Opus => String::from_str("libopus"),
        }
    }
}

} // verus!
