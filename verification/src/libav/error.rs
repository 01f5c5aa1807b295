use vstd::prelude::*;
use vstd::string::StringExecFns;

verus! {

/// What the native service can report.
#[derive(Debug, Clone, Copy, PartialEq, Eq, Structural)]
pub enum Error {
    FailedToOpenInput,
    FailedToFindBestStream,
    FailedToReadFrame,
    FailedToFindDecoder,
    FailedToCreateDecoder,
    FailedToCopyCodecParamsToDecoder,
    FailedToOpenCodec,
    FailedToAllocFrame,
    FailedToAllocPacket,
    FailedToSendPacketToDecoder,
    FailedToReceiveDecodedFrame,
}

impl Error {
    /// The message that belongs to each failure.
    pub open spec fn text(self) -> Seq<char> {
        match self {
            Error::FailedToOpenInput => "Failed to open input"@,
            Error::FailedToFindBestStream => "Failed to find best stream"@,
            Error::FailedToReadFrame => "Failed to read frame"@,
            Error::FailedToFindDecoder => "Failed to find decoder"@,
            Error::FailedToCreateDecoder => "Failed to create decoder"@,
            Error::FailedToCopyCodecParamsToDecoder => "Failed to copy codec params to decoder"@,
            Error::FailedToOpenCodec => "Failed to open codec"@,
            Error::FailedToAllocFrame => "Failed to alloc frame"@,
            Error::FailedToAllocPacket => "Failed to alloc packet"@,
            Error::FailedToSendPacketToDecoder => "Failed to send packet to decoder"@,
            Error::FailedToReceiveDecodedFrame => "Failed to receive decoded frame"@,
        }
    }

    /// Renders the failure as its message.
    pub fn to_string(&self) -> (s: String)
        ensures
            s@ == self.text(),
    {
        match self {
            Error::FailedToOpenInput => String::from_str("Failed to open input"),
            Error::FailedToFindBestStream => String::from_str("Failed to find best stream"),
            Error::FailedToReadFrame => String::from_str("Failed to read frame"),
            Error::FailedToFindDecoder => String::from_str("Failed to find decoder"),
            Error::FailedToCreateDecoder => String::from_str("Failed to create decoder"),
            Error::FailedToCopyCodecParamsToDecoder => String::from_str(
                "Failed to copy codec params to decoder",
            ),
            Error::FailedToOpenCodec => String::from_str("Failed to open codec"),
            Error::FailedToAllocFrame => String::from_str("Failed to alloc frame"),
            Error::FailedToAllocPacket => String::from_str("Failed to alloc packet"),
            Error::FailedToSendPacketToDecoder => String::from_str(
                "Failed to send packet to decoder",
            ),
            Error::FailedToReceiveDecodedFrame => String::from_str(
                "Failed to receive decoded frame",
            ),
        }
    }
}

} // verus!
