use vstd::prelude::*;
use vstd::string::StringExecFns;

verus! {

/// Everything that linking, driving and shutting down a pipeline can report.
#[derive(Debug, Clone, Copy, PartialEq, Eq, Structural)]
pub enum Error {
    /// The consumer does not take the format that the output slot emits.
    IncompatibleFormat,
    /// The consumer is not of the kind that the output slot feeds.
    IncompatibleRole,
    /// The runner holds no stage to take or to start.
    NoStageAdopted,
    /// The runner already holds a stage that was not taken out again.
    AlreadyAdopted,
    /// The runner has started its worker already.
    AlreadyRunning,
    /// The operation needs a started worker and there is none.
    NotReady,
    /// The peer of a conduit has gone and takes no more messages.
    SendFailed,
    /// The peer of a conduit has gone and left nothing to receive.
    ReceiveFailed,
    ReceivedInvalidDatagramFromParent,
    ReceivedInvalidDatagramFromSink,
    NoParentMessageSender,
    /// A failure of the native service, carried through unchanged.
    AVError(crate::libav::error::Error),
}

impl Error {
    /// The message that belongs to each failure.
    pub open spec fn text(self) -> Seq<char> {
        match self {
            Error::IncompatibleFormat => "Incompatible format"@,
            Error::IncompatibleRole => "Incompatible role"@,
            Error::NoStageAdopted => "No stage adopted"@,
            Error::AlreadyAdopted => "Stage already adopted"@,
            Error::AlreadyRunning => "Already running"@,
            Error::NotReady => "Pipeline is not ready"@,
            Error::SendFailed => "Send failed"@,
            Error::ReceiveFailed => "Receive failed"@,
            Error::ReceivedInvalidDatagramFromParent => "Received invalid datagram from parent"@,
            Error::ReceivedInvalidDatagramFromSink => "Received invalid datagram from sink"@,
            Error::NoParentMessageSender => "No parent message sender"@,
            Error::AVError(e) => "AVError: "@ + e.text(),
        }
    }

    /// Renders the failure as its message; a native failure keeps its own
    /// message behind a prefix.
    pub fn to_string(&self) -> (s: String)
        ensures
            s@ == self.text(),
    {
        match self {
            Error::IncompatibleFormat => String::from_str("Incompatible format"),
            Error::IncompatibleRole => String::from_str("Incompatible role"),
            Error::NoStageAdopted => String::from_str("No stage adopted"),
            Error::AlreadyAdopted => String::from_str("Stage already adopted"),
            Error::AlreadyRunning => String::from_str("Already running"),
            Error::NotReady => String::from_str("Pipeline is not ready"),
            Error::SendFailed => String::from_str("Send failed"),
            Error::ReceiveFailed => String::from_str("Receive failed"),
            Error::ReceivedInvalidDatagramFromParent => String::from_str(
                "Received invalid datagram from parent",
            ),
            Error::ReceivedInvalidDatagramFromSink => String::from_str(
                "Received invalid datagram from sink",
            ),
            Error::NoParentMessageSender => String::from_str("No parent message sender"),
            Error::AVError(e) => {
                let inner = e.to_string();
                String::from_str("AVError: ").concat(inner.as_str())
            },
        }
    }
}

} // verus!
