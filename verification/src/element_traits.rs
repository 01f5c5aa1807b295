use vstd::prelude::*;
use crate::elements::AnyElement;
use crate::pipeline::error::Error;
use crate::pipeline::{Datagram, Flow, Message, Parent, Worker};

verus! {

/// The shape of the data that passes between two stages.
#[derive(PartialEq, Eq, Clone, Copy, Debug, Structural)]
pub enum CommonFormat {
    Text,
    Bytes,
    AVPacket,
}

/// What a stage takes in: one format, or nothing at all.
#[derive(PartialEq, Eq, Clone, Copy, Debug, Structural)]
pub enum Sink {
    One(CommonFormat),
    Nothing,
}

impl Sink {
    pub fn has_none(&self) -> (none: bool)
        ensures
            none == (*self == Sink::Nothing),
    {
        matches!(self, Sink::Nothing)
    }
}

/// What a stage gives out: nothing, one format, or two (which makes it a
/// fan-out stage).
#[derive(PartialEq, Eq, Clone, Copy, Debug, Structural)]
pub enum Srcs {
    One(CommonFormat),
    Two(CommonFormat, CommonFormat),
    Nothing,
}

impl Srcs {
    pub fn has_none(&self) -> (none: bool)
        ensures
            none == (*self == Srcs::Nothing),
    {
        matches!(self, Srcs::Nothing)
    }
}

/// Whether a stage that takes `sink` can follow a stage that gives `src`: the
/// first takes exactly one format and the second gives exactly that one.
pub fn sink_is_compatible_with_src(sink: Sink, src: Srcs) -> (compatible: bool)
    ensures
        compatible == match sink {
            Sink::One(format) => src == Srcs::One(format),
            Sink::Nothing => false,
        },
{
    match sink {
        Sink::One(format) => match src {
            Srcs::One(given) => given == format,
            _ => false,
        },
        _ => false,
    }
}

/// The declared input and output of a stage.
#[derive(PartialEq, Eq, Clone, Copy, Debug, Structural)]
pub struct ElementArchitecture {
    pub sink: Sink,
    pub srcs: Srcs,
}

/// The kind of a stage. An output slot asks for one kind of consumer.
#[derive(PartialEq, Eq, Clone, Copy, Debug, Structural)]
pub enum ElementType {
    TextSink,
    TextSrc,
    BytesSrc,
    BytesSink,
    AVPacketSrc,
    AVPacketVideoSink,
    AVPacketAudioSink,
}

/// The verdict on linking a consumer to an output slot that emits
/// `slot_format` and feeds consumers of kind `slot_role`. The formats are
/// compared first, so a consumer that fails on both counts is turned away for
/// its format.
pub open spec fn link_verdict(
    slot_format: CommonFormat,
    slot_role: ElementType,
    consumer_role: ElementType,
    consumer_input: Sink,
) -> Result<(), Error> {
    if consumer_input != Sink::One(slot_format) {
        Err(Error::IncompatibleFormat)
    } else if consumer_role != slot_role {
        Err(Error::IncompatibleRole)
    } else {
        Ok(())
    }
}

/// Decides whether a consumer of kind `consumer_role` that takes
/// `consumer_input` may be linked to an output slot.
pub fn is_link_valid(
    slot_format: CommonFormat,
    slot_role: ElementType,
    consumer_role: ElementType,
    consumer_input: Sink,
) -> (verdict: Result<(), Error>)
    ensures
        verdict == link_verdict(slot_format, slot_role, consumer_role, consumer_input),
{
    match consumer_input {
        Sink::One(format) => {
            if format != slot_format {
                Err(Error::IncompatibleFormat)
            } else if consumer_role != slot_role {
                Err(Error::IncompatibleRole)
            } else {
                Ok(())
            }
        },
        Sink::Nothing => Err(Error::IncompatibleFormat),
    }
}

/// A consumer is linked exactly where it takes the slot's format and is of
/// the slot's kind; every other consumer is turned away, for its format where
/// that does not fit and for its role otherwise.
pub proof fn lemma_link_verdict(
    slot_format: CommonFormat,
    slot_role: ElementType,
    consumer_role: ElementType,
    consumer_input: Sink,
)
    ensures
        link_verdict(slot_format, slot_role, consumer_role, consumer_input) is Ok <==> (
        consumer_input == Sink::One(slot_format) && consumer_role == slot_role),
        consumer_input != Sink::One(slot_format) ==> link_verdict(
            slot_format,
            slot_role,
            consumer_role,
            consumer_input,
        ) == Err::<(), Error>(Error::IncompatibleFormat),
        consumer_input == Sink::One(slot_format) && consumer_role != slot_role ==> link_verdict(
            slot_format,
            slot_role,
            consumer_role,
            consumer_input,
        ) == Err::<(), Error>(Error::IncompatibleRole),
{
}

/// What every stage can do: say what it is, say what it takes and gives, run
/// as a worker, take the handle to the stage above, and release what it holds.
///
/// A worker's run is cut into `init`, any number of `handle`s and `conclude`,
/// so that the loop around `handle` can live in the host program.
pub trait Element: Sized {
    /// The kind of the stage.
    spec fn sink_type(&self) -> ElementType;

    /// The declared input and output of the stage.
    spec fn architecture(&self) -> ElementArchitecture;

    /// The handle through which the stage acknowledges upstream.
    spec fn parent(&self) -> Parent;

    /// The same stage with another handle to the stage above.
    spec fn with_parent(self, parent: Parent) -> Self;

    /// The stage as a member of the closed family of stages.
    spec fn erased(self) -> AnyElement;

    /// How `init` may change the stage, and which workers it hands out.
    spec fn wired(pre: Self, post: Self, started: Result<Seq<Worker>, Error>) -> bool;

    /// How `handle` may change the stage on `event`, and what it answers.
    spec fn handled(
        pre: Self,
        event: Option<Datagram>,
        post: Self,
        answer: Result<Flow, Error>,
    ) -> bool;

    /// How `cleanup` may change the stage, and what it reports.
    spec fn released(pre: Self, post: Self, report: Result<(), Error>) -> bool;

    fn get_sink_type(&self) -> (kind: ElementType)
        ensures
            kind == self.sink_type(),
    ;

    fn get_architecture(&self) -> (shape: ElementArchitecture)
        ensures
            shape == self.architecture(),
    ;

    /// Starts a runner for each linked consumer and hands out their workers,
    /// which the host starts. Nothing is started unless all can be.
    fn init(&mut self) -> (started: Result<Vec<Worker>, Error>)
        ensures
            Self::wired(
                *old(self),
                *final(self),
                match started {
                    Ok(workers) => Ok(workers@),
                    Err(e) => Err(e),
                },
            ),
            final(self).sink_type() == old(self).sink_type(),
            final(self).architecture() == old(self).architecture(),
    ;

    /// Reacts to one datagram from upstream; `None` stands for a conduit that
    /// the stage above has closed.
    fn handle(&mut self, event: Option<Datagram>) -> (answer: Result<Flow, Error>)
        ensures
            Self::handled(*old(self), event, *final(self), answer),
            final(self).sink_type() == old(self).sink_type(),
            final(self).architecture() == old(self).architecture(),
    ;

    /// Tells the stage above that this worker has left its loop.
    fn conclude(&mut self) -> (told: Result<(), Error>)
        ensures
            Parent::acknowledged(
                old(self).parent(),
                Message::Finished,
                final(self).parent(),
                told,
            ),
            *final(self) == old(self).with_parent(final(self).parent()),
            final(self).sink_type() == old(self).sink_type(),
            final(self).architecture() == old(self).architecture(),
    ;

    fn set_parent(&mut self, parent: Parent)
        ensures
            final(self).parent() == parent,
            *final(self) == old(self).with_parent(parent),
            final(self).sink_type() == old(self).sink_type(),
            final(self).architecture() == old(self).architecture(),
    ;

    /// Stops and awaits the workers of the linked consumers. Safe to repeat,
    /// and safe on a stage that never ran.
    fn cleanup(&mut self) -> (report: Result<(), Error>)
        ensures
            Self::released(*old(self), *final(self), report),
            final(self).sink_type() == old(self).sink_type(),
            final(self).architecture() == old(self).architecture(),
    ;

    fn into_any(self) -> (any: AnyElement)
        ensures
            any == self.erased(),
    ;
}

} // verus!
