use vstd::prelude::*;
use crate::element_traits::{
    link_verdict, CommonFormat, Element, ElementArchitecture, ElementType, Sink, Srcs,
};
use crate::elements::AnyElement;
use crate::pipeline::error::Error;
use crate::pipeline::{Data, Datagram, DatagramView, Flow, Message, Parent, Runner, SinkPipe, Worker};

verus! {

/// The video branch of a demultiplexer: takes packets and, so far, does
/// nothing with them.
///
/// ```text
///               +-----------------------------+
///               |______                  _____|
/// AVPacket ---->| sink |  VideoDecoder  | src |----> Text
///               |^^^^^^                  ^^^^^|
///               +-----------------------------+
/// ```
pub struct VideoDecoder {
    sink: SinkPipe,
    parent: Parent,
}

impl VideoDecoder {
    /// The runner of the consumer.
    pub closed spec fn sink(&self) -> SinkPipe {
        self.sink
    }

    pub fn new() -> (stage: VideoDecoder)
        ensures
            stage.sink().runner() == Runner::Empty,
            stage.sink().sent() == Seq::<DatagramView>::empty(),
            !stage.parent().connected(),
    {
        VideoDecoder { sink: SinkPipe::new(), parent: Parent::detached() }
    }

    /// Links the consumer: a text sink that takes text. One that does not
    /// fit is turned away and leaves this stage as it was.
    pub fn link_sink_element<E: Element>(&mut self, sink: E) -> (outcome: Result<(), Error>)
        ensures
            SinkPipe::linked(
                old(self).sink(),
                link_verdict(
                    CommonFormat::Text,
                    ElementType::TextSink,
                    sink.sink_type(),
                    sink.architecture().sink,
                ),
                sink.erased(),
                final(self).sink(),
                outcome,
            ),
            final(self).parent() == old(self).parent(),
            outcome is Err ==> *final(self) == *old(self),
    {
        self.sink.link(CommonFormat::Text, ElementType::TextSink, sink)
    }

    /// What the stage answers to each datagram: it stops when told to, when
    /// the conduit is closed and on a payload that is no packet; it goes on
    /// after a packet; it takes no other message.
    pub open spec fn answer_to(event: Option<Datagram>) -> Result<Flow, Error> {
        match event {
            None => Ok(Flow::Stop),
            Some(Datagram::Message(Message::Quit)) => Ok(Flow::Stop),
            Some(Datagram::Message(_)) => Err(Error::ReceivedInvalidDatagramFromParent),
            Some(Datagram::Data(Data::AVPacket(_))) => Ok(Flow::Continue),
            Some(Datagram::Data(_)) => Ok(Flow::Stop),
        }
    }
}

/// A stage with another handle is the same stage in all else.
pub proof fn lemma_with_parent(stage: VideoDecoder, parent: Parent)
    ensures
        stage.with_parent(parent).parent() == parent,
        stage.with_parent(parent).sink() == stage.sink(),
{
}

impl Default for VideoDecoder {
    fn default() -> (stage: VideoDecoder)
        ensures
            stage.sink().runner() == Runner::Empty,
            stage.sink().sent() == Seq::<DatagramView>::empty(),
            !stage.parent().connected(),
    {
        VideoDecoder::new()
    }
}

impl Element for VideoDecoder {
    open spec fn sink_type(&self) -> ElementType {
        ElementType::AVPacketVideoSink
    }

    open spec fn architecture(&self) -> ElementArchitecture {
        ElementArchitecture {
            sink: Sink::One(CommonFormat::AVPacket),
            srcs: Srcs::One(CommonFormat::Text),
        }
    }

    closed spec fn parent(&self) -> Parent {
        self.parent
    }

    closed spec fn with_parent(self, parent: Parent) -> VideoDecoder {
        VideoDecoder { parent, ..self }
    }

    open spec fn erased(self) -> AnyElement {
        AnyElement::VideoDecoder(self)
    }

    /// The stage gives nothing to its consumer yet, and does not start it.
    open spec fn wired(pre: VideoDecoder, post: VideoDecoder, started: Result<Seq<Worker>, Error>) -> bool {
        post == pre && started == Ok::<Seq<Worker>, Error>(Seq::empty())
    }

    open spec fn handled(
        pre: VideoDecoder,
        event: Option<Datagram>,
        post: VideoDecoder,
        answer: Result<Flow, Error>,
    ) -> bool {
        post == pre && answer == VideoDecoder::answer_to(event)
    }

    open spec fn released(pre: VideoDecoder, post: VideoDecoder, report: Result<(), Error>) -> bool {
        &&& post.parent() == pre.parent()
        &&& SinkPipe::terminated(pre.sink(), post.sink(), report)
        &&& !pre.sink().has_worker() ==> post == pre
    }

    fn get_sink_type(&self) -> (kind: ElementType) {
        ElementType::AVPacketVideoSink
    }

    fn get_architecture(&self) -> (shape: ElementArchitecture) {
        ElementArchitecture {
            sink: Sink::One(CommonFormat::AVPacket),
            srcs: Srcs::One(CommonFormat::Text),
        }
    }

    fn init(&mut self) -> (started: Result<Vec<Worker>, Error>) {
        Ok(Vec::new())
    }

    fn handle(&mut self, event: Option<Datagram>) -> (answer: Result<Flow, Error>) {
        match event {
            None => Ok(Flow::Stop),
            Some(Datagram::Message(Message::Quit)) => Ok(Flow::Stop),
            Some(Datagram::Message(_)) => Err(Error::ReceivedInvalidDatagramFromParent),
            Some(Datagram::Data(Data::AVPacket(_))) => Ok(Flow::Continue),
            Some(Datagram::Data(_)) => Ok(Flow::Stop),
        }
    }

    fn conclude(&mut self) -> (told: Result<(), Error>) {
        self.parent.send_finished()
    }

    fn set_parent(&mut self, parent: Parent) {
        self.parent = parent;
        assert(old(self).with_parent(parent) == (VideoDecoder { parent, ..*old(self) }));
    }

    fn cleanup(&mut self) -> (report: Result<(), Error>) {
        self.sink.terminate()
    }

    fn into_any(self) -> (any: AnyElement) {
        AnyElement::VideoDecoder(self)
    }
}

} // verus!
