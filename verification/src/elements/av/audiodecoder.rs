use vstd::prelude::*;
use crate::element_traits::{
    link_verdict, CommonFormat, Element, ElementArchitecture, ElementType, Sink, Srcs,
};
use crate::elements::AnyElement;
use crate::libav::decoding::Frame;
use crate::libav::demuxing::{stream_view, CodecID, CodecParams, StreamView};
use crate::pipeline::error::Error;
use crate::pipeline::{Data, Datagram, DatagramView, Flow, Message, Parent, Runner, SinkPipe, Worker};

verus! {

/// The audio branch of a demultiplexer: takes packets and has the host
/// decode each with the native service.
///
/// ```text
///               +-----------------------------+
///               |______                  _____|
/// AVPacket ---->| sink |  AudioDecoder  | src |----> Text
///               |^^^^^^                  ^^^^^|
///               +-----------------------------+
/// ```
pub struct AudioDecoder {
    sink: SinkPipe,
    parent: Parent,
    stream: (i32, CodecID, CodecParams),
}

/// What the stage does once the host has decoded a packet: it goes on after
/// frames, however many, and stops after a failure.
pub open spec fn decode_verdict(outcome: Result<Vec<Frame>, crate::libav::error::Error>) -> Flow {
    match outcome {
        Ok(_) => Flow::Continue,
        Err(_) => Flow::Stop,
    }
}

impl AudioDecoder {
    /// The runner of the consumer.
    pub closed spec fn sink(&self) -> SinkPipe {
        self.sink
    }

    /// The stream that the stage decodes.
    pub closed spec fn stream(&self) -> StreamView {
        stream_view(self.stream)
    }

    /// A decoder stage for the stream described.
    pub fn new(stream: (i32, CodecID, CodecParams)) -> (stage: AudioDecoder)
        ensures
            stage.stream() == stream_view(stream),
            stage.sink().runner() == Runner::Empty,
            stage.sink().sent() == Seq::<DatagramView>::empty(),
            !stage.parent().connected(),
    {
        AudioDecoder { sink: SinkPipe::new(), parent: Parent::detached(), stream }
    }

    /// Links the consumer: a text sink that takes text. One that does not
    /// fit is turned away and leaves this stage as it was.
    pub fn link_sink_element<E: Element>(&mut self, sink: E) -> (outcome: Result<(), Error>)
        ensures
            SinkPipe::linked(
                old(self).sink(),
                link_verdict(
                    CommonFormat::Text,
                    ElementType::TextSink,
                    sink.sink_type(),
                    sink.architecture().sink,
                ),
                sink.erased(),
                final(self).sink(),
                outcome,
            ),
            final(self).stream() == old(self).stream(),
            final(self).parent() == old(self).parent(),
            outcome is Err ==> *final(self) == *old(self),
    {
        self.sink.link(CommonFormat::Text, ElementType::TextSink, sink)
    }

    pub fn get_stream_index(&self) -> (index: i32)
        ensures
            index == self.stream().index,
    {
        self.stream.0
    }

    /// The codec of the stream, by which the host opens the native decoder.
    pub fn get_codec_id(&self) -> (codec_id: CodecID)
        ensures
            codec_id == self.stream().codec_id,
    {
        self.stream.1
    }

    /// The parameters of the stream's codec.
    pub fn get_codec_params(&self) -> (params: &CodecParams)
        ensures
            params.inner@ == self.stream().params,
    {
        &self.stream.2
    }

    /// What the stage answers to each datagram: it stops when told to, when
    /// the conduit is closed and on a payload that is no packet; it has a
    /// packet decoded; it takes no other message.
    pub open spec fn answer_to(event: Option<Datagram>) -> Result<Flow, Error> {
        match event {
            None => Ok(Flow::Stop),
            Some(Datagram::Message(Message::Quit)) => Ok(Flow::Stop),
            Some(Datagram::Message(_)) => Err(Error::ReceivedInvalidDatagramFromParent),
            Some(Datagram::Data(Data::AVPacket(packet))) => Ok(Flow::Decode(packet)),
            Some(Datagram::Data(_)) => Ok(Flow::Stop),
        }
    }

    /// Takes what the native service made of the packet that the stage asked
    /// to have decoded.
    pub fn decoded(&mut self, outcome: Result<Vec<Frame>, crate::libav::error::Error>) -> (flow:
        Flow)
        ensures
            flow == decode_verdict(outcome),
            *final(self) == *old(self),
    {
        match outcome {
            Ok(_) => Flow::Continue,
            Err(_) => Flow::Stop,
        }
    }
}

/// A stage with another handle is the same stage in all else.
pub proof fn lemma_with_parent(stage: AudioDecoder, parent: Parent)
    ensures
        stage.with_parent(parent).parent() == parent,
        stage.with_parent(parent).sink() == stage.sink(),
        stage.with_parent(parent).stream() == stage.stream(),
{
}

impl Element for AudioDecoder {
    open spec fn sink_type(&self) -> ElementType {
        ElementType::AVPacketAudioSink
    }

    open spec fn architecture(&self) -> ElementArchitecture {
        ElementArchitecture {
            sink: Sink::One(CommonFormat::AVPacket),
            srcs: Srcs::One(CommonFormat::Text),
        }
    }

    closed spec fn parent(&self) -> Parent {
        self.parent
    }

    closed spec fn with_parent(self, parent: Parent) -> AudioDecoder {
        AudioDecoder { parent, ..self }
    }

    open spec fn erased(self) -> AnyElement {
        AnyElement::AudioDecoder(self)
    }

    /// The stage gives nothing to its consumer yet, and does not start it.
    open spec fn wired(pre: AudioDecoder, post: AudioDecoder, started: Result<Seq<Worker>, Error>) -> bool {
        post == pre && started == Ok::<Seq<Worker>, Error>(Seq::empty())
    }

    open spec fn handled(
        pre: AudioDecoder,
        event: Option<Datagram>,
        post: AudioDecoder,
        answer: Result<Flow, Error>,
    ) -> bool {
        post == pre && answer == AudioDecoder::answer_to(event)
    }

    open spec fn released(pre: AudioDecoder, post: AudioDecoder, report: Result<(), Error>) -> bool {
        &&& post.parent() == pre.parent()
        &&& post.stream() == pre.stream()
        &&& SinkPipe::terminated(pre.sink(), post.sink(), report)
        &&& !pre.sink().has_worker() ==> post == pre
    }

    fn get_sink_type(&self) -> (kind: ElementType) {
        ElementType::AVPacketAudioSink
    }

    fn get_architecture(&self) -> (shape: ElementArchitecture) {
        ElementArchitecture {
            sink: Sink::One(CommonFormat::AVPacket),
            srcs: Srcs::One(CommonFormat::Text),
        }
    }

    fn init(&mut self) -> (started: Result<Vec<Worker>, Error>) {
        Ok(Vec::new())
    }

    fn handle(&mut self, event: Option<Datagram>) -> (answer: Result<Flow, Error>) {
        match event {
            None => Ok(Flow::Stop),
            Some(Datagram::Message(Message::Quit)) => Ok(Flow::Stop),
            Some(Datagram::Message(_)) => Err(Error::ReceivedInvalidDatagramFromParent),
            Some(Datagram::Data(Data::AVPacket(packet))) => Ok(Flow::Decode(packet)),
            Some(Datagram::Data(_)) => Ok(Flow::Stop),
        }
    }

    fn conclude(&mut self) -> (told: Result<(), Error>) {
        self.parent.send_finished()
    }

    fn set_parent(&mut self, parent: Parent) {
        self.parent = parent;
        assert(old(self).with_parent(parent) == (AudioDecoder { parent, ..*old(self) }));
    }

    fn cleanup(&mut self) -> (report: Result<(), Error>) {
        self.sink.terminate()
    }

    fn into_any(self) -> (any: AnyElement) {
        AnyElement::AudioDecoder(self)
    }
}

} // verus!
