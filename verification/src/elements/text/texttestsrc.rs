use vstd::prelude::*;
use vstd::string::StringExecFns;
use crate::element_traits::{
    link_verdict, CommonFormat, Element, ElementArchitecture, ElementType, Sink, Srcs,
};
use crate::elements::AnyElement;
use crate::pipeline::error::Error;
use crate::pipeline::{
    forward, iterated, start_one, wired_one, Data, DataView, Datagram, DatagramView, Flow, Message,
    Parent, SinkPipe, Worker,
};

verus! {

/// A producer that gives the same text at every iteration.
///
/// ```text
/// +--------------------+
/// |               _____|
/// |  TextTestSrc | src |----> Text
/// |               ^^^^^|
/// +--------------------+
/// ```
pub struct TextTestSrc {
    sink: SinkPipe,
    parent: Parent,
    text_to_send: String,
}

impl TextTestSrc {
    /// The runner of the consumer.
    pub closed spec fn sink(&self) -> SinkPipe {
        self.sink
    }

    /// The text that each iteration gives.
    pub closed spec fn text(&self) -> Seq<char> {
        self.text_to_send@
    }

    /// A producer of the text `"Test\n"`, with no consumer yet.
    pub fn new() -> (stage: TextTestSrc)
        ensures
            stage.text() == "Test\n"@,
            stage.sink().runner() == crate::pipeline::Runner::Empty,
            stage.sink().sent() == Seq::<DatagramView>::empty(),
            !stage.parent().connected(),
    {
        TextTestSrc {
            sink: SinkPipe::new(),
            parent: Parent::detached(),
            text_to_send: String::from_str("Test\n"),
        }
    }

    /// The item of one iteration: the text, which never runs out.
    pub fn produce(&self) -> (item: Datagram)
        ensures
            item@ == DatagramView::Data(DataView::Text(self.text())),
    {
        Datagram::Data(Data::Text(self.text_to_send.clone()))
    }

    /// Links the consumer: a text sink that takes text. One that does not
    /// fit is turned away and leaves this stage as it was.
    pub fn link_sink_element<E: Element>(&mut self, sink: E) -> (outcome: Result<(), Error>)
        ensures
            SinkPipe::linked(
                old(self).sink(),
                link_verdict(
                    CommonFormat::Text,
                    ElementType::TextSink,
                    sink.sink_type(),
                    sink.architecture().sink,
                ),
                sink.erased(),
                final(self).sink(),
                outcome,
            ),
            final(self).text() == old(self).text(),
            final(self).parent() == old(self).parent(),
            outcome is Err ==> *final(self) == *old(self),
    {
        self.sink.link(CommonFormat::Text, ElementType::TextSink, sink)
    }

    /// Sets the text that each iteration gives.
    pub fn set_text_to_send(&mut self, text: String)
        ensures
            final(self).text() == text@,
            final(self).sink() == old(self).sink(),
            final(self).parent() == old(self).parent(),
    {
        self.text_to_send = text;
    }
}

/// A stage with another handle is the same stage in all else.
pub proof fn lemma_with_parent(stage: TextTestSrc, parent: Parent)
    ensures
        stage.with_parent(parent).parent() == parent,
        stage.with_parent(parent).sink() == stage.sink(),
        stage.with_parent(parent).text() == stage.text(),
{
}

impl Default for TextTestSrc {
    fn default() -> (stage: TextTestSrc)
        ensures
            stage.text() == "Test\n"@,
            stage.sink().runner() == crate::pipeline::Runner::Empty,
            stage.sink().sent() == Seq::<DatagramView>::empty(),
            !stage.parent().connected(),
    {
        TextTestSrc::new()
    }
}

impl Element for TextTestSrc {
    open spec fn sink_type(&self) -> ElementType {
        ElementType::TextSrc
    }

    open spec fn architecture(&self) -> ElementArchitecture {
        ElementArchitecture { sink: Sink::Nothing, srcs: Srcs::One(CommonFormat::Text) }
    }

    closed spec fn parent(&self) -> Parent {
        self.parent
    }

    closed spec fn with_parent(self, parent: Parent) -> TextTestSrc {
        TextTestSrc { parent, ..self }
    }

    open spec fn erased(self) -> AnyElement {
        AnyElement::TextTestSrc(self)
    }

    open spec fn wired(pre: TextTestSrc, post: TextTestSrc, started: Result<Seq<Worker>, Error>) -> bool {
        &&& wired_one(pre.sink(), post.sink(), started)
        &&& post.text() == pre.text()
        &&& post.parent() == pre.parent()
    }

    /// On `Iter` the text goes to the consumer; on `Quit`, or when the conduit
    /// is closed, the producer stops; nothing else is taken.
    open spec fn handled(
        pre: TextTestSrc,
        event: Option<Datagram>,
        post: TextTestSrc,
        answer: Result<Flow, Error>,
    ) -> bool {
        match event {
            None => post == pre && answer == Ok::<Flow, Error>(Flow::Stop),
            Some(Datagram::Message(Message::Quit)) => post == pre && answer == Ok::<Flow, Error>(
                Flow::Stop,
            ),
            Some(Datagram::Message(Message::Iter)) => {
                &&& post.text() == pre.text()
                &&& iterated(
                    pre.sink(),
                    pre.parent(),
                    DatagramView::Data(DataView::Text(pre.text())),
                    post.sink(),
                    post.parent(),
                    answer,
                )
            },
            Some(_) => post == pre && answer == Err::<Flow, Error>(
                Error::ReceivedInvalidDatagramFromParent,
            ),
        }
    }

    /// The consumer's worker is told to stop and awaited.
    open spec fn released(pre: TextTestSrc, post: TextTestSrc, report: Result<(), Error>) -> bool {
        &&& post.text() == pre.text()
        &&& post.parent() == pre.parent()
        &&& SinkPipe::terminated(pre.sink(), post.sink(), report)
        &&& !pre.sink().has_worker() ==> post == pre
    }

    fn get_sink_type(&self) -> (kind: ElementType) {
        ElementType::TextSrc
    }

    fn get_architecture(&self) -> (shape: ElementArchitecture) {
        ElementArchitecture { sink: Sink::Nothing, srcs: Srcs::One(CommonFormat::Text) }
    }

    fn init(&mut self) -> (started: Result<Vec<Worker>, Error>) {
        start_one(&mut self.sink)
    }

    fn handle(&mut self, event: Option<Datagram>) -> (answer: Result<Flow, Error>) {
        match event {
            None => Ok(Flow::Stop),
            Some(Datagram::Message(Message::Quit)) => Ok(Flow::Stop),
            Some(Datagram::Message(Message::Iter)) => {
                let item = self.produce();
                forward(&mut self.sink, &mut self.parent, item)
            },
            Some(_) => Err(Error::ReceivedInvalidDatagramFromParent),
        }
    }

    fn conclude(&mut self) -> (told: Result<(), Error>) {
        self.parent.send_finished()
    }

    fn set_parent(&mut self, parent: Parent) {
        self.parent = parent;
        assert(old(self).with_parent(parent) == (TextTestSrc { parent, ..*old(self) }));
    }

    fn cleanup(&mut self) -> (report: Result<(), Error>) {
        self.sink.terminate()
    }

    fn into_any(self) -> (any: AnyElement) {
        AnyElement::TextTestSrc(self)
    }
}

} // verus!
