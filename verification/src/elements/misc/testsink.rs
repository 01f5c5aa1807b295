use vstd::prelude::*;
use crate::element_traits::{CommonFormat, Element, ElementArchitecture, ElementType, Sink, Srcs};
use crate::elements::AnyElement;
use crate::pipeline::error::Error;
use crate::pipeline::{Datagram, Flow, Message, Parent, Worker};

verus! {

/// A sink of any kind and format that keeps what it receives, in order, for
/// whoever looks at the worker afterwards.
///
/// ```text
///           +-------------------+
///           |______             |
/// ???? ---->| sink |  TestSink  |
///           |^^^^^^             |
///           +-------------------+
/// ```
pub struct TestSink {
    parent: Parent,
    sink_type: ElementType,
    sink_format: CommonFormat,
    seen: Vec<Datagram>,
}

impl TestSink {
    /// The datagrams received so far, oldest first.
    pub closed spec fn recorded(&self) -> Seq<Datagram> {
        self.seen@
    }

    pub closed spec fn format(&self) -> CommonFormat {
        self.sink_format
    }

    pub fn new(sink_type: ElementType, sink_format: CommonFormat) -> (stage: TestSink)
        ensures
            stage.sink_type() == sink_type,
            stage.format() == sink_format,
            stage.recorded() == Seq::<Datagram>::empty(),
            !stage.parent().connected(),
    {
        TestSink { parent: Parent::detached(), sink_type, sink_format, seen: Vec::new() }
    }

    /// The datagrams received so far, oldest first.
    pub fn seen(&self) -> (seen: &Vec<Datagram>)
        ensures
            seen@ == self.recorded(),
    {
        &self.seen
    }
}

/// A stage with another handle is the same stage in all else.
pub proof fn lemma_with_parent(stage: TestSink, parent: Parent)
    ensures
        stage.with_parent(parent).parent() == parent,
        stage.with_parent(parent).recorded() == stage.recorded(),
        stage.with_parent(parent).format() == stage.format(),
        stage.with_parent(parent).sink_type() == stage.sink_type(),
{
}

impl Element for TestSink {
    closed spec fn sink_type(&self) -> ElementType {
        self.sink_type
    }

    open spec fn architecture(&self) -> ElementArchitecture {
        ElementArchitecture { sink: Sink::One(self.format()), srcs: Srcs::Nothing }
    }

    closed spec fn parent(&self) -> Parent {
        self.parent
    }

    closed spec fn with_parent(self, parent: Parent) -> TestSink {
        TestSink { parent, ..self }
    }

    open spec fn erased(self) -> AnyElement {
        AnyElement::TestSink(self)
    }

    open spec fn wired(pre: TestSink, post: TestSink, started: Result<Seq<Worker>, Error>) -> bool {
        post == pre && started == Ok::<Seq<Worker>, Error>(Seq::empty())
    }

    /// The sink keeps every datagram it receives. It stops when told to or
    /// when the conduit is closed.
    open spec fn handled(
        pre: TestSink,
        event: Option<Datagram>,
        post: TestSink,
        answer: Result<Flow, Error>,
    ) -> bool {
        match event {
            None => post == pre && answer == Ok::<Flow, Error>(Flow::Stop),
            Some(datagram) => {
                &&& post.recorded() == pre.recorded().push(datagram)
                &&& post.parent() == pre.parent()
                &&& answer == Ok::<Flow, Error>(
                    if datagram == Datagram::Message(Message::Quit) {
                        Flow::Stop
                    } else {
                        Flow::Continue
                    },
                )
            },
        }
    }

    open spec fn released(pre: TestSink, post: TestSink, report: Result<(), Error>) -> bool {
        post == pre && report is Ok
    }

    fn get_sink_type(&self) -> (kind: ElementType) {
        self.sink_type
    }

    fn get_architecture(&self) -> (shape: ElementArchitecture) {
        ElementArchitecture { sink: Sink::One(self.sink_format), srcs: Srcs::Nothing }
    }

    fn init(&mut self) -> (started: Result<Vec<Worker>, Error>) {
        Ok(Vec::new())
    }

    fn handle(&mut self, event: Option<Datagram>) -> (answer: Result<Flow, Error>) {
        match event {
            None => Ok(Flow::Stop),
            Some(datagram) => {
                let quit = match &datagram {
                    Datagram::Message(Message::Quit) => true,
                    _ => false,
                };
                self.seen.push(datagram);
                if quit {
                    Ok(Flow::Stop)
                } else {
                    Ok(Flow::Continue)
                }
            },
        }
    }

    fn conclude(&mut self) -> (told: Result<(), Error>) {
        self.parent.send_finished()
    }

    fn set_parent(&mut self, parent: Parent) {
        self.parent = parent;
        assert(old(self).with_parent(parent) == (TestSink { parent, ..*old(self) }));
    }

    fn cleanup(&mut self) -> (report: Result<(), Error>) {
        Ok(())
    }

    fn into_any(self) -> (any: AnyElement) {
        AnyElement::TestSink(self)
    }
}

} // verus!
