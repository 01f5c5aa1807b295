use vstd::prelude::*;
use crate::element_traits::{CommonFormat, Element, ElementArchitecture, ElementType, Sink, Srcs};
use crate::elements::AnyElement;
use crate::pipeline::error::Error;
use crate::pipeline::{Data, Datagram, Flow, Message, Parent, Worker};

verus! {

/// The console sink: takes text and has the host write it out.
///
/// ```text
///           +--------------------+
///           |______              |
/// Text ---->| sink |  StdoutLog  |
///           |^^^^^^              |
///           +--------------------+
/// ```
pub struct StdoutLog {
    parent: Parent,
}

impl StdoutLog {
    pub fn new() -> (stage: StdoutLog)
        ensures
            !stage.parent().connected(),
    {
        StdoutLog { parent: Parent::detached() }
    }

    /// What the sink answers to each datagram: it stops when told to or when
    /// the conduit is closed, hands text to the host, and takes nothing else.
    pub open spec fn answer_to(event: Option<Datagram>) -> Result<Flow, Error> {
        match event {
            None => Ok(Flow::Stop),
            Some(Datagram::Message(Message::Quit)) => Ok(Flow::Stop),
            Some(Datagram::Data(Data::Text(text))) => Ok(Flow::Print(text)),
            Some(_) => Err(Error::ReceivedInvalidDatagramFromParent),
        }
    }
}

/// A stage with another handle holds that handle.
pub proof fn lemma_with_parent(stage: StdoutLog, parent: Parent)
    ensures
        stage.with_parent(parent).parent() == parent,
{
}

impl Default for StdoutLog {
    fn default() -> (stage: StdoutLog)
        ensures
            !stage.parent().connected(),
    {
        StdoutLog::new()
    }
}

impl Element for StdoutLog {
    open spec fn sink_type(&self) -> ElementType {
        ElementType::TextSink
    }

    open spec fn architecture(&self) -> ElementArchitecture {
        ElementArchitecture { sink: Sink::One(CommonFormat::Text), srcs: Srcs::Nothing }
    }

    closed spec fn parent(&self) -> Parent {
        self.parent
    }

    closed spec fn with_parent(self, parent: Parent) -> StdoutLog {
        StdoutLog { parent }
    }

    open spec fn erased(self) -> AnyElement {
        AnyElement::StdoutLog(self)
    }

    open spec fn wired(pre: StdoutLog, post: StdoutLog, started: Result<Seq<Worker>, Error>) -> bool {
        post == pre && started == Ok::<Seq<Worker>, Error>(Seq::empty())
    }

    open spec fn handled(
        pre: StdoutLog,
        event: Option<Datagram>,
        post: StdoutLog,
        answer: Result<Flow, Error>,
    ) -> bool {
        post == pre && answer == StdoutLog::answer_to(event)
    }

    open spec fn released(pre: StdoutLog, post: StdoutLog, report: Result<(), Error>) -> bool {
        post == pre && report is Ok
    }

    fn get_sink_type(&self) -> (kind: ElementType) {
        ElementType::TextSink
    }

    fn get_architecture(&self) -> (shape: ElementArchitecture) {
        ElementArchitecture { sink: Sink::One(CommonFormat::Text), srcs: Srcs::Nothing }
    }

    fn init(&mut self) -> (started: Result<Vec<Worker>, Error>) {
        Ok(Vec::new())
    }

    fn handle(&mut self, event: Option<Datagram>) -> (answer: Result<Flow, Error>) {
        match event {
            None => Ok(Flow::Stop),
            Some(Datagram::Message(Message::Quit)) => Ok(Flow::Stop),
            Some(Datagram::Data(Data::Text(text))) => Ok(Flow::Print(text)),
            Some(_) => Err(Error::ReceivedInvalidDatagramFromParent),
        }
    }

    fn conclude(&mut self) -> (told: Result<(), Error>) {
        self.parent.send_finished()
    }

    fn set_parent(&mut self, parent: Parent) {
        self.parent = parent;
    }

    fn cleanup(&mut self) -> (report: Result<(), Error>) {
        Ok(())
    }

    fn into_any(self) -> (any: AnyElement) {
        AnyElement::StdoutLog(self)
    }
}

} // verus!
