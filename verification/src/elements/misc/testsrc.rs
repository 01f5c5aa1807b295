use vstd::prelude::*;
use crate::element_traits::{
    link_verdict, CommonFormat, Element, ElementArchitecture, ElementType, Sink, Srcs,
};
use crate::elements::AnyElement;
use crate::pipeline::error::Error;
use crate::pipeline::{
    datagram_views, forward, iterated, start_one, wired_one, Datagram, DatagramView, Flow,
    Message, Parent, Runner, SinkPipe, Worker,
};

verus! {

/// A producer that gives a prepared run of datagrams, one at each iteration,
/// to a consumer of the kind and format it was made for.
///
/// ```text
/// +-----------------+
/// |            _____|
/// |  TestSrc  | src |----> ????
/// |            ^^^^^|
/// +-----------------+
/// ```
pub struct TestSrc {
    sink: SinkPipe,
    parent: Parent,
    sink_element_type: ElementType,
    sink_format: CommonFormat,
    index: usize,
    datagrams: Vec<Datagram>,
}

impl TestSrc {
    /// The runner of the consumer.
    pub closed spec fn sink(&self) -> SinkPipe {
        self.sink
    }

    /// The kind of consumer that the output slot feeds.
    pub closed spec fn slot_role(&self) -> ElementType {
        self.sink_element_type
    }

    /// The format that the output slot emits.
    pub closed spec fn format(&self) -> CommonFormat {
        self.sink_format
    }

    /// The datagrams that have not been given yet, next one first.
    pub closed spec fn pending(&self) -> Seq<DatagramView> {
        if self.index <= self.datagrams.len() {
            datagram_views(self.datagrams@).skip(self.index as int)
        } else {
            Seq::empty()
        }
    }

    pub fn new(
        sink_element_type: ElementType,
        sink_format: CommonFormat,
        datagrams: Vec<Datagram>,
    ) -> (stage: TestSrc)
        ensures
            stage.slot_role() == sink_element_type,
            stage.format() == sink_format,
            stage.pending() == datagram_views(datagrams@),
            stage.sink().runner() == Runner::Empty,
            stage.sink().sent() == Seq::<DatagramView>::empty(),
            !stage.parent().connected(),
    {
        assert(datagram_views(datagrams@).skip(0) == datagram_views(datagrams@));
        TestSrc {
            sink: SinkPipe::new(),
            parent: Parent::detached(),
            sink_element_type,
            sink_format,
            index: 0,
            datagrams,
        }
    }

    /// Takes the next datagram from the run; `None` once all are given.
    pub fn produce(&mut self) -> (item: Option<Datagram>)
        ensures
            final(self).sink() == old(self).sink(),
            final(self).parent() == old(self).parent(),
            final(self).format() == old(self).format(),
            final(self).slot_role() == old(self).slot_role(),
            match item {
                Some(datagram) => old(self).pending().len() > 0 && datagram@ == old(self).pending()[0] && final(self).pending() == old(self).pending().skip(1),
                None => old(self).pending().len() == 0 && *final(self) == *old(self),
            },
    {
        if self.index >= self.datagrams.len() {
            return None;
        }
        let item = self.datagrams[self.index].duplicate();
        self.index = self.index + 1;
        assert(self.pending() == old(self).pending().skip(1));
        Some(item)
    }

    /// Links the consumer. One that does not fit is turned away and leaves
    /// this stage as it was.
    pub fn link_sink_element<E: Element>(&mut self, sink: E) -> (outcome: Result<(), Error>)
        ensures
            SinkPipe::linked(
                old(self).sink(),
                link_verdict(
                    old(self).format(),
                    old(self).slot_role(),
                    sink.sink_type(),
                    sink.architecture().sink,
                ),
                sink.erased(),
                final(self).sink(),
                outcome,
            ),
            final(self).pending() == old(self).pending(),
            final(self).format() == old(self).format(),
            final(self).slot_role() == old(self).slot_role(),
            final(self).parent() == old(self).parent(),
            outcome is Err ==> *final(self) == *old(self),
    {
        self.sink.link(self.sink_format, self.sink_element_type, sink)
    }
}

/// A stage with another handle is the same stage in all else.
pub proof fn lemma_with_parent(stage: TestSrc, parent: Parent)
    ensures
        stage.with_parent(parent).parent() == parent,
        stage.with_parent(parent).sink() == stage.sink(),
        stage.with_parent(parent).pending() == stage.pending(),
        stage.with_parent(parent).format() == stage.format(),
        stage.with_parent(parent).slot_role() == stage.slot_role(),
{
}

impl Element for TestSrc {
    open spec fn sink_type(&self) -> ElementType {
        ElementType::TextSrc
    }

    open spec fn architecture(&self) -> ElementArchitecture {
        ElementArchitecture { sink: Sink::Nothing, srcs: Srcs::One(self.format()) }
    }

    closed spec fn parent(&self) -> Parent {
        self.parent
    }

    closed spec fn with_parent(self, parent: Parent) -> TestSrc {
        TestSrc { parent, ..self }
    }

    open spec fn erased(self) -> AnyElement {
        AnyElement::TestSrc(self)
    }

    open spec fn wired(pre: TestSrc, post: TestSrc, started: Result<Seq<Worker>, Error>) -> bool {
        &&& wired_one(pre.sink(), post.sink(), started)
        &&& post.pending() == pre.pending()
        &&& post.parent() == pre.parent()
    }

    /// On `Iter` the next datagram is taken from the run and goes to the
    /// consumer; with none left the producer stops. It stops on `Quit` and
    /// when the conduit is closed, and takes nothing else.
    open spec fn handled(
        pre: TestSrc,
        event: Option<Datagram>,
        post: TestSrc,
        answer: Result<Flow, Error>,
    ) -> bool {
        match event {
            None => post == pre && answer == Ok::<Flow, Error>(Flow::Stop),
            Some(Datagram::Message(Message::Quit)) => post == pre && answer == Ok::<Flow, Error>(
                Flow::Stop,
            ),
            Some(Datagram::Message(Message::Iter)) => if pre.pending().len() == 0 {
                post == pre && answer == Ok::<Flow, Error>(Flow::Stop)
            } else {
                &&& post.pending() == pre.pending().skip(1)
                &&& iterated(
                    pre.sink(),
                    pre.parent(),
                    pre.pending()[0],
                    post.sink(),
                    post.parent(),
                    answer,
                )
            },
            Some(_) => post == pre && answer == Err::<Flow, Error>(
                Error::ReceivedInvalidDatagramFromParent,
            ),
        }
    }

    /// The consumer's worker is told to stop and awaited.
    open spec fn released(pre: TestSrc, post: TestSrc, report: Result<(), Error>) -> bool {
        &&& post.pending() == pre.pending()
        &&& post.parent() == pre.parent()
        &&& SinkPipe::terminated(pre.sink(), post.sink(), report)
        &&& !pre.sink().has_worker() ==> post == pre
    }

    fn get_sink_type(&self) -> (kind: ElementType) {
        ElementType::TextSrc
    }

    fn get_architecture(&self) -> (shape: ElementArchitecture) {
        ElementArchitecture { sink: Sink::Nothing, srcs: Srcs::One(self.sink_format) }
    }

    fn init(&mut self) -> (started: Result<Vec<Worker>, Error>) {
        start_one(&mut self.sink)
    }

    fn handle(&mut self, event: Option<Datagram>) -> (answer: Result<Flow, Error>) {
        match event {
            None => Ok(Flow::Stop),
            Some(Datagram::Message(Message::Quit)) => Ok(Flow::Stop),
            Some(Datagram::Message(Message::Iter)) => match self.produce() {
                Some(item) => forward(&mut self.sink, &mut self.parent, item),
                None => Ok(Flow::Stop),
            },
            Some(_) => Err(Error::ReceivedInvalidDatagramFromParent),
        }
    }

    fn conclude(&mut self) -> (told: Result<(), Error>) {
        self.parent.send_finished()
    }

    fn set_parent(&mut self, parent: Parent) {
        self.parent = parent;
        assert(old(self).with_parent(parent) == (TestSrc { parent, ..*old(self) }));
    }

    fn cleanup(&mut self) -> (report: Result<(), Error>) {
        self.sink.terminate()
    }

    fn into_any(self) -> (any: AnyElement) {
        AnyElement::TestSrc(self)
    }
}

/// A run of iterations of the producer, each of which went through: each
/// state leads to the next by one `Iter` that is answered with `Continue`.
pub open spec fn is_producer_run(states: Seq<TestSrc>) -> bool {
    &&& states.len() >= 1
    &&& forall|i: int|
        0 <= i < states.len() - 1 ==> TestSrc::handled(
            #[trigger] states[i],
            Some(Datagram::Message(Message::Iter)),
            states[i + 1],
            Ok(Flow::Continue),
        )
}

/// Steps and items go together: over any run of iterations that went
/// through, there were no more iterations than the producer held datagrams,
/// the consumer has received one datagram for each iteration, in the order
/// of the run, and nothing else, and the producer holds the rest. A producer
/// that holds nothing answers `Iter` with `Stop`.
pub proof fn lemma_producer_gives_run_in_order(states: Seq<TestSrc>)
    requires
        is_producer_run(states),
    ensures
        states.len() - 1 <= states[0].pending().len(),
        states.last().pending() == states[0].pending().skip(states.len() - 1),
        states.last().sink().sent() == states[0].sink().sent() + states[0].pending().take(
            states.len() - 1,
        ),
        forall|post: TestSrc, answer: Result<Flow, Error>|
            states.last().pending().len() == 0 && #[trigger] TestSrc::handled(
                states.last(),
                Some(Datagram::Message(Message::Iter)),
                post,
                answer,
            ) ==> answer == Ok::<Flow, Error>(Flow::Stop) && post == states.last(),
    decreases states.len(),
{
    let first = states[0];
    let all = first.pending();
    if states.len() == 1 {
        assert(all.skip(0) == all);
        assert(all.take(0) == Seq::<DatagramView>::empty());
        assert(first.sink().sent() + Seq::<DatagramView>::empty() == first.sink().sent());
    } else {
        let shorter = states.drop_last();
        let n = shorter.len() - 1;
        assert forall|i: int| 0 <= i < shorter.len() - 1 implies TestSrc::handled(
            #[trigger] shorter[i],
            Some(Datagram::Message(Message::Iter)),
            shorter[i + 1],
            Ok(Flow::Continue),
        ) by {
            assert(shorter[i] == states[i]);
            assert(shorter[i + 1] == states[i + 1]);
        }
        lemma_producer_gives_run_in_order(shorter);
        let pre = states[n];
        let post = states[n + 1];
        assert(shorter.last() == pre);
        assert(shorter[0] == first);
        assert(states.last() == post);
        assert(TestSrc::handled(
            pre,
            Some(Datagram::Message(Message::Iter)),
            post,
            Ok(Flow::Continue),
        ));
        assert(pre.pending() == all.skip(n));
        assert(pre.pending().len() > 0);
        assert(pre.pending()[0] == all[n]);
        assert(all.skip(n).skip(1) == all.skip(n + 1));
        assert(all.take(n + 1) == all.take(n).push(all[n]));
        assert((first.sink().sent() + all.take(n)).push(all[n]) == first.sink().sent()
            + all.take(n).push(all[n]));
    }
}

} // verus!
