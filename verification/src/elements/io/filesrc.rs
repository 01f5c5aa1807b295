use vstd::prelude::*;
use crate::element_traits::{
    link_verdict, CommonFormat, Element, ElementArchitecture, ElementType, Sink, Srcs,
};
use crate::elements::AnyElement;
use crate::pipeline::error::Error;
use crate::pipeline::{
    forward, iterated, start_one, wired_one, Data, DataView, Datagram, DatagramView, Flow,
    Message, Parent, Runner, SinkPipe, Worker,
};

verus! {

/// Copies the bytes from index `from` up to index `to`.
pub fn copy_range(bytes: &Vec<u8>, from: usize, to: usize) -> (copy: Vec<u8>)
    requires
        from <= to <= bytes.len(),
    ensures
        copy@ == bytes@.subrange(from as int, to as int),
{
    let mut copy: Vec<u8> = Vec::new();
    let mut i: usize = from;
    while i < to
        invariant
            from <= i <= to <= bytes.len(),
            copy@ == bytes@.subrange(from as int, i as int),
        decreases to - i,
    {
        copy.push(bytes[i]);
        i = i + 1;
        assert(bytes@.subrange(from as int, i as int) == bytes@.subrange(
            from as int,
            i - 1,
        ).push(bytes@[i - 1]));
    }
    copy
}

/// The chunk that a reader gives next: the first `size` of the bytes that
/// are left, or all of them where fewer are left.
pub open spec fn first_chunk(left: Seq<u8>, size: usize) -> Seq<u8> {
    if left.len() < size {
        left
    } else {
        left.take(size as int)
    }
}

/// The chunks in which a reader with chunk size `size` gives `bytes`.
pub open spec fn chunks(bytes: Seq<u8>, size: usize) -> Seq<Seq<u8>>
    decreases bytes.len(),
{
    if size == 0 || bytes.len() == 0 {
        Seq::empty()
    } else {
        seq![first_chunk(bytes, size)] + chunks(
            bytes.skip(first_chunk(bytes, size).len() as int),
            size,
        )
    }
}

/// The chunks of a buffer, put end to end.
pub open spec fn joined(parts: Seq<Seq<u8>>) -> Seq<u8>
    decreases parts.len(),
{
    if parts.len() == 0 {
        Seq::empty()
    } else {
        parts[0] + joined(parts.skip(1))
    }
}

/// Chunking loses and adds nothing: with a chunk size above zero the chunks,
/// put end to end, are the buffer; each chunk holds at least one byte and at
/// most `size`.
pub proof fn lemma_chunks_rebuild(bytes: Seq<u8>, size: usize)
    requires
        size > 0,
    ensures
        joined(chunks(bytes, size)) == bytes,
        forall|i: int|
            0 <= i < chunks(bytes, size).len() ==> 0 < (#[trigger] chunks(bytes, size)[i]).len()
                <= size,
    decreases bytes.len(),
{
    if bytes.len() == 0 {
        assert(joined(chunks(bytes, size)) == bytes);
    } else {
        let head = first_chunk(bytes, size);
        let rest = bytes.skip(head.len() as int);
        lemma_chunks_rebuild(rest, size);
        let all = chunks(bytes, size);
        assert(all == seq![head] + chunks(rest, size));
        assert(all[0] == head);
        assert(all.skip(1) == chunks(rest, size));
        assert(head + rest == bytes);
        assert forall|i: int| 0 <= i < all.len() implies 0 < (#[trigger] all[i]).len()
            <= size by {
            if i > 0 {
                assert(all[i] == chunks(rest, size)[i - 1]);
            }
        }
    }
}

/// Every chunk but the last is full, and there are as many chunks as it
/// takes to hold the buffer and no more: none for an empty buffer, else the
/// least number of chunks of `size` bytes that hold all of it.
pub proof fn lemma_chunk_count(bytes: Seq<u8>, size: usize)
    requires
        size > 0,
    ensures
        forall|i: int|
            0 <= i < chunks(bytes, size).len() - 1 ==> (#[trigger] chunks(bytes, size)[i]).len()
                == size,
        bytes.len() == 0 ==> chunks(bytes, size).len() == 0,
        bytes.len() > 0 ==> (chunks(bytes, size).len() - 1) * size < bytes.len() <= chunks(
            bytes,
            size,
        ).len() * size,
    decreases bytes.len(),
{
    if bytes.len() > 0 {
        let head = first_chunk(bytes, size);
        let rest = bytes.skip(head.len() as int);
        lemma_chunk_count(rest, size);
        let all = chunks(bytes, size);
        let later = chunks(rest, size);
        assert(all == seq![head] + later);
        assert(all.len() == later.len() + 1);
        assert forall|i: int| 0 <= i < all.len() - 1 implies (#[trigger] all[i]).len()
            == size by {
            if i > 0 {
                assert(all[i] == later[i - 1]);
            } else {
                assert(all[0] == head);
                assert(later.len() > 0);
                assert(rest.len() > 0);
            }
        }
        if rest.len() == 0 {
            assert(later.len() == 0);
            assert((all.len() - 1) * size == 0);
            assert(all.len() * size == size) by (nonlinear_arith)
                requires
                    all.len() == 1,
            ;
        } else {
            assert(head.len() == size);
            assert(rest.len() == bytes.len() - size);
            let c = later.len() as int;
            let z = size as int;
            assert((c - 1) * z + z == c * z && c * z + z == (c + 1) * z) by (nonlinear_arith);
        }
    }
}

/// A reader of bytes that gives its buffer in chunks of a fixed size, one at
/// each iteration.
///
/// ```text
/// +--------------------+
/// |               _____|
/// |  FileSrc     | src |----> Bytes
/// |               ^^^^^|
/// +--------------------+
/// ```
pub struct FileSrc {
    sink: SinkPipe,
    parent: Parent,
    bytes: Vec<u8>,
    cursor: usize,
    chunk: usize,
}

impl FileSrc {
    /// The runner of the consumer.
    pub closed spec fn sink(&self) -> SinkPipe {
        self.sink
    }

    /// The bytes that have not been given yet.
    pub closed spec fn remaining(&self) -> Seq<u8> {
        if self.cursor <= self.bytes.len() {
            self.bytes@.skip(self.cursor as int)
        } else {
            Seq::empty()
        }
    }

    /// The most bytes that one iteration gives.
    pub closed spec fn chunk_size(&self) -> usize {
        self.chunk
    }

    /// The chunk that the next iteration gives; empty where the reader is
    /// exhausted.
    pub open spec fn next_chunk(&self) -> Seq<u8> {
        if self.chunk_size() == 0 {
            Seq::empty()
        } else {
            first_chunk(self.remaining(), self.chunk_size())
        }
    }

    /// A reader over `bytes` that gives at most `chunk` of them at a time.
    pub fn new(bytes: Vec<u8>, chunk: usize) -> (stage: FileSrc)
        ensures
            stage.remaining() == bytes@,
            stage.chunk_size() == chunk,
            stage.sink().runner() == Runner::Empty,
            stage.sink().sent() == Seq::<DatagramView>::empty(),
            !stage.parent().connected(),
    {
        assert(bytes@.skip(0) == bytes@);
        FileSrc { sink: SinkPipe::new(), parent: Parent::detached(), bytes, cursor: 0, chunk }
    }

    /// Takes the next chunk from the buffer; `None` once no byte is left, or
    /// where the chunk size is zero.
    pub fn produce(&mut self) -> (item: Option<Datagram>)
        ensures
            final(self).sink() == old(self).sink(),
            final(self).parent() == old(self).parent(),
            final(self).chunk_size() == old(self).chunk_size(),
            match item {
                Some(datagram) => old(self).next_chunk().len() > 0 && datagram@
                    == DatagramView::Data(DataView::Bytes(old(self).next_chunk())) && final(self).remaining() == old(self).remaining().skip(old(self).next_chunk().len() as int),
                None => old(self).next_chunk().len() == 0 && *final(self) == *old(self),
            },
    {
        if self.chunk == 0 || self.cursor >= self.bytes.len() {
            return None;
        }
        let left: usize = self.bytes.len() - self.cursor;
        let end: usize = if left < self.chunk {
            self.bytes.len()
        } else {
            self.cursor + self.chunk
        };
        let part = copy_range(&self.bytes, self.cursor, end);
        assert(part@ == old(self).next_chunk());
        self.cursor = end;
        assert(self.remaining() == old(self).remaining().skip(
            old(self).next_chunk().len() as int,
        ));
        Some(Datagram::Data(Data::Bytes(part)))
    }

    /// Links the consumer: a bytes sink that takes bytes. One that does not
    /// fit is turned away and leaves this stage as it was.
    pub fn link_sink_element<E: Element>(&mut self, sink: E) -> (outcome: Result<(), Error>)
        ensures
            SinkPipe::linked(
                old(self).sink(),
                link_verdict(
                    CommonFormat::Bytes,
                    ElementType::BytesSink,
                    sink.sink_type(),
                    sink.architecture().sink,
                ),
                sink.erased(),
                final(self).sink(),
                outcome,
            ),
            final(self).remaining() == old(self).remaining(),
            final(self).chunk_size() == old(self).chunk_size(),
            final(self).parent() == old(self).parent(),
            outcome is Err ==> *final(self) == *old(self),
    {
        self.sink.link(CommonFormat::Bytes, ElementType::BytesSink, sink)
    }
}

/// A stage with another handle is the same stage in all else.
pub proof fn lemma_with_parent(stage: FileSrc, parent: Parent)
    ensures
        stage.with_parent(parent).parent() == parent,
        stage.with_parent(parent).sink() == stage.sink(),
        stage.with_parent(parent).remaining() == stage.remaining(),
        stage.with_parent(parent).chunk_size() == stage.chunk_size(),
{
}

impl Element for FileSrc {
    open spec fn sink_type(&self) -> ElementType {
        ElementType::BytesSrc
    }

    open spec fn architecture(&self) -> ElementArchitecture {
        ElementArchitecture { sink: Sink::Nothing, srcs: Srcs::One(CommonFormat::Bytes) }
    }

    closed spec fn parent(&self) -> Parent {
        self.parent
    }

    closed spec fn with_parent(self, parent: Parent) -> FileSrc {
        FileSrc { parent, ..self }
    }

    open spec fn erased(self) -> AnyElement {
        AnyElement::FileSrc(self)
    }

    open spec fn wired(pre: FileSrc, post: FileSrc, started: Result<Seq<Worker>, Error>) -> bool {
        &&& wired_one(pre.sink(), post.sink(), started)
        &&& post.remaining() == pre.remaining()
        &&& post.chunk_size() == pre.chunk_size()
        &&& post.parent() == pre.parent()
    }

    /// On `Iter` the next chunk is taken from the buffer and goes to the
    /// consumer; with no byte left the reader stops. It stops on `Quit` and
    /// when the conduit is closed, and takes nothing else.
    open spec fn handled(
        pre: FileSrc,
        event: Option<Datagram>,
        post: FileSrc,
        answer: Result<Flow, Error>,
    ) -> bool {
        match event {
            None => post == pre && answer == Ok::<Flow, Error>(Flow::Stop),
            Some(Datagram::Message(Message::Quit)) => post == pre && answer == Ok::<Flow, Error>(
                Flow::Stop,
            ),
            Some(Datagram::Message(Message::Iter)) => if pre.next_chunk().len() == 0 {
                post == pre && answer == Ok::<Flow, Error>(Flow::Stop)
            } else {
                &&& post.chunk_size() == pre.chunk_size()
                &&& post.remaining() == pre.remaining().skip(pre.next_chunk().len() as int)
                &&& iterated(
                    pre.sink(),
                    pre.parent(),
                    DatagramView::Data(DataView::Bytes(pre.next_chunk())),
                    post.sink(),
                    post.parent(),
                    answer,
                )
            },
            Some(_) => post == pre && answer == Err::<Flow, Error>(
                Error::ReceivedInvalidDatagramFromParent,
            ),
        }
    }

    /// The consumer's worker is told to stop and awaited.
    open spec fn released(pre: FileSrc, post: FileSrc, report: Result<(), Error>) -> bool {
        &&& post.remaining() == pre.remaining()
        &&& post.chunk_size() == pre.chunk_size()
        &&& post.parent() == pre.parent()
        &&& SinkPipe::terminated(pre.sink(), post.sink(), report)
        &&& !pre.sink().has_worker() ==> post == pre
    }

    fn get_sink_type(&self) -> (kind: ElementType) {
        ElementType::BytesSrc
    }

    fn get_architecture(&self) -> (shape: ElementArchitecture) {
        ElementArchitecture { sink: Sink::Nothing, srcs: Srcs::One(CommonFormat::Bytes) }
    }

    fn init(&mut self) -> (started: Result<Vec<Worker>, Error>) {
        start_one(&mut self.sink)
    }

    fn handle(&mut self, event: Option<Datagram>) -> (answer: Result<Flow, Error>) {
        match event {
            None => Ok(Flow::Stop),
            Some(Datagram::Message(Message::Quit)) => Ok(Flow::Stop),
            Some(Datagram::Message(Message::Iter)) => match self.produce() {
                Some(item) => forward(&mut self.sink, &mut self.parent, item),
                None => Ok(Flow::Stop),
            },
            Some(_) => Err(Error::ReceivedInvalidDatagramFromParent),
        }
    }

    fn conclude(&mut self) -> (told: Result<(), Error>) {
        self.parent.send_finished()
    }

    fn set_parent(&mut self, parent: Parent) {
        self.parent = parent;
        assert(old(self).with_parent(parent) == (FileSrc { parent, ..*old(self) }));
    }

    fn cleanup(&mut self) -> (report: Result<(), Error>) {
        self.sink.terminate()
    }

    fn into_any(self) -> (any: AnyElement) {
        AnyElement::FileSrc(self)
    }
}

/// A chunk as the datagram that carries it.
pub open spec fn as_datagram(chunk: Seq<u8>) -> DatagramView {
    DatagramView::Data(DataView::Bytes(chunk))
}

/// A run of iterations of the reader, each of which went through: each state
/// leads to the next by one `Iter` that is answered with `Continue`.
pub open spec fn is_reader_run(states: Seq<FileSrc>) -> bool {
    &&& states.len() >= 1
    &&& forall|i: int|
        0 <= i < states.len() - 1 ==> FileSrc::handled(
            #[trigger] states[i],
            Some(Datagram::Message(Message::Iter)),
            states[i + 1],
            Ok(Flow::Continue),
        )
}

/// Over any run of iterations that went through, the consumer has received
/// the chunks of the buffer, one at each iteration and in order, and nothing
/// else.
pub proof fn lemma_reader_gives_chunks_in_order(states: Seq<FileSrc>)
    requires
        is_reader_run(states),
    ensures
        states.len() - 1 <= chunks(states[0].remaining(), states[0].chunk_size()).len(),
        states.last().chunk_size() == states[0].chunk_size(),
        states.last().sink().sent() == states[0].sink().sent() + chunks(
            states[0].remaining(),
            states[0].chunk_size(),
        ).take(states.len() - 1).map_values(|chunk: Seq<u8>| as_datagram(chunk)),
    decreases states.len(),
{
    let first = states[0];
    let size = first.chunk_size();
    let all = chunks(first.remaining(), size);
    let wrap = |chunk: Seq<u8>| as_datagram(chunk);
    if states.len() == 1 {
        assert(all.take(0).map_values(wrap) == Seq::<DatagramView>::empty());
        assert(first.sink().sent() + Seq::<DatagramView>::empty() == first.sink().sent());
    } else {
        let second = states[1];
        let later = states.skip(1);
        assert(FileSrc::handled(
            first,
            Some(Datagram::Message(Message::Iter)),
            second,
            Ok(Flow::Continue),
        ));
        let head = first.next_chunk();
        assert(head.len() > 0);
        assert(size > 0);
        assert(first.remaining().len() > 0);
        assert(head == first_chunk(first.remaining(), size));
        assert(second.remaining() == first.remaining().skip(head.len() as int));
        let rest = chunks(second.remaining(), size);
        assert(all == seq![head] + rest);
        assert(SinkPipe::took(first.sink(), as_datagram(head), second.sink()));
        assert forall|i: int| 0 <= i < later.len() - 1 implies FileSrc::handled(
            #[trigger] later[i],
            Some(Datagram::Message(Message::Iter)),
            later[i + 1],
            Ok(Flow::Continue),
        ) by {
            assert(later[i] == states[i + 1]);
            assert(later[i + 1] == states[i + 2]);
        }
        assert(later[0] == second);
        assert(later.last() == states.last());
        lemma_reader_gives_chunks_in_order(later);
        let n = states.len() - 1;
        assert(all.take(n) == seq![head] + rest.take(n - 1));
        assert(all.take(n).map_values(wrap) == seq![as_datagram(head)] + rest.take(
            n - 1,
        ).map_values(wrap));
        assert(second.sink().sent() == first.sink().sent().push(as_datagram(head)));
        assert(first.sink().sent().push(as_datagram(head)) + rest.take(n - 1).map_values(wrap)
            == first.sink().sent() + (seq![as_datagram(head)] + rest.take(n - 1).map_values(
            wrap,
        )));
    }
}

} // verus!
