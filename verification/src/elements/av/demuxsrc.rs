use vstd::prelude::*;
use crate::element_traits::{
    link_verdict, CommonFormat, Element, ElementArchitecture, ElementType, Sink, Srcs,
};
use crate::elements::AnyElement;
use crate::libav::demuxing::{
    stream_view, CodecID, CodecParams, Demuxer, Packet, PacketView,
};
use crate::pipeline::error::Error;
use crate::pipeline::{
    judge_poll, Data, DataView, Datagram, DatagramView, Flow, Message, Parent, Runner,
    RunnerState, SinkPipe, Worker,
};

verus! {

/// Where a packet goes.
#[derive(PartialEq, Eq, Clone, Copy, Debug, Structural)]
pub enum Route {
    Audio,
    Video,
    /// To neither branch: the packet is let go, which is no failure.
    Dropped,
}

/// The branch that a packet of stream `tag` goes to. The audio branch is
/// asked first.
pub open spec fn route_of(tag: i32, audio_index: i32, video_index: i32) -> Route {
    if tag == audio_index {
        Route::Audio
    } else if tag == video_index {
        Route::Video
    } else {
        Route::Dropped
    }
}

pub fn route(tag: i32, audio_index: i32, video_index: i32) -> (to: Route)
    ensures
        to == route_of(tag, audio_index, video_index),
{
    if tag == audio_index {
        Route::Audio
    } else if tag == video_index {
        Route::Video
    } else {
        Route::Dropped
    }
}

/// A packet as the datagram that carries it.
pub open spec fn as_datagram(packet: PacketView) -> DatagramView {
    DatagramView::Data(DataView::AVPacket(packet))
}

/// The test of a packet for one branch.
pub open spec fn goes_to(audio_index: i32, video_index: i32, to: Route) -> spec_fn(
    PacketView,
) -> bool {
    |packet: PacketView| route_of(packet.stream_index, audio_index, video_index) == to
}

/// What one branch receives of a run of packets: those that are routed to
/// it, in the order in which they were read.
pub open spec fn branch(packets: Seq<PacketView>, audio_index: i32, video_index: i32, to: Route) -> Seq<
    DatagramView,
> {
    packets.filter(goes_to(audio_index, video_index, to)).map_values(
        |packet: PacketView| as_datagram(packet),
    )
}

/// The end of an iteration of the fan-out stage: either the acknowledgement
/// fails and the handle stays as it was, or `IterFin` goes upstream and the
/// answer follows what the two consumers report, the video branch first.
pub open spec fn fan_out_concluded(
    video: SinkPipe,
    audio: SinkPipe,
    pre_parent: Parent,
    post_parent: Parent,
    answer: Result<Flow, Error>,
) -> bool {
    ||| post_parent == pre_parent && (answer == Err::<Flow, Error>(Error::SendFailed) || answer
        == Err::<Flow, Error>(Error::NoParentMessageSender))
    ||| {
        &&& post_parent.connected()
        &&& post_parent.acked() == pre_parent.acked().push(Message::IterFin)
        &&& answer == Ok::<Flow, Error>(Flow::Continue) || answer == Ok::<Flow, Error>(
            Flow::Stop,
        ) || answer == Err::<Flow, Error>(Error::ReceiveFailed) || answer == Err::<Flow, Error>(
            Error::NotReady,
        )
        &&& answer == Err::<Flow, Error>(Error::NotReady) ==> !video.has_worker()
            || !audio.has_worker()
        &&& answer == Ok::<Flow, Error>(Flow::Continue) ==> video.has_worker()
            && audio.has_worker()
    }
}

/// The report of releasing both branches, from the reports of the two: the
/// video branch's failure comes first.
pub open spec fn fan_out_report(video: Result<(), Error>, audio: Result<(), Error>) -> Result<
    (),
    Error,
> {
    match video {
        Ok(()) => audio,
        Err(e) => Err(e),
    }
}

/// Both runners of the fan-out stage were stopped, with these two reports.
pub open spec fn released_with(
    pre: DemuxSrc,
    post: DemuxSrc,
    video: Result<(), Error>,
    audio: Result<(), Error>,
) -> bool {
    &&& SinkPipe::terminated(pre.video_sink(), post.video_sink(), video)
    &&& SinkPipe::terminated(pre.audio_sink(), post.audio_sink(), audio)
}

/// The demultiplexer: reads one packet at each iteration and hands it to
/// the branch that its stream index names.
///
/// ```text
/// +------------------+
/// |             _____|
/// |            | src |----> AVPacket
/// |  DemuxSrc   -----|
/// |            | src |----> AVPacket
/// |             ^^^^^|
/// +------------------+
/// ```
pub struct DemuxSrc {
    demuxer: Demuxer,
    video_sink: SinkPipe,
    video_stream_index: i32,
    audio_sink: SinkPipe,
    audio_stream_index: i32,
    parent: Parent,
}

impl DemuxSrc {
    /// The source of the packets.
    pub closed spec fn demuxer(&self) -> Demuxer {
        self.demuxer
    }

    /// The runner of the video branch.
    pub closed spec fn video_sink(&self) -> SinkPipe {
        self.video_sink
    }

    /// The runner of the audio branch.
    pub closed spec fn audio_sink(&self) -> SinkPipe {
        self.audio_sink
    }

    /// The stream index whose packets go to the video branch.
    pub closed spec fn video_index(&self) -> i32 {
        self.video_stream_index
    }

    /// The stream index whose packets go to the audio branch.
    pub closed spec fn audio_index(&self) -> i32 {
        self.audio_stream_index
    }

    /// A demultiplexer over `demuxer` with no branch linked; until a branch
    /// is linked its stream index is -1.
    pub fn new(demuxer: Demuxer) -> (stage: DemuxSrc)
        ensures
            stage.demuxer() == demuxer,
            stage.video_index() == -1,
            stage.audio_index() == -1,
            stage.video_sink().runner() == Runner::Empty,
            stage.audio_sink().runner() == Runner::Empty,
            stage.video_sink().sent() == Seq::<DatagramView>::empty(),
            stage.audio_sink().sent() == Seq::<DatagramView>::empty(),
            !stage.parent().connected(),
    {
        DemuxSrc {
            demuxer,
            video_sink: SinkPipe::new(),
            video_stream_index: -1,
            audio_sink: SinkPipe::new(),
            audio_stream_index: -1,
            parent: Parent::detached(),
        }
    }

    /// Links the consumer of the video branch, which is to receive the
    /// packets of stream `stream_index`: a video sink that takes packets. One
    /// that does not fit is turned away and leaves this stage as it was.
    pub fn link_video_sink_element<E: Element>(&mut self, stream_index: i32, sink: E) -> (outcome:
        Result<(), Error>)
        ensures
            SinkPipe::linked(
                old(self).video_sink(),
                link_verdict(
                    CommonFormat::AVPacket,
                    ElementType::AVPacketVideoSink,
                    sink.sink_type(),
                    sink.architecture().sink,
                ),
                sink.erased(),
                final(self).video_sink(),
                outcome,
            ),
            outcome is Ok ==> final(self).video_index() == stream_index,
            outcome is Err ==> *final(self) == *old(self),
            final(self).audio_sink() == old(self).audio_sink(),
            final(self).audio_index() == old(self).audio_index(),
            final(self).demuxer() == old(self).demuxer(),
            final(self).parent() == old(self).parent(),
    {
        match self.video_sink.link(CommonFormat::AVPacket, ElementType::AVPacketVideoSink, sink) {
            Ok(()) => {
                self.video_stream_index = stream_index;
                Ok(())
            },
            Err(e) => Err(e),
        }
    }

    /// Links the consumer of the audio branch, which is to receive the
    /// packets of stream `stream_index`: an audio sink that takes packets. One
    /// that does not fit is turned away and leaves this stage as it was.
    pub fn link_audio_sink_element<E: Element>(&mut self, stream_index: i32, sink: E) -> (outcome:
        Result<(), Error>)
        ensures
            SinkPipe::linked(
                old(self).audio_sink(),
                link_verdict(
                    CommonFormat::AVPacket,
                    ElementType::AVPacketAudioSink,
                    sink.sink_type(),
                    sink.architecture().sink,
                ),
                sink.erased(),
                final(self).audio_sink(),
                outcome,
            ),
            outcome is Ok ==> final(self).audio_index() == stream_index,
            outcome is Err ==> *final(self) == *old(self),
            final(self).video_sink() == old(self).video_sink(),
            final(self).video_index() == old(self).video_index(),
            final(self).demuxer() == old(self).demuxer(),
            final(self).parent() == old(self).parent(),
    {
        match self.audio_sink.link(CommonFormat::AVPacket, ElementType::AVPacketAudioSink, sink) {
            Ok(()) => {
                self.audio_stream_index = stream_index;
                Ok(())
            },
            Err(e) => Err(e),
        }
    }

    /// The best video stream of the source.
    pub fn get_video_stream(&self) -> (found: Result<(i32, CodecID, CodecParams), Error>)
        ensures
            match self.demuxer().video() {
                Some(stream) => found is Ok && stream_view(found->Ok_0) == stream,
                None => found == Err::<(i32, CodecID, CodecParams), Error>(
                    Error::AVError(crate::libav::error::Error::FailedToFindBestStream),
                ),
            },
    {
        match self.demuxer.get_video_stream() {
            Ok(stream) => Ok(stream),
            Err(e) => Err(Error::AVError(e)),
        }
    }

    /// The best audio stream of the source.
    pub fn get_audio_stream(&self) -> (found: Result<(i32, CodecID, CodecParams), Error>)
        ensures
            match self.demuxer().audio() {
                Some(stream) => found is Ok && stream_view(found->Ok_0) == stream,
                None => found == Err::<(i32, CodecID, CodecParams), Error>(
                    Error::AVError(crate::libav::error::Error::FailedToFindBestStream),
                ),
            },
    {
        match self.demuxer.get_audio_stream() {
            Ok(stream) => Ok(stream),
            Err(e) => Err(Error::AVError(e)),
        }
    }

    /// Reads the next packet and says where it goes; `None` once the source
    /// gives no more.
    pub fn produce(&mut self) -> (routed: Option<(Route, Packet)>)
        ensures
            final(self).video_sink() == old(self).video_sink(),
            final(self).audio_sink() == old(self).audio_sink(),
            final(self).video_index() == old(self).video_index(),
            final(self).audio_index() == old(self).audio_index(),
            final(self).parent() == old(self).parent(),
            final(self).demuxer().video() == old(self).demuxer().video(),
            final(self).demuxer().audio() == old(self).demuxer().audio(),
            match routed {
                Some((to, packet)) => {
                    &&& old(self).demuxer().remaining().len() > 0
                    &&& packet@ == old(self).demuxer().remaining()[0]
                    &&& to == route_of(
                        packet@.stream_index,
                        old(self).audio_index(),
                        old(self).video_index(),
                    )
                    &&& final(self).demuxer().remaining() == old(self).demuxer().remaining().skip(
                        1,
                    )
                },
                None => old(self).demuxer().remaining().len() == 0 && *final(self) == *old(self),
            },
    {
        match self.demuxer.read_frame() {
            Ok(packet) => {
                let to = route(
                    packet.stream_index(),
                    self.audio_stream_index,
                    self.video_stream_index,
                );
                Some((to, packet))
            },
            Err(_) => None,
        }
    }

    /// Whether the stage differs from `pre` in nothing but its handle and
    /// its two runners.
    pub open spec fn same_source(pre: DemuxSrc, post: DemuxSrc) -> bool {
        &&& post.demuxer() == pre.demuxer()
        &&& post.video_index() == pre.video_index()
        &&& post.audio_index() == pre.audio_index()
    }

    /// The failure of `init` where a branch cannot be started: the video
    /// branch is looked at first.
    pub open spec fn wiring_failure(video: RunnerState, audio: RunnerState) -> Error {
        if video == RunnerState::Empty {
            Error::NoStageAdopted
        } else if video != RunnerState::Adopted {
            Error::AlreadyRunning
        } else if audio == RunnerState::Empty {
            Error::NoStageAdopted
        } else {
            Error::AlreadyRunning
        }
    }

    /// Ends an iteration: acknowledges it upstream, then looks once at what
    /// each consumer reports.
    fn conclude_iteration(&mut self) -> (answer: Result<Flow, Error>)
        ensures
            DemuxSrc::same_source(*old(self), *final(self)),
            final(self).video_sink() == old(self).video_sink(),
            final(self).audio_sink() == old(self).audio_sink(),
            fan_out_concluded(
                old(self).video_sink(),
                old(self).audio_sink(),
                old(self).parent(),
                final(self).parent(),
                answer,
            ),
    {
        match self.parent.send_iter_fin() {
            Ok(()) => {},
            Err(e) => {
                return Err(e);
            },
        }
        match judge_poll(self.video_sink.try_recv_msg()) {
            Ok(Flow::Continue) => {},
            other => {
                return other;
            },
        }
        judge_poll(self.audio_sink.try_recv_msg())
    }
}

/// A stage with another handle is the same stage in all else.
pub proof fn lemma_with_parent(stage: DemuxSrc, parent: Parent)
    ensures
        stage.with_parent(parent).parent() == parent,
        stage.with_parent(parent).demuxer() == stage.demuxer(),
        stage.with_parent(parent).video_sink() == stage.video_sink(),
        stage.with_parent(parent).audio_sink() == stage.audio_sink(),
        stage.with_parent(parent).video_index() == stage.video_index(),
        stage.with_parent(parent).audio_index() == stage.audio_index(),
{
}

impl Element for DemuxSrc {
    open spec fn sink_type(&self) -> ElementType {
        ElementType::AVPacketSrc
    }

    open spec fn architecture(&self) -> ElementArchitecture {
        ElementArchitecture {
            sink: Sink::Nothing,
            srcs: Srcs::Two(CommonFormat::AVPacket, CommonFormat::AVPacket),
        }
    }

    closed spec fn parent(&self) -> Parent {
        self.parent
    }

    closed spec fn with_parent(self, parent: Parent) -> DemuxSrc {
        DemuxSrc { parent, ..self }
    }

    open spec fn erased(self) -> AnyElement {
        AnyElement::DemuxSrc(self)
    }

    /// Both branches are started, the video branch first, or none is.
    open spec fn wired(pre: DemuxSrc, post: DemuxSrc, started: Result<Seq<Worker>, Error>) -> bool {
        &&& DemuxSrc::same_source(pre, post)
        &&& post.parent() == pre.parent()
        &&& if pre.video_sink().state() == RunnerState::Adopted && pre.audio_sink().state()
            == RunnerState::Adopted {
            &&& started is Ok
            &&& started->Ok_0.len() == 2
            &&& SinkPipe::spawned(pre.video_sink(), post.video_sink(), Ok(started->Ok_0[0]))
            &&& SinkPipe::spawned(pre.audio_sink(), post.audio_sink(), Ok(started->Ok_0[1]))
        } else {
            &&& post == pre
            &&& started == Err::<Seq<Worker>, Error>(
                DemuxSrc::wiring_failure(pre.video_sink().state(), pre.audio_sink().state()),
            )
        }
    }

    /// On `Iter` one packet is read and handed to the branch that its stream
    /// index names, or let go where it names neither; a failed read, or a
    /// branch that does not take the packet, ends the iteration with no
    /// acknowledgement and stops the stage. It stops on `Quit` and when the
    /// conduit is closed, and takes nothing else.
    open spec fn handled(
        pre: DemuxSrc,
        event: Option<Datagram>,
        post: DemuxSrc,
        answer: Result<Flow, Error>,
    ) -> bool {
        match event {
            None => post == pre && answer == Ok::<Flow, Error>(Flow::Stop),
            Some(Datagram::Message(Message::Quit)) => post == pre && answer == Ok::<Flow, Error>(
                Flow::Stop,
            ),
            Some(Datagram::Message(Message::Iter)) => if pre.demuxer().remaining().len() == 0 {
                post == pre && answer == Ok::<Flow, Error>(Flow::Stop)
            } else {
                let packet = pre.demuxer().remaining()[0];
                let refused = post.video_sink() == pre.video_sink() && post.audio_sink()
                    == pre.audio_sink() && post.parent() == pre.parent() && answer == Ok::<
                    Flow,
                    Error,
                >(Flow::Stop);
                let concluded = fan_out_concluded(
                    post.video_sink(),
                    post.audio_sink(),
                    pre.parent(),
                    post.parent(),
                    answer,
                );
                &&& post.demuxer().remaining() == pre.demuxer().remaining().skip(1)
                &&& post.demuxer().video() == pre.demuxer().video()
                &&& post.demuxer().audio() == pre.demuxer().audio()
                &&& post.video_index() == pre.video_index()
                &&& post.audio_index() == pre.audio_index()
                &&& match route_of(packet.stream_index, pre.audio_index(), pre.video_index()) {
                    Route::Audio => refused || (post.video_sink() == pre.video_sink()
                        && SinkPipe::took(pre.audio_sink(), as_datagram(packet), post.audio_sink())
                        && concluded),
                    Route::Video => refused || (post.audio_sink() == pre.audio_sink()
                        && SinkPipe::took(pre.video_sink(), as_datagram(packet), post.video_sink())
                        && concluded),
                    Route::Dropped => post.video_sink() == pre.video_sink() && post.audio_sink()
                        == pre.audio_sink() && concluded,
                }
            },
            Some(_) => post == pre && answer == Err::<Flow, Error>(
                Error::ReceivedInvalidDatagramFromParent,
            ),
        }
    }

    /// Both branches are told to stop and have their conduits closed before
    /// either is awaited; then the video branch is awaited, then the audio
    /// branch. Each runner ends as stopping it alone would leave it, and the
    /// report is that of the video branch where that failed, else that of
    /// the audio branch.
    open spec fn released(pre: DemuxSrc, post: DemuxSrc, report: Result<(), Error>) -> bool {
        &&& DemuxSrc::same_source(pre, post)
        &&& post.parent() == pre.parent()
        &&& !pre.video_sink().has_worker() && !pre.audio_sink().has_worker() ==> post == pre
        &&& exists|video: Result<(), Error>, audio: Result<(), Error>|
            #[trigger] released_with(pre, post, video, audio) && report == fan_out_report(
                video,
                audio,
            )
    }

    fn get_sink_type(&self) -> (kind: ElementType) {
        ElementType::AVPacketSrc
    }

    fn get_architecture(&self) -> (shape: ElementArchitecture) {
        ElementArchitecture {
            sink: Sink::Nothing,
            srcs: Srcs::Two(CommonFormat::AVPacket, CommonFormat::AVPacket),
        }
    }

    fn init(&mut self) -> (started: Result<Vec<Worker>, Error>) {
        let video = self.video_sink.current_state();
        let audio = self.audio_sink.current_state();
        if video == RunnerState::Empty {
            return Err(Error::NoStageAdopted);
        }
        if video != RunnerState::Adopted {
            return Err(Error::AlreadyRunning);
        }
        if audio == RunnerState::Empty {
            return Err(Error::NoStageAdopted);
        }
        if audio != RunnerState::Adopted {
            return Err(Error::AlreadyRunning);
        }
        let mut workers: Vec<Worker> = Vec::new();
        match self.video_sink.spawn() {
            Ok(worker) => {
                workers.push(worker);
            },
            Err(e) => {
                return Err(e);
            },
        }
        match self.audio_sink.spawn() {
            Ok(worker) => {
                workers.push(worker);
            },
            Err(e) => {
                return Err(e);
            },
        }
        Ok(workers)
    }

    fn handle(&mut self, event: Option<Datagram>) -> (answer: Result<Flow, Error>) {
        match event {
            None => Ok(Flow::Stop),
            Some(Datagram::Message(Message::Quit)) => Ok(Flow::Stop),
            Some(Datagram::Message(Message::Iter)) => {
                let (to, packet) = match self.produce() {
                    Some(routed) => routed,
                    None => {
                        return Ok(Flow::Stop);
                    },
                };
                match to {
                    Route::Audio => {
                        if self.audio_sink.send_datagram(
                            Datagram::Data(Data::AVPacket(packet)),
                        ).is_err() {
                            return Ok(Flow::Stop);
                        }
                    },
                    Route::Video => {
                        if self.video_sink.send_datagram(
                            Datagram::Data(Data::AVPacket(packet)),
                        ).is_err() {
                            return Ok(Flow::Stop);
                        }
                    },
                    Route::Dropped => {},
                }
                self.conclude_iteration()
            },
            Some(_) => Err(Error::ReceivedInvalidDatagramFromParent),
        }
    }

    fn conclude(&mut self) -> (told: Result<(), Error>) {
        self.parent.send_finished()
    }

    fn set_parent(&mut self, parent: Parent) {
        self.parent = parent;
        assert(old(self).with_parent(parent) == (DemuxSrc { parent, ..*old(self) }));
    }

    fn cleanup(&mut self) -> (report: Result<(), Error>) {
        let _ = self.video_sink.send_quit();
        self.video_sink.drop_data_sender();
        let _ = self.audio_sink.send_quit();
        self.audio_sink.drop_data_sender();
        let video = self.video_sink.close();
        let audio = self.audio_sink.close();
        proof {
            assert(released_with(*old(self), *self, video, audio));
        }
        match video {
            Ok(()) => audio,
            Err(e) => Err(e),
        }
    }

    fn into_any(self) -> (any: AnyElement) {
        AnyElement::DemuxSrc(self)
    }
}

/// A run of iterations of the fan-out stage, each of which went through:
/// each state leads to the next by one `Iter` that is answered with
/// `Continue`.
pub open spec fn is_fan_out_run(states: Seq<DemuxSrc>) -> bool {
    &&& states.len() >= 1
    &&& forall|i: int|
        0 <= i < states.len() - 1 ==> DemuxSrc::handled(
            #[trigger] states[i],
            Some(Datagram::Message(Message::Iter)),
            states[i + 1],
            Ok(Flow::Continue),
        )
}

/// What a branch receives of one more packet.
proof fn lemma_branch_grows(
    packets: Seq<PacketView>,
    n: int,
    audio_index: i32,
    video_index: i32,
    to: Route,
)
    requires
        0 <= n < packets.len(),
    ensures
        branch(packets.take(n + 1), audio_index, video_index, to) == if route_of(
            packets[n].stream_index,
            audio_index,
            video_index,
        ) == to {
            branch(packets.take(n), audio_index, video_index, to).push(as_datagram(packets[n]))
        } else {
            branch(packets.take(n), audio_index, video_index, to)
        },
{
    reveal(Seq::filter);
    let longer = packets.take(n + 1);
    let test = goes_to(audio_index, video_index, to);
    assert(longer.drop_last() == packets.take(n));
    assert(longer.last() == packets[n]);
    assert(test(packets[n]) == (route_of(packets[n].stream_index, audio_index, video_index)
        == to));
    if test(packets[n]) {
        assert(longer.filter(test) == packets.take(n).filter(test).push(packets[n]));
        assert(branch(longer, audio_index, video_index, to) == branch(
            packets.take(n),
            audio_index,
            video_index,
            to,
        ).push(as_datagram(packets[n])));
    } else {
        assert(longer.filter(test) == packets.take(n).filter(test));
    }
}

/// Fan-out routing: over any run of iterations that went through, each
/// branch has received exactly the packets that carry its stream index, in
/// the order in which they were read, and nothing else; the packets of other
/// streams went to neither.
pub proof fn lemma_fan_out_routes_in_order(states: Seq<DemuxSrc>)
    requires
        is_fan_out_run(states),
    ensures
        states.len() - 1 <= states[0].demuxer().remaining().len(),
        states.last().demuxer().remaining() == states[0].demuxer().remaining().skip(
            states.len() - 1,
        ),
        states.last().audio_index() == states[0].audio_index(),
        states.last().video_index() == states[0].video_index(),
        states.last().audio_sink().sent() == states[0].audio_sink().sent() + branch(
            states[0].demuxer().remaining().take(states.len() - 1),
            states[0].audio_index(),
            states[0].video_index(),
            Route::Audio,
        ),
        states.last().video_sink().sent() == states[0].video_sink().sent() + branch(
            states[0].demuxer().remaining().take(states.len() - 1),
            states[0].audio_index(),
            states[0].video_index(),
            Route::Video,
        ),
    decreases states.len(),
{
    let first = states[0];
    let all = first.demuxer().remaining();
    let audio_index = first.audio_index();
    let video_index = first.video_index();
    if states.len() == 1 {
        assert(all.skip(0) == all);
        assert(all.take(0).filter(goes_to(audio_index, video_index, Route::Audio)).len() == 0) by {
            reveal(Seq::filter);
        }
        assert(all.take(0).filter(goes_to(audio_index, video_index, Route::Video)).len() == 0) by {
            reveal(Seq::filter);
        }
        assert(branch(all.take(0), audio_index, video_index, Route::Audio) == Seq::<
            DatagramView,
        >::empty());
        assert(branch(all.take(0), audio_index, video_index, Route::Video) == Seq::<
            DatagramView,
        >::empty());
        assert(first.audio_sink().sent() + Seq::<DatagramView>::empty()
            == first.audio_sink().sent());
        assert(first.video_sink().sent() + Seq::<DatagramView>::empty()
            == first.video_sink().sent());
    } else {
        let shorter = states.drop_last();
        let n = shorter.len() - 1;
        assert forall|i: int| 0 <= i < shorter.len() - 1 implies DemuxSrc::handled(
            #[trigger] shorter[i],
            Some(Datagram::Message(Message::Iter)),
            shorter[i + 1],
            Ok(Flow::Continue),
        ) by {
            assert(shorter[i] == states[i]);
            assert(shorter[i + 1] == states[i + 1]);
        }
        lemma_fan_out_routes_in_order(shorter);
        let pre = states[n];
        let post = states[n + 1];
        assert(shorter.last() == pre);
        assert(shorter[0] == first);
        assert(states.last() == post);
        assert(DemuxSrc::handled(
            pre,
            Some(Datagram::Message(Message::Iter)),
            post,
            Ok(Flow::Continue),
        ));
        assert(pre.demuxer().remaining() == all.skip(n));
        assert(pre.demuxer().remaining().len() > 0);
        let packet = pre.demuxer().remaining()[0];
        assert(packet == all[n]);
        assert(all.skip(n).skip(1) == all.skip(n + 1));
        lemma_branch_grows(all, n, audio_index, video_index, Route::Audio);
        lemma_branch_grows(all, n, audio_index, video_index, Route::Video);
        let audio_before = branch(all.take(n), audio_index, video_index, Route::Audio);
        let video_before = branch(all.take(n), audio_index, video_index, Route::Video);
        assert((first.audio_sink().sent() + audio_before).push(as_datagram(packet))
            == first.audio_sink().sent() + audio_before.push(as_datagram(packet)));
        assert((first.video_sink().sent() + video_before).push(as_datagram(packet))
            == first.video_sink().sent() + video_before.push(as_datagram(packet)));
    }
}

} // verus!
