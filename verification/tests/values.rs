use streamcraft::element_traits::{
    is_link_valid, sink_is_compatible_with_src, CommonFormat, Element, ElementArchitecture,
    ElementType, Sink, Srcs,
};
use streamcraft::elements::av::audiodecoder::AudioDecoder;
use streamcraft::elements::av::demuxsrc::{route, DemuxSrc, Route};
use streamcraft::elements::av::videodecoder::VideoDecoder;
use streamcraft::elements::io::filesrc::{copy_range, FileSrc};
use streamcraft::elements::misc::testsink::TestSink;
use streamcraft::elements::misc::testsrc::TestSrc;
use streamcraft::elements::text::stdoutlog::StdoutLog;
use streamcraft::elements::text::texttestsrc::TextTestSrc;
use streamcraft::libav::decoding::Frame;
use streamcraft::libav::demuxing::{copy_bytes, CodecParams, Demuxer, Packet, ResourceLocation};
use streamcraft::libav::encoding::Codec;
use streamcraft::libav::error::Error as Av;
use streamcraft::pipeline::error::Error;
use streamcraft::pipeline::{
    judge_ack, judge_join, judge_pending, judge_poll, Data, Datagram, Flow, Message, Parent,
    Step,
};

#[test]
fn sinks_and_srcs_know_when_they_are_nothing() {
    assert!(Sink::Nothing.has_none());
    assert!(!Sink::One(CommonFormat::Text).has_none());
    assert!(Srcs::Nothing.has_none());
    assert!(!Srcs::One(CommonFormat::Bytes).has_none());
    assert!(!Srcs::Two(CommonFormat::AVPacket, CommonFormat::AVPacket).has_none());
}

#[test]
fn sink_fits_src_of_the_same_single_format() {
    assert!(sink_is_compatible_with_src(
        Sink::One(CommonFormat::Text),
        Srcs::One(CommonFormat::Text)
    ));
    assert!(!sink_is_compatible_with_src(
        Sink::One(CommonFormat::Bytes),
        Srcs::One(CommonFormat::Text)
    ));
    assert!(!sink_is_compatible_with_src(Sink::Nothing, Srcs::One(CommonFormat::Text)));
    assert!(!sink_is_compatible_with_src(Sink::Nothing, Srcs::Nothing));
    assert!(!sink_is_compatible_with_src(Sink::One(CommonFormat::Text), Srcs::Nothing));
    assert!(!sink_is_compatible_with_src(
        Sink::One(CommonFormat::AVPacket),
        Srcs::Two(CommonFormat::AVPacket, CommonFormat::AVPacket)
    ));
}

#[test]
fn link_is_judged_by_format_then_role() {
    let ok = is_link_valid(
        CommonFormat::Text,
        ElementType::TextSink,
        ElementType::TextSink,
        Sink::One(CommonFormat::Text),
    );
    assert_eq!(ok, Ok(()));
    let format = is_link_valid(
        CommonFormat::Text,
        ElementType::TextSink,
        ElementType::TextSink,
        Sink::One(CommonFormat::Bytes),
    );
    assert_eq!(format, Err(Error::IncompatibleFormat));
    let role = is_link_valid(
        CommonFormat::Text,
        ElementType::TextSink,
        ElementType::BytesSink,
        Sink::One(CommonFormat::Text),
    );
    assert_eq!(role, Err(Error::IncompatibleRole));
    let both = is_link_valid(
        CommonFormat::Text,
        ElementType::TextSink,
        ElementType::BytesSink,
        Sink::One(CommonFormat::Bytes),
    );
    assert_eq!(both, Err(Error::IncompatibleFormat));
    let nothing = is_link_valid(
        CommonFormat::Text,
        ElementType::TextSink,
        ElementType::TextSink,
        Sink::Nothing,
    );
    assert_eq!(nothing, Err(Error::IncompatibleFormat));
}

#[test]
fn stages_declare_their_kind_and_shape() {
    let shape = |sink, srcs| ElementArchitecture { sink, srcs };
    assert_eq!(StdoutLog::new().get_sink_type(), ElementType::TextSink);
    assert_eq!(
        StdoutLog::new().get_architecture(),
        shape(Sink::One(CommonFormat::Text), Srcs::Nothing)
    );
    assert_eq!(TextTestSrc::new().get_sink_type(), ElementType::TextSrc);
    assert_eq!(
        TextTestSrc::new().get_architecture(),
        shape(Sink::Nothing, Srcs::One(CommonFormat::Text))
    );
    let sink = TestSink::new(ElementType::BytesSink, CommonFormat::Bytes);
    assert_eq!(sink.get_sink_type(), ElementType::BytesSink);
    assert_eq!(sink.get_architecture(), shape(Sink::One(CommonFormat::Bytes), Srcs::Nothing));
    let src = TestSrc::new(ElementType::BytesSink, CommonFormat::Bytes, Vec::new());
    assert_eq!(src.get_sink_type(), ElementType::TextSrc);
    assert_eq!(src.get_architecture(), shape(Sink::Nothing, Srcs::One(CommonFormat::Bytes)));
    let reader = FileSrc::new(Vec::new(), 1);
    assert_eq!(reader.get_sink_type(), ElementType::BytesSrc);
    assert_eq!(reader.get_architecture(), shape(Sink::Nothing, Srcs::One(CommonFormat::Bytes)));
    let demux = DemuxSrc::new(Demuxer::new(None, None, Vec::new()));
    assert_eq!(demux.get_sink_type(), ElementType::AVPacketSrc);
    assert_eq!(
        demux.get_architecture(),
        shape(Sink::Nothing, Srcs::Two(CommonFormat::AVPacket, CommonFormat::AVPacket))
    );
    let video = VideoDecoder::new();
    assert_eq!(video.get_sink_type(), ElementType::AVPacketVideoSink);
    assert_eq!(
        video.get_architecture(),
        shape(Sink::One(CommonFormat::AVPacket), Srcs::One(CommonFormat::Text))
    );
    let audio = AudioDecoder::new((2, 1, CodecParams { inner: Vec::new() }));
    assert_eq!(audio.get_sink_type(), ElementType::AVPacketAudioSink);
    assert_eq!(
        audio.get_architecture(),
        shape(Sink::One(CommonFormat::AVPacket), Srcs::One(CommonFormat::Text))
    );
    let any = audio.into_any();
    assert_eq!(any.get_sink_type(), ElementType::AVPacketAudioSink);
}

#[test]
fn acknowledgements_decide_the_step() {
    assert_eq!(judge_ack(Ok(Message::IterFin)), Ok(Step::Progressed));
    assert_eq!(judge_ack(Ok(Message::Finished)), Ok(Step::Exhausted));
    assert_eq!(judge_ack(Ok(Message::Iter)), Err(Error::ReceivedInvalidDatagramFromSink));
    assert_eq!(judge_ack(Ok(Message::Quit)), Err(Error::ReceivedInvalidDatagramFromSink));
    assert_eq!(judge_ack(Err(Error::ReceiveFailed)), Err(Error::ReceiveFailed));
}

#[test]
fn polls_decide_whether_a_producer_goes_on() {
    assert_eq!(judge_poll(Ok(None)), Ok(Flow::Continue));
    assert_eq!(judge_poll(Ok(Some(Message::IterFin))), Ok(Flow::Continue));
    assert_eq!(judge_poll(Ok(Some(Message::Finished))), Ok(Flow::Stop));
    assert_eq!(judge_poll(Err(Error::ReceiveFailed)), Err(Error::ReceiveFailed));
    assert_eq!(judge_poll(Err(Error::NotReady)), Err(Error::NotReady));
}

#[test]
fn looks_at_the_upstream_conduit_are_judged() {
    assert_eq!(judge_pending(Ok(Message::Finished)), Ok(Some(Message::Finished)));
    assert_eq!(judge_pending(Ok(Message::IterFin)), Ok(Some(Message::IterFin)));
    assert_eq!(judge_pending(Err(crossbeam_channel::TryRecvError::Empty)), Ok(None));
    assert_eq!(
        judge_pending(Err(crossbeam_channel::TryRecvError::Disconnected)),
        Err(Error::ReceiveFailed)
    );
}

#[test]
fn joins_end_with_a_disconnected_conduit() {
    assert_eq!(judge_join(None, None), Ok(()));
    assert_eq!(judge_join(None, Some(Message::Iter)), Ok(()));
    assert_eq!(judge_join(Some(Message::Finished), None), Ok(()));
    assert_eq!(
        judge_join(Some(Message::Finished), Some(Message::Finished)),
        Err(Error::ReceivedInvalidDatagramFromSink)
    );
    assert_eq!(
        judge_join(Some(Message::IterFin), None),
        Err(Error::ReceivedInvalidDatagramFromSink)
    );
}

#[test]
fn detached_parent_cannot_acknowledge() {
    let mut parent = Parent::detached();
    assert_eq!(parent.send_finished(), Err(Error::NoParentMessageSender));
    assert_eq!(parent.send_iter_fin(), Err(Error::NoParentMessageSender));
}

#[test]
fn parent_acknowledges_until_nobody_listens() {
    let (sender, receiver) = crossbeam_channel::unbounded();
    let mut parent = Parent::new(sender);
    assert_eq!(parent.send_iter_fin(), Ok(()));
    assert_eq!(parent.send_finished(), Ok(()));
    assert_eq!(receiver.try_recv(), Ok(Message::IterFin));
    assert_eq!(receiver.try_recv(), Ok(Message::Finished));
    drop(receiver);
    assert_eq!(parent.send_iter_fin(), Err(Error::SendFailed));
    parent.hang_up();
    assert_eq!(parent.send_iter_fin(), Err(Error::NoParentMessageSender));
}

#[test]
fn hang_up_disconnects_the_upstream_conduit() {
    let (sender, receiver) = crossbeam_channel::unbounded::<Message>();
    let mut parent = Parent::new(sender);
    assert_eq!(receiver.try_recv(), Err(crossbeam_channel::TryRecvError::Empty));
    parent.hang_up();
    assert_eq!(receiver.try_recv(), Err(crossbeam_channel::TryRecvError::Disconnected));
}

#[test]
fn duplicates_are_equal() {
    let all = vec![
        Datagram::Message(Message::Iter),
        Datagram::Data(Data::Text(String::from("abc"))),
        Datagram::Data(Data::Bytes(vec![1, 2, 3])),
        Datagram::Data(Data::AVPacket(Packet::new(4, vec![5, 6]))),
        Datagram::Data(Data::Nothing),
    ];
    for d in all {
        assert_eq!(d.duplicate(), d);
    }
    assert_eq!(copy_bytes(&vec![9, 8, 7]), vec![9, 8, 7]);
    assert_eq!(copy_range(&vec![9, 8, 7, 6], 1, 3), vec![8, 7]);
    assert_eq!(copy_range(&vec![9, 8, 7, 6], 2, 2), Vec::<u8>::new());
    let p = Packet::new(-3, vec![1]);
    assert_eq!(p.duplicate(), p);
    assert_eq!(p.stream_index(), -3);
    assert_eq!(p.payload(), &vec![1u8]);
}

#[test]
fn routes_prefer_audio() {
    assert_eq!(route(1, 1, 0), Route::Audio);
    assert_eq!(route(0, 1, 0), Route::Video);
    assert_eq!(route(2, 1, 0), Route::Dropped);
    assert_eq!(route(3, 3, 3), Route::Audio);
    assert_eq!(route(-1, -1, -1), Route::Audio);
}

#[test]
fn errors_have_their_messages() {
    assert_eq!(Error::IncompatibleFormat.to_string(), "Incompatible format");
    assert_eq!(Error::IncompatibleRole.to_string(), "Incompatible role");
    assert_eq!(Error::NoStageAdopted.to_string(), "No stage adopted");
    assert_eq!(Error::AlreadyAdopted.to_string(), "Stage already adopted");
    assert_eq!(Error::AlreadyRunning.to_string(), "Already running");
    assert_eq!(Error::NotReady.to_string(), "Pipeline is not ready");
    assert_eq!(Error::SendFailed.to_string(), "Send failed");
    assert_eq!(Error::ReceiveFailed.to_string(), "Receive failed");
    assert_eq!(
        Error::ReceivedInvalidDatagramFromParent.to_string(),
        "Received invalid datagram from parent"
    );
    assert_eq!(
        Error::ReceivedInvalidDatagramFromSink.to_string(),
        "Received invalid datagram from sink"
    );
    assert_eq!(Error::NoParentMessageSender.to_string(), "No parent message sender");
    assert_eq!(
        Error::AVError(streamcraft::libav::error::Error::FailedToReadFrame).to_string(),
        "AVError: Failed to read frame"
    );
}

#[test]
fn native_errors_have_their_messages() {
    assert_eq!(Av::FailedToOpenInput.to_string(), "Failed to open input");
    assert_eq!(Av::FailedToFindBestStream.to_string(), "Failed to find best stream");
    assert_eq!(Av::FailedToReadFrame.to_string(), "Failed to read frame");
    assert_eq!(Av::FailedToFindDecoder.to_string(), "Failed to find decoder");
    assert_eq!(Av::FailedToCreateDecoder.to_string(), "Failed to create decoder");
    assert_eq!(
        Av::FailedToCopyCodecParamsToDecoder.to_string(),
        "Failed to copy codec params to decoder"
    );
    assert_eq!(Av::FailedToOpenCodec.to_string(), "Failed to open codec");
    assert_eq!(Av::FailedToAllocFrame.to_string(), "Failed to alloc frame");
    assert_eq!(Av::FailedToAllocPacket.to_string(), "Failed to alloc packet");
    assert_eq!(Av::FailedToSendPacketToDecoder.to_string(), "Failed to send packet to decoder");
    assert_eq!(Av::FailedToReceiveDecodedFrame.to_string(), "Failed to receive decoded frame");
}

#[test]
fn locators_and_codecs_have_their_names() {
    let rl = ResourceLocation::new_file(String::from("/tmp/clip.mp4"));
    assert_eq!(rl, ResourceLocation::File(String::from("/tmp/clip.mp4")));
    assert_eq!(rl.to_string(), "file:/tmp/clip.mp4");
    assert_eq!(ResourceLocation::new_file(String::new()).to_string(), "file:");
    assert_eq!(Codec::H264.to_string(), "libx264");
    assert_eq!(Codec::H265.to_string(), "libx265");
    assert_eq!(Codec::Opus.to_string(), "libopus");
    assert_eq!(Frame::new(-7).get_pts(), -7);
}

#[test]
fn decoder_goes_on_after_frames_and_stops_after_a_failure() {
    let mut audio = AudioDecoder::new((2, 1, CodecParams { inner: Vec::new() }));
    assert_eq!(audio.decoded(Ok(vec![Frame::new(1), Frame::new(2)])), Flow::Continue);
    assert_eq!(audio.decoded(Ok(Vec::new())), Flow::Continue);
    assert_eq!(
        audio.decoded(Err(streamcraft::libav::error::Error::FailedToSendPacketToDecoder)),
        Flow::Stop
    );
}

#[test]
fn stages_answer_each_datagram() {
    let quit = || Some(Datagram::Message(Message::Quit));
    let text = || Some(Datagram::Data(Data::Text(String::from("x"))));
    let bytes = || Some(Datagram::Data(Data::Bytes(vec![1])));
    let pkt = || Some(Datagram::Data(Data::AVPacket(Packet::new(1, vec![2]))));
    let iter = || Some(Datagram::Message(Message::Iter));
    let invalid = Err(Error::ReceivedInvalidDatagramFromParent);

    let mut log = StdoutLog::new();
    assert_eq!(log.handle(None), Ok(Flow::Stop));
    assert_eq!(log.handle(quit()), Ok(Flow::Stop));
    assert_eq!(log.handle(text()), Ok(Flow::Print(String::from("x"))));
    assert_eq!(log.handle(bytes()), invalid.clone());
    assert_eq!(log.handle(iter()), invalid.clone());

    let mut video = VideoDecoder::new();
    assert_eq!(video.handle(None), Ok(Flow::Stop));
    assert_eq!(video.handle(quit()), Ok(Flow::Stop));
    assert_eq!(video.handle(pkt()), Ok(Flow::Continue));
    assert_eq!(video.handle(text()), Ok(Flow::Stop));
    assert_eq!(video.handle(iter()), invalid.clone());

    let mut audio = AudioDecoder::new((1, 1, CodecParams { inner: Vec::new() }));
    assert_eq!(audio.handle(pkt()), Ok(Flow::Decode(Packet::new(1, vec![2]))));
    assert_eq!(audio.handle(bytes()), Ok(Flow::Stop));
    assert_eq!(audio.handle(iter()), invalid.clone());
    assert_eq!(audio.handle(quit()), Ok(Flow::Stop));

    let mut sink = TestSink::new(ElementType::TextSink, CommonFormat::Text);
    assert_eq!(sink.handle(text()), Ok(Flow::Continue));
    assert_eq!(sink.handle(iter()), Ok(Flow::Continue));
    assert_eq!(sink.handle(quit()), Ok(Flow::Stop));
    assert_eq!(sink.handle(None), Ok(Flow::Stop));
    assert_eq!(sink.seen().len(), 3);

    // producers that were never started cannot deliver, and stop
    let mut src = TextTestSrc::new();
    assert_eq!(src.handle(iter()), Ok(Flow::Stop));
    assert_eq!(src.handle(text()), invalid.clone());
    assert_eq!(src.handle(Some(Datagram::Message(Message::Finished))), invalid.clone());
    assert_eq!(src.handle(quit()), Ok(Flow::Stop));
    assert_eq!(src.cleanup(), Ok(()));
    assert_eq!(src.conclude(), Err(Error::NoParentMessageSender));
}
