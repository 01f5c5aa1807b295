use streamcraft::element_traits::{CommonFormat, Element, ElementType};
use streamcraft::elements::av::audiodecoder::AudioDecoder;
use streamcraft::elements::av::demuxsrc::{DemuxSrc, Route};
use streamcraft::elements::av::videodecoder::VideoDecoder;
use streamcraft::elements::io::filesrc::FileSrc;
use streamcraft::elements::misc::testsink::TestSink;
use streamcraft::elements::misc::testsrc::TestSrc;
use streamcraft::elements::text::stdoutlog::StdoutLog;
use streamcraft::elements::text::texttestsrc::TextTestSrc;
use streamcraft::elements::AnyElement;
use streamcraft::libav::decoding::Frame;
use streamcraft::libav::demuxing::{CodecParams, Demuxer, Packet};
use streamcraft::pipeline::error::Error;
use streamcraft::pipeline::{
    acknowledge, forward, Data, Datagram, Flow, Message, Parent, Pipeline, RunnerState, SinkPipe,
    Step,
};

// The tests run on one thread, so no datagram can cross a rendezvous conduit
// here. Where a test lets items flow, it hands each item from the producer to
// the consumer itself, as the conduit would.

fn text(s: &str) -> Datagram {
    Datagram::Data(Data::Text(String::from(s)))
}

fn iter() -> Option<Datagram> {
    Some(Datagram::Message(Message::Iter))
}

fn data_of(seen: &[Datagram]) -> Vec<Data> {
    let mut out = Vec::new();
    for d in seen {
        if let Datagram::Data(data) = d {
            out.push(data.clone());
        }
    }
    out
}

fn text_sink() -> TestSink {
    TestSink::new(ElementType::TextSink, CommonFormat::Text)
}

#[test]
fn test_new_packet() {
    let packet = Packet::new(0, Vec::new());
    assert_eq!(packet.stream_index(), 0);
    assert!(packet.payload().is_empty());
}

#[test]
fn testsrc_test_basic() {
    let mut testsink = TestSink::new(ElementType::TextSink, CommonFormat::Text);
    let datagrams = vec![
        Datagram::Data(Data::Text(String::from("Hello"))),
        Datagram::Data(Data::Text(String::from("Hello"))),
    ];
    let mut testsrc = TestSrc::new(ElementType::TextSink, CommonFormat::Text, datagrams);
    testsrc
        .link_sink_element(TestSink::new(ElementType::TextSink, CommonFormat::Text))
        .unwrap();

    for _ in 0..2 {
        let item = testsrc.produce().unwrap();
        assert_eq!(testsink.handle(Some(item)), Ok(Flow::Continue));
    }
    assert_eq!(testsrc.produce(), None);
    let data = data_of(testsink.seen());
    assert_eq!(data.len(), 2);
    for (n, data) in data.into_iter().enumerate() {
        match n {
            0 => assert_eq!(data, Data::Text(String::from("Hello"))),
            1 => assert_eq!(data, Data::Text(String::from("Hello"))),
            2 => assert_eq!(data, Data::Text(String::from("World"))),
            _ => unreachable!(),
        }
    }

    let mut pipeline = Pipeline::new(testsrc);
    let head = pipeline.init().unwrap();
    assert_eq!(head.element().get_sink_type(), ElementType::TextSrc);
}

#[test]
fn texttestsrc_test_basic() {
    let test_text_data = "Test";
    let mut testsink = TestSink::new(ElementType::TextSink, CommonFormat::Text);
    let mut textsrc = TextTestSrc::new();
    textsrc.set_text_to_send(String::from(test_text_data));
    textsrc
        .link_sink_element(TestSink::new(ElementType::TextSink, CommonFormat::Text))
        .unwrap();

    assert_eq!(testsink.handle(Some(textsrc.produce())), Ok(Flow::Continue));
    for data in data_of(testsink.seen()) {
        match data {
            Data::Text(text) => assert_eq!(text, String::from("Test")),
            _ => {}
        }
    }
    assert_eq!(testsink.seen().len(), 1);

    let mut pipeline = Pipeline::new(textsrc);
    pipeline.init().unwrap();
    assert_eq!(pipeline.current_state(), RunnerState::Running);
}

#[test]
fn text_producer_to_console_sink_three_steps() {
    let mut src = TextTestSrc::new();
    src.link_sink_element(StdoutLog::new()).unwrap();
    let mut console = StdoutLog::new();
    let mut printed = Vec::new();
    for _ in 0..3 {
        match console.handle(Some(src.produce())) {
            Ok(Flow::Print(text)) => printed.push(text),
            other => panic!("the sink answered {:?}", other),
        }
    }
    assert_eq!(printed, vec![String::from("Test\n"); 3]);
    // the chain itself starts, with the console sink below the producer
    let mut pipeline = Pipeline::new(src);
    let mut head = pipeline.init().unwrap();
    let below = head.init().unwrap();
    assert_eq!(below.len(), 1);
    assert!(matches!(below[0].element(), AnyElement::StdoutLog(_)));
    assert!(matches!(head.element(), AnyElement::TextTestSrc(_)));
}

#[test]
fn bytes_sink_on_text_producer_is_incompatible_format() {
    let mut src = TextTestSrc::new();
    let sink = TestSink::new(ElementType::BytesSink, CommonFormat::Bytes);
    assert_eq!(src.link_sink_element(sink), Err(Error::IncompatibleFormat));
    // nothing was adopted: the producer has no consumer to start
    assert!(matches!(src.init(), Err(Error::NoStageAdopted)));
    let mut pipeline = Pipeline::new(src);
    let mut head = pipeline.init().unwrap();
    assert!(matches!(head.init(), Err(Error::NoStageAdopted)));
}

#[test]
fn wrong_role_is_incompatible_role() {
    let mut src = TextTestSrc::new();
    let sink = TestSink::new(ElementType::BytesSink, CommonFormat::Text);
    assert_eq!(src.link_sink_element(sink), Err(Error::IncompatibleRole));
    assert!(matches!(src.init(), Err(Error::NoStageAdopted)));
    let mut reader = FileSrc::new(vec![1, 2, 3], 2);
    assert_eq!(
        reader.link_sink_element(TestSink::new(ElementType::TextSink, CommonFormat::Bytes)),
        Err(Error::IncompatibleRole)
    );
    assert_eq!(reader.link_sink_element(StdoutLog::new()), Err(Error::IncompatibleFormat));
    let mut any = TestSrc::new(ElementType::AVPacketAudioSink, CommonFormat::AVPacket, vec![]);
    assert_eq!(any.link_sink_element(VideoDecoder::new()), Err(Error::IncompatibleRole));
    assert_eq!(any.link_sink_element(text_sink()), Err(Error::IncompatibleFormat));
    let audio = AudioDecoder::new((0, 0, CodecParams { inner: vec![] }));
    assert_eq!(any.link_sink_element(audio), Ok(()));
    let mut video = VideoDecoder::new();
    assert_eq!(video.link_sink_element(StdoutLog::new()), Ok(()));
    let mut audio = AudioDecoder::new((0, 0, CodecParams { inner: vec![] }));
    assert_eq!(audio.link_sink_element(VideoDecoder::new()), Err(Error::IncompatibleFormat));
}

#[test]
fn second_adopt_is_rejected() {
    let mut src = TextTestSrc::new();
    src.link_sink_element(StdoutLog::new()).unwrap();
    assert_eq!(src.link_sink_element(StdoutLog::new()), Err(Error::AlreadyAdopted));
    let mut pipe = SinkPipe::new();
    assert_eq!(pipe.current_state(), RunnerState::Empty);
    assert!(pipe.peek().is_none());
    assert!(matches!(pipe.take_element(), Err(Error::NoStageAdopted)));
    assert!(matches!(pipe.spawn(), Err(Error::NoStageAdopted)));
    pipe.set_element(StdoutLog::new()).unwrap();
    assert_eq!(pipe.current_state(), RunnerState::Adopted);
    assert_eq!(pipe.peek().unwrap().get_sink_type(), ElementType::TextSink);
    assert_eq!(pipe.set_element(StdoutLog::new()), Err(Error::AlreadyAdopted));
    let taken = pipe.take_element().ok().unwrap();
    assert_eq!(taken.get_sink_type(), ElementType::TextSink);
    assert_eq!(pipe.current_state(), RunnerState::Empty);
    pipe.set_element(taken).unwrap();
    let _worker = pipe.spawn().ok().unwrap();
    assert_eq!(pipe.current_state(), RunnerState::Running);
    assert_eq!(pipe.set_element(StdoutLog::new()), Err(Error::AlreadyRunning));
    assert_eq!(
        pipe.link(CommonFormat::Text, ElementType::TextSink, StdoutLog::new()),
        Err(Error::AlreadyRunning)
    );
    assert!(matches!(pipe.spawn(), Err(Error::AlreadyRunning)));
    assert!(matches!(pipe.take_element(), Err(Error::NoStageAdopted)));
}

#[test]
fn byte_reader_gives_chunks_then_is_exhausted() {
    let mut reader = FileSrc::new(vec![0, 1, 2, 3, 4, 5, 6, 7, 8, 9], 4);
    reader
        .link_sink_element(TestSink::new(ElementType::BytesSink, CommonFormat::Bytes))
        .unwrap();
    let mut sink = TestSink::new(ElementType::BytesSink, CommonFormat::Bytes);
    let mut lengths = Vec::new();
    for _ in 0..3 {
        let item = reader.produce().unwrap();
        if let Datagram::Data(Data::Bytes(chunk)) = &item {
            lengths.push(chunk.len());
        }
        assert_eq!(sink.handle(Some(item)), Ok(Flow::Continue));
    }
    assert_eq!(lengths, vec![4, 4, 2]);
    // the fourth iteration gives nothing: the reader leaves its loop
    assert_eq!(reader.produce(), None);
    assert_eq!(reader.handle(iter()), Ok(Flow::Stop));
    assert_eq!(reader.handle(iter()), Ok(Flow::Stop));
    assert_eq!(
        data_of(sink.seen()),
        vec![
            Data::Bytes(vec![0, 1, 2, 3]),
            Data::Bytes(vec![4, 5, 6, 7]),
            Data::Bytes(vec![8, 9]),
        ]
    );
}

#[test]
fn exhausted_head_makes_the_pipeline_exhausted_for_good() {
    let mut reader = FileSrc::new(Vec::new(), 4);
    reader
        .link_sink_element(TestSink::new(ElementType::BytesSink, CommonFormat::Bytes))
        .unwrap();
    let mut pipeline = Pipeline::new(reader);
    let mut head = pipeline.init().unwrap();
    let mut below = head.init().unwrap();
    assert!(!pipeline.is_exhausted());
    // the head's worker, with nothing to give, ends: it reports `Finished`
    assert_eq!(below[0].finish(), Ok(()));
    assert_eq!(head.finish(), Ok(()));
    assert_eq!(pipeline.settle(Ok(Message::Finished)), Ok(Step::Exhausted));
    assert!(pipeline.is_exhausted());
    for _ in 0..3 {
        assert_eq!(pipeline.iter(), Ok(Step::Exhausted));
    }
    // an acknowledgement that came late changes nothing
    assert_eq!(pipeline.settle(Ok(Message::IterFin)), Ok(Step::Progressed));
    assert!(pipeline.is_exhausted());
    assert_eq!(pipeline.iter(), Ok(Step::Exhausted));
    assert_eq!(pipeline.teardown(), Ok(()));
    assert_eq!(pipeline.current_state(), RunnerState::Closed);
    assert_eq!(pipeline.iter(), Ok(Step::Exhausted));
}

#[test]
fn byte_reader_with_chunk_zero_or_empty_buffer_is_exhausted_at_once() {
    for mut reader in [FileSrc::new(vec![1, 2, 3], 0), FileSrc::new(Vec::new(), 4)] {
        assert_eq!(reader.produce(), None);
        assert_eq!(reader.handle(iter()), Ok(Flow::Stop));
    }
    let mut whole = FileSrc::new(vec![1, 2, 3], 3);
    assert_eq!(whole.produce(), Some(Datagram::Data(Data::Bytes(vec![1, 2, 3]))));
    assert_eq!(whole.produce(), None);
    let mut wide = FileSrc::new(vec![1, 2, 3], usize::MAX);
    assert_eq!(wide.produce(), Some(Datagram::Data(Data::Bytes(vec![1, 2, 3]))));
    assert_eq!(wide.produce(), None);
    let mut single = FileSrc::new(vec![7, 8], 1);
    assert_eq!(single.produce(), Some(Datagram::Data(Data::Bytes(vec![7]))));
    assert_eq!(single.produce(), Some(Datagram::Data(Data::Bytes(vec![8]))));
    assert_eq!(single.produce(), None);
}

fn packet(tag: i32, mark: u8) -> Packet {
    Packet::new(tag, vec![mark])
}

fn marks(seen: &[Datagram]) -> Vec<u8> {
    let mut out = Vec::new();
    for data in data_of(seen) {
        match data {
            Data::AVPacket(p) => out.push(p.payload()[0]),
            _ => panic!("not a packet"),
        }
    }
    out
}

fn fan_out(packets: Vec<Packet>, video: i32, audio: i32) -> DemuxSrc {
    let mut demux = DemuxSrc::new(Demuxer::new(None, None, packets));
    demux
        .link_video_sink_element(
            video,
            TestSink::new(ElementType::AVPacketVideoSink, CommonFormat::AVPacket),
        )
        .unwrap();
    demux
        .link_audio_sink_element(
            audio,
            TestSink::new(ElementType::AVPacketAudioSink, CommonFormat::AVPacket),
        )
        .unwrap();
    demux
}

/// Lets the fan-out stage read all it has and hands each packet to the
/// branch that the stage names. Returns what the two branches recorded, the
/// video branch first, and how many packets went to neither.
fn run_fan_out(mut demux: DemuxSrc) -> (Vec<u8>, Vec<u8>, usize) {
    let mut video = TestSink::new(ElementType::AVPacketVideoSink, CommonFormat::AVPacket);
    let mut audio = TestSink::new(ElementType::AVPacketAudioSink, CommonFormat::AVPacket);
    let mut dropped = 0;
    while let Some((to, packet)) = demux.produce() {
        let item = Some(Datagram::Data(Data::AVPacket(packet)));
        match to {
            Route::Video => assert_eq!(video.handle(item), Ok(Flow::Continue)),
            Route::Audio => assert_eq!(audio.handle(item), Ok(Flow::Continue)),
            Route::Dropped => dropped += 1,
        }
    }
    assert_eq!(demux.handle(iter()), Ok(Flow::Stop));
    (marks(video.seen()), marks(audio.seen()), dropped)
}

#[test]
fn fan_out_routes_by_tag_in_order() {
    // tags A,B,A,A,B with A = 7 (video) and B = 9 (audio)
    let packets =
        vec![packet(7, 1), packet(9, 2), packet(7, 3), packet(7, 4), packet(9, 5)];
    let (video, audio, dropped) = run_fan_out(fan_out(packets, 7, 9));
    assert_eq!(video, vec![1, 3, 4]);
    assert_eq!(audio, vec![2, 5]);
    assert_eq!(dropped, 0);
}

#[test]
fn fan_out_three_video_two_audio() {
    let packets =
        vec![packet(0, 10), packet(0, 11), packet(1, 20), packet(0, 12), packet(1, 21)];
    let (video, audio, dropped) = run_fan_out(fan_out(packets, 0, 1));
    assert_eq!(video, vec![10, 11, 12]);
    assert_eq!(audio, vec![20, 21]);
    assert_eq!(dropped, 0);
}

#[test]
fn fan_out_drops_packets_of_other_streams() {
    let packets = vec![packet(5, 1), packet(0, 2), packet(6, 3), packet(1, 4)];
    let (video, audio, dropped) = run_fan_out(fan_out(packets, 0, 1));
    assert_eq!(video, vec![2]);
    assert_eq!(audio, vec![4]);
    assert_eq!(dropped, 2);
    // before a branch is linked its stream index is -1
    let mut bare = DemuxSrc::new(Demuxer::new(None, None, vec![packet(-1, 1), packet(0, 2)]));
    assert_eq!(bare.produce(), Some((Route::Audio, packet(-1, 1))));
    assert_eq!(bare.produce(), Some((Route::Dropped, packet(0, 2))));
    assert_eq!(bare.produce(), None);
}

#[test]
fn fan_out_checks_each_slot_for_itself() {
    let mut demux = DemuxSrc::new(Demuxer::new(None, None, Vec::new()));
    let audio_sink = TestSink::new(ElementType::AVPacketAudioSink, CommonFormat::AVPacket);
    assert_eq!(demux.link_video_sink_element(0, audio_sink), Err(Error::IncompatibleRole));
    let video_sink = TestSink::new(ElementType::AVPacketVideoSink, CommonFormat::AVPacket);
    assert_eq!(demux.link_audio_sink_element(1, video_sink), Err(Error::IncompatibleRole));
    assert_eq!(
        demux.link_video_sink_element(0, StdoutLog::new()),
        Err(Error::IncompatibleFormat)
    );
    assert!(matches!(demux.init(), Err(Error::NoStageAdopted)));
    // with one branch only the stage cannot start, and starts neither
    demux.link_video_sink_element(0, VideoDecoder::new()).unwrap();
    assert!(matches!(demux.init(), Err(Error::NoStageAdopted)));
    demux
        .link_audio_sink_element(1, AudioDecoder::new((1, 0, CodecParams { inner: vec![] })))
        .unwrap();
    let below = demux.init().ok().unwrap();
    assert_eq!(below.len(), 2);
    assert!(matches!(below[0].element(), AnyElement::VideoDecoder(_)));
    assert!(matches!(below[1].element(), AnyElement::AudioDecoder(_)));
    assert!(matches!(demux.init(), Err(Error::AlreadyRunning)));
}

#[test]
fn fan_out_releases_both_branches() {
    let mut demux = fan_out(vec![packet(0, 1)], 0, 1);
    assert_eq!(demux.cleanup(), Ok(()));
    let mut below = demux.init().ok().unwrap();
    // both branches end before they are awaited
    for worker in below.iter_mut() {
        assert_eq!(worker.finish(), Ok(()));
    }
    assert_eq!(demux.cleanup(), Ok(()));
    assert_eq!(demux.cleanup(), Ok(()));
    // a branch that is gone takes nothing: the iteration ends the stage
    assert_eq!(demux.handle(iter()), Ok(Flow::Stop));
}

#[test]
fn demux_with_decoders() {
    let packets = vec![packet(0, 1), packet(1, 2), packet(0, 3)];
    let mut demux = DemuxSrc::new(Demuxer::new(
        Some((0, 27, CodecParams { inner: vec![1] })),
        Some((1, 86018, CodecParams { inner: vec![2] })),
        packets,
    ));
    let video = demux.get_video_stream().unwrap();
    let audio = demux.get_audio_stream().unwrap();
    assert_eq!((video.0, video.1, video.2.inner.clone()), (0, 27, vec![1u8]));
    let mut adecoder = AudioDecoder::new(audio);
    let mut vdecoder = VideoDecoder::new();
    assert_eq!(adecoder.get_stream_index(), 1);
    assert_eq!(adecoder.get_codec_id(), 86018);
    assert_eq!(adecoder.get_codec_params().inner, vec![2u8]);
    demux.link_video_sink_element(video.0, VideoDecoder::new()).unwrap();
    demux
        .link_audio_sink_element(
            adecoder.get_stream_index(),
            AudioDecoder::new((1, 86018, CodecParams { inner: vec![2] })),
        )
        .unwrap();
    let mut decoded = Vec::new();
    while let Some((to, packet)) = demux.produce() {
        let item = Some(Datagram::Data(Data::AVPacket(packet)));
        match to {
            Route::Video => assert_eq!(vdecoder.handle(item), Ok(Flow::Continue)),
            Route::Audio => match adecoder.handle(item) {
                Ok(Flow::Decode(packet)) => {
                    decoded.push(packet.payload()[0]);
                    assert_eq!(adecoder.decoded(Ok(vec![Frame::new(1)])), Flow::Continue);
                }
                other => panic!("the decoder answered {:?}", other),
            },
            Route::Dropped => panic!("no packet is to be dropped"),
        }
    }
    assert_eq!(decoded, vec![2]);
}

#[test]
fn missing_streams_are_reported() {
    let demux = DemuxSrc::new(Demuxer::new(None, None, Vec::new()));
    assert!(matches!(
        demux.get_video_stream(),
        Err(Error::AVError(streamcraft::libav::error::Error::FailedToFindBestStream))
    ));
    assert!(matches!(
        demux.get_audio_stream(),
        Err(Error::AVError(streamcraft::libav::error::Error::FailedToFindBestStream))
    ));
    let mut demuxer = Demuxer::new(None, None, vec![packet(3, 9)]);
    assert!(demuxer.get_video_stream().is_err());
    assert!(demuxer.get_audio_stream().is_err());
    assert_eq!(demuxer.read_frame().unwrap(), packet(3, 9));
    assert_eq!(
        demuxer.read_frame(),
        Err(streamcraft::libav::error::Error::FailedToReadFrame)
    );
    assert_eq!(
        demuxer.read_frame(),
        Err(streamcraft::libav::error::Error::FailedToReadFrame)
    );
}

#[test]
fn teardown_is_idempotent_and_leaves_no_worker() {
    let mut src = TextTestSrc::new();
    src.link_sink_element(text_sink()).unwrap();
    let mut pipeline = Pipeline::new(src);
    let mut head = pipeline.init().unwrap();
    let mut below = head.init().unwrap();
    assert_eq!(pipeline.current_state(), RunnerState::Running);
    // the workers end, the lowest first, as they do when told to stop
    assert_eq!(below[0].finish(), Ok(()));
    assert_eq!(head.finish(), Ok(()));
    assert_eq!(pipeline.teardown(), Ok(()));
    assert_eq!(pipeline.current_state(), RunnerState::Closed);
    assert_eq!(pipeline.teardown(), Ok(()));
    assert_eq!(pipeline.teardown(), Ok(()));
    assert_eq!(pipeline.current_state(), RunnerState::Closed);
    assert_eq!(pipeline.iter(), Err(Error::NotReady));
    // the producer's own runner was closed when its worker finished
    match head.element() {
        AnyElement::TextTestSrc(_) => {}
        _ => panic!("not the producer"),
    }
}

#[test]
fn teardown_before_init_and_init_twice() {
    let mut src = TextTestSrc::new();
    src.link_sink_element(StdoutLog::new()).unwrap();
    let mut pipeline = Pipeline::new(src);
    assert_eq!(pipeline.current_state(), RunnerState::Adopted);
    assert_eq!(pipeline.iter(), Err(Error::NotReady));
    assert_eq!(pipeline.teardown(), Ok(()));
    assert_eq!(pipeline.current_state(), RunnerState::Adopted);
    let head = pipeline.init().unwrap();
    // the stage has gone to its worker: there is nothing left to start
    assert!(matches!(pipeline.init(), Err(Error::NotReady)));
    assert_eq!(pipeline.current_state(), RunnerState::Running);
    drop(head);
    assert_eq!(pipeline.teardown(), Ok(()));
    assert!(matches!(pipeline.init(), Err(Error::NotReady)));
    assert_eq!(pipeline.current_state(), RunnerState::Closed);
}

#[test]
fn head_must_take_nothing_in() {
    let mut pipeline = Pipeline::new(StdoutLog::new());
    assert!(matches!(pipeline.init(), Err(Error::IncompatibleFormat)));
    assert_eq!(pipeline.current_state(), RunnerState::Adopted);
    assert_eq!(pipeline.iter(), Err(Error::NotReady));
}

#[test]
fn step_fails_when_head_worker_is_gone() {
    let mut src = TextTestSrc::new();
    src.link_sink_element(StdoutLog::new()).unwrap();
    let mut pipeline = Pipeline::new(src);
    let worker = pipeline.init().unwrap();
    drop(worker);
    assert_eq!(pipeline.iter(), Err(Error::SendFailed));
    assert!(!pipeline.is_exhausted());
    assert_eq!(pipeline.teardown(), Ok(()));
    assert_eq!(pipeline.current_state(), RunnerState::Closed);
}

#[test]
fn producer_stops_when_consumer_is_gone() {
    let mut src = TextTestSrc::new();
    src.link_sink_element(StdoutLog::new()).unwrap();
    // the consumer's worker is handed out and dropped, as if it had died
    drop(src.init().unwrap());
    assert_eq!(src.handle(iter()), Ok(Flow::Stop));
    assert_eq!(src.cleanup(), Ok(()));
    assert_eq!(src.cleanup(), Ok(()));
    assert_eq!(src.handle(iter()), Ok(Flow::Stop));
}

#[test]
fn downstream_conduit_is_a_rendezvous() {
    let mut pipe = SinkPipe::new();
    assert_eq!(pipe.conduit_capacity(), None);
    assert!(!pipe.is_operational());
    pipe.set_element(text_sink()).unwrap();
    assert_eq!(pipe.conduit_capacity(), None);
    assert!(!pipe.has_unlimited_acks());
    let worker = pipe.spawn().ok().unwrap();
    assert_eq!(pipe.conduit_capacity(), Some(0));
    assert!(pipe.has_unlimited_acks());
    assert!(pipe.is_operational());
    assert_eq!(pipe.try_recv_msg(), Ok(None));
    drop(worker);
    assert_eq!(pipe.try_recv_msg(), Err(Error::ReceiveFailed));
    assert_eq!(pipe.recv_msg(), Err(Error::ReceiveFailed));
    assert_eq!(pipe.send_quit(), Err(Error::SendFailed));
    assert_eq!(pipe.send_datagram(text("late")), Err(Error::SendFailed));
    pipe.drop_data_sender();
    assert_eq!(pipe.current_state(), RunnerState::Draining);
    assert_eq!(pipe.conduit_capacity(), None);
    assert!(pipe.has_unlimited_acks());
    assert_eq!(pipe.send_quit(), Err(Error::NotReady));
    assert_eq!(pipe.close(), Ok(()));
    assert_eq!(pipe.current_state(), RunnerState::Closed);
    assert!(!pipe.has_unlimited_acks());
    assert_eq!(pipe.send_quit(), Err(Error::NotReady));
    assert_eq!(pipe.recv_msg(), Err(Error::NotReady));
    assert_eq!(pipe.try_recv_msg(), Err(Error::NotReady));
    assert_eq!(pipe.join_thread(), Err(Error::NotReady));
    assert_eq!(pipe.close(), Ok(()));
    assert_eq!(pipe.terminate(), Ok(()));
    pipe.drop_data_sender();
    assert_eq!(pipe.current_state(), RunnerState::Closed);
}

#[test]
fn closed_conduit_stops_the_worker() {
    let mut pipe = SinkPipe::new();
    pipe.set_element(StdoutLog::new()).unwrap();
    let mut worker = pipe.spawn().ok().unwrap();
    pipe.drop_data_sender();
    assert_eq!(worker.step(), Ok(Flow::Stop));
    assert_eq!(worker.step(), Ok(Flow::Stop));
    assert_eq!(worker.decoded(Ok(Vec::new())), Flow::Stop);
    assert_eq!(pipe.try_recv_msg(), Ok(None));
    assert_eq!(worker.finish(), Ok(()));
    assert_eq!(worker.finish(), Ok(()));
    assert_eq!(pipe.try_recv_msg(), Ok(Some(Message::Finished)));
    assert_eq!(pipe.try_recv_msg(), Err(Error::ReceiveFailed));
    assert_eq!(pipe.join_thread(), Ok(()));
    assert_eq!(pipe.current_state(), RunnerState::Closed);
}

#[test]
fn join_takes_one_finished_and_then_the_disconnection() {
    let mut pipe = SinkPipe::new();
    pipe.set_element(StdoutLog::new()).unwrap();
    let mut worker = pipe.spawn().ok().unwrap();
    assert_eq!(worker.finish(), Ok(()));
    assert_eq!(pipe.recv_msg(), Ok(Message::Finished));
    assert_eq!(pipe.recv_msg(), Err(Error::ReceiveFailed));
    assert_eq!(pipe.terminate(), Ok(()));
    // what a producer makes of its consumer's reports after an iteration
    let mut odd = SinkPipe::new();
    odd.set_element(text_sink()).unwrap();
    let mut worker = odd.spawn().ok().unwrap();
    let (sender, receiver) = crossbeam_channel::unbounded();
    let mut parent = Parent::new(sender);
    assert_eq!(acknowledge(&odd, &mut parent), Ok(Flow::Continue));
    assert_eq!(receiver.try_recv(), Ok(Message::IterFin));
    assert_eq!(worker.finish(), Ok(()));
    assert_eq!(acknowledge(&odd, &mut parent), Ok(Flow::Stop));
    assert_eq!(acknowledge(&odd, &mut parent), Err(Error::ReceiveFailed));
    drop(receiver);
    assert_eq!(acknowledge(&odd, &mut parent), Err(Error::SendFailed));
    assert_eq!(forward(&mut odd, &mut parent, text("x")), Ok(Flow::Stop));
    assert_eq!(odd.close(), Ok(()));
    assert_eq!(acknowledge(&odd, &mut Parent::detached()), Err(Error::NoParentMessageSender));
}

#[test]
fn acknowledgements_never_wait_for_the_stage_above() {
    let mut pipe = SinkPipe::new();
    pipe.set_element(text_sink()).unwrap();
    let mut worker = pipe.spawn().ok().unwrap();
    // nobody reads upstream, and still the worker's report goes out at once
    assert_eq!(worker.finish(), Ok(()));
    assert_eq!(pipe.try_recv_msg(), Ok(Some(Message::Finished)));
    assert_eq!(pipe.try_recv_msg(), Err(Error::ReceiveFailed));
    assert_eq!(pipe.close(), Ok(()));
}

#[test]
fn defaults_are_the_unlinked_stages() {
    let mut pipe = SinkPipe::default();
    assert_eq!(pipe.current_state(), RunnerState::Empty);
    assert_eq!(pipe.send_quit(), Err(Error::NotReady));
    assert_eq!(Parent::default().send_finished(), Err(Error::NoParentMessageSender));
    let mut src = TextTestSrc::default();
    assert_eq!(src.produce(), text("Test\n"));
    assert!(matches!(src.init(), Err(Error::NoStageAdopted)));
    let mut log = StdoutLog::default();
    assert_eq!(log.handle(Some(text("a"))), Ok(Flow::Print(String::from("a"))));
    assert_eq!(log.init().ok().unwrap().len(), 0);
    let mut video = VideoDecoder::default();
    assert_eq!(video.handle(None), Ok(Flow::Stop));
    assert_eq!(video.cleanup(), Ok(()));
}

#[test]
fn worker_hangs_up_when_it_finishes() {
    let mut src = TextTestSrc::new();
    src.link_sink_element(text_sink()).unwrap();
    let mut pipeline = Pipeline::new(src);
    let mut head = pipeline.init().unwrap();
    let mut below = head.init().unwrap();
    assert!(matches!(head.init(), Err(Error::AlreadyRunning)));
    assert_eq!(below[0].finish(), Ok(()));
    assert_eq!(head.finish(), Ok(()));
    // the head gave up its conduits: nothing can be asked of it
    assert_eq!(pipeline.iter(), Err(Error::SendFailed));
    assert_eq!(head.step(), Ok(Flow::Stop));
    assert_eq!(pipeline.teardown(), Ok(()));
    assert_eq!(pipeline.teardown(), Ok(()));
}
