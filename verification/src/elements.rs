use vstd::prelude::*;
use crate::element_traits::{Element, ElementArchitecture, ElementType};
use crate::elements::misc::testsink::TestSink;
use crate::elements::av::demuxsrc::DemuxSrc;
use crate::elements::av::audiodecoder::AudioDecoder;
use crate::elements::av::videodecoder::VideoDecoder;
use crate::elements::io::filesrc::FileSrc;
use crate::elements::misc::testsrc::TestSrc;
use crate::elements::text::stdoutlog::StdoutLog;
use crate::elements::text::texttestsrc::TextTestSrc;
use crate::pipeline::error::Error;
use crate::pipeline::{Datagram, Flow, Parent, Worker};

pub mod av;
pub mod io;
pub mod misc;
pub mod text;

verus! {

/// The closed family of stages: what a runner can adopt and a worker can run.
pub enum AnyElement {
    StdoutLog(StdoutLog),
    TextTestSrc(TextTestSrc),
    TestSink(TestSink),
    DemuxSrc(DemuxSrc),
    AudioDecoder(AudioDecoder),
    VideoDecoder(VideoDecoder),
    FileSrc(FileSrc),
    TestSrc(TestSrc),
}

impl Element for AnyElement {
    open spec fn sink_type(&self) -> ElementType {
        match self {
            AnyElement::StdoutLog(stage) => stage.sink_type(),
            AnyElement::TextTestSrc(stage) => stage.sink_type(),
            AnyElement::TestSink(stage) => stage.sink_type(),
            AnyElement::DemuxSrc(stage) => stage.sink_type(),
            AnyElement::AudioDecoder(stage) => stage.sink_type(),
            AnyElement::VideoDecoder(stage) => stage.sink_type(),
            AnyElement::FileSrc(stage) => stage.sink_type(),
            AnyElement::TestSrc(stage) => stage.sink_type(),
        }
    }

    open spec fn architecture(&self) -> ElementArchitecture {
        match self {
            AnyElement::StdoutLog(stage) => stage.architecture(),
            AnyElement::TextTestSrc(stage) => stage.architecture(),
            AnyElement::TestSink(stage) => stage.architecture(),
            AnyElement::DemuxSrc(stage) => stage.architecture(),
            AnyElement::AudioDecoder(stage) => stage.architecture(),
            AnyElement::VideoDecoder(stage) => stage.architecture(),
            AnyElement::FileSrc(stage) => stage.architecture(),
            AnyElement::TestSrc(stage) => stage.architecture(),
        }
    }

    open spec fn parent(&self) -> Parent {
        match self {
            AnyElement::StdoutLog(stage) => stage.parent(),
            AnyElement::TextTestSrc(stage) => stage.parent(),
            AnyElement::TestSink(stage) => stage.parent(),
            AnyElement::DemuxSrc(stage) => stage.parent(),
            AnyElement::AudioDecoder(stage) => stage.parent(),
            AnyElement::VideoDecoder(stage) => stage.parent(),
            AnyElement::FileSrc(stage) => stage.parent(),
            AnyElement::TestSrc(stage) => stage.parent(),
        }
    }

    open spec fn with_parent(self, parent: Parent) -> AnyElement {
        match self {
            AnyElement::StdoutLog(stage) => AnyElement::StdoutLog(stage.with_parent(parent)),
            AnyElement::TextTestSrc(stage) => AnyElement::TextTestSrc(stage.with_parent(parent)),
            AnyElement::TestSink(stage) => AnyElement::TestSink(stage.with_parent(parent)),
            AnyElement::DemuxSrc(stage) => AnyElement::DemuxSrc(stage.with_parent(parent)),
            AnyElement::AudioDecoder(stage) => AnyElement::AudioDecoder(stage.with_parent(parent)),
            AnyElement::VideoDecoder(stage) => AnyElement::VideoDecoder(stage.with_parent(parent)),
            AnyElement::FileSrc(stage) => AnyElement::FileSrc(stage.with_parent(parent)),
            AnyElement::TestSrc(stage) => AnyElement::TestSrc(stage.with_parent(parent)),
        }
    }

    open spec fn erased(self) -> AnyElement {
        self
    }

    open spec fn wired(pre: AnyElement, post: AnyElement, started: Result<Seq<Worker>, Error>) -> bool {
        match (pre, post) {
            (AnyElement::StdoutLog(a), AnyElement::StdoutLog(b)) => StdoutLog::wired(a, b, started),
            (AnyElement::TextTestSrc(a), AnyElement::TextTestSrc(b)) => TextTestSrc::wired(
                a,
                b,
                started,
            ),
            (AnyElement::TestSink(a), AnyElement::TestSink(b)) => TestSink::wired(a, b, started),
            (AnyElement::DemuxSrc(a), AnyElement::DemuxSrc(b)) => DemuxSrc::wired(a, b, started),
            (AnyElement::AudioDecoder(a), AnyElement::AudioDecoder(b)) => AudioDecoder::wired(a, b, started),
            (AnyElement::VideoDecoder(a), AnyElement::VideoDecoder(b)) => VideoDecoder::wired(a, b, started),
            (AnyElement::FileSrc(a), AnyElement::FileSrc(b)) => FileSrc::wired(a, b, started),
            (AnyElement::TestSrc(a), AnyElement::TestSrc(b)) => TestSrc::wired(a, b, started),
            _ => false,
        }
    }

    open spec fn handled(
        pre: AnyElement,
        event: Option<Datagram>,
        post: AnyElement,
        answer: Result<Flow, Error>,
    ) -> bool {
        match (pre, post) {
            (AnyElement::StdoutLog(a), AnyElement::StdoutLog(b)) => StdoutLog::handled(
                a,
                event,
                b,
                answer,
            ),
            (AnyElement::TextTestSrc(a), AnyElement::TextTestSrc(b)) => TextTestSrc::handled(
                a,
                event,
                b,
                answer,
            ),
            (AnyElement::TestSink(a), AnyElement::TestSink(b)) => TestSink::handled(
                a,
                event,
                b,
                answer,
            ),
            (AnyElement::DemuxSrc(a), AnyElement::DemuxSrc(b)) => DemuxSrc::handled(
                a,
                event,
                b,
                answer,
            ),
            (AnyElement::AudioDecoder(a), AnyElement::AudioDecoder(b)) => AudioDecoder::handled(
                a,
                event,
                b,
                answer,
            ),
            (AnyElement::VideoDecoder(a), AnyElement::VideoDecoder(b)) => VideoDecoder::handled(
                a,
                event,
                b,
                answer,
            ),
            (AnyElement::FileSrc(a), AnyElement::FileSrc(b)) => FileSrc::handled(
                a,
                event,
                b,
                answer,
            ),
            (AnyElement::TestSrc(a), AnyElement::TestSrc(b)) => TestSrc::handled(
                a,
                event,
                b,
                answer,
            ),
            _ => false,
        }
    }

    open spec fn released(pre: AnyElement, post: AnyElement, report: Result<(), Error>) -> bool {
        match (pre, post) {
            (AnyElement::StdoutLog(a), AnyElement::StdoutLog(b)) => StdoutLog::released(
                a,
                b,
                report,
            ),
            (AnyElement::TextTestSrc(a), AnyElement::TextTestSrc(b)) => TextTestSrc::released(
                a,
                b,
                report,
            ),
            (AnyElement::TestSink(a), AnyElement::TestSink(b)) => TestSink::released(a, b, report),
            (AnyElement::DemuxSrc(a), AnyElement::DemuxSrc(b)) => DemuxSrc::released(a, b, report),
            (AnyElement::AudioDecoder(a), AnyElement::AudioDecoder(b)) => AudioDecoder::released(a, b, report),
            (AnyElement::VideoDecoder(a), AnyElement::VideoDecoder(b)) => VideoDecoder::released(a, b, report),
            (AnyElement::FileSrc(a), AnyElement::FileSrc(b)) => FileSrc::released(a, b, report),
            (AnyElement::TestSrc(a), AnyElement::TestSrc(b)) => TestSrc::released(a, b, report),
            _ => false,
        }
    }

    fn get_sink_type(&self) -> (kind: ElementType) {
        match self {
            AnyElement::StdoutLog(stage) => stage.get_sink_type(),
            AnyElement::TextTestSrc(stage) => stage.get_sink_type(),
            AnyElement::TestSink(stage) => stage.get_sink_type(),
            AnyElement::DemuxSrc(stage) => stage.get_sink_type(),
            AnyElement::AudioDecoder(stage) => stage.get_sink_type(),
            AnyElement::VideoDecoder(stage) => stage.get_sink_type(),
            AnyElement::FileSrc(stage) => stage.get_sink_type(),
            AnyElement::TestSrc(stage) => stage.get_sink_type(),
        }
    }

    fn get_architecture(&self) -> (shape: ElementArchitecture) {
        match self {
            AnyElement::StdoutLog(stage) => stage.get_architecture(),
            AnyElement::TextTestSrc(stage) => stage.get_architecture(),
            AnyElement::TestSink(stage) => stage.get_architecture(),
            AnyElement::DemuxSrc(stage) => stage.get_architecture(),
            AnyElement::AudioDecoder(stage) => stage.get_architecture(),
            AnyElement::VideoDecoder(stage) => stage.get_architecture(),
            AnyElement::FileSrc(stage) => stage.get_architecture(),
            AnyElement::TestSrc(stage) => stage.get_architecture(),
        }
    }

    fn init(&mut self) -> (started: Result<Vec<Worker>, Error>) {
        match self {
            AnyElement::StdoutLog(stage) => stage.init(),
            AnyElement::TextTestSrc(stage) => stage.init(),
            AnyElement::TestSink(stage) => stage.init(),
            AnyElement::DemuxSrc(stage) => stage.init(),
            AnyElement::AudioDecoder(stage) => stage.init(),
            AnyElement::VideoDecoder(stage) => stage.init(),
            AnyElement::FileSrc(stage) => stage.init(),
            AnyElement::TestSrc(stage) => stage.init(),
        }
    }

    fn handle(&mut self, event: Option<Datagram>) -> (answer: Result<Flow, Error>) {
        match self {
            AnyElement::StdoutLog(stage) => stage.handle(event),
            AnyElement::TextTestSrc(stage) => stage.handle(event),
            AnyElement::TestSink(stage) => stage.handle(event),
            AnyElement::DemuxSrc(stage) => stage.handle(event),
            AnyElement::AudioDecoder(stage) => stage.handle(event),
            AnyElement::VideoDecoder(stage) => stage.handle(event),
            AnyElement::FileSrc(stage) => stage.handle(event),
            AnyElement::TestSrc(stage) => stage.handle(event),
        }
    }

    fn conclude(&mut self) -> (told: Result<(), Error>) {
        match self {
            AnyElement::StdoutLog(stage) => stage.conclude(),
            AnyElement::TextTestSrc(stage) => stage.conclude(),
            AnyElement::TestSink(stage) => stage.conclude(),
            AnyElement::DemuxSrc(stage) => stage.conclude(),
            AnyElement::AudioDecoder(stage) => stage.conclude(),
            AnyElement::VideoDecoder(stage) => stage.conclude(),
            AnyElement::FileSrc(stage) => stage.conclude(),
            AnyElement::TestSrc(stage) => stage.conclude(),
        }
    }

    fn set_parent(&mut self, parent: Parent) {
        match self {
            AnyElement::StdoutLog(stage) => {
                stage.set_parent(parent);
            },
            AnyElement::TextTestSrc(stage) => {
                stage.set_parent(parent);
            },
            AnyElement::TestSink(stage) => {
                stage.set_parent(parent);
            },
            AnyElement::DemuxSrc(stage) => {
                stage.set_parent(parent);
            },
            AnyElement::AudioDecoder(stage) => {
                stage.set_parent(parent);
            },
            AnyElement::VideoDecoder(stage) => {
                stage.set_parent(parent);
            },
            AnyElement::FileSrc(stage) => {
                stage.set_parent(parent);
            },
            AnyElement::TestSrc(stage) => {
                stage.set_parent(parent);
            },
        }
        assert(*self == old(self).with_parent(parent));
    }

    fn cleanup(&mut self) -> (report: Result<(), Error>) {
        match self {
            AnyElement::StdoutLog(stage) => stage.cleanup(),
            AnyElement::TextTestSrc(stage) => stage.cleanup(),
            AnyElement::TestSink(stage) => stage.cleanup(),
            AnyElement::DemuxSrc(stage) => stage.cleanup(),
            AnyElement::AudioDecoder(stage) => stage.cleanup(),
            AnyElement::VideoDecoder(stage) => stage.cleanup(),
            AnyElement::FileSrc(stage) => stage.cleanup(),
            AnyElement::TestSrc(stage) => stage.cleanup(),
        }
    }

    fn into_any(self) -> (any: AnyElement) {
        self
    }
}

impl AnyElement {
    /// Whether a consumer of the stage has a worker that was started and not
    /// awaited yet.
    pub open spec fn has_live_consumer(self) -> bool {
        match self {
            AnyElement::StdoutLog(_) => false,
            AnyElement::TestSink(_) => false,
            AnyElement::TextTestSrc(stage) => stage.sink().has_worker(),
            AnyElement::TestSrc(stage) => stage.sink().has_worker(),
            AnyElement::FileSrc(stage) => stage.sink().has_worker(),
            AnyElement::VideoDecoder(stage) => stage.sink().has_worker(),
            AnyElement::AudioDecoder(stage) => stage.sink().has_worker(),
            AnyElement::DemuxSrc(stage) => stage.video_sink().has_worker()
                || stage.audio_sink().has_worker(),
        }
    }
}

/// A stage that was released has no consumer with a worker left.
pub proof fn lemma_released_stage_has_no_live_consumer(
    pre: AnyElement,
    post: AnyElement,
    report: Result<(), Error>,
)
    requires
        AnyElement::released(pre, post, report),
    ensures
        !post.has_live_consumer(),
{
    match (pre, post) {
        (AnyElement::DemuxSrc(a), AnyElement::DemuxSrc(b)) => {
            let (video, audio) = choose|video: Result<(), Error>, audio: Result<(), Error>|
                #[trigger] crate::elements::av::demuxsrc::released_with(a, b, video, audio)
                    && report == crate::elements::av::demuxsrc::fan_out_report(video, audio);
            assert(crate::elements::av::demuxsrc::released_with(a, b, video, audio));
        },
        _ => {},
    }
}

/// A stage with another handle has the same consumers, in the same state.
pub proof fn lemma_with_parent_keeps_consumers(stage: AnyElement, parent: Parent)
    ensures
        stage.with_parent(parent).parent() == parent,
        stage.with_parent(parent).has_live_consumer() == stage.has_live_consumer(),
{
    match stage {
        AnyElement::StdoutLog(s) => crate::elements::text::stdoutlog::lemma_with_parent(s, parent),
        AnyElement::TestSink(s) => crate::elements::misc::testsink::lemma_with_parent(s, parent),
        AnyElement::TextTestSrc(s) => crate::elements::text::texttestsrc::lemma_with_parent(
            s,
            parent,
        ),
        AnyElement::TestSrc(s) => crate::elements::misc::testsrc::lemma_with_parent(s, parent),
        AnyElement::FileSrc(s) => crate::elements::io::filesrc::lemma_with_parent(s, parent),
        AnyElement::VideoDecoder(s) => crate::elements::av::videodecoder::lemma_with_parent(
            s,
            parent,
        ),
        AnyElement::AudioDecoder(s) => crate::elements::av::audiodecoder::lemma_with_parent(
            s,
            parent,
        ),
        AnyElement::DemuxSrc(s) => crate::elements::av::demuxsrc::lemma_with_parent(s, parent),
    }
}

} // verus!
