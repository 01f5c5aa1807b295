use vstd::prelude::*;
use vstd::string::StringExecFns;
use crate::libav::error::Error;

verus! {

/// Where a media resource is found.
#[derive(Debug, Clone, PartialEq, Eq)]
pub enum ResourceLocation {
    File(String),
}

impl ResourceLocation {
    pub fn new_file(path: String) -> (rl: ResourceLocation)
        ensures
            rl == ResourceLocation::File(path),
    {
        ResourceLocation::File(path)
    }

    /// The locator handed to the native service: the scheme, a colon, the path.
    pub open spec fn locator(self) -> Seq<char> {
        match self {
            ResourceLocation::File(path) => "file:"@ + path@,
        }
    }

    pub fn to_string(&self) -> (s: String)
        ensures
            s@ == self.locator(),
    {
        match self {
            ResourceLocation::File(path) => String::from_str("file:").concat(path.as_str()),
        }
    }
}

/// Copies a byte buffer.
pub fn copy_bytes(bytes: &Vec<u8>) -> (copy: Vec<u8>)
    ensures
        copy@ == bytes@,
{
    let mut copy: Vec<u8> = Vec::new();
    let mut i: usize = 0;
    while i < bytes.len()
        invariant
            i <= bytes.len(),
            copy@ == bytes@.take(i as int),
        decreases bytes.len() - i,
    {
        copy.push(bytes[i]);
        i = i + 1;
        assert(bytes@.take(i as int) == bytes@.take(i - 1).push(bytes@[i - 1]));
    }
    assert(bytes@.take(bytes.len() as int) == bytes@);
    copy
}

/// What a packet is to the mathematics: the stream it belongs to and its bytes.
pub struct PacketView {
    pub stream_index: i32,
    pub payload: Seq<u8>,
}

/// One demultiplexed packet: the index of its stream, which is the tag that a
/// routing stage looks at, and its payload.
#[derive(Debug, Clone, PartialEq, Eq)]
pub struct Packet {
    stream_index: i32,
    payload: Vec<u8>,
}

impl View for Packet {
    type V = PacketView;

    closed spec fn view(&self) -> PacketView {
        PacketView { stream_index: self.stream_index, payload: self.payload@ }
    }
}

impl Packet {
    pub fn new(stream_index: i32, payload: Vec<u8>) -> (packet: Packet)
        ensures
            packet@ == (PacketView { stream_index, payload: payload@ }),
    {
        Packet { stream_index, payload }
    }

    pub fn stream_index(&self) -> (index: i32)
        ensures
            index == self@.stream_index,
    {
        self.stream_index
    }

    pub fn payload(&self) -> (bytes: &Vec<u8>)
        ensures
            bytes@ == self@.payload,
    {
        &self.payload
    }

    /// A second packet with the same stream index and the same bytes.
    pub fn duplicate(&self) -> (copy: Packet)
        ensures
            copy@ == self@,
    {
        Packet { stream_index: self.stream_index, payload: copy_bytes(&self.payload) }
    }
}

pub type CodecID = u32;

/// The parameter block of a stream's codec, carried through as bytes.
#[derive(Debug, Clone, PartialEq, Eq)]
pub struct CodecParams {
    pub inner: Vec<u8>,
}

/// What a stream description is to the mathematics.
pub struct StreamView {
    pub index: i32,
    pub codec_id: CodecID,
    pub params: Seq<u8>,
}

pub open spec fn stream_view(stream: (i32, CodecID, CodecParams)) -> StreamView {
    StreamView { index: stream.0, codec_id: stream.1, params: stream.2.inner@ }
}

pub open spec fn packet_views(packets: Seq<Packet>) -> Seq<PacketView> {
    packets.map_values(|p: Packet| p@)
}

/// A demultiplexed resource held in memory: the best video and audio streams,
/// where it has them, and its packets in the order in which they are read.
pub struct Demuxer {
    video: Option<(i32, CodecID, CodecParams)>,
    audio: Option<(i32, CodecID, CodecParams)>,
    packets: Vec<Packet>,
    cursor: usize,
}

impl Demuxer {
    #[verifier::type_invariant]
    spec fn in_bounds(&self) -> bool {
        self.cursor <= self.packets.len()
    }

    /// The best video stream, where there is one.
    pub closed spec fn video(&self) -> Option<StreamView> {
        match self.video {
            Some(stream) => Some(stream_view(stream)),
            None => None,
        }
    }

    /// The best audio stream, where there is one.
    pub closed spec fn audio(&self) -> Option<StreamView> {
        match self.audio {
            Some(stream) => Some(stream_view(stream)),
            None => None,
        }
    }

    /// The packets that have not been read yet, next one first.
    pub closed spec fn remaining(&self) -> Seq<PacketView> {
        packet_views(self.packets@).skip(self.cursor as int)
    }

    pub fn new(
        video: Option<(i32, CodecID, CodecParams)>,
        audio: Option<(i32, CodecID, CodecParams)>,
        packets: Vec<Packet>,
    ) -> (demuxer: Demuxer)
        ensures
            demuxer.remaining() == packet_views(packets@),
            demuxer.video() == match video {
                Some(stream) => Some(stream_view(stream)),
                None => None,
            },
            demuxer.audio() == match audio {
                Some(stream) => Some(stream_view(stream)),
                None => None,
            },
    {
        let demuxer = Demuxer { video, audio, packets, cursor: 0 };
        assert(packet_views(packets@).skip(0) == packet_views(packets@));
        demuxer
    }

    pub fn get_video_stream(&self) -> (found: Result<(i32, CodecID, CodecParams), Error>)
        ensures
            match self.video() {
                Some(stream) => found is Ok && stream_view(found->Ok_0) == stream,
                None => found == Err::<(i32, CodecID, CodecParams), Error>(
                    Error::FailedToFindBestStream,
                ),
            },
    {
        match &self.video {
            Some(stream) => Ok(
                (stream.0, stream.1, CodecParams { inner: copy_bytes(&stream.2.inner) }),
            ),
            None => Err(Error::FailedToFindBestStream),
        }
    }

    pub fn get_audio_stream(&self) -> (found: Result<(i32, CodecID, CodecParams), Error>)
        ensures
            match self.audio() {
                Some(stream) => found is Ok && stream_view(found->Ok_0) == stream,
                None => found == Err::<(i32, CodecID, CodecParams), Error>(
                    Error::FailedToFindBestStream,
                ),
            },
    {
        match &self.audio {
            Some(stream) => Ok(
                (stream.0, stream.1, CodecParams { inner: copy_bytes(&stream.2.inner) }),
            ),
            None => Err(Error::FailedToFindBestStream),
        }
    }

    /// Reads the next packet. Past the last one the read fails, and keeps failing.
    pub fn read_frame(&mut self) -> (read: Result<Packet, Error>)
        ensures
            final(self).video() == old(self).video(),
            final(self).audio() == old(self).audio(),
            old(self).remaining().len() > 0 ==> read is Ok && read->Ok_0@ == old(self).remaining()[0] && final(self).remaining() == old(self).remaining().skip(1),
            old(self).remaining().len() == 0 ==> read == Err::<Packet, Error>(
                Error::FailedToReadFrame,
            ) && *final(self) == *old(self),
    {
        proof {
            use_type_invariant(&*self);
        }
        if self.cursor < self.packets.len() {
            let packet = self.packets[self.cursor].duplicate();
            self.cursor = self.cursor + 1;
            assert(final(self).remaining() == old(self).remaining().skip(1));
            Ok(packet)
        } else {
            Err(Error::FailedToReadFrame)
        }
    }
}

} // verus!
