//! Decoding an encoded buffer into interleaved PCM.
//!
//! The reader of the container and the decoder of its track stay with the
//! caller, who parses the bytes. What was found is handed in here, and here it
//! is decided what follows: every step returns a [`DecodeAction`] that says
//! what to do next, and the outcome goes back to the value that the action
//! carries.
//!
//! The first track with a codec is decoded. A packet that cannot be read ends
//! the stream: end of data and a failing source are not told apart. A packet
//! that cannot be decoded fails the whole buffer.

use vstd::prelude::*;

verus! {

/// Why a buffer could not be decoded.
#[derive(Debug, Clone, Copy, PartialEq, Eq, Structural)]
pub enum DecodeError {
    /// No known container was recognized.
    ProbeFailed,
    /// No track has a codec.
    NoAudioTrack,
    /// The track does not state its sample rate.
    MissingSampleRate,
    /// The track does not state its channels.
    MissingChannelCount,
    /// No decoder could be made for the track.
    DecoderInitFailed,
    /// The packet with this number, counted from one, could not be decoded.
    PacketDecodeFailed(usize),
}

/// What the selection of a track reads of it.
#[derive(Debug, Clone, Copy)]
pub struct TrackInfo {
    /// Whether the track's codec is anything but the null codec.
    pub has_codec: bool,
    pub sample_rate: Option<u32>,
    /// Number of channels.
    pub channels: Option<u16>,
}

/// The track that is decoded.
#[derive(Debug, Clone, Copy)]
pub struct SelectedTrack {
    /// Position of the track among the container's tracks.
    pub index: usize,
    pub sample_rate: u32,
    pub channel_count: u16,
}

/// Decoded PCM: samples interleaved frame by frame.
#[derive(Debug)]
pub struct DecodedAudio<S> {
    pub samples: Vec<S>,
    pub sample_rate: u32,
    pub channel_count: u16,
}

/// The samples of one decoded packet, one plane per channel.
pub struct DecodedPacket<S> {
    frames: usize,
    planes: Vec<Vec<S>>,
}

/// A decoding that waits for the decoder of its selected track.
pub struct PendingDecoder {
    track: SelectedTrack,
}

/// A decoding under way: the samples so far and the number of packets read.
pub struct Assembly<S> {
    sample_rate: u32,
    channel_count: u16,
    samples: Vec<S>,
    packets: usize,
}

/// What the caller is asked to do next.
pub enum DecodeAction<S> {
    /// Make a decoder for the selected track and tell whether there is one.
    MakeDecoder(PendingDecoder),
    /// Read the next packet of the container and hand in what came of it.
    ReadPacket(Assembly<S>),
    /// Decode this packet and hand its samples back.
    DecodePacket(Assembly<S>, symphonia::core::formats::Packet),
    /// Nothing: decoding has ended with this result.
    Finish(Result<DecodedAudio<S>, DecodeError>),
}

/// symphonia's `ProbeResult`: a recognized container with its reader. Nothing
/// inside it is read here but its tracks.
#[verifier::external_type_specification]
#[verifier::external_body]
pub struct ExProbeResult(symphonia::core::probe::ProbeResult);

/// symphonia's `Error`. It is told apart from success and nothing more.
#[verifier::external_type_specification]
#[verifier::external_body]
pub struct ExSymphoniaError(symphonia::core::errors::Error);

/// symphonia's `Packet`: encoded data on its way from the reader to the
/// decoder.
#[verifier::external_type_specification]
#[verifier::external_body]
pub struct ExPacket(symphonia::core::formats::Packet);

/// The tracks of a probed container, in the container's order.
pub uninterp spec fn reader_tracks(reader: symphonia::core::probe::ProbeResult) -> Seq<TrackInfo>;

/// Position of the first track with a codec.
pub open spec fn first_coded(tracks: Seq<TrackInfo>) -> Option<nat>
    decreases tracks.len(),
{
    if tracks.len() == 0 {
        None
    } else if tracks[0].has_codec {
        Some(0)
    } else {
        match first_coded(tracks.skip(1)) {
            Some(i) => Some(i + 1),
            None => None,
        }
    }
}

/// The track that is selected among `tracks`, or why none is.
pub open spec fn selection(tracks: Seq<TrackInfo>) -> Result<SelectedTrack, DecodeError> {
    match first_coded(tracks) {
        None => Err(DecodeError::NoAudioTrack),
        Some(i) => match tracks[i as int].sample_rate {
            None => Err(DecodeError::MissingSampleRate),
            Some(sample_rate) => match tracks[i as int].channels {
                None => Err(DecodeError::MissingChannelCount),
                Some(channel_count) => Ok(
                    SelectedTrack { index: i as usize, sample_rate, channel_count },
                ),
            },
        },
    }
}

/// The sample at position `k` of the interleaved planes: that of frame
/// `k / channels` on channel `k % channels`.
pub open spec fn interleaved_at<S>(planes: Seq<Seq<S>>, k: int) -> S {
    planes[k % (planes.len() as int)][k / (planes.len() as int)]
}

/// The samples of a packet in the order in which they are appended: frame by
/// frame, and within a frame channel by channel.
pub open spec fn interleaved<S>(planes: Seq<Seq<S>>, frames: nat) -> Seq<S> {
    Seq::new(frames * planes.len(), |k: int| interleaved_at(planes, k))
}

/// The number of the packet after packet `packets`. The count stops at the
/// largest number that it can hold.
pub open spec fn next_packet_number(packets: usize) -> usize {
    if packets < usize::MAX {
        (packets + 1) as usize
    } else {
        packets
    }
}

/// `first_coded` finds a track with a codec that no such track precedes, and
/// finds none only where no track has a codec.
pub proof fn first_coded_is_first(tracks: Seq<TrackInfo>)
    ensures
        match first_coded(tracks) {
            Some(i) => {
                &&& i < tracks.len()
                &&& tracks[i as int].has_codec
                &&& forall|j: int| 0 <= j < i ==> !(#[trigger] tracks[j]).has_codec
            },
            None => forall|j: int| 0 <= j < tracks.len() ==> !(#[trigger] tracks[j]).has_codec,
        },
    decreases tracks.len(),
{
    if tracks.len() > 0 && !tracks[0].has_codec {
        let rest = tracks.skip(1);
        first_coded_is_first(rest);
        match first_coded(rest) {
            Some(i) => {
                assert forall|j: int| 0 <= j < i + 1 implies !(#[trigger] tracks[j]).has_codec by {
                    if j > 0 {
                        assert(tracks[j] == rest[j - 1]);
                    }
                }
            },
            None => {
                assert forall|j: int| 0 <= j < tracks.len() implies !(
                #[trigger] tracks[j]).has_codec by {
                    if j > 0 {
                        assert(tracks[j] == rest[j - 1]);
                    }
                }
            },
        }
    }
}

/// A track with a codec that no such track precedes is the one that
/// `first_coded` finds.
pub proof fn first_coded_found(tracks: Seq<TrackInfo>, i: int)
    requires
        0 <= i < tracks.len(),
        tracks[i].has_codec,
        forall|j: int| 0 <= j < i ==> !(#[trigger] tracks[j]).has_codec,
    ensures
        first_coded(tracks) == Some(i as nat),
{
    first_coded_is_first(tracks);
}

impl<S> DecodedPacket<S> {
    /// Number of frames in the packet.
    pub closed spec fn frame_total(&self) -> nat {
        self.frames as nat
    }

    /// The packet's planes, one per channel.
    pub closed spec fn plane_views(&self) -> Seq<Seq<S>> {
        Seq::new(self.planes@.len(), |ch: int| self.planes@[ch]@)
    }

    /// Every plane holds one sample per frame.
    #[verifier::type_invariant]
    spec fn planes_are_full(&self) -> bool {
        forall|ch: int| 0 <= ch < self.planes@.len() ==> (#[trigger] self.planes@[ch])@.len()
            == self.frames
    }

    /// The samples of the packet, interleaved.
    pub open spec fn view(&self) -> Seq<S> {
        interleaved(self.plane_views(), self.frame_total())
    }

    /// Makes a packet of `frames` frames from one plane per channel, where
    /// every plane holds `frames` samples.
    pub fn new(frames: usize, planes: Vec<Vec<S>>) -> (packet: Option<Self>)
        ensures
            packet is Some <==> forall|ch: int|
                0 <= ch < planes@.len() ==> (#[trigger] planes@[ch])@.len() == frames,
            match packet {
                Some(p) => p.frame_total() == frames && p.plane_views() == Seq::new(
                    planes@.len(),
                    |ch: int| planes@[ch]@,
                ),
                None => true,
            },
    {
        let mut ch: usize = 0;
        while ch < planes.len()
            invariant
                ch <= planes@.len(),
                forall|c: int| 0 <= c < ch ==> (#[trigger] planes@[c])@.len() == frames,
            decreases planes.len() - ch,
        {
            if planes[ch].len() != frames {
                return None;
            }
            ch += 1;
        }
        Some(DecodedPacket { frames, planes })
    }
}

/// The view of an [`Assembly`].
pub ghost struct AssemblyView<S> {
    pub samples: Seq<S>,
    pub sample_rate: u32,
    pub channel_count: u16,
    /// Number of packets read so far.
    pub packets: usize,
}

impl<S> Assembly<S> {
    pub closed spec fn view(&self) -> AssemblyView<S> {
        AssemblyView {
            samples: self.samples@,
            sample_rate: self.sample_rate,
            channel_count: self.channel_count,
            packets: self.packets,
        }
    }
}

impl PendingDecoder {
    /// The selected track.
    pub closed spec fn selected(&self) -> SelectedTrack {
        self.track
    }

    /// The selected track.
    pub fn track(&self) -> (track: SelectedTrack)
        ensures
            track == self.selected(),
    {
        self.track
    }
}

/// `FormatReader::tracks`, its length: the number of tracks of the container.
#[verifier::external_body]
fn track_count(reader: &symphonia::core::probe::ProbeResult) -> (n: usize)
    ensures
        n == reader_tracks(*reader).len(),
{
    reader.format.tracks().len()
}

/// `FormatReader::tracks`, one entry: whether the track's codec differs from
/// `CODEC_TYPE_NULL`, its sample rate, and its number of channels by
/// `Channels::count`, which counts the bits of a 32-bit mask.
#[verifier::external_body]
fn track_info(reader: &symphonia::core::probe::ProbeResult, index: usize) -> (info: TrackInfo)
    requires
        index < reader_tracks(*reader).len(),
    ensures
        info == reader_tracks(*reader)[index as int],
{
    let params = &reader.format.tracks()[index].codec_params;
    TrackInfo {
        has_codec: params.codec != symphonia::core::codecs::CODEC_TYPE_NULL,
        sample_rate: params.sample_rate,
        channels: params.channels.map(|c| c.count() as u16),
    }
}

/// Selects the track to decode: the first one with a codec, which has to state
/// its sample rate and its channels.
pub fn select_track(tracks: &Vec<TrackInfo>) -> (r: Result<SelectedTrack, DecodeError>)
    ensures
        r == selection(tracks@),
{
    let mut i: usize = 0;
    while i < tracks.len()
        invariant
            i <= tracks@.len(),
            forall|j: int| 0 <= j < i ==> !(#[trigger] tracks@[j]).has_codec,
        decreases tracks.len() - i,
    {
        if tracks[i].has_codec {
            proof {
                first_coded_found(tracks@, i as int);
            }
            let sample_rate = match tracks[i].sample_rate {
                Some(sample_rate) => sample_rate,
                None => {
                    return Err(DecodeError::MissingSampleRate);
                },
            };
            let channel_count = match tracks[i].channels {
                Some(channel_count) => channel_count,
                None => {
                    return Err(DecodeError::MissingChannelCount);
                },
            };
            return Ok(SelectedTrack { index: i, sample_rate, channel_count });
        }
        i += 1;
    }
    proof {
        first_coded_is_first(tracks@);
    }
    Err(DecodeError::NoAudioTrack)
}

/// Reads the tracks of a probed container.
pub fn list_tracks(reader: &symphonia::core::probe::ProbeResult) -> (tracks: Vec<TrackInfo>)
    ensures
        tracks@ == reader_tracks(*reader),
{
    let n: usize = track_count(reader);
    let mut tracks: Vec<TrackInfo> = Vec::new();
    let mut i: usize = 0;
    while i < n
        invariant
            n == reader_tracks(*reader).len(),
            i <= n,
            tracks@.len() == i,
            forall|j: int| 0 <= j < i ==> tracks@[j] == reader_tracks(*reader)[j],
        decreases n - i,
    {
        tracks.push(track_info(reader, i));
        i += 1;
    }
    assert(tracks@ =~= reader_tracks(*reader));
    tracks
}

/// Starts a decoding from what probing the buffer came to.
///
/// A failed probe ends the decoding. Of a probed container the track is
/// selected: where there is one, its decoder is to be made, and else the
/// decoding has failed.
pub fn opened<S>(
    probed: &Result<symphonia::core::probe::ProbeResult, symphonia::core::errors::Error>,
) -> (action: DecodeAction<S>)
    ensures
        match *probed {
            Err(_) => action == DecodeAction::<S>::Finish(Err(DecodeError::ProbeFailed)),
            Ok(reader) => match selection(reader_tracks(reader)) {
                Err(e) => action == DecodeAction::<S>::Finish(Err(e)),
                Ok(track) => match action {
                    DecodeAction::MakeDecoder(pending) => pending.selected() == track
                        && track.index < reader_tracks(reader).len(),
                    _ => false,
                },
            },
        },
{
    match probed {
        Err(_) => DecodeAction::Finish(Err(DecodeError::ProbeFailed)),
        Ok(reader) => {
            let tracks = list_tracks(reader);
            proof {
                first_coded_is_first(tracks@);
            }
            match select_track(&tracks) {
                Err(e) => DecodeAction::Finish(Err(e)),
                Ok(track) => DecodeAction::MakeDecoder(PendingDecoder { track }),
            }
        },
    }
}

impl PendingDecoder {
    /// Takes the outcome of making the decoder. Without a decoder the decoding
    /// has failed; with one, the first packet is to be read.
    pub fn resolve<S>(self, ready: bool) -> (action: DecodeAction<S>)
        ensures
            !ready ==> action == DecodeAction::<S>::Finish(Err(DecodeError::DecoderInitFailed)),
            ready ==> match action {
                DecodeAction::ReadPacket(assembly) => assembly@ == (AssemblyView::<S> {
                    samples: Seq::empty(),
                    sample_rate: self.selected().sample_rate,
                    channel_count: self.selected().channel_count,
                    packets: 0,
                }),
                _ => false,
            },
    {
        if !ready {
            return DecodeAction::Finish(Err(DecodeError::DecoderInitFailed));
        }
        DecodeAction::ReadPacket(
            Assembly {
                sample_rate: self.track.sample_rate,
                channel_count: self.track.channel_count,
                samples: Vec::new(),
                packets: 0,
            },
        )
    }
}

impl<S> Assembly<S> {
    /// Takes the outcome of reading a packet. A packet is to be decoded; a
    /// failure to read ends the stream with the samples so far.
    pub fn after_read(
        self,
        read: Result<symphonia::core::formats::Packet, symphonia::core::errors::Error>,
    ) -> (action: DecodeAction<S>)
        ensures
            match read {
                Ok(packet) => match action {
                    DecodeAction::DecodePacket(assembly, p) => p == packet && assembly@ == (
                    AssemblyView::<S> { packets: next_packet_number(self@.packets), ..self@ }),
                    _ => false,
                },
                Err(_) => match action {
                    DecodeAction::Finish(Ok(audio)) => audio.samples@ == self@.samples
                        && audio.sample_rate == self@.sample_rate && audio.channel_count
                        == self@.channel_count,
                    _ => false,
                },
            },
    {
        match read {
            Ok(packet) => {
                let packets: usize = if self.packets < usize::MAX {
                    self.packets + 1
                } else {
                    self.packets
                };
                DecodeAction::DecodePacket(
                    Assembly {
                        sample_rate: self.sample_rate,
                        channel_count: self.channel_count,
                        samples: self.samples,
                        packets,
                    },
                    packet,
                )
            },
            Err(_) => DecodeAction::Finish(
                Ok(
                    DecodedAudio {
                        samples: self.samples,
                        sample_rate: self.sample_rate,
                        channel_count: self.channel_count,
                    },
                ),
            ),
        }
    }
}

impl<S: Copy> Assembly<S> {
    /// Appends the samples of a decoded packet, frame by frame.
    pub fn append(&mut self, packet: &DecodedPacket<S>)
        ensures
            final(self)@ == (AssemblyView::<S> {
                samples: old(self)@.samples + packet@,
                ..old(self)@
            }),
    {
        proof {
            use_type_invariant(packet);
        }
        let channels: usize = packet.planes.len();
        let ghost before = self.samples@;
        let ghost planes = packet.plane_views();
        let mut frame: usize = 0;
        while frame < packet.frames
            invariant
                packet.planes_are_full(),
                channels == packet.planes@.len(),
                planes == packet.plane_views(),
                frame <= packet.frames,
                self.sample_rate == old(self).sample_rate,
                self.channel_count == old(self).channel_count,
                self.packets == old(self).packets,
                self.samples@.len() == before.len() + frame * channels,
                forall|k: int| 0 <= k < before.len() ==> self.samples@[k] == before[k],
                forall|k: int|
                    0 <= k < frame * channels ==> self.samples@[before.len() + k]
                        == #[trigger] interleaved_at(planes, k),
            decreases packet.frames - frame,
        {
            let mut ch: usize = 0;
            while ch < channels
                invariant
                    packet.planes_are_full(),
                    channels == packet.planes@.len(),
                    planes == packet.plane_views(),
                    frame < packet.frames,
                    ch <= channels,
                    self.sample_rate == old(self).sample_rate,
                    self.channel_count == old(self).channel_count,
                    self.packets == old(self).packets,
                    self.samples@.len() == before.len() + frame * channels + ch,
                    forall|k: int| 0 <= k < before.len() ==> self.samples@[k] == before[k],
                    forall|k: int|
                        0 <= k < frame * channels + ch ==> self.samples@[before.len() + k]
                            == #[trigger] interleaved_at(planes, k),
                decreases channels - ch,
            {
                proof {
                    vstd::arithmetic::div_mod::lemma_fundamental_div_mod_converse(
                        frame * channels + ch,
                        channels as int,
                        frame as int,
                        ch as int,
                    );
                }
                let sample = packet.planes[ch][frame];
                self.samples.push(sample);
                ch += 1;
            }
            assert(frame * channels + channels == (frame + 1) * channels) by (nonlinear_arith);
            frame += 1;
        }
        assert(self.samples@ =~= before + packet@);
    }

    /// Takes the outcome of decoding a packet. A packet that could not be
    /// decoded fails the decoding under its number; the samples of a decoded
    /// one are appended, and the next packet is to be read.
    pub fn resolve(self, decoded: Option<DecodedPacket<S>>) -> (action: DecodeAction<S>)
        ensures
            match decoded {
                None => action == DecodeAction::<S>::Finish(
                    Err(DecodeError::PacketDecodeFailed(self@.packets)),
                ),
                Some(packet) => match action {
                    DecodeAction::ReadPacket(assembly) => assembly@ == (AssemblyView::<S> {
                        samples: self@.samples + packet@,
                        ..self@
                    }),
                    _ => false,
                },
            },
    {
        match decoded {
            None => DecodeAction::Finish(Err(DecodeError::PacketDecodeFailed(self.packets))),
            Some(packet) => {
                let mut assembly = self;
                assembly.append(&packet);
                DecodeAction::ReadPacket(assembly)
            },
        }
    }
}

} // verus!
