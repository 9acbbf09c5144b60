//! One request to play: the devices it goes through, one after the other.
//!
//! For each device the request asks for the device's configuration, adapts the
//! decoded audio to it, and asks for a stream to be started on the adapted
//! samples. What the host has to do is returned as a [`PlaybackAction`]; the
//! outcome is handed back to the value that the action carries.
//!
//! The first device that fails ends the request. Streams that were started for
//! earlier devices are not taken back: they keep playing.

use crate::channels::interleave_channels;
use crate::channels::remapped;
use crate::decode::DecodedAudio;
use crate::resample::resample;
use crate::resample::resampled;
use crate::stream::stream_format;
use crate::stream::stream_format_of;
use crate::stream::SampleFormat;
use crate::stream::StreamFormat;
use vstd::prelude::*;

verus! {

/// What a device plays natively.
#[derive(Debug, Clone, Copy, PartialEq, Eq, Structural)]
pub struct DeviceConfig {
    pub sample_rate: u32,
    pub channels: u16,
    pub sample_format: SampleFormat,
}

/// The step at which a stream failed to start.
#[derive(Debug, Clone, Copy, PartialEq, Eq, Structural)]
pub enum StartFailure {
    /// The device did not tell its configuration.
    Config,
    /// The stream could not be built.
    Build,
    /// The stream was built and did not start.
    Play,
}

/// Why a request to play failed. Devices are named by their position among
/// the host's devices.
#[derive(Debug, Clone, Copy, PartialEq, Eq, Structural)]
pub enum PlaybackError {
    /// None of the requested ids is that of a device.
    NoMatchingDevice,
    /// The device plays a sample format that no stream is made for.
    UnsupportedSampleFormat(usize),
    /// No stream could be started on the device.
    StreamStart(usize, StartFailure),
}

/// The stream to start on a device.
pub struct StreamRequest<S> {
    /// Position of the device among the host's devices.
    pub device: usize,
    pub sample_rate: u32,
    pub channels: u16,
    pub sample_format: StreamFormat,
    /// The audio at the device's rate and with its channels.
    pub samples: Vec<S>,
}

/// A request that waits for the configuration of its current device.
pub struct PendingConfig<S> {
    audio: DecodedAudio<S>,
    devices: Vec<usize>,
    position: usize,
}

/// A request that waits for the stream on its current device to start.
pub struct PendingStart<S> {
    audio: DecodedAudio<S>,
    devices: Vec<usize>,
    position: usize,
}

/// What the host is asked to do next.
pub enum PlaybackAction<S> {
    /// Ask the current device for its configuration.
    QueryConfig(PendingConfig<S>),
    /// Start this stream on the current device.
    StartStream(PendingStart<S>, StreamRequest<S>),
    /// Nothing: the request has ended with this result.
    Finish(Result<(), PlaybackError>),
}

/// The state of a request: the audio, the devices to play it on, in host
/// order, and the position of the current device among them.
pub ghost struct RequestView<S> {
    pub audio: DecodedAudio<S>,
    pub devices: Seq<nat>,
    pub position: nat,
}

impl<S> RequestView<S> {
    /// The current device, by its position among the host's devices.
    pub open spec fn device(self) -> nat {
        self.devices[self.position as int]
    }

    /// Whether the current device is the last one.
    pub open spec fn at_last(self) -> bool {
        self.position + 1 == self.devices.len()
    }

    /// The request at its next device.
    pub open spec fn advanced(self) -> Self {
        RequestView { position: self.position + 1, ..self }
    }
}

/// Whether audio at `sample_rate` with `channel_count` channels can be adapted
/// to `config`: where the rates differ the audio has a rate to convert from,
/// and where the channels differ it has a channel to take from.
pub open spec fn adaptable(sample_rate: u32, channel_count: u16, config: DeviceConfig) -> bool {
    &&& sample_rate == config.sample_rate || sample_rate > 0
    &&& channel_count == config.channels || channel_count > 0
}

/// The audio as the device plays it: at the device's rate, then with the
/// device's channels.
pub open spec fn adapted<S>(
    samples: Seq<S>,
    sample_rate: u32,
    channel_count: u16,
    config: DeviceConfig,
) -> Seq<S> {
    remapped(
        resampled(samples, sample_rate as nat, config.sample_rate as nat),
        channel_count as nat,
        config.channels as nat,
    )
}

/// Audio that already has the device's rate and channels is played as it is.
pub proof fn adapted_identity<S>(samples: Seq<S>, config: DeviceConfig)
    ensures
        adapted(samples, config.sample_rate, config.channels, config) == samples,
{
}

/// Tells whether `audio` can be adapted to `config`.
pub fn can_adapt<S>(audio: &DecodedAudio<S>, config: &DeviceConfig) -> (ok: bool)
    ensures
        ok == adaptable(audio.sample_rate, audio.channel_count, *config),
{
    (audio.sample_rate == config.sample_rate || audio.sample_rate > 0) && (audio.channel_count
        == config.channels || audio.channel_count > 0)
}

/// Adapts `audio` to `config`: converts it to the device's rate, then remaps
/// it to the device's channels.
pub fn adapt<S: Copy>(audio: &DecodedAudio<S>, config: &DeviceConfig) -> (samples: Vec<S>)
    requires
        adaptable(audio.sample_rate, audio.channel_count, *config),
    ensures
        samples@ == adapted(audio.samples@, audio.sample_rate, audio.channel_count, *config),
{
    let at_rate = resample(audio.samples.as_slice(), audio.sample_rate, config.sample_rate);
    interleave_channels(at_rate.as_slice(), audio.channel_count, config.channels)
}

impl<S> PendingConfig<S> {
    /// The state of the request.
    pub closed spec fn view(&self) -> RequestView<S> {
        RequestView {
            audio: self.audio,
            devices: self.devices@.map_values(|i: usize| i as nat),
            position: self.position as nat,
        }
    }

    /// The current device is one of the request's devices.
    #[verifier::type_invariant]
    spec fn in_range(&self) -> bool {
        self.position < self.devices@.len()
    }

    /// The request at the first of `devices`, or `None` where there is no
    /// device.
    pub fn first(audio: DecodedAudio<S>, devices: Vec<usize>) -> (pending: Option<Self>)
        ensures
            pending is Some <==> devices@.len() > 0,
            match pending {
                Some(p) => p@ == (RequestView {
                    audio,
                    devices: devices@.map_values(|i: usize| i as nat),
                    position: 0,
                }),
                None => true,
            },
    {
        if devices.len() == 0 {
            None
        } else {
            Some(PendingConfig { audio, devices, position: 0 })
        }
    }

    /// The device whose configuration is asked for, by its position among the
    /// host's devices.
    pub fn device(&self) -> (device: usize)
        ensures
            device == self@.device(),
            self@.position < self@.devices.len(),
    {
        proof {
            use_type_invariant(self);
        }
        self.devices[self.position]
    }

    /// The audio that the request plays.
    pub fn audio(&self) -> (audio: &DecodedAudio<S>)
        ensures
            *audio == self@.audio,
    {
        &self.audio
    }
}

impl<S: Copy> PendingConfig<S> {
    /// Takes the configuration of the current device, `None` where the device
    /// did not tell it.
    ///
    /// Without a configuration, or with a sample format that no stream is
    /// made for, the request fails on this device. Otherwise the audio is
    /// adapted and a stream on it is to be started.
    pub fn resolve(self, config: Option<DeviceConfig>) -> (action: PlaybackAction<S>)
        requires
            config is Some && stream_format_of(config->Some_0.sample_format) is Some ==> adaptable(
                self@.audio.sample_rate,
                self@.audio.channel_count,
                config->Some_0,
            ),
        ensures
            match config {
                None => action == PlaybackAction::<S>::Finish(
                    Err(PlaybackError::StreamStart(self@.device() as usize, StartFailure::Config)),
                ),
                Some(c) => match stream_format_of(c.sample_format) {
                    None => action == PlaybackAction::<S>::Finish(
                        Err(PlaybackError::UnsupportedSampleFormat(self@.device() as usize)),
                    ),
                    Some(format) => match action {
                        PlaybackAction::StartStream(pending, request) => {
                            &&& pending@ == self@
                            &&& request.device == self@.device()
                            &&& request.sample_rate == c.sample_rate
                            &&& request.channels == c.channels
                            &&& request.sample_format == format
                            &&& request.samples@ == adapted(
                                self@.audio.samples@,
                                self@.audio.sample_rate,
                                self@.audio.channel_count,
                                c,
                            )
                        },
                        _ => false,
                    },
                },
            },
    {
        proof {
            use_type_invariant(&self);
        }
        let device: usize = self.devices[self.position];
        let config = match config {
            Some(config) => config,
            None => {
                return PlaybackAction::Finish(
                    Err(PlaybackError::StreamStart(device, StartFailure::Config)),
                );
            },
        };
        let sample_format = match stream_format(config.sample_format) {
            Some(sample_format) => sample_format,
            None => {
                return PlaybackAction::Finish(Err(PlaybackError::UnsupportedSampleFormat(device)));
            },
        };
        let samples = adapt(&self.audio, &config);
        PlaybackAction::StartStream(
            PendingStart { audio: self.audio, devices: self.devices, position: self.position },
            StreamRequest {
                device,
                sample_rate: config.sample_rate,
                channels: config.channels,
                sample_format,
                samples,
            },
        )
    }
}

impl<S> PendingStart<S> {
    /// The state of the request.
    pub closed spec fn view(&self) -> RequestView<S> {
        RequestView {
            audio: self.audio,
            devices: self.devices@.map_values(|i: usize| i as nat),
            position: self.position as nat,
        }
    }

    /// The current device is one of the request's devices.
    #[verifier::type_invariant]
    spec fn in_range(&self) -> bool {
        self.position < self.devices@.len()
    }

    /// The device on which the stream is started, by its position among the
    /// host's devices.
    pub fn device(&self) -> (device: usize)
        ensures
            device == self@.device(),
            self@.position < self@.devices.len(),
    {
        proof {
            use_type_invariant(self);
        }
        self.devices[self.position]
    }

    /// Takes the outcome of starting the stream, `None` where it runs.
    ///
    /// A stream that did not start fails the request on this device. After
    /// one that runs the request goes on to the next device, and succeeds
    /// where there is none left.
    pub fn resolve(self, failure: Option<StartFailure>) -> (action: PlaybackAction<S>)
        ensures
            match failure {
                Some(cause) => action == PlaybackAction::<S>::Finish(
                    Err(PlaybackError::StreamStart(self@.device() as usize, cause)),
                ),
                None => if self@.at_last() {
                    action == PlaybackAction::<S>::Finish(Ok(()))
                } else {
                    match action {
                        PlaybackAction::QueryConfig(pending) => pending@ == self@.advanced(),
                        _ => false,
                    }
                },
            },
    {
        proof {
            use_type_invariant(&self);
        }
        match failure {
            Some(cause) => PlaybackAction::Finish(
                Err(PlaybackError::StreamStart(self.devices[self.position], cause)),
            ),
            None => {
                let count: usize = self.devices.len();
                if self.position + 1 == count {
                    PlaybackAction::Finish(Ok(()))
                } else {
                    PlaybackAction::QueryConfig(
                        PendingConfig {
                            audio: self.audio,
                            devices: self.devices,
                            position: self.position + 1,
                        },
                    )
                }
            },
        }
    }
}

} // verus!
