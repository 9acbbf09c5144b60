//! The engine's shared state: one stop switch for every stream.
//!
//! The switch is the only thing that streams and requests share. Stopping
//! raises it and every stream falls silent; a new request to play lowers it
//! again. There is no switch per stream and none per request.

use crate::decode::DecodedAudio;
use crate::device::id_views;
use crate::device::is_listing;
use crate::device::is_requested;
use crate::device::list_devices;
use crate::device::name_views;
use crate::device::nothing_requested_by_no_ids;
use crate::device::nothing_requested_without_match;
use crate::device::requested;
use crate::device::resolve;
use crate::device::AudioOutputDevice;
use crate::device::DeviceQueryError;
use crate::session::PlaybackAction;
use crate::session::PlaybackError;
use crate::session::PendingConfig;
use std::sync::atomic::AtomicBool;
use std::sync::atomic::Ordering;
use std::sync::Arc;
use vstd::prelude::*;

verus! {

/// The state of the playback engine. Clones share the stop switch.
///
/// The switch is memory that the thread of every stream reads while requests
/// write it, so what it holds is true of one moment only. No contract here
/// speaks of it: a function that reads it promises what holds for either
/// answer, and [`crate::stream::StreamCallback::render_with`] says what a
/// stream writes for each.
#[derive(Clone)]
pub struct AudioOutputState {
    stop_flag: Arc<AtomicBool>,
}

impl AudioOutputState {
    /// A new engine, with playback not stopped.
    pub fn new() -> Self {
        Self { stop_flag: Arc::new(AtomicBool::new(false)) }
    }

    /// Silences every stream, of this request and of earlier ones. The streams
    /// keep running and write silence. This never fails.
    pub fn stop_all_playback(&self) -> (r: Result<(), String>)
        ensures
            r is Ok,
    {
        self.stop_flag.store(true, Ordering::Relaxed);
        Ok(())
    }

    /// Lets the streams play again.
    fn resume(&self) {
        self.stop_flag.store(false, Ordering::Relaxed);
    }

    /// Whether playback is stopped at this moment. Another thread may stop or
    /// resume playback before the answer is used.
    pub fn is_stopped(&self) -> bool {
        self.stop_flag.load(Ordering::Relaxed)
    }

    /// Lists the host's output devices in host order, from the name of each
    /// device, `None` where the host could not tell it, and the name of the
    /// host's default device.
    pub fn list_output_devices(
        &self,
        names: &Vec<Option<String>>,
        default_name: &Option<String>,
    ) -> (r: Result<Vec<AudioOutputDevice>, DeviceQueryError>)
        ensures
            is_listing(names@, *default_name, r),
    {
        list_devices(names, default_name)
    }

    /// Starts a request to play `audio` on the devices that `device_ids` asks
    /// for, among the host's devices named `names`.
    ///
    /// Where no device is asked for, the request fails and nothing else
    /// happens: the streams of earlier requests play on. Otherwise earlier
    /// streams are cut off, playback is resumed, and the request goes through
    /// the devices in host order, the first one first.
    pub fn play_audio_to_devices<S: Copy>(
        &self,
        audio: DecodedAudio<S>,
        names: &Vec<Option<String>>,
        device_ids: &Vec<String>,
    ) -> (action: PlaybackAction<S>)
        ensures
            requested(name_views(names@), id_views(device_ids@)).len() == 0 ==> action
                == PlaybackAction::<S>::Finish(Err(PlaybackError::NoMatchingDevice)),
            device_ids@.len() == 0 ==> action == PlaybackAction::<S>::Finish(
                Err(PlaybackError::NoMatchingDevice),
            ),
            (forall|i: int|
                0 <= i < names@.len() ==> !is_requested(
                    #[trigger] name_views(names@)[i],
                    id_views(device_ids@),
                )) ==> action == PlaybackAction::<S>::Finish(Err(PlaybackError::NoMatchingDevice)),
            requested(name_views(names@), id_views(device_ids@)).len() > 0 ==> match action {
                PlaybackAction::QueryConfig(pending) => {
                    &&& pending@.audio == audio
                    &&& pending@.devices == requested(name_views(names@), id_views(device_ids@))
                    &&& pending@.position == 0
                },
                _ => false,
            },
    {
        proof {
            if device_ids@.len() == 0 {
                assert(id_views(device_ids@) =~= Seq::empty());
                nothing_requested_by_no_ids(name_views(names@));
            }
            if forall|i: int|
                0 <= i < names@.len() ==> !is_requested(
                    #[trigger] name_views(names@)[i],
                    id_views(device_ids@),
                ) {
                nothing_requested_without_match(name_views(names@), id_views(device_ids@));
            }
        }
        let devices = resolve(names, device_ids);
        match PendingConfig::first(audio, devices) {
            None => PlaybackAction::Finish(Err(PlaybackError::NoMatchingDevice)),
            Some(pending) => {
                let _ = self.stop_all_playback();
                self.resume();
                PlaybackAction::QueryConfig(pending)
            },
        }
    }
}

impl Default for AudioOutputState {
    fn default() -> Self {
        Self::new()
    }
}

} // verus!
