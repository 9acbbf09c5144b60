use audio_output::decode::DecodedAudio;
use audio_output::engine::AudioOutputState;
use audio_output::session::adapt;
use audio_output::session::can_adapt;
use audio_output::session::DeviceConfig;
use audio_output::session::PlaybackAction;
use audio_output::session::PlaybackError;
use audio_output::session::StartFailure;
use audio_output::stream::SampleFormat;
use audio_output::stream::stream_format;
use audio_output::stream::StreamCallback;
use audio_output::stream::StreamFormat;

fn host() -> Vec<Option<String>> {
    vec![
        Some("Built-in Output".to_string()),
        None,
        Some("USB Audio".to_string()),
        Some("HDMI".to_string()),
    ]
}

fn ids(list: &[&str]) -> Vec<String> {
    list.iter().map(|s| s.to_string()).collect()
}

fn audio() -> DecodedAudio<f32> {
    DecodedAudio { samples: vec![0.1, 0.2, 0.3, 0.4], sample_rate: 2, channel_count: 1 }
}

fn config(sample_rate: u32, channels: u16, sample_format: SampleFormat) -> DeviceConfig {
    DeviceConfig { sample_rate, channels, sample_format }
}

#[test]
fn a_request_without_ids_matches_no_device() {
    let engine = AudioOutputState::new();
    let action = engine.play_audio_to_devices(audio(), &host(), &Vec::new());
    assert!(matches!(
        action,
        PlaybackAction::Finish(Err(PlaybackError::NoMatchingDevice))
    ));
}

#[test]
fn a_request_for_unknown_ids_matches_no_device() {
    let engine = AudioOutputState::new();
    let wanted = ids(&["device_bluetooth", "Built-in Output", "device_"]);
    let action = engine.play_audio_to_devices(audio(), &host(), &wanted);
    assert!(matches!(
        action,
        PlaybackAction::Finish(Err(PlaybackError::NoMatchingDevice))
    ));
    let action = engine.play_audio_to_devices(audio(), &Vec::new(), &ids(&["device_hdmi"]));
    assert!(matches!(
        action,
        PlaybackAction::Finish(Err(PlaybackError::NoMatchingDevice))
    ));
}

#[test]
fn a_request_without_a_match_leaves_the_stop_switch() {
    let engine = AudioOutputState::new();
    engine.stop_all_playback().unwrap();
    let action = engine.play_audio_to_devices(audio(), &host(), &Vec::new());
    assert!(matches!(action, PlaybackAction::Finish(Err(_))));
    assert!(engine.is_stopped());
}

#[test]
fn a_new_request_resumes_playback() {
    let engine = AudioOutputState::new();
    let mut earlier = StreamCallback::new(vec![1, 2, 3, 4], 0, &engine);
    engine.stop_all_playback().unwrap();
    let mut out = [9; 2];
    earlier.render(&mut out);
    assert_eq!(out, [0, 0]);

    let action = engine.play_audio_to_devices(audio(), &host(), &ids(&["device_hdmi"]));
    assert!(matches!(action, PlaybackAction::QueryConfig(_)));
    assert!(!engine.is_stopped());
    earlier.render(&mut out);
    assert_eq!(out, [1, 2]);
}

#[test]
fn a_request_goes_through_its_devices_in_host_order() {
    let engine = AudioOutputState::new();
    let wanted = ids(&["device_hdmi", "device_built-in_output"]);
    let first = match engine.play_audio_to_devices(audio(), &host(), &wanted) {
        PlaybackAction::QueryConfig(pending) => pending,
        _ => panic!("two devices match"),
    };
    assert_eq!(first.device(), 0);
    assert_eq!(first.audio().samples, audio().samples);

    let same = config(2, 1, SampleFormat::F32);
    let (started, request) = match first.resolve(Some(same)) {
        PlaybackAction::StartStream(pending, request) => (pending, request),
        _ => panic!("the device is supported"),
    };
    assert_eq!(started.device(), 0);
    assert_eq!(request.device, 0);
    assert_eq!(request.sample_rate, 2);
    assert_eq!(request.channels, 1);
    assert_eq!(request.sample_format, StreamFormat::F32);
    assert_eq!(request.samples, vec![0.1, 0.2, 0.3, 0.4]);

    let second = match started.resolve(None) {
        PlaybackAction::QueryConfig(pending) => pending,
        _ => panic!("a second device is left"),
    };
    assert_eq!(second.device(), 3);

    let other = config(4, 2, SampleFormat::I16);
    let (started, request) = match second.resolve(Some(other)) {
        PlaybackAction::StartStream(pending, request) => (pending, request),
        _ => panic!("the device is supported"),
    };
    assert_eq!(request.device, 3);
    assert_eq!(request.sample_rate, 4);
    assert_eq!(request.channels, 2);
    assert_eq!(request.sample_format, StreamFormat::I16);
    assert_eq!(
        request.samples,
        vec![0.1, 0.1, 0.1, 0.1, 0.2, 0.2, 0.2, 0.2, 0.3, 0.3, 0.3, 0.3, 0.4, 0.4, 0.4, 0.4]
    );
    assert!(matches!(started.resolve(None), PlaybackAction::Finish(Ok(()))));
}

#[test]
fn an_unsupported_sample_format_needs_no_adapting() {
    let engine = AudioOutputState::new();
    let silent = DecodedAudio { samples: vec![0.5f32; 4], sample_rate: 0, channel_count: 0 };
    let first = match engine.play_audio_to_devices(silent, &host(), &ids(&["device_hdmi"])) {
        PlaybackAction::QueryConfig(pending) => pending,
        _ => panic!("a device matches"),
    };
    assert!(matches!(
        first.resolve(Some(config(48000, 2, SampleFormat::I32))),
        PlaybackAction::Finish(Err(PlaybackError::UnsupportedSampleFormat(3)))
    ));
}

#[test]
fn an_unsupported_sample_format_fails_the_request() {
    let engine = AudioOutputState::new();
    let first = match engine.play_audio_to_devices(audio(), &host(), &ids(&["device_usb_audio"])) {
        PlaybackAction::QueryConfig(pending) => pending,
        _ => panic!("a device matches"),
    };
    let action = first.resolve(Some(config(48000, 2, SampleFormat::I32)));
    assert!(matches!(
        action,
        PlaybackAction::Finish(Err(PlaybackError::UnsupportedSampleFormat(2)))
    ));
}

#[test]
fn each_supported_sample_format_gets_a_stream() {
    let supported = [
        (SampleFormat::F32, StreamFormat::F32),
        (SampleFormat::I16, StreamFormat::I16),
        (SampleFormat::U16, StreamFormat::U16),
    ];
    for (format, expected) in supported {
        assert_eq!(stream_format(format), Some(expected));
        let engine = AudioOutputState::new();
        let first = match engine.play_audio_to_devices(audio(), &host(), &ids(&["device_hdmi"])) {
            PlaybackAction::QueryConfig(pending) => pending,
            _ => panic!("a device matches"),
        };
        match first.resolve(Some(config(2, 1, format))) {
            PlaybackAction::StartStream(_, request) => assert_eq!(request.sample_format, expected),
            _ => panic!("the format is supported"),
        }
    }
}

#[test]
fn every_other_sample_format_fails_the_request() {
    let others = [
        SampleFormat::I8,
        SampleFormat::I32,
        SampleFormat::I64,
        SampleFormat::U8,
        SampleFormat::U32,
        SampleFormat::U64,
        SampleFormat::F64,
        SampleFormat::Other,
    ];
    for format in others {
        assert_eq!(stream_format(format), None);
        let engine = AudioOutputState::new();
        let first = match engine.play_audio_to_devices(audio(), &host(), &ids(&["device_hdmi"])) {
            PlaybackAction::QueryConfig(pending) => pending,
            _ => panic!("a device matches"),
        };
        assert!(matches!(
            first.resolve(Some(config(2, 1, format))),
            PlaybackAction::Finish(Err(PlaybackError::UnsupportedSampleFormat(3)))
        ));
    }
}

#[test]
fn a_device_without_configuration_fails_the_request() {
    let engine = AudioOutputState::new();
    let first = match engine.play_audio_to_devices(audio(), &host(), &ids(&["device_hdmi"])) {
        PlaybackAction::QueryConfig(pending) => pending,
        _ => panic!("a device matches"),
    };
    assert!(matches!(
        first.resolve(None),
        PlaybackAction::Finish(Err(PlaybackError::StreamStart(3, StartFailure::Config)))
    ));
}

#[test]
fn a_stream_that_does_not_start_fails_the_request() {
    for cause in [StartFailure::Build, StartFailure::Play] {
        let engine = AudioOutputState::new();
        let wanted = ids(&["device_built-in_output", "device_usb_audio"]);
        let first = match engine.play_audio_to_devices(audio(), &host(), &wanted) {
            PlaybackAction::QueryConfig(pending) => pending,
            _ => panic!("two devices match"),
        };
        let started = match first.resolve(Some(config(2, 1, SampleFormat::U16))) {
            PlaybackAction::StartStream(pending, _) => pending,
            _ => panic!("the device is supported"),
        };
        match started.resolve(Some(cause)) {
            PlaybackAction::Finish(Err(e)) => assert_eq!(e, PlaybackError::StreamStart(0, cause)),
            _ => panic!("the request ends on the first failure"),
        }
    }
}

#[test]
fn a_failure_on_a_later_device_names_that_device() {
    let engine = AudioOutputState::new();
    let wanted = ids(&["device_built-in_output", "device_usb_audio"]);
    let first = match engine.play_audio_to_devices(audio(), &host(), &wanted) {
        PlaybackAction::QueryConfig(pending) => pending,
        _ => panic!("two devices match"),
    };
    let started = match first.resolve(Some(config(2, 1, SampleFormat::F32))) {
        PlaybackAction::StartStream(pending, _) => pending,
        _ => panic!("the device is supported"),
    };
    let second = match started.resolve(None) {
        PlaybackAction::QueryConfig(pending) => pending,
        _ => panic!("a second device is left"),
    };
    assert!(matches!(
        second.resolve(Some(config(2, 1, SampleFormat::F64))),
        PlaybackAction::Finish(Err(PlaybackError::UnsupportedSampleFormat(2)))
    ));
}

#[test]
fn adapting_converts_the_rate_and_then_the_channels() {
    let stereo = DecodedAudio { samples: vec![1, 2, 3, 4, 5, 6], sample_rate: 3, channel_count: 2 };
    // 6 * 2 / 3 = 4 samples: sources 0, 1, 3, 4; then two frames of two to three channels.
    assert_eq!(adapt(&stereo, &config(2, 3, SampleFormat::I16)), vec![1, 2, 2, 4, 5, 5]);
    assert_eq!(adapt(&stereo, &config(3, 2, SampleFormat::I16)), vec![1, 2, 3, 4, 5, 6]);
    assert_eq!(adapt(&stereo, &config(3, 1, SampleFormat::I16)), vec![1, 3, 5]);
    assert_eq!(adapt(&stereo, &config(6, 2, SampleFormat::I16)), vec![1, 1, 2, 2, 3, 3, 4, 4, 5, 5, 6, 6]);
}

#[test]
fn audio_without_a_rate_or_channels_adapts_only_to_the_same() {
    let no_rate = DecodedAudio { samples: vec![1, 2], sample_rate: 0, channel_count: 1 };
    assert!(can_adapt(&no_rate, &config(0, 1, SampleFormat::F32)));
    assert!(can_adapt(&no_rate, &config(0, 2, SampleFormat::F32)));
    assert!(!can_adapt(&no_rate, &config(44100, 1, SampleFormat::F32)));
    let no_channels = DecodedAudio { samples: vec![1, 2], sample_rate: 8000, channel_count: 0 };
    assert!(can_adapt(&no_channels, &config(8000, 0, SampleFormat::F32)));
    assert!(can_adapt(&no_channels, &config(16000, 0, SampleFormat::F32)));
    assert!(!can_adapt(&no_channels, &config(8000, 2, SampleFormat::F32)));
    assert!(can_adapt(&audio(), &config(48000, 8, SampleFormat::F32)));
    assert!(can_adapt(&audio(), &config(0, 0, SampleFormat::F32)));
}
