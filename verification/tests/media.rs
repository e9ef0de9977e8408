use daily::audio::{num_audio_frames, AlignedI16Data};
use daily::context::DailyContext;
use daily::devices::{
    ColorFormat, PyCustomAudioDevice, PyCustomAudioSource, PyCustomMicrophoneDevice,
    PyCustomVideoSource, PyNativeVad, PyVirtualCameraDevice, PyVirtualMicrophoneDevice,
    PyVirtualSpeakerDevice,
};
use daily::error::ErrorKind;

#[test]
fn aligned_samples_follow_machine_byte_order() {
    let bytes = [1u8, 0, 0xff, 0xff, 0x00, 0x80, 7];
    let data = AlignedI16Data::new(&bytes);
    let expected: Vec<i16> = vec![
        i16::from_ne_bytes([1, 0]),
        i16::from_ne_bytes([0xff, 0xff]),
        i16::from_ne_bytes([0x00, 0x80]),
    ];
    assert_eq!(data.as_ptr(), expected.as_slice());
}

#[test]
fn samples_in_a_given_byte_order() {
    let bytes = [0x34u8, 0x12, 0x00, 0x80];
    assert_eq!(AlignedI16Data::from_bytes(&bytes, true).as_ptr(), &[0x1234i16, i16::MIN][..]);
    assert_eq!(AlignedI16Data::from_bytes(&bytes, false).as_ptr(), &[0x3412i16, 0x0080][..]);
}

#[test]
fn frame_counts() {
    assert_eq!(num_audio_frames(640, 1).unwrap(), 320);
    assert_eq!(num_audio_frames(640, 2).unwrap(), 160);
    let e = num_audio_frames(642, 2).unwrap_err();
    assert_eq!(e.kind, ErrorKind::ValueError);
    assert_eq!(e.message, "frames bytestring should contain 16-bit samples");
}

#[test]
fn microphone_needs_a_device_and_whole_frames() {
    let ctx = DailyContext::new();
    let mut mic: PyVirtualMicrophoneDevice<u8, &str> = PyVirtualMicrophoneDevice::new("mic", 16000, 2);
    let created: PyVirtualMicrophoneDevice<u8, &str> = ctx.create_microphone_device("mic", 16000, 2, || 3);
    assert_eq!(created.audio_device(), Some(&3));
    assert_eq!(mic.name(), "mic");
    assert_eq!((mic.sample_rate(), mic.channels()), (16000, 2));
    let e = mic.write_frames(&[0, 0, 0, 0], None).err().unwrap();
    assert_eq!(e.message, "no microphone device has been attached");
    mic.attach_audio_device(9);
    let e = mic.write_frames(&[0, 0], None).err().unwrap();
    assert_eq!(e.kind, ErrorKind::ValueError);
    let w = mic.write_frames(&[1, 0, 2, 0, 3, 0, 4, 0], Some("done")).ok().unwrap();
    assert_eq!((w.request_id, w.num_frames), (0, 2));
    assert_eq!(w.samples.as_ptr().len(), 4);
    let w2 = mic.write_frames(&[1, 0, 2, 0], None).ok().unwrap();
    assert_eq!(w2.request_id, 1);
    assert_eq!(mic.on_write_frames(1), None);
    assert_eq!(mic.on_write_frames(0), Some("done"));
    assert_eq!(mic.on_write_frames(0), None);
    assert_eq!(PyVirtualMicrophoneDevice::<u8, &str>::write_frames_result(2).unwrap(), 2);
    let e = PyVirtualMicrophoneDevice::<u8, &str>::write_frames_result(-1).unwrap_err();
    assert_eq!(e.kind, ErrorKind::IOError);
    assert_eq!(e.message, "error writing audio frames to device");
}

#[test]
fn speaker_read_sizes() {
    let ctx = DailyContext::new();
    let mut blocking: PyVirtualSpeakerDevice<u8, &str> = PyVirtualSpeakerDevice::new("spk", 16000, 2, false);
    let e = blocking.read_frames(160, None).err().unwrap();
    assert_eq!(e.message, "no speaker device has been attached");
    blocking.attach_audio_device(1);
    let r = blocking.read_frames(160, None).ok().unwrap();
    assert_eq!((r.request_id, r.num_bytes), (0, 640));
    let mut non_blocking: PyVirtualSpeakerDevice<u8, &str> = ctx.create_speaker_device("spk2", 16000, 1, true, || 2);
    assert_eq!(non_blocking.audio_device(), Some(&2));
    let r = non_blocking.read_frames(160, Some("cb")).ok().unwrap();
    assert_eq!((r.request_id, r.num_bytes), (0, 0));
    assert_eq!(non_blocking.on_read_frames(0, 160), Some(("cb", 320)));
    assert_eq!(non_blocking.on_read_frames(0, 160), None);
}

#[test]
fn speaker_read_outcomes() {
    type S = PyVirtualSpeakerDevice<u8, u8>;
    assert_eq!(S::read_frames_result(160, 640, 160).unwrap(), 640);
    assert_eq!(S::read_frames_result(160, 640, 0).unwrap(), 0);
    let e = S::read_frames_result(160, 640, 80).unwrap_err();
    assert_eq!(e.message, "error reading audio frames from the device");
}

#[test]
fn custom_audio_source_writes() {
    let mut src: PyCustomAudioSource<u8, &str> = PyCustomAudioSource::new(3, 48000, 1);
    assert_eq!((src.sample_rate(), src.channels(), *src.audio_source()), (48000, 1, 3));
    let w = src.write_frames(&[0, 0, 0, 0], None).ok().unwrap();
    assert!(!w.asynchronous);
    assert_eq!((w.request_id, w.num_frames), (0, 2));
    let w = src.write_frames(&[0, 0], Some("cb")).ok().unwrap();
    assert!(w.asynchronous);
    assert_eq!(src.on_write_frames(w.request_id), Some("cb"));
    assert!(src.write_frames(&[0], None).is_err());
    let e = PyCustomAudioSource::<u8, &str>::write_frames_result(-3).unwrap_err();
    assert_eq!(e.message, "error writing audio frames to audio source");
}

#[test]
fn vad_frames() {
    let ctx = DailyContext::new();
    let created: PyNativeVad<u8> = ctx.create_native_vad(1000, 16000, 2, || 8);
    assert_eq!(created.webrtc_vad(), Some(&8));
    let mut vad: PyNativeVad<u8> = PyNativeVad::new(1000, 16000, 2);
    assert_eq!((vad.reset_period_ms(), vad.sample_rate(), vad.channels()), (1000, 16000, 2));
    assert!(vad.webrtc_vad().is_none());
    vad.attach_webrtc_vad(4);
    let input = vad.analyze_frames(&[0u8; 640]).ok().unwrap();
    assert_eq!(input.num_frames, 160);
    let e = vad.analyze_frames(&[0u8; 3]).err().unwrap();
    assert_eq!(e.message, "frames bytestring should contain 16-bit samples");
}

#[test]
fn camera_devices() {
    let ctx = DailyContext::new();
    let mut created = false;
    let e = ctx
        .create_camera_device::<u8, _>("cam", 640, 480, "NOPE", None, || {
            created = true;
            5
        })
        .err()
        .unwrap();
    assert!(!created);
    assert_eq!(e.kind, ErrorKind::ValueError);
    assert_eq!(e.message, "invalid color format 'NOPE'");
    let attached: PyVirtualCameraDevice<u8> = ctx.create_camera_device("cam", 640, 480, "RGB", Some(ColorFormat::RGB), || 6).ok().unwrap();
    assert_eq!(*attached.write_frame().unwrap(), 6);
    let mut cam: PyVirtualCameraDevice<u8> = PyVirtualCameraDevice::new("cam", 640, 480, ColorFormat::RGB);
    assert_eq!((cam.name(), cam.width(), cam.height(), cam.color_format()), ("cam".to_string(), 640, 480, ColorFormat::RGB));
    assert_eq!(cam.write_frame().unwrap_err().message, "no camera device has been attached");
    cam.attach_camera_device(5);
    assert_eq!(*cam.write_frame().unwrap(), 5);
}

#[test]
fn selecting_speakers() {
    let ctx = DailyContext::new();
    assert!(ctx.select_speaker_device(true).is_ok());
    assert_eq!(ctx.select_speaker_device(false).unwrap_err().message, "unable to select virtual speaker device");
}

#[test]
fn video_frame_sizes() {
    let rgba = PyCustomVideoSource::new(0u8, 4, 2, ColorFormat::RGBA);
    assert_eq!(rgba.expected_frame_size(), 32);
    assert_eq!(rgba.bytes_per_pixel(), 4);
    let rgb = PyCustomVideoSource::new(0u8, 4, 2, ColorFormat::RGB);
    assert_eq!(rgb.expected_frame_size(), 24);
    let i420 = PyCustomVideoSource::new(0u8, 4, 2, ColorFormat::I420);
    assert_eq!(i420.expected_frame_size(), 12);
    assert!(i420.write_frame(12, "I420").is_ok());
    let e = i420.write_frame(13, "I420").unwrap_err();
    assert_eq!(e.kind, ErrorKind::ValueError);
    assert_eq!(e.message, "frame size mismatch: expected 12 bytes for 4x2 I420, got 13");
    let square = PyCustomVideoSource::new(0u8, 2, 2, ColorFormat::RGBA);
    let e = square.write_frame(15, "RGBA").unwrap_err();
    assert_eq!(e.message, "frame size mismatch: expected 16 bytes for 2x2 RGBA, got 15");
    assert!(square.write_frame(16, "RGBA").is_ok());
    let big = PyCustomVideoSource::new(0u8, 1920, 1080, ColorFormat::RGB);
    let e = big.write_frame(0, "RGB").unwrap_err();
    assert_eq!(e.message, "frame size mismatch: expected 6220800 bytes for 1920x1080 RGB, got 0");
    assert_eq!((i420.width(), i420.height(), i420.color_format(), *i420.video_source()), (4, 2, ColorFormat::I420, 0));
}

#[test]
fn custom_devices() {
    let mut dev: PyCustomAudioDevice<u8> = PyCustomAudioDevice::new("dev", 16000, 2, 48000, 1);
    assert_eq!(dev.read_samples(160).unwrap_err().message, "no device has been attached");
    dev.attach_audio_device(1);
    assert_eq!(dev.read_samples(160).unwrap().1, 640);
    assert_eq!((dev.name(), dev.play_sample_rate(), dev.play_channels(), dev.recording_sample_rate(), dev.recording_channels()), ("dev".to_string(), 16000, 2, 48000, 1));
    assert_eq!(PyCustomAudioDevice::<u8>::read_samples_result(160, 640, 160).unwrap(), 640);
    assert_eq!(PyCustomAudioDevice::<u8>::read_samples_result(160, 640, 0).unwrap(), 0);
    assert_eq!(PyCustomAudioDevice::<u8>::read_samples_result(160, 640, 5).unwrap_err().message, "error writing audio samples to device");
    assert_eq!(PyCustomAudioDevice::<u8>::write_samples_result(160, 0).unwrap(), 0);
    assert!(PyCustomAudioDevice::<u8>::write_samples_result(160, 3).is_err());
    assert!(dev.write_samples().is_ok());
    let mut mic: PyCustomMicrophoneDevice<u8> = PyCustomMicrophoneDevice::new("m", 16000, 1);
    assert!(mic.write_samples().is_err());
    mic.attach_audio_device(2);
    assert_eq!(*mic.write_samples().unwrap(), 2);
    assert_eq!(PyCustomMicrophoneDevice::<u8>::write_samples_result(160, 160).unwrap(), 160);
    assert_eq!((mic.name(), mic.sample_rate(), mic.channels()), ("m".to_string(), 16000, 1));
}
