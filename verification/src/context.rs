//! The process-wide SDK context: request ids and the checks made when
//! virtual devices and detectors are created.
use vstd::prelude::*;

use crate::completion::next_id;
use crate::devices::{ColorFormat, PyNativeVad, PyVirtualCameraDevice, PyVirtualMicrophoneDevice, PyVirtualSpeakerDevice};
use crate::error::{DailyError, ErrorKind};

verus! {

/// The process-wide source of request ids shared by all call clients.
pub struct DailyContext {
    request_id: u64,
}

impl DailyContext {
    /// The id that the next request will get.
    pub closed spec fn next_request_id_spec(&self) -> u64 {
        self.request_id
    }

    /// A context whose first request id is 0.
    pub fn new() -> (r: DailyContext)
        ensures
            r.next_request_id_spec() == 0,
    {
        DailyContext { request_id: 0 }
    }

    /// Hands out a request id and advances the counter.
    pub fn next_request_id(&mut self) -> (id: u64)
        ensures
            id == old(self).next_request_id_spec(),
            final(self).next_request_id_spec() == next_id(id),
    {
        let id = self.request_id;
        self.request_id = self.request_id.wrapping_add(1);
        id
    }
}

impl DailyContext {
    /// Creates a virtual camera, unless the color format is not one that the
    /// native SDK knows (`color_format` parsed as `parsed`). Only then is the
    /// native camera created, by `create_native`, and attached.
    pub fn create_camera_device<H, F: FnOnce() -> H>(
        &self,
        device_name: &str,
        width: u32,
        height: u32,
        color_format: &str,
        parsed: Option<ColorFormat>,
        create_native: F,
    ) -> (r: Result<PyVirtualCameraDevice<H>, DailyError>)
        requires
            create_native.requires(()),
        ensures
            match r {
                Ok(d) => {
                    &&& parsed == Some(d.spec_color_format())
                    &&& d.spec_name() == device_name@
                    &&& d.spec_width() == width
                    &&& d.spec_height() == height
                    &&& d.device() matches Some(h) && create_native.ensures((), h)
                },
                Err(e) => parsed is None && e.is(
                    ErrorKind::ValueError,
                    "invalid color format '"@ + color_format@ + "'"@,
                ),
            },
    {
        match parsed {
            Some(format) => {
                let mut device = PyVirtualCameraDevice::new(device_name, width, height, format);
                let camera_device = create_native();
                device.attach_camera_device(camera_device);
                Ok(device)
            },
            None => Err(DailyError::with_value(ErrorKind::ValueError, "invalid color format '", color_format, "'")),
        }
    }

    /// Creates a virtual speaker, with the native speaker that
    /// `create_native` creates attached.
    pub fn create_speaker_device<H, C, F: FnOnce() -> H>(
        &self,
        device_name: &str,
        sample_rate: u32,
        channels: u8,
        non_blocking: bool,
        create_native: F,
    ) -> (r: PyVirtualSpeakerDevice<H, C>)
        requires
            create_native.requires(()),
        ensures
            r.spec_name() == device_name@,
            r.spec_sample_rate() == sample_rate,
            r.spec_channels() == channels,
            r.spec_non_blocking() == non_blocking,
            r.device() matches Some(h) && create_native.ensures((), h),
            r.registry().next_request_id_spec() == 0,
            r.registry().pending() == Map::<u64, C>::empty(),
    {
        let mut device = PyVirtualSpeakerDevice::new(device_name, sample_rate, channels, non_blocking);
        let audio_device = create_native();
        device.attach_audio_device(audio_device);
        device
    }

    /// Creates a virtual microphone, with the native microphone that
    /// `create_native` creates attached.
    pub fn create_microphone_device<H, C, F: FnOnce() -> H>(
        &self,
        device_name: &str,
        sample_rate: u32,
        channels: u8,
        create_native: F,
    ) -> (r: PyVirtualMicrophoneDevice<H, C>)
        requires
            create_native.requires(()),
        ensures
            r.spec_name() == device_name@,
            r.spec_sample_rate() == sample_rate,
            r.spec_channels() == channels,
            r.device() matches Some(h) && create_native.ensures((), h),
            r.registry().next_request_id_spec() == 0,
            r.registry().pending() == Map::<u64, C>::empty(),
    {
        let mut device = PyVirtualMicrophoneDevice::new(device_name, sample_rate, channels);
        let audio_device = create_native();
        device.attach_audio_device(audio_device);
        device
    }

    /// Creates a voice activity detector, with the native detector that
    /// `create_native` creates attached.
    pub fn create_native_vad<H, F: FnOnce() -> H>(
        &self,
        reset_period_ms: u32,
        sample_rate: u32,
        channels: u8,
        create_native: F,
    ) -> (r: PyNativeVad<H>)
        requires
            create_native.requires(()),
        ensures
            r.spec_reset_period_ms() == reset_period_ms,
            r.spec_sample_rate() == sample_rate,
            r.spec_channels() == channels,
            r.vad() matches Some(h) && create_native.ensures((), h),
    {
        let mut vad = PyNativeVad::new(reset_period_ms, sample_rate, channels);
        let webrtc_vad = create_native();
        vad.attach_webrtc_vad(webrtc_vad);
        vad
    }

    /// The outcome of selecting a virtual speaker, given whether the native
    /// SDK selected it.
    pub fn select_speaker_device(&self, selected: bool) -> (r: Result<(), DailyError>)
        ensures
            match r {
                Ok(_) => selected,
                Err(e) => !selected && e.is(ErrorKind::RuntimeError, "unable to select virtual speaker device"@),
            },
    {
        if selected {
            Ok(())
        } else {
            Err(DailyError::new(ErrorKind::RuntimeError, "unable to select virtual speaker device"))
        }
    }
}

} // verus!
