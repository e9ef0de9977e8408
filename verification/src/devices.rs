//! Virtual devices, custom media sources and the voice activity detector:
//! their settings and the checks and bookkeeping around each read or write.
//! `H` is the native object that a device wraps and `C` a Python callable.
use vstd::prelude::*;

use crate::audio::{
    audio_frames_bytes, frames_written_result, num_audio_frames, pcm16_samples, read_result,
    samples_written_result, AlignedI16Data,
};
use crate::completion::{next_id, CompletionRegistry};
use crate::error::{DailyError, ErrorKind};
use crate::text::{decimal, decimal_string};
use vstd::string::StringExecFns;

verus! {

/// The color formats of video frames.
#[derive(Clone, Copy, Debug, PartialEq, Eq, Structural)]
pub enum ColorFormat {
    RGBA,
    BGRA,
    ARGB,
    ABGR,
    RGB,
    I420,
}

impl ColorFormat {
    /// Bytes per pixel of the packed formats; I420 is planar and counts 1.
    pub open spec fn spec_bytes_per_pixel(self) -> nat {
        match self {
            ColorFormat::RGBA | ColorFormat::BGRA | ColorFormat::ARGB | ColorFormat::ABGR => 4,
            ColorFormat::RGB => 3,
            ColorFormat::I420 => 1,
        }
    }
}

/// The byte size of a frame: a full-size luma plane and two quarter-size
/// chroma planes for I420, width times height pixels otherwise.
pub open spec fn frame_size(width: u32, height: u32, color_format: ColorFormat) -> int {
    match color_format {
        ColorFormat::I420 => width * height * 3 / 2,
        _ => width * height * color_format.spec_bytes_per_pixel(),
    }
}

/// A frame of `width` by `height` pixels takes four bytes a pixel in each
/// packed format with an alpha channel (RGBA, BGRA, ARGB, ABGR), three in
/// RGB, and in I420 one and a half (a full-size luma plane and two
/// quarter-size chroma planes).
pub proof fn lemma_frame_sizes(width: u32, height: u32)
    ensures
        frame_size(width, height, ColorFormat::RGBA) == width * height * 4,
        frame_size(width, height, ColorFormat::BGRA) == width * height * 4,
        frame_size(width, height, ColorFormat::ARGB) == width * height * 4,
        frame_size(width, height, ColorFormat::ABGR) == width * height * 4,
        frame_size(width, height, ColorFormat::RGB) == width * height * 3,
        frame_size(width, height, ColorFormat::I420) == width * height * 3 / 2,
        ColorFormat::RGBA.spec_bytes_per_pixel() == 4,
        ColorFormat::BGRA.spec_bytes_per_pixel() == 4,
        ColorFormat::ARGB.spec_bytes_per_pixel() == 4,
        ColorFormat::ABGR.spec_bytes_per_pixel() == 4,
        ColorFormat::RGB.spec_bytes_per_pixel() == 3,
{
}

/// The message of the error for a frame of `got` bytes written to a source
/// that takes frames of `expected` bytes of `width` by `height` pixels in the
/// color format printed as `color_format_name`.
pub open spec fn frame_size_mismatch_message(
    expected: nat,
    width: nat,
    height: nat,
    color_format_name: Seq<char>,
    got: nat,
) -> Seq<char> {
    "frame size mismatch: expected "@ + decimal(expected) + " bytes for "@ + decimal(width) + "x"@
        + decimal(height) + " "@ + color_format_name + ", got "@ + decimal(got)
}

/// A virtual camera, to which video frames are written.
pub struct PyVirtualCameraDevice<H> {
    device_name: String,
    width: u32,
    height: u32,
    color_format: ColorFormat,
    camera_device: Option<H>,
}

impl<H> PyVirtualCameraDevice<H> {
    pub closed spec fn spec_name(&self) -> Seq<char> {
        self.device_name@
    }

    pub closed spec fn spec_width(&self) -> u32 {
        self.width
    }

    pub closed spec fn spec_height(&self) -> u32 {
        self.height
    }

    pub closed spec fn spec_color_format(&self) -> ColorFormat {
        self.color_format
    }

    pub closed spec fn device(&self) -> Option<H> {
        self.camera_device
    }

    /// A camera with no native device attached yet.
    pub fn new(device_name: &str, width: u32, height: u32, color_format: ColorFormat) -> (r: Self)
        ensures
            r.spec_name() == device_name@,
            r.spec_width() == width,
            r.spec_height() == height,
            r.spec_color_format() == color_format,
            r.device() is None,
    {
        PyVirtualCameraDevice {
            device_name: device_name.to_owned(),
            width,
            height,
            color_format,
            camera_device: None,
        }
    }

    /// Attaches the native camera.
    pub fn attach_camera_device(&mut self, camera_device: H)
        ensures
            final(self).device() == Some(camera_device),
            final(self).spec_name() == old(self).spec_name(),
            final(self).spec_width() == old(self).spec_width(),
            final(self).spec_height() == old(self).spec_height(),
            final(self).spec_color_format() == old(self).spec_color_format(),
    {
        self.camera_device = Some(camera_device);
    }

    pub fn name(&self) -> (r: String)
        ensures
            r@ == self.spec_name(),
    {
        self.device_name.clone()
    }

    pub fn width(&self) -> (r: u32)
        ensures
            r == self.spec_width(),
    {
        self.width
    }

    pub fn height(&self) -> (r: u32)
        ensures
            r == self.spec_height(),
    {
        self.height
    }

    pub fn color_format(&self) -> (r: ColorFormat)
        ensures
            r == self.spec_color_format(),
    {
        self.color_format
    }

    /// Returns the native camera that a frame is written to, or the error
    /// when none is attached.
    pub fn write_frame(&self) -> (r: Result<&H, DailyError>)
        ensures
            match r {
                Ok(h) => self.device() == Some(*h),
                Err(e) => self.device() is None && e.is(
                    ErrorKind::RuntimeError,
                    "no camera device has been attached"@,
                ),
            },
    {
        match &self.camera_device {
            Some(h) => Ok(h),
            None => Err(DailyError::new(ErrorKind::RuntimeError, "no camera device has been attached")),
        }
    }
}

/// A custom video source, to which video frames of one size and color
/// format are written.
pub struct PyCustomVideoSource<H> {
    video_source: H,
    width: u32,
    height: u32,
    color_format: ColorFormat,
}

impl<H> PyCustomVideoSource<H> {
    pub closed spec fn source(&self) -> H {
        self.video_source
    }

    /// The native video source.
    pub fn video_source(&self) -> (r: &H)
        ensures
            *r == self.source(),
    {
        &self.video_source
    }

    pub closed spec fn spec_width(&self) -> u32 {
        self.width
    }

    pub closed spec fn spec_height(&self) -> u32 {
        self.height
    }

    pub closed spec fn spec_color_format(&self) -> ColorFormat {
        self.color_format
    }

    /// A video source over a native source.
    pub fn new(video_source: H, width: u32, height: u32, color_format: ColorFormat) -> (r: Self)
        ensures
            r.source() == video_source,
            r.spec_width() == width,
            r.spec_height() == height,
            r.spec_color_format() == color_format,
    {
        PyCustomVideoSource { video_source, width, height, color_format }
    }

    pub fn width(&self) -> (r: u32)
        ensures
            r == self.spec_width(),
    {
        self.width
    }

    pub fn height(&self) -> (r: u32)
        ensures
            r == self.spec_height(),
    {
        self.height
    }

    pub fn color_format(&self) -> (r: ColorFormat)
        ensures
            r == self.spec_color_format(),
    {
        self.color_format
    }

    /// Bytes per pixel of the source's color format.
    pub fn bytes_per_pixel(&self) -> (r: usize)
        ensures
            r == self.spec_color_format().spec_bytes_per_pixel(),
    {
        match self.color_format {
            ColorFormat::RGBA | ColorFormat::BGRA | ColorFormat::ARGB | ColorFormat::ABGR => 4,
            ColorFormat::RGB => 3,
            ColorFormat::I420 => 1,
        }
    }

    /// The byte size of the frames this source takes.
    pub fn expected_frame_size(&self) -> (r: usize)
        requires
            self.spec_width() * self.spec_height() * 4 <= usize::MAX,
        ensures
            r == frame_size(self.spec_width(), self.spec_height(), self.spec_color_format()),
    {
        let w = self.width as usize;
        let h = self.height as usize;
        assert(w * h * 4 <= usize::MAX);
        assert(w * h * 3 <= w * h * 4) by (nonlinear_arith);
        match self.color_format {
            ColorFormat::I420 => w * h * 3 / 2,
            _ => {
                let bpp = self.bytes_per_pixel();
                assert(w * h * bpp <= w * h * 4) by (nonlinear_arith)
                    requires
                        bpp <= 4,
                ;
                w * h * bpp
            },
        }
    }

    /// Checks that a frame of `bytes_length` bytes has the size this source
    /// takes; the error names both sizes, the source's dimensions and its
    /// color format as the native SDK prints it (`color_format_name`).
    pub fn write_frame(&self, bytes_length: usize, color_format_name: &str) -> (r: Result<(), DailyError>)
        requires
            self.spec_width() * self.spec_height() * 4 <= usize::MAX,
        ensures
            match r {
                Ok(_) => bytes_length == frame_size(
                    self.spec_width(),
                    self.spec_height(),
                    self.spec_color_format(),
                ),
                Err(e) => {
                    let expected = frame_size(self.spec_width(), self.spec_height(), self.spec_color_format());
                    &&& bytes_length != expected
                    &&& e.is(
                        ErrorKind::ValueError,
                        frame_size_mismatch_message(
                            expected as nat,
                            self.spec_width() as nat,
                            self.spec_height() as nat,
                            color_format_name@,
                            bytes_length as nat,
                        ),
                    )
                },
            },
    {
        let expected_size = self.expected_frame_size();
        if bytes_length != expected_size {
            let mut message = "frame size mismatch: expected ".to_owned();
            message.append(decimal_string(expected_size as u64).as_str());
            message.append(" bytes for ");
            message.append(decimal_string(self.width as u64).as_str());
            message.append("x");
            message.append(decimal_string(self.height as u64).as_str());
            message.append(" ");
            message.append(color_format_name);
            message.append(", got ");
            message.append(decimal_string(bytes_length as u64).as_str());
            Err(DailyError { kind: ErrorKind::ValueError, message })
        } else {
            Ok(())
        }
    }
}

/// Audio frames ready to be written to the native SDK under a request id.
pub struct FramesWrite {
    pub request_id: u64,
    pub num_frames: usize,
    pub samples: AlignedI16Data,
}

/// A virtual microphone, to which audio frames are written.
pub struct PyVirtualMicrophoneDevice<H, C> {
    device_name: String,
    sample_rate: u32,
    channels: u8,
    audio_device: Option<H>,
    completions: CompletionRegistry<C>,
}

impl<H, C> PyVirtualMicrophoneDevice<H, C> {
    pub closed spec fn spec_name(&self) -> Seq<char> {
        self.device_name@
    }

    pub closed spec fn spec_sample_rate(&self) -> u32 {
        self.sample_rate
    }

    pub closed spec fn spec_channels(&self) -> u8 {
        self.channels
    }

    pub closed spec fn device(&self) -> Option<H> {
        self.audio_device
    }

    pub closed spec fn registry(&self) -> CompletionRegistry<C> {
        self.completions
    }

    /// A microphone with no native device attached yet and no request made.
    pub fn new(device_name: &str, sample_rate: u32, channels: u8) -> (r: Self)
        ensures
            r.spec_name() == device_name@,
            r.spec_sample_rate() == sample_rate,
            r.spec_channels() == channels,
            r.device() is None,
            r.registry().next_request_id_spec() == 0,
            r.registry().pending() == Map::<u64, C>::empty(),
    {
        PyVirtualMicrophoneDevice {
            device_name: device_name.to_owned(),
            sample_rate,
            channels,
            audio_device: None,
            completions: CompletionRegistry::new(),
        }
    }

    /// Attaches the native microphone.
    pub fn attach_audio_device(&mut self, audio_device: H)
        ensures
            final(self).device() == Some(audio_device),
            final(self).spec_name() == old(self).spec_name(),
            final(self).spec_sample_rate() == old(self).spec_sample_rate(),
            final(self).spec_channels() == old(self).spec_channels(),
            final(self).registry() == old(self).registry(),
    {
        self.audio_device = Some(audio_device);
    }

    pub fn name(&self) -> (r: String)
        ensures
            r@ == self.spec_name(),
    {
        self.device_name.clone()
    }

    pub fn sample_rate(&self) -> (r: u32)
        ensures
            r == self.spec_sample_rate(),
    {
        self.sample_rate
    }

    pub fn channels(&self) -> (r: u8)
        ensures
            r == self.spec_channels(),
    {
        self.channels
    }

    /// The attached native microphone, if any.
    pub fn audio_device(&self) -> (r: Option<&H>)
        ensures
            match r {
                Some(h) => self.device() == Some(*h),
                None => self.device() is None,
            },
    {
        self.audio_device.as_ref()
    }

    /// Prepares a write of 16-bit frames: the microphone must be attached and
    /// the bytes must hold whole frames. The completion callback, if any, is
    /// registered under the write's request id.
    pub fn write_frames(&mut self, frames: &[u8], completion: Option<C>) -> (r: Result<FramesWrite, DailyError>)
        requires
            old(self).device() is Some ==> old(self).spec_channels() > 0,
        ensures
            final(self).spec_name() == old(self).spec_name(),
            final(self).spec_sample_rate() == old(self).spec_sample_rate(),
            final(self).spec_channels() == old(self).spec_channels(),
            final(self).device() == old(self).device(),
            match r {
                Ok(w) => {
                    let ch = old(self).spec_channels() as int;
                    &&& old(self).device() is Some
                    &&& (frames@.len() as int) % (2 * ch) == 0
                    &&& w.num_frames == (frames@.len() as int) / 2 / ch
                    &&& (w.samples.samples() == pcm16_samples(frames@, true) || w.samples.samples()
                        == pcm16_samples(frames@, false))
                    &&& w.request_id == old(self).registry().next_request_id_spec()
                    &&& final(self).registry().next_request_id_spec() == next_id(w.request_id)
                    &&& final(self).registry().pending() == match completion {
                        Some(c) => old(self).registry().pending().insert(w.request_id, c),
                        None => old(self).registry().pending(),
                    }
                },
                Err(e) => {
                    &&& final(self).registry() == old(self).registry()
                    &&& if old(self).device() is None {
                        e.is(ErrorKind::RuntimeError, "no microphone device has been attached"@)
                    } else {
                        (frames@.len() as int) % (2 * old(self).spec_channels() as int) != 0 && e.is(
                            ErrorKind::ValueError,
                            "frames bytestring should contain 16-bit samples"@,
                        )
                    }
                },
            },
    {
        if self.audio_device.is_none() {
            return Err(DailyError::new(ErrorKind::RuntimeError, "no microphone device has been attached"));
        }
        let num_frames = match num_audio_frames(frames.len(), self.channels) {
            Ok(n) => n,
            Err(e) => return Err(e),
        };
        let samples = AlignedI16Data::new(frames);
        let request_id = self.completions.maybe_register_completion(completion);
        Ok(FramesWrite { request_id, num_frames, samples })
    }

    /// The outcome of a write: the number of frames written, or the error
    /// when the native SDK reports a failure.
    pub fn write_frames_result(frames_written: i32) -> (r: Result<i32, DailyError>)
        ensures
            match r {
                Ok(n) => frames_written >= 0 && n == frames_written,
                Err(e) => frames_written < 0 && e.is(ErrorKind::IOError, "error writing audio frames to device"@),
            },
    {
        frames_written_result(frames_written, "error writing audio frames to device")
    }

    /// Hands back the completion callback of a finished write, if any.
    pub fn on_write_frames(&mut self, request_id: u64) -> (r: Option<C>)
        ensures
            r == old(self).registry().pending().get(request_id),
            final(self).registry().pending() == old(self).registry().pending().remove(request_id),
            final(self).registry().next_request_id_spec() == old(self).registry().next_request_id_spec(),
            final(self).device() == old(self).device(),
            final(self).spec_channels() == old(self).spec_channels(),
    {
        self.completions.remove_completion(request_id)
    }
}

/// A read of audio frames from the native SDK under a request id, into a
/// buffer of `num_bytes` bytes.
pub struct FramesRead {
    pub request_id: u64,
    pub num_bytes: usize,
}

/// A virtual speaker, from which audio frames are read.
pub struct PyVirtualSpeakerDevice<H, C> {
    device_name: String,
    sample_rate: u32,
    channels: u8,
    non_blocking: bool,
    audio_device: Option<H>,
    completions: CompletionRegistry<C>,
}

impl<H, C> PyVirtualSpeakerDevice<H, C> {
    pub closed spec fn spec_name(&self) -> Seq<char> {
        self.device_name@
    }

    pub closed spec fn spec_sample_rate(&self) -> u32 {
        self.sample_rate
    }

    pub closed spec fn spec_channels(&self) -> u8 {
        self.channels
    }

    pub closed spec fn spec_non_blocking(&self) -> bool {
        self.non_blocking
    }

    pub closed spec fn device(&self) -> Option<H> {
        self.audio_device
    }

    pub closed spec fn registry(&self) -> CompletionRegistry<C> {
        self.completions
    }

    /// A speaker with no native device attached yet and no request made.
    pub fn new(device_name: &str, sample_rate: u32, channels: u8, non_blocking: bool) -> (r: Self)
        ensures
            r.spec_name() == device_name@,
            r.spec_sample_rate() == sample_rate,
            r.spec_channels() == channels,
            r.spec_non_blocking() == non_blocking,
            r.device() is None,
            r.registry().next_request_id_spec() == 0,
            r.registry().pending() == Map::<u64, C>::empty(),
    {
        PyVirtualSpeakerDevice {
            device_name: device_name.to_owned(),
            sample_rate,
            channels,
            non_blocking,
            audio_device: None,
            completions: CompletionRegistry::new(),
        }
    }

    /// Attaches the native speaker.
    pub fn attach_audio_device(&mut self, audio_device: H)
        ensures
            final(self).device() == Some(audio_device),
            final(self).spec_name() == old(self).spec_name(),
            final(self).spec_sample_rate() == old(self).spec_sample_rate(),
            final(self).spec_channels() == old(self).spec_channels(),
            final(self).spec_non_blocking() == old(self).spec_non_blocking(),
            final(self).registry() == old(self).registry(),
    {
        self.audio_device = Some(audio_device);
    }

    pub fn name(&self) -> (r: String)
        ensures
            r@ == self.spec_name(),
    {
        self.device_name.clone()
    }

    pub fn sample_rate(&self) -> (r: u32)
        ensures
            r == self.spec_sample_rate(),
    {
        self.sample_rate
    }

    pub fn channels(&self) -> (r: u8)
        ensures
            r == self.spec_channels(),
    {
        self.channels
    }

    /// The attached native speaker, if any.
    pub fn audio_device(&self) -> (r: Option<&H>)
        ensures
            match r {
                Some(h) => self.device() == Some(*h),
                None => self.device() is None,
            },
    {
        self.audio_device.as_ref()
    }

    /// Prepares a read of `num_frames` frames: the speaker must be attached.
    /// A blocking speaker reads into a buffer of the frames' size; a
    /// non-blocking one hands its frames to the completion callback, which is
    /// registered under the read's request id.
    pub fn read_frames(&mut self, num_frames: usize, completion: Option<C>) -> (r: Result<FramesRead, DailyError>)
        requires
            old(self).device() is Some && !old(self).spec_non_blocking() ==> num_frames * old(
                self,
            ).spec_channels() * 2 <= usize::MAX,
        ensures
            final(self).spec_channels() == old(self).spec_channels(),
            final(self).spec_non_blocking() == old(self).spec_non_blocking(),
            final(self).device() == old(self).device(),
            match r {
                Ok(read) => {
                    &&& old(self).device() is Some
                    &&& read.num_bytes == if old(self).spec_non_blocking() {
                        0
                    } else {
                        num_frames * old(self).spec_channels() * 2
                    }
                    &&& read.request_id == old(self).registry().next_request_id_spec()
                    &&& final(self).registry().next_request_id_spec() == next_id(read.request_id)
                    &&& final(self).registry().pending() == match completion {
                        Some(c) => old(self).registry().pending().insert(read.request_id, c),
                        None => old(self).registry().pending(),
                    }
                },
                Err(e) => {
                    &&& old(self).device() is None
                    &&& e.is(ErrorKind::RuntimeError, "no speaker device has been attached"@)
                    &&& final(self).registry() == old(self).registry()
                },
            },
    {
        if self.audio_device.is_none() {
            return Err(DailyError::new(ErrorKind::RuntimeError, "no speaker device has been attached"));
        }
        let num_bytes = if self.non_blocking {
            0
        } else {
            audio_frames_bytes(num_frames, self.channels)
        };
        let request_id = self.completions.maybe_register_completion(completion);
        Ok(FramesRead { request_id, num_bytes })
    }

    /// The outcome of a read of `num_frames` frames into `num_bytes` bytes:
    /// the bytes to hand back (all of them, or none when no frame was read
    /// yet), or the error for any other count that the native SDK reports.
    pub fn read_frames_result(num_frames: usize, num_bytes: usize, frames_read: i32) -> (r: Result<usize, DailyError>)
        ensures
            match r {
                Ok(n) => (frames_read == num_frames as i32 && n == num_bytes) || (frames_read
                    != num_frames as i32 && frames_read == 0 && n == 0),
                Err(e) => frames_read != num_frames as i32 && frames_read != 0 && e.is(
                    ErrorKind::IOError,
                    "error reading audio frames from the device"@,
                ),
            },
    {
        read_result(num_frames, num_bytes, frames_read, "error reading audio frames from the device")
    }

    /// Hands back the completion callback of a finished read, if any, with
    /// the byte size of the `num_frames` frames read.
    pub fn on_read_frames(&mut self, request_id: u64, num_frames: usize) -> (r: Option<(C, usize)>)
        requires
            num_frames * old(self).spec_channels() * 2 <= usize::MAX,
        ensures
            match r {
                Some((c, n)) => {
                    &&& old(self).registry().pending().get(request_id) == Some(c)
                    &&& n == num_frames * old(self).spec_channels() * 2
                },
                None => old(self).registry().pending().get(request_id) is None,
            },
            final(self).registry().pending() == old(self).registry().pending().remove(request_id),
            final(self).registry().next_request_id_spec() == old(self).registry().next_request_id_spec(),
            final(self).spec_channels() == old(self).spec_channels(),
            final(self).device() == old(self).device(),
    {
        match self.completions.remove_completion(request_id) {
            Some(c) => Some((c, audio_frames_bytes(num_frames, self.channels))),
            None => None,
        }
    }
}

/// Audio frames ready to be written to a custom audio source: synchronously,
/// or asynchronously when a completion callback waits for them.
pub struct SourceWrite {
    pub request_id: u64,
    pub num_frames: usize,
    pub samples: AlignedI16Data,
    pub asynchronous: bool,
}

/// A custom audio source, to which 16-bit audio frames are written for an
/// audio track.
pub struct PyCustomAudioSource<H, C> {
    sample_rate: u32,
    channels: u8,
    audio_source: H,
    completions: CompletionRegistry<C>,
}

impl<H, C> PyCustomAudioSource<H, C> {
    pub closed spec fn spec_sample_rate(&self) -> u32 {
        self.sample_rate
    }

    pub closed spec fn spec_channels(&self) -> u8 {
        self.channels
    }

    pub closed spec fn source(&self) -> H {
        self.audio_source
    }

    /// The native audio source.
    pub fn audio_source(&self) -> (r: &H)
        ensures
            *r == self.source(),
    {
        &self.audio_source
    }

    pub closed spec fn registry(&self) -> CompletionRegistry<C> {
        self.completions
    }

    /// A source over a native audio source, with no request made.
    pub fn new(audio_source: H, sample_rate: u32, channels: u8) -> (r: Self)
        ensures
            r.source() == audio_source,
            r.spec_sample_rate() == sample_rate,
            r.spec_channels() == channels,
            r.registry().next_request_id_spec() == 0,
            r.registry().pending() == Map::<u64, C>::empty(),
    {
        PyCustomAudioSource { sample_rate, channels, audio_source, completions: CompletionRegistry::new() }
    }

    pub fn sample_rate(&self) -> (r: u32)
        ensures
            r == self.spec_sample_rate(),
    {
        self.sample_rate
    }

    pub fn channels(&self) -> (r: u8)
        ensures
            r == self.spec_channels(),
    {
        self.channels
    }

    /// Prepares a write of 16-bit frames: the bytes must hold whole frames.
    /// The write gets a request id; with a completion callback it is
    /// asynchronous and the callback waits under that id.
    pub fn write_frames(&mut self, frames: &[u8], completion: Option<C>) -> (r: Result<SourceWrite, DailyError>)
        requires
            old(self).spec_channels() > 0,
        ensures
            final(self).spec_sample_rate() == old(self).spec_sample_rate(),
            final(self).spec_channels() == old(self).spec_channels(),
            final(self).source() == old(self).source(),
            match r {
                Ok(w) => {
                    let ch = old(self).spec_channels() as int;
                    &&& (frames@.len() as int) % (2 * ch) == 0
                    &&& w.num_frames == (frames@.len() as int) / 2 / ch
                    &&& (w.samples.samples() == pcm16_samples(frames@, true) || w.samples.samples()
                        == pcm16_samples(frames@, false))
                    &&& w.asynchronous == completion is Some
                    &&& w.request_id == old(self).registry().next_request_id_spec()
                    &&& final(self).registry().next_request_id_spec() == next_id(w.request_id)
                    &&& final(self).registry().pending() == match completion {
                        Some(c) => old(self).registry().pending().insert(w.request_id, c),
                        None => old(self).registry().pending(),
                    }
                },
                Err(e) => {
                    &&& (frames@.len() as int) % (2 * old(self).spec_channels() as int) != 0
                    &&& e.is(ErrorKind::ValueError, "frames bytestring should contain 16-bit samples"@)
                    &&& final(self).registry() == old(self).registry()
                },
            },
    {
        let num_frames = match num_audio_frames(frames.len(), self.channels) {
            Ok(n) => n,
            Err(e) => return Err(e),
        };
        let samples = AlignedI16Data::new(frames);
        let asynchronous = completion.is_some();
        let request_id = self.completions.maybe_register_completion(completion);
        Ok(SourceWrite { request_id, num_frames, samples, asynchronous })
    }

    /// The outcome of a write: the number of frames written, or the error
    /// when the native SDK reports a failure.
    pub fn write_frames_result(frames_written: i32) -> (r: Result<i32, DailyError>)
        ensures
            match r {
                Ok(n) => frames_written >= 0 && n == frames_written,
                Err(e) => frames_written < 0 && e.is(
                    ErrorKind::IOError,
                    "error writing audio frames to audio source"@,
                ),
            },
    {
        frames_written_result(frames_written, "error writing audio frames to audio source")
    }

    /// Hands back the completion callback of a finished write, if any.
    pub fn on_write_frames(&mut self, request_id: u64) -> (r: Option<C>)
        ensures
            r == old(self).registry().pending().get(request_id),
            final(self).registry().pending() == old(self).registry().pending().remove(request_id),
            final(self).registry().next_request_id_spec() == old(self).registry().next_request_id_spec(),
            final(self).spec_channels() == old(self).spec_channels(),
            final(self).source() == old(self).source(),
    {
        self.completions.remove_completion(request_id)
    }
}

/// Audio frames ready for the voice activity detector.
pub struct VadInput {
    pub num_frames: usize,
    pub samples: AlignedI16Data,
}

/// A voice activity detector that analyzes 10 ms of 16-bit audio at a time.
pub struct PyNativeVad<H> {
    reset_period_ms: u32,
    sample_rate: u32,
    channels: u8,
    webrtc_vad: Option<H>,
}

impl<H> PyNativeVad<H> {
    pub closed spec fn spec_reset_period_ms(&self) -> u32 {
        self.reset_period_ms
    }

    pub closed spec fn spec_sample_rate(&self) -> u32 {
        self.sample_rate
    }

    pub closed spec fn spec_channels(&self) -> u8 {
        self.channels
    }

    pub closed spec fn vad(&self) -> Option<H> {
        self.webrtc_vad
    }

    /// A detector with no native detector attached yet.
    pub fn new(reset_period_ms: u32, sample_rate: u32, channels: u8) -> (r: Self)
        ensures
            r.spec_reset_period_ms() == reset_period_ms,
            r.spec_sample_rate() == sample_rate,
            r.spec_channels() == channels,
            r.vad() is None,
    {
        PyNativeVad { reset_period_ms, sample_rate, channels, webrtc_vad: None }
    }

    /// Attaches the native detector.
    pub fn attach_webrtc_vad(&mut self, webrtc_vad: H)
        ensures
            final(self).vad() == Some(webrtc_vad),
            final(self).spec_reset_period_ms() == old(self).spec_reset_period_ms(),
            final(self).spec_sample_rate() == old(self).spec_sample_rate(),
            final(self).spec_channels() == old(self).spec_channels(),
    {
        self.webrtc_vad = Some(webrtc_vad);
    }

    pub fn reset_period_ms(&self) -> (r: u32)
        ensures
            r == self.spec_reset_period_ms(),
    {
        self.reset_period_ms
    }

    pub fn sample_rate(&self) -> (r: u32)
        ensures
            r == self.spec_sample_rate(),
    {
        self.sample_rate
    }

    pub fn channels(&self) -> (r: u8)
        ensures
            r == self.spec_channels(),
    {
        self.channels
    }

    /// The attached native detector, if any.
    pub fn webrtc_vad(&self) -> (r: Option<&H>)
        ensures
            match r {
                Some(h) => self.vad() == Some(*h),
                None => self.vad() is None,
            },
    {
        self.webrtc_vad.as_ref()
    }

    /// Prepares 16-bit frames for analysis: the bytes must hold whole
    /// samples; the frame count is the sample count over the channels.
    pub fn analyze_frames(&self, frames: &[u8]) -> (r: Result<VadInput, DailyError>)
        requires
            frames@.len() % 2 == 0 ==> self.spec_channels() > 0,
        ensures
            match r {
                Ok(input) => {
                    &&& frames@.len() % 2 == 0
                    &&& input.num_frames == (frames@.len() as int) / 2 / (self.spec_channels() as int)
                    &&& (input.samples.samples() == pcm16_samples(frames@, true)
                        || input.samples.samples() == pcm16_samples(frames@, false))
                },
                Err(e) => frames@.len() % 2 != 0 && e.is(
                    ErrorKind::ValueError,
                    "frames bytestring should contain 16-bit samples"@,
                ),
            },
    {
        let num_bytes = frames.len();
        let bytes_per_sample: usize = 2;
        if num_bytes % bytes_per_sample != 0 {
            return Err(
                DailyError::new(ErrorKind::ValueError, "frames bytestring should contain 16-bit samples"),
            );
        }
        let num_frames = (num_bytes / bytes_per_sample) / self.channels as usize;
        let samples = AlignedI16Data::new(frames);
        Ok(VadInput { num_frames, samples })
    }
}

/// A custom audio device that plays out and records audio samples.
pub struct PyCustomAudioDevice<H> {
    device_name: String,
    play_sample_rate: u32,
    play_channels: u8,
    rec_sample_rate: u32,
    rec_channels: u8,
    audio_device: Option<H>,
}

impl<H> PyCustomAudioDevice<H> {
    pub closed spec fn spec_name(&self) -> Seq<char> {
        self.device_name@
    }

    pub closed spec fn spec_play_channels(&self) -> u8 {
        self.play_channels
    }

    pub closed spec fn device(&self) -> Option<H> {
        self.audio_device
    }

    /// A device with no native device attached yet.
    pub fn new(
        device_name: &str,
        play_sample_rate: u32,
        play_channels: u8,
        rec_sample_rate: u32,
        rec_channels: u8,
    ) -> (r: Self)
        ensures
            r.spec_name() == device_name@,
            r.spec_play_channels() == play_channels,
            r.spec_play_sample_rate() == play_sample_rate,
            r.spec_recording_sample_rate() == rec_sample_rate,
            r.spec_recording_channels() == rec_channels,
            r.device() is None,
    {
        PyCustomAudioDevice {
            device_name: device_name.to_owned(),
            play_sample_rate,
            play_channels,
            rec_sample_rate,
            rec_channels,
            audio_device: None,
        }
    }

    /// Attaches the native device.
    pub fn attach_audio_device(&mut self, audio_device: H)
        ensures
            final(self).device() == Some(audio_device),
            final(self).spec_name() == old(self).spec_name(),
            final(self).spec_play_channels() == old(self).spec_play_channels(),
            final(self).spec_play_sample_rate() == old(self).spec_play_sample_rate(),
            final(self).spec_recording_sample_rate() == old(self).spec_recording_sample_rate(),
            final(self).spec_recording_channels() == old(self).spec_recording_channels(),
    {
        self.audio_device = Some(audio_device);
    }

    pub fn name(&self) -> (r: String)
        ensures
            r@ == self.spec_name(),
    {
        self.device_name.clone()
    }

    pub fn play_sample_rate(&self) -> (r: u32)
        ensures
            r == self.spec_play_sample_rate(),
    {
        self.play_sample_rate
    }

    pub fn play_channels(&self) -> (r: u8)
        ensures
            r == self.spec_play_channels(),
    {
        self.play_channels
    }

    pub fn recording_sample_rate(&self) -> (r: u32)
        ensures
            r == self.spec_recording_sample_rate(),
    {
        self.rec_sample_rate
    }

    pub fn recording_channels(&self) -> (r: u8)
        ensures
            r == self.spec_recording_channels(),
    {
        self.rec_channels
    }

    pub closed spec fn spec_play_sample_rate(&self) -> u32 {
        self.play_sample_rate
    }

    pub closed spec fn spec_recording_sample_rate(&self) -> u32 {
        self.rec_sample_rate
    }

    pub closed spec fn spec_recording_channels(&self) -> u8 {
        self.rec_channels
    }

    /// Prepares a read of `num_samples` samples: the device must be attached;
    /// returns it with the byte size of the samples.
    pub fn read_samples(&self, num_samples: usize) -> (r: Result<(&H, usize), DailyError>)
        requires
            self.device() is Some ==> num_samples * 16 * self.spec_play_channels() <= usize::MAX,
        ensures
            match r {
                Ok((h, n)) => self.device() == Some(*h) && n == num_samples * (16 * self.spec_play_channels()) / 8,
                Err(e) => self.device() is None && e.is(ErrorKind::RuntimeError, "no device has been attached"@),
            },
    {
        match &self.audio_device {
            Some(h) => {
                let bits_per_sample: usize = 16;
                assert(num_samples * (bits_per_sample * self.play_channels as usize) == num_samples * 16
                    * self.play_channels) by (nonlinear_arith)
                    requires
                        bits_per_sample == 16,
                ;
                let num_bytes = num_samples * (bits_per_sample * self.play_channels as usize) / 8;
                Ok((h, num_bytes))
            },
            None => Err(DailyError::new(ErrorKind::RuntimeError, "no device has been attached")),
        }
    }

    /// The outcome of reading `num_samples` samples into `num_bytes` bytes.
    pub fn read_samples_result(num_samples: usize, num_bytes: usize, samples_read: i32) -> (r: Result<usize, DailyError>)
        ensures
            match r {
                Ok(n) => (samples_read == num_samples as i32 && n == num_bytes) || (samples_read
                    != num_samples as i32 && samples_read == 0 && n == 0),
                Err(e) => samples_read != num_samples as i32 && samples_read != 0 && e.is(
                    ErrorKind::IOError,
                    "error writing audio samples to device"@,
                ),
            },
    {
        read_result(num_samples, num_bytes, samples_read, "error writing audio samples to device")
    }

    /// The attached device to write samples to, or the error when none is.
    pub fn write_samples(&self) -> (r: Result<&H, DailyError>)
        ensures
            match r {
                Ok(h) => self.device() == Some(*h),
                Err(e) => self.device() is None && e.is(ErrorKind::RuntimeError, "no device has been attached"@),
            },
    {
        match &self.audio_device {
            Some(h) => Ok(h),
            None => Err(DailyError::new(ErrorKind::RuntimeError, "no device has been attached")),
        }
    }

    /// The outcome of writing `num_samples` samples.
    pub fn write_samples_result(num_samples: usize, samples_written: i32) -> (r: Result<i32, DailyError>)
        ensures
            match r {
                Ok(n) => (samples_written == num_samples as i32 || samples_written == 0) && n
                    == samples_written,
                Err(e) => samples_written != num_samples as i32 && samples_written != 0 && e.is(
                    ErrorKind::IOError,
                    "error writing audio samples to device"@,
                ),
            },
    {
        samples_written_result(num_samples, samples_written, "error writing audio samples to device")
    }
}

/// A custom microphone device to which audio samples are written.
pub struct PyCustomMicrophoneDevice<H> {
    device_name: String,
    sample_rate: u32,
    channels: u8,
    audio_device: Option<H>,
}

impl<H> PyCustomMicrophoneDevice<H> {
    pub closed spec fn spec_name(&self) -> Seq<char> {
        self.device_name@
    }

    pub closed spec fn spec_sample_rate(&self) -> u32 {
        self.sample_rate
    }

    pub closed spec fn spec_channels(&self) -> u8 {
        self.channels
    }

    pub closed spec fn device(&self) -> Option<H> {
        self.audio_device
    }

    /// A device with no native device attached yet.
    pub fn new(device_name: &str, sample_rate: u32, channels: u8) -> (r: Self)
        ensures
            r.spec_name() == device_name@,
            r.spec_sample_rate() == sample_rate,
            r.spec_channels() == channels,
            r.device() is None,
    {
        PyCustomMicrophoneDevice { device_name: device_name.to_owned(), sample_rate, channels, audio_device: None }
    }

    /// Attaches the native device.
    pub fn attach_audio_device(&mut self, audio_device: H)
        ensures
            final(self).device() == Some(audio_device),
            final(self).spec_name() == old(self).spec_name(),
            final(self).spec_sample_rate() == old(self).spec_sample_rate(),
            final(self).spec_channels() == old(self).spec_channels(),
    {
        self.audio_device = Some(audio_device);
    }

    pub fn name(&self) -> (r: String)
        ensures
            r@ == self.spec_name(),
    {
        self.device_name.clone()
    }

    pub fn sample_rate(&self) -> (r: u32)
        ensures
            r == self.spec_sample_rate(),
    {
        self.sample_rate
    }

    pub fn channels(&self) -> (r: u8)
        ensures
            r == self.spec_channels(),
    {
        self.channels
    }

    /// The attached device to write samples to, or the error when none is.
    pub fn write_samples(&self) -> (r: Result<&H, DailyError>)
        ensures
            match r {
                Ok(h) => self.device() == Some(*h),
                Err(e) => self.device() is None && e.is(ErrorKind::RuntimeError, "no device has been attached"@),
            },
    {
        match &self.audio_device {
            Some(h) => Ok(h),
            None => Err(DailyError::new(ErrorKind::RuntimeError, "no device has been attached")),
        }
    }

    /// The outcome of writing `num_samples` samples.
    pub fn write_samples_result(num_samples: usize, samples_written: i32) -> (r: Result<i32, DailyError>)
        ensures
            match r {
                Ok(n) => (samples_written == num_samples as i32 || samples_written == 0) && n
                    == samples_written,
                Err(e) => samples_written != num_samples as i32 && samples_written != 0 && e.is(
                    ErrorKind::IOError,
                    "error writing audio samples to device"@,
                ),
            },
    {
        samples_written_result(num_samples, samples_written, "error writing audio samples to device")
    }
}

} // verus!
