//! 16-bit linear PCM audio as the bindings hand it to the native SDK.
use vstd::prelude::*;

use crate::error::{DailyError, ErrorKind};

verus! {

/// The sample made of two bytes in the given byte order.
pub open spec fn pcm16_sample(first: u8, second: u8, little_endian: bool) -> i16 {
    if little_endian {
        (first as int + 256 * second as int) as i16
    } else {
        (second as int + 256 * first as int) as i16
    }
}

/// The 16-bit samples held by a byte string: one per pair of bytes; a last
/// odd byte is no sample.
pub open spec fn pcm16_samples(bytes: Seq<u8>, little_endian: bool) -> Seq<i16> {
    Seq::new(
        bytes.len() / 2,
        |i: int| pcm16_sample(bytes[2 * i], bytes[2 * i + 1], little_endian),
    )
}

/// Calls `u16::from_ne_bytes` on the bytes `first`, `second`: the integer
/// they hold in the machine's byte order. The machine is little-endian or
/// big-endian, so the result is one of the two readings; which one is not
/// stated.
#[verifier::external_body]
fn u16_from_ne_bytes(first: u8, second: u8) -> (r: u16)
    ensures
        r == first as int + 256 * second as int || r == second as int + 256 * first as int,
{
    u16::from_ne_bytes([first, second])
}

/// Audio samples laid out as the native SDK reads them: 16-bit integers in
/// the machine's byte order.
pub struct AlignedI16Data {
    samples: Vec<i16>,
}

impl AlignedI16Data {
    pub closed spec fn samples(&self) -> Seq<i16> {
        self.samples@
    }

    /// The samples of a byte string read in the given byte order.
    pub fn from_bytes(src: &[u8], little_endian: bool) -> (r: AlignedI16Data)
        ensures
            r.samples() == pcm16_samples(src@, little_endian),
    {
        let num_words = src.len() / 2;
        let mut samples: Vec<i16> = Vec::new();
        let mut i: usize = 0;
        while i < num_words
            invariant
                num_words == src@.len() / 2,
                src@.len() <= usize::MAX,
                0 <= i <= num_words,
                samples@.len() == i,
                forall|j: int|
                    0 <= j < i ==> samples@[j] == pcm16_sample(src@[2 * j], src@[2 * j + 1], little_endian),
            decreases num_words - i,
        {
            let first = src[2 * i];
            let second = src[2 * i + 1];
            let word: u16 = if little_endian {
                first as u16 + (second as u16) * 256
            } else {
                second as u16 + (first as u16) * 256
            };
            samples.push(#[verifier::truncate] (word as i16));
            i = i + 1;
        }
        let r = AlignedI16Data { samples };
        assert(r.samples() =~= pcm16_samples(src@, little_endian));
        r
    }

    /// The samples of a byte string read in the machine's byte order, in a
    /// buffer of 16-bit integers.
    pub fn new(src: &[u8]) -> (r: AlignedI16Data)
        ensures
            r.samples() == pcm16_samples(src@, true) || r.samples() == pcm16_samples(src@, false),
    {
        let probe = u16_from_ne_bytes(1, 0);
        let little_endian = probe == 1;
        AlignedI16Data::from_bytes(src, little_endian)
    }

    /// The samples, for handing to the native SDK.
    pub fn as_ptr(&self) -> (r: &[i16])
        ensures
            r@ == self.samples(),
    {
        self.samples.as_slice()
    }
}

/// The number of audio frames in a byte string of 16-bit samples over
/// `channels` channels, or the error for a byte string that does not hold
/// whole frames.
pub fn num_audio_frames(num_bytes: usize, channels: u8) -> (r: Result<usize, DailyError>)
    requires
        channels > 0,
    ensures
        match r {
            Ok(n) => (num_bytes as int) % (2 * channels as int) == 0 && n == (num_bytes as int) / 2 / (channels as int),
            Err(e) => (num_bytes as int) % (2 * channels as int) != 0 && e.is(
                ErrorKind::ValueError,
                "frames bytestring should contain 16-bit samples"@,
            ),
        },
{
    let bytes_per_sample: usize = 2;
    if num_bytes % (bytes_per_sample * channels as usize) != 0 {
        return Err(
            DailyError::new(ErrorKind::ValueError, "frames bytestring should contain 16-bit samples"),
        );
    }
    Ok((num_bytes / bytes_per_sample) / channels as usize)
}

/// The number of bytes that `num_frames` frames of 16-bit samples over
/// `channels` channels take.
pub fn audio_frames_bytes(num_frames: usize, channels: u8) -> (r: usize)
    requires
        num_frames * channels * 2 <= usize::MAX,
    ensures
        r == num_frames * channels * 2,
{
    num_frames * channels as usize * 2
}

/// The outcome of writing audio frames: the number written, or the error
/// `message` when the native SDK reports a failure (a negative count).
pub fn frames_written_result(frames_written: i32, message: &str) -> (r: Result<i32, DailyError>)
    ensures
        match r {
            Ok(n) => frames_written >= 0 && n == frames_written,
            Err(e) => frames_written < 0 && e.is(ErrorKind::IOError, message@),
        },
{
    if frames_written >= 0 {
        Ok(frames_written)
    } else {
        Err(DailyError::new(ErrorKind::IOError, message))
    }
}

/// The outcome of reading `requested` frames or samples: all of them (the
/// byte count is returned), none yet (an empty byte string), or the error
/// `message` for any other count that the native SDK reports.
pub fn read_result(requested: usize, num_bytes: usize, done: i32, message: &str) -> (r: Result<usize, DailyError>)
    ensures
        match r {
            Ok(n) => (done == requested as i32 && n == num_bytes) || (done != requested as i32 && done
                == 0 && n == 0),
            Err(e) => done != requested as i32 && done != 0 && e.is(ErrorKind::IOError, message@),
        },
{
    if done == requested as i32 {
        Ok(num_bytes)
    } else if done == 0 {
        Ok(0)
    } else {
        Err(DailyError::new(ErrorKind::IOError, message))
    }
}

/// The outcome of writing `requested` samples: all of them or none yet (the
/// count is returned), or the error `message` for any other count.
pub fn samples_written_result(requested: usize, written: i32, message: &str) -> (r: Result<i32, DailyError>)
    ensures
        match r {
            Ok(n) => (written == requested as i32 || written == 0) && n == written,
            Err(e) => written != requested as i32 && written != 0 && e.is(ErrorKind::IOError, message@),
        },
{
    if written == requested as i32 || written == 0 {
        Ok(written)
    } else {
        Err(DailyError::new(ErrorKind::IOError, message))
    }
}

/// A byte string that holds whole frames is exactly its frame count times
/// the frame size (two bytes per sample, one sample per channel).
pub proof fn lemma_whole_frames(num_bytes: nat, channels: nat)
    requires
        channels > 0,
        num_bytes % (2 * channels) == 0,
    ensures
        num_bytes / 2 / channels * (2 * channels) == num_bytes,
{
    assert(num_bytes / 2 / channels == num_bytes / (2 * channels)) by {
        vstd::arithmetic::div_mod::lemma_div_denominator(num_bytes as int, 2, channels as int);
    }
    vstd::arithmetic::div_mod::lemma_fundamental_div_mod(num_bytes as int, 2 * channels as int);
    vstd::arithmetic::mul::lemma_mul_is_commutative(2 * channels as int, num_bytes as int / (2 * channels as int));
}

/// Reading samples in one byte order gives back the bytes when each sample
/// is written out in that order again.
pub proof fn lemma_samples_round_trip(bytes: Seq<u8>, little_endian: bool, i: int)
    requires
        0 <= i < bytes.len() / 2,
    ensures
        ({
            let v = pcm16_samples(bytes, little_endian)[i] as int;
            let u = if v < 0 { v + 65536 } else { v };
            if little_endian {
                u % 256 == bytes[2 * i] && u / 256 == bytes[2 * i + 1]
            } else {
                u % 256 == bytes[2 * i + 1] && u / 256 == bytes[2 * i]
            }
        }),
{
    let a = bytes[2 * i];
    let b = bytes[2 * i + 1];
    assert(pcm16_samples(bytes, little_endian)[i] == pcm16_sample(a, b, little_endian));
    if little_endian {
        assert(((a as int + 256 * b as int) as i16) as int == if a as int + 256 * b as int >= 32768 { a as int + 256 * b as int - 65536 } else { a as int + 256 * b as int }) by (bit_vector)
            requires
                0 <= a <= 255,
                0 <= b <= 255,
        ;
    } else {
        assert(((b as int + 256 * a as int) as i16) as int == if b as int + 256 * a as int >= 32768 { b as int + 256 * a as int - 65536 } else { b as int + 256 * a as int }) by (bit_vector)
            requires
                0 <= a <= 255,
                0 <= b <= 255,
        ;
    }
}

} // verus!
