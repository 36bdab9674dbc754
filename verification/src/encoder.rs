//! WAV encoding of PCM16 buffers. The RIFF container itself is written by
//! the hound crate behind one trusted item; the emptiness gate, parameter
//! handling and error mapping around it are verified.

use vstd::prelude::*;

use crate::audio::TARGET_SAMPLE_RATE;
use crate::types::AudioData;

verus! {

/// A failure while producing WAV bytes.
#[derive(Debug, Clone)]
pub enum EncodingError {
    /// The WAV writer rejected the parameters or the data.
    WavError(String),
    /// An in-memory I/O failure.
    IoError(String),
    /// The buffer holds no samples.
    InvalidAudioData,
}

/// What hound's 16-bit integer PCM writer produces for these samples and
/// parameters: the RIFF/fmt/data container around the little-endian
/// sample data.
pub uninterp spec fn wav_bytes_of(
    samples: Seq<i16>,
    sample_rate: u32,
    channels: u16,
    bits_per_sample: u16,
) -> Seq<u8>;

/// The parameter and size bounds under which hound's writer cannot hit
/// its internal integer arithmetic limits: a positive rate and channel
/// count (its header math divides by both), a byte rate that fits the
/// 32-bit header field, and sample data whose byte count fits the 32-bit
/// length fields.
pub open spec fn spec_wav_params_ok(
    sample_count: nat,
    sample_rate: u32,
    channels: u16,
    bits_per_sample: u16,
) -> bool {
    &&& sample_rate > 0
    &&& channels > 0
    &&& sample_rate * ((bits_per_sample + 7) / 8) * channels <= u32::MAX
    &&& ((bits_per_sample + 7) / 8) * sample_count + 68 <= u32::MAX
}

/// Relies on hound's WavWriter over an in-memory cursor, with integer
/// sample format. The output depends on the arguments alone. The bounds
/// in the requires keep the writer's header arithmetic (byte rate, block
/// align, running data length) inside u32, where it would otherwise
/// divide by zero or overflow. For 16-bit samples on one or two channels
/// the writer uses the plain PCM header: 44 bytes, then two bytes per
/// sample, and — the cursor being infallible and 16-bit samples never too
/// wide — it succeeds whenever the sample count is a whole number of
/// frames.
#[verifier::external_body]
fn hound_encode_i16(
    samples: &[i16],
    sample_rate: u32,
    channels: u16,
    bits_per_sample: u16,
) -> (r: Result<Vec<u8>, String>)
    requires
        spec_wav_params_ok(samples@.len(), sample_rate, channels, bits_per_sample),
    ensures
        r matches Ok(v) ==> v@ == wav_bytes_of(samples@, sample_rate, channels, bits_per_sample),
        bits_per_sample == 16 && channels <= 2 ==> (r matches Ok(v) ==> v@.len() == 44 + 2
            * samples@.len()),
        bits_per_sample == 16 && channels <= 2 && samples@.len() % (channels as nat) == 0 ==> r
            is Ok,
{
    let spec = hound::WavSpec {
        channels,
        sample_rate,
        bits_per_sample,
        sample_format: hound::SampleFormat::Int,
    };
    let mut cursor = std::io::Cursor::new(Vec::new());
    let mut writer = hound::WavWriter::new(&mut cursor, spec).map_err(|e| e.to_string())?;
    for s in samples {
        writer.write_sample(*s).map_err(|e| e.to_string())?;
    }
    writer.finalize().map_err(|e| e.to_string())?;
    Ok(cursor.into_inner())
}

/// WAV encoder for a fixed sample rate, channel count and sample width.
pub struct WavEncoder {
    pub sample_rate: u32,
    pub channels: u16,
    pub bits_per_sample: u16,
}

impl WavEncoder {
    pub fn new(sample_rate: u32, channels: u16, bits_per_sample: u16) -> (r: Self)
        ensures
            r.sample_rate == sample_rate,
            r.channels == channels,
            r.bits_per_sample == bits_per_sample,
    {
        Self { sample_rate, channels, bits_per_sample }
    }

    /// The configuration every provider consumes: 16 kHz, mono, 16-bit.
    pub fn default_config() -> (r: Self)
        ensures
            r.sample_rate == 16000,
            r.channels == 1,
            r.bits_per_sample == 16,
    {
        Self::new(TARGET_SAMPLE_RATE, 1, 16)
    }

    /// Encode an audio buffer; an empty buffer is rejected before any
    /// encoding work, and for the plain 16-bit format on one or two
    /// channels a whole number of frames is owed a result of exactly 44
    /// header bytes plus two bytes per sample.
    pub fn encode(&self, audio: &AudioData) -> (r: Result<Vec<u8>, EncodingError>)
        requires
            spec_wav_params_ok(
                audio.samples@.len(),
                self.sample_rate,
                self.channels,
                self.bits_per_sample,
            ),
        ensures
            audio.samples@.len() == 0 <==> (r matches Err(e) && e is InvalidAudioData),
            r matches Ok(v) ==> v@ == wav_bytes_of(
                audio.samples@,
                self.sample_rate,
                self.channels,
                self.bits_per_sample,
            ),
            self.bits_per_sample == 16 && self.channels <= 2 ==> (r matches Ok(v) ==> v@.len()
                == 44 + 2 * audio.samples@.len()),
            self.bits_per_sample == 16 && self.channels <= 2 && audio.samples@.len() % (
            self.channels as nat) == 0 && audio.samples@.len() > 0 ==> r is Ok,
    {
        if audio.is_empty() {
            return Err(EncodingError::InvalidAudioData);
        }
        match hound_encode_i16(
            audio.samples.as_slice(),
            self.sample_rate,
            self.channels,
            self.bits_per_sample,
        ) {
            Ok(v) => Ok(v),
            Err(msg) => Err(EncodingError::WavError(msg)),
        }
    }

    /// Encode a bare PCM16 sample slice, under the same contract as
    /// `encode`.
    pub fn encode_i16_samples(&self, samples: &[i16]) -> (r: Result<Vec<u8>, EncodingError>)
        requires
            spec_wav_params_ok(
                samples@.len(),
                self.sample_rate,
                self.channels,
                self.bits_per_sample,
            ),
        ensures
            samples@.len() == 0 <==> (r matches Err(e) && e is InvalidAudioData),
            r matches Ok(v) ==> v@ == wav_bytes_of(
                samples@,
                self.sample_rate,
                self.channels,
                self.bits_per_sample,
            ),
            self.bits_per_sample == 16 && self.channels <= 2 ==> (r matches Ok(v) ==> v@.len()
                == 44 + 2 * samples@.len()),
            self.bits_per_sample == 16 && self.channels <= 2 && samples@.len() % (
            self.channels as nat) == 0 && samples@.len() > 0 ==> r is Ok,
    {
        if samples.len() == 0 {
            return Err(EncodingError::InvalidAudioData);
        }
        match hound_encode_i16(samples, self.sample_rate, self.channels, self.bits_per_sample) {
            Ok(v) => Ok(v),
            Err(msg) => Err(EncodingError::WavError(msg)),
        }
    }
}

/// Encode an audio buffer with its own rate and channel count, 16-bit.
pub fn encode_to_wav(audio: &AudioData) -> (r: Result<Vec<u8>, EncodingError>)
    requires
        spec_wav_params_ok(audio.samples@.len(), audio.sample_rate, audio.channels, 16),
    ensures
        audio.samples@.len() == 0 <==> (r matches Err(e) && e is InvalidAudioData),
        r matches Ok(v) ==> v@ == wav_bytes_of(audio.samples@, audio.sample_rate, audio.channels, 16),
        audio.channels <= 2 ==> (r matches Ok(v) ==> v@.len() == 44 + 2 * audio.samples@.len()),
        audio.channels <= 2 && audio.samples@.len() % (audio.channels as nat) == 0
            && audio.samples@.len() > 0 ==> r is Ok,
{
    let encoder = WavEncoder::new(audio.sample_rate, audio.channels, 16);
    encoder.encode(audio)
}

/// Encode a PCM16 sample slice at the given rate and channel count.
pub fn encode_i16_to_wav(samples: &[i16], sample_rate: u32, channels: u16) -> (r: Result<
    Vec<u8>,
    EncodingError,
>)
    requires
        spec_wav_params_ok(samples@.len(), sample_rate, channels, 16),
    ensures
        samples@.len() == 0 <==> (r matches Err(e) && e is InvalidAudioData),
        r matches Ok(v) ==> v@ == wav_bytes_of(samples@, sample_rate, channels, 16),
        channels <= 2 ==> (r matches Ok(v) ==> v@.len() == 44 + 2 * samples@.len()),
        channels <= 2 && samples@.len() % (channels as nat) == 0 && samples@.len() > 0 ==> r is Ok,
{
    let encoder = WavEncoder::new(sample_rate, channels, 16);
    encoder.encode_i16_samples(samples)
}

} // verus!
