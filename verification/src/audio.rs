//! Audio plumbing the engines need: PCM16 little-endian byte packing and
//! buffer duration arithmetic.

use vstd::prelude::*;

verus! {

/// The sample rate every provider consumes.
pub const TARGET_SAMPLE_RATE: u32 = 16000;

/// The two little-endian bytes of one PCM16 sample.
pub open spec fn spec_sample_le(s: i16) -> Seq<u8> {
    seq![(s as u16) as u8, ((s as u16) >> 8) as u8]
}

/// PCM16 samples packed as little-endian bytes, in order.
pub open spec fn spec_pcm16_bytes(samples: Seq<i16>) -> Seq<u8>
    decreases samples.len(),
{
    if samples.len() == 0 {
        Seq::empty()
    } else {
        spec_pcm16_bytes(samples.drop_last()) + spec_sample_le(samples.last())
    }
}

/// Two bytes for every sample.
pub proof fn lemma_pcm16_bytes_len(samples: Seq<i16>)
    ensures
        spec_pcm16_bytes(samples).len() == 2 * samples.len(),
    decreases samples.len(),
{
    if samples.len() > 0 {
        lemma_pcm16_bytes_len(samples.drop_last());
    }
}

/// Pack PCM16 samples as the little-endian byte stream the sockets carry.
pub fn samples_to_bytes(samples: &[i16]) -> (r: Vec<u8>)
    ensures
        r@ == spec_pcm16_bytes(samples@),
        r@.len() == 2 * samples@.len(),
{
    let n = samples.len();
    let mut out: Vec<u8> = Vec::new();
    for i in 0..n
        invariant
            n == samples@.len(),
            out@ == spec_pcm16_bytes(samples@.subrange(0, i as int)),
    {
        let s = samples[i];
        out.push((s as u16) as u8);
        out.push(((s as u16) >> 8) as u8);
        proof {
            let p = samples@.subrange(0, i + 1);
            assert(p.drop_last() == samples@.subrange(0, i as int));
            assert(p.last() == samples@[i as int]);
            assert(out@ =~= spec_pcm16_bytes(p));
        }
    }
    proof {
        assert(samples@.subrange(0, n as int) == samples@);
        lemma_pcm16_bytes_len(samples@);
    }
    out
}

/// The duration, in milliseconds, of `sample_count` interleaved samples at
/// the given rate and channel count; zero when either parameter is zero.
pub open spec fn spec_duration_ms(sample_count: nat, sample_rate: u32, channels: u16) -> int {
    if sample_rate == 0 || channels == 0 {
        0
    } else {
        (sample_count * 1000) as int / (sample_rate * channels) as int
    }
}

/// Compute the duration of an audio buffer in milliseconds.
pub fn calculate_duration_ms(sample_count: usize, sample_rate: u32, channels: u16) -> (r: u64)
    requires
        sample_count * 1000 <= u64::MAX,
    ensures
        r == spec_duration_ms(sample_count as nat, sample_rate, channels),
{
    if sample_rate == 0 || channels == 0 {
        return 0;
    }
    let total: u64 = (sample_count as u64) * 1000;
    proof {
        assert(sample_rate * channels <= 0xffff_ffffu64 * 0xffffu64 && sample_rate * channels > 0)
            by (nonlinear_arith)
            requires
                0 < sample_rate <= 0xffff_ffffu64,
                0 < channels <= 0xffffu64,
        ;
    }
    let divisor: u64 = (sample_rate as u64) * (channels as u64);
    total / divisor
}

} // verus!
