//! Sample codecs: the interface every codec offers and the linear PCM codec.
//!
//! PCM carries each sample as a signed 16-bit number, low byte first.

use crate::config::AudioConfig;
use crate::wire::{i16_from_le, i16_le_bytes, lemma_i16_le_roundtrip, read_i16_le, write_i16_le};
use vstd::prelude::*;
use vstd::slice::slice_subrange;

verus! {

/// Which codec a stream uses.
#[derive(Clone, Copy, Debug, PartialEq, Eq, Structural)]
pub enum Codec {
    /// Linear PCM, 16 bits per sample; written `none` in a configuration.
    Pcm,
    /// The Opus codec.
    Opus,
}

impl Codec {
    /// The codec's name as it is written in a configuration.
    pub fn to_string(&self) -> (name: String)
        ensures
            name@ == (match *self {
                Codec::Pcm => "none"@,
                Codec::Opus => "opus"@,
            }),
    {
        match self {
            Codec::Pcm => "none".to_owned(),
            Codec::Opus => "opus".to_owned(),
        }
    }
}

/// What both ends of a stream have to agree on.
#[derive(Clone, Copy, Debug, PartialEq, Eq, Structural)]
pub struct StreamConfig {
    /// Samples per second and channel.
    pub sample_rate: u32,
    /// Samples per frame and channel.
    pub frame_size: u32,
    /// Number of interleaved channels.
    pub channels: u32,
    /// The codec of the stream.
    pub codec: Codec,
}

/// Why a frame could not be encoded or decoded. The frame is dropped and the
/// stream goes on.
#[derive(Clone, Debug, PartialEq, Eq)]
pub enum CodecError {
    /// A PCM payload with an odd number of bytes.
    OddPayload,
    /// The codec behind the interface reported a failure.
    Backend(String),
}

/// Turns one frame of samples into a payload.
pub trait Encoder<S>: Send {
    /// Encodes `input` into `output`, replacing what `output` held.
    fn encode(&mut self, input: &[S], output: &mut Vec<u8>) -> (done: Result<(), CodecError>);
}

/// Turns a payload back into one frame of samples.
pub trait Decoder<S> {
    /// Decodes `input` into `output`, replacing what `output` held.
    fn decode(&mut self, input: &[u8], output: &mut Vec<S>) -> (done: Result<(), CodecError>);
}

/// The PCM payload of `samples`: two bytes per sample, low byte first.
pub open spec fn pcm_bytes(samples: Seq<i16>) -> Seq<u8> {
    Seq::new(2 * samples.len(), |i: int| i16_le_bytes(samples[i / 2])[i % 2])
}

/// The samples of a PCM payload: one per pair of bytes.
pub open spec fn pcm_samples(bytes: Seq<u8>) -> Seq<i16> {
    Seq::new(bytes.len() / 2, |k: int| i16_from_le(bytes[2 * k], bytes[2 * k + 1]))
}

/// Linear PCM: 16 bits per sample, little-endian.
pub struct PCMCodec {}

impl PCMCodec {
    /// PCM has no settings of its own; it is built from the stream's
    /// configuration as every codec is.
    pub fn new(config: &AudioConfig) -> (codec: Self) {
        PCMCodec {  }
    }
}

impl Encoder<i16> for PCMCodec {
    /// Always succeeds; the payload is twice as long as the frame.
    fn encode(&mut self, input: &[i16], output: &mut Vec<u8>) -> (done: Result<(), CodecError>)
        ensures
            done is Ok,
            final(output)@ == pcm_bytes(input@),
            final(output)@.len() == 2 * input@.len(),
    {
        output.clear();
        let mut k: usize = 0;
        while k < input.len()
            invariant
                k <= input@.len(),
                output@ == pcm_bytes(input@.take(k as int)),
            decreases input@.len() - k,
        {
            write_i16_le(output, input[k]);
            k += 1;
            proof {
                lemma_i16_le_roundtrip(input@[k - 1]);
                assert(output@ =~= pcm_bytes(input@.take(k as int)));
            }
        }
        assert(input@.take(input@.len() as int) =~= input@);
        Ok(())
    }
}

impl Decoder<i16> for PCMCodec {
    /// Succeeds exactly on payloads of even length, whatever `output` held
    /// and however long it was.
    fn decode(&mut self, input: &[u8], output: &mut Vec<i16>) -> (done: Result<(), CodecError>)
        ensures
            input@.len() % 2 == 0 ==> done is Ok && final(output)@ == pcm_samples(input@),
            input@.len() % 2 != 0 ==> done == Err::<(), CodecError>(CodecError::OddPayload)
                && final(output)@ == old(output)@,
    {
        if input.len() % 2 != 0 {
            return Err(CodecError::OddPayload);
        }
        let count: usize = input.len() / 2;
        output.clear();
        let mut k: usize = 0;
        while k < count
            invariant
                k <= count,
                count == input@.len() / 2,
                input@.len() % 2 == 0,
                input@.len() <= usize::MAX,
                output@ == pcm_samples(input@.take(2 * k)),
            decreases count - k,
        {
            let pair = slice_subrange(input, 2 * k, 2 * k + 2);
            let sample = read_i16_le(pair);
            output.push(sample);
            k += 1;
            assert(output@ =~= pcm_samples(input@.take(2 * k)));
        }
        assert(input@.take(2 * count) =~= input@);
        Ok(())
    }
}

/// Decoding the payload of a frame gives the frame back, sample for sample.
pub proof fn lemma_pcm_roundtrip(samples: Seq<i16>)
    ensures
        pcm_samples(pcm_bytes(samples)) == samples,
{
    let bytes = pcm_bytes(samples);
    assert forall|k: int| 0 <= k < samples.len() implies pcm_samples(bytes)[k] == samples[k] by {
        lemma_i16_le_roundtrip(samples[k]);
        assert((2 * k) / 2 == k && (2 * k) % 2 == 0);
        assert((2 * k + 1) / 2 == k && (2 * k + 1) % 2 == 1);
    }
    assert(pcm_samples(bytes) =~= samples);
}

/// A PCM payload is exactly twice as long as the frame it carries.
pub proof fn lemma_pcm_len(samples: Seq<i16>)
    ensures
        pcm_bytes(samples).len() == 2 * samples.len(),
{
}

} // verus!
