//! The configuration a stream is started with, and the sizes that follow
//! from it.

use crate::audio::{Codec, StreamConfig};
use crate::packet::{ID_SIZE, SIGNATURE_SIZE};
use vstd::prelude::*;

verus! {

/// Whether sequence ids are available at all. Packets carry them when this
/// is set and the configuration asks for pacing.
pub const USE_BETA_PACKET_PACER: bool = true;

/// A configuration that no stream can be started with.
#[derive(Clone, Copy, Debug, PartialEq, Eq, Structural)]
pub enum ConfigError {
    /// A sender was given no address to send to.
    MissingAddress,
    /// The codec takes one or two channels, and another count was asked for.
    UnsupportedChannels,
    /// A frame has more samples than this machine can address.
    FrameTooLarge,
    /// The bitrate does not fit the codec's setting.
    BitrateTooLarge,
}

/// How large a buffer the audio device is asked for.
#[derive(Clone, Copy, Debug, PartialEq, Eq, Structural)]
pub enum BufferSize {
    /// Whatever the device prefers.
    Default,
    /// This many frames.
    Fixed(u32),
}

/// What an audio device is opened with.
#[derive(Clone, Copy, Debug, PartialEq, Eq, Structural)]
pub struct DeviceConfig {
    /// Number of interleaved channels.
    pub channels: u16,
    /// Samples per second and channel.
    pub sample_rate: u32,
    /// The device buffer.
    pub buffer_size: BufferSize,
}

/// Settings of one endpoint, fixed before any stream starts.
#[derive(Clone, Debug)]
pub struct AudioConfig {
    /// Device buffer; zero or less asks for the device's own default.
    pub buffer: i32,
    /// Address to bind or to connect to.
    pub addr: Option<String>,
    /// Name of the device to use; the default device when absent.
    pub target_device_name: Option<String>,
    /// Samples per second and channel.
    pub sample_rate: u32,
    /// Samples per frame and channel.
    pub frame_size: u32,
    /// Number of interleaved channels.
    pub channels: u16,
    /// The codec of the stream.
    pub codec: Codec,
    /// Whether the receive thread asks for a raised scheduling priority.
    pub priority: bool,
    /// Whether left and right are exchanged.
    pub stereo_swap: bool,
    /// Codec quality setting.
    pub quality: u32,
    /// Application profile handed to the codec.
    pub profile: String,
    /// Target bitrate in kbit/s; zero for automatic, negative for maximum.
    pub bitrate: i32,
    /// Whether in-band forward error correction is on.
    pub fec: bool,
    /// Whether variable bitrate is on.
    pub vbr: bool,
    /// Whether extra diagnostics are logged.
    pub debug: bool,
    /// Expected packet loss in percent, for codecs that take it.
    pub packet_loss_perc: Option<u32>,
    /// Whether packets carry a sequence id.
    pub packet_pacing: bool,
    /// How many times each packet is sent.
    pub repeat_packets: u8,
    /// Buffer logging interval in samples; zero turns it off.
    pub buffer_log: u32,
    /// Buffer logging interval in milliseconds; overrides the one in
    /// samples unless zero.
    pub buffer_log_time: u32,
}

/// `n`, or the largest `usize` if `n` is larger.
pub open spec fn capped(n: nat) -> nat {
    if n <= usize::MAX {
        n
    } else {
        usize::MAX as nat
    }
}

/// `n`, or the largest `u32` if `n` is larger.
pub open spec fn capped_u32(n: nat) -> nat {
    if n <= u32::MAX {
        n
    } else {
        u32::MAX as nat
    }
}

impl AudioConfig {
    /// Samples in one frame, all channels counted.
    pub open spec fn frame_samples(&self) -> nat {
        (self.frame_size * self.channels) as nat
    }

    /// Bytes in the PCM payload of one frame.
    pub open spec fn frame_bytes(&self) -> nat {
        2 * self.frame_samples()
    }

    /// The logging interval in samples: the one given in milliseconds, if
    /// any, converted at the stream's rate, else the one given in samples.
    pub open spec fn log_interval(&self) -> nat {
        if self.buffer_log_time == 0 {
            self.buffer_log as nat
        } else {
            capped_u32(((self.buffer_log_time * self.sample_rate * self.channels) / 1000) as nat)
        }
    }

    /// Samples in one frame, all channels counted.
    pub fn sample_frame_size(&self) -> (size: Result<usize, ConfigError>)
        ensures
            self.frame_samples() <= usize::MAX ==> size == Ok::<usize, ConfigError>(
                self.frame_samples() as usize,
            ),
            self.frame_samples() > usize::MAX ==> size == Err::<usize, ConfigError>(
                ConfigError::FrameTooLarge,
            ),
    {
        let frame_size: u64 = self.frame_size as u64;
        let channels: u64 = self.channels as u64;
        assert(frame_size * channels <= 0xFFFF_FFFF * 0xFFFF) by (nonlinear_arith)
            requires
                frame_size <= 0xFFFF_FFFF,
                channels <= 0xFFFF,
        ;
        let samples: u64 = frame_size * channels;
        if samples <= usize::MAX as u64 {
            Ok(samples as usize)
        } else {
            Err(ConfigError::FrameTooLarge)
        }
    }

    /// Bytes in the PCM payload of one frame: two per sample.
    pub fn packet_size(&self) -> (size: Result<usize, ConfigError>)
        ensures
            self.frame_bytes() <= usize::MAX ==> size == Ok::<usize, ConfigError>(
                self.frame_bytes() as usize,
            ),
            self.frame_bytes() > usize::MAX ==> size == Err::<usize, ConfigError>(
                ConfigError::FrameTooLarge,
            ),
    {
        let frame_size: u64 = self.frame_size as u64;
        let channels: u64 = self.channels as u64;
        assert(frame_size * channels <= 0xFFFF_FFFF * 0xFFFF) by (nonlinear_arith)
            requires
                frame_size <= 0xFFFF_FFFF,
                channels <= 0xFFFF,
        ;
        let bytes: u64 = frame_size * channels * 2;
        if bytes <= usize::MAX as u64 {
            Ok(bytes as usize)
        } else {
            Err(ConfigError::FrameTooLarge)
        }
    }

    /// Bytes to set aside for one datagram: the largest PCM payload and the
    /// longest header.
    pub fn receive_buffer_size(&self) -> (size: Result<usize, ConfigError>)
        ensures
            self.frame_bytes() + 10 <= usize::MAX ==> size == Ok::<usize, ConfigError>(
                (self.frame_bytes() + 10) as usize,
            ),
            self.frame_bytes() + 10 > usize::MAX ==> size == Err::<usize, ConfigError>(
                ConfigError::FrameTooLarge,
            ),
    {
        match self.packet_size() {
            Ok(bytes) => {
                if bytes <= usize::MAX - SIGNATURE_SIZE - ID_SIZE {
                    Ok(bytes + SIGNATURE_SIZE + ID_SIZE)
                } else {
                    Err(ConfigError::FrameTooLarge)
                }
            },
            Err(e) => Err(e),
        }
    }

    /// How many frames the jitter buffer has room for: one per thousand
    /// samples of the rate.
    pub fn max_buffer_frames(&self) -> (frames: usize)
        ensures
            frames == self.sample_rate / 1000,
    {
        (self.sample_rate / 1000) as usize
    }

    /// The capacity of the jitter buffer in samples: room for
    /// `max_buffer_frames` frames, or as much as the machine can address.
    pub fn jitter_capacity(&self) -> (samples: usize)
        ensures
            samples == capped(((self.sample_rate / 1000) * self.frame_samples()) as nat),
    {
        let frames: u128 = (self.sample_rate / 1000) as u128;
        let frame_size: u128 = self.frame_size as u128;
        let channels: u128 = self.channels as u128;
        assert(frame_size * channels <= 0xFFFF_FFFF * 0xFFFF) by (nonlinear_arith)
            requires
                frame_size <= 0xFFFF_FFFF,
                channels <= 0xFFFF,
        ;
        let per_frame: u128 = frame_size * channels;
        assert(frames * per_frame <= 0xFFFF_FFFF * (0xFFFF_FFFF * 0xFFFF)) by (nonlinear_arith)
            requires
                frames <= 0xFFFF_FFFF,
                per_frame <= 0xFFFF_FFFF * 0xFFFF,
        ;
        let total: u128 = frames * per_frame;
        if total <= usize::MAX as u128 {
            total as usize
        } else {
            usize::MAX
        }
    }

    /// The logging interval in samples; zero turns logging off.
    pub fn stat_interval(&self) -> (interval: u32)
        ensures
            interval == self.log_interval(),
    {
        if self.buffer_log_time == 0 {
            self.buffer_log
        } else {
            let time: u128 = self.buffer_log_time as u128;
            let rate: u128 = self.sample_rate as u128;
            let channels: u128 = self.channels as u128;
            assert(time * rate <= 0xFFFF_FFFF * 0xFFFF_FFFF) by (nonlinear_arith)
                requires
                    time <= 0xFFFF_FFFF,
                    rate <= 0xFFFF_FFFF,
            ;
            let per_ms: u128 = time * rate;
            assert(per_ms * channels <= (0xFFFF_FFFF * 0xFFFF_FFFF) * 0xFFFF) by (nonlinear_arith)
                requires
                    per_ms <= 0xFFFF_FFFF * 0xFFFF_FFFF,
                    channels <= 0xFFFF,
            ;
            let samples: u128 = per_ms * channels / 1000;
            if samples <= u32::MAX as u128 {
                samples as u32
            } else {
                u32::MAX
            }
        }
    }

    /// The part of the configuration that both ends have to agree on.
    pub fn stream_config(&self) -> (stream: StreamConfig)
        ensures
            stream.sample_rate == self.sample_rate,
            stream.frame_size == self.frame_size,
            stream.channels == self.channels,
            stream.codec == self.codec,
    {
        StreamConfig {
            sample_rate: self.sample_rate,
            frame_size: self.frame_size,
            channels: self.channels as u32,
            codec: self.codec,
        }
    }

    /// Whether packets carry a sequence id.
    pub fn pacing_enabled(&self) -> (pacing: bool)
        ensures
            pacing == (USE_BETA_PACKET_PACER && self.packet_pacing),
    {
        USE_BETA_PACKET_PACER && self.packet_pacing
    }

    /// Whether the two samples of every pair are exchanged. Left and right
    /// exist only in a stream of two channels.
    pub fn swaps_pairs(&self) -> (swap: bool)
        ensures
            swap == (self.stereo_swap && self.channels == 2),
    {
        self.stereo_swap && self.channels == 2
    }

    /// What the audio device is opened with.
    pub fn get_stream_config(&self) -> (device: DeviceConfig)
        ensures
            device.channels == self.channels,
            device.sample_rate == self.sample_rate,
            device.buffer_size == if self.buffer <= 0 {
                BufferSize::Default
            } else {
                BufferSize::Fixed(self.buffer as u32)
            },
    {
        DeviceConfig {
            channels: self.channels,
            sample_rate: self.sample_rate,
            buffer_size: if self.buffer <= 0 {
                BufferSize::Default
            } else {
                BufferSize::Fixed(self.buffer as u32)
            },
        }
    }

    /// The address a sender connects to. A sender cannot start without one.
    pub fn peer_address(&self) -> (addr: Result<&String, ConfigError>)
        ensures
            match self.addr {
                Some(a) => addr == Ok::<&String, ConfigError>(&a),
                None => addr == Err::<&String, ConfigError>(ConfigError::MissingAddress),
            },
    {
        match &self.addr {
            Some(a) => Ok(a),
            None => Err(ConfigError::MissingAddress),
        }
    }

    /// The address a receiver binds to: the configured one, or any address
    /// and any port.
    pub fn bind_address(&self) -> (addr: String)
        ensures
            addr@ == (match self.addr {
                Some(a) => a@,
                None => "0.0.0.0:0"@,
            }),
    {
        match &self.addr {
            Some(a) => a.clone(),
            None => "0.0.0.0:0".to_owned(),
        }
    }
}

impl Default for AudioConfig {
    /// The settings of an endpoint that was given none: PCM at 48 kHz in
    /// stereo, frames of 480 samples per channel, every packet sent once.
    fn default() -> (config: Self)
        ensures
            config.buffer == -1,
            config.addr is None,
            config.target_device_name is None,
            config.sample_rate == 48000,
            config.frame_size == 480,
            config.channels == 2,
            config.codec == Codec::Pcm,
            !config.priority,
            !config.stereo_swap,
            config.quality == 10,
            config.profile@ == "audio"@,
            config.bitrate == 128,
            !config.fec,
            !config.vbr,
            !config.debug,
            config.packet_loss_perc is None,
            !config.packet_pacing,
            config.repeat_packets == 1,
            config.buffer_log == 0,
            config.buffer_log_time == 0,
    {
        AudioConfig {
            buffer: -1,
            addr: None,
            target_device_name: None,
            sample_rate: 48000,
            frame_size: 480,
            channels: 2,
            codec: Codec::Pcm,
            priority: false,
            stereo_swap: false,
            quality: 10,
            profile: "audio".to_owned(),
            bitrate: 128,
            fec: false,
            vbr: false,
            debug: false,
            packet_loss_perc: None,
            packet_pacing: false,
            repeat_packets: 1,
            buffer_log: 0,
            buffer_log_time: 0,
        }
    }
}

} // verus!
