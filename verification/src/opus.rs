//! Settings of the Opus codec, worked out from the configuration before the
//! codec is built.

use crate::config::{AudioConfig, ConfigError};
use vstd::prelude::*;

verus! {

/// Channel layouts the codec takes.
#[derive(Clone, Copy, Debug, PartialEq, Eq, Structural)]
pub enum Channels {
    /// One channel.
    Mono,
    /// Two interleaved channels.
    Stereo,
}

/// What the codec is tuned for.
#[derive(Clone, Copy, Debug, PartialEq, Eq, Structural)]
pub enum Application {
    /// Speech.
    Voip,
    /// Music and mixed content.
    Audio,
    /// Lowest delay.
    LowDelay,
}

/// The codec's target bitrate.
#[derive(Clone, Copy, Debug, PartialEq, Eq, Structural)]
pub enum Bitrate {
    /// The codec chooses.
    Auto,
    /// As high as the codec goes.
    Max,
    /// This many bits per second.
    Bits(i32),
}

/// Everything the codec is built and tuned with.
#[derive(Clone, Copy, Debug, PartialEq, Eq, Structural)]
pub struct OpusSettings {
    /// Samples per second and channel.
    pub sample_rate: u32,
    /// The channel layout.
    pub channels: Channels,
    /// The application profile.
    pub application: Application,
    /// The target bitrate.
    pub bitrate: Bitrate,
    /// Whether in-band forward error correction is on.
    pub fec: bool,
    /// Whether variable bitrate is on.
    pub vbr: bool,
}

/// The layout for a channel count, if the codec takes that count.
pub open spec fn channel_layout(channels: u16) -> Result<Channels, ConfigError> {
    if channels == 1 {
        Ok(Channels::Mono)
    } else if channels == 2 {
        Ok(Channels::Stereo)
    } else {
        Err(ConfigError::UnsupportedChannels)
    }
}

/// The profile a name stands for. A name that stands for none gives the
/// general profile.
pub open spec fn application_named(profile: Seq<char>) -> Application {
    if profile == "voip"@ {
        Application::Voip
    } else if profile == "lowdelay"@ || profile == "lowlatency"@ {
        Application::LowDelay
    } else {
        Application::Audio
    }
}

/// The bitrate setting for a configured rate in kbit/s: automatic for zero,
/// the maximum for a negative rate, else 1024 bits for each kbit.
pub open spec fn bitrate_for(kbps: i32) -> Result<Bitrate, ConfigError> {
    if kbps == 0 {
        Ok(Bitrate::Auto)
    } else if kbps < 0 {
        Ok(Bitrate::Max)
    } else if 1024 * kbps <= i32::MAX {
        Ok(Bitrate::Bits((1024 * kbps) as i32))
    } else {
        Err(ConfigError::BitrateTooLarge)
    }
}

/// The settings a configuration asks for. The channel count is looked at
/// first, so it is the error reported when both it and the bitrate are out
/// of range.
pub open spec fn settings_for(config: AudioConfig) -> Result<OpusSettings, ConfigError> {
    match channel_layout(config.channels) {
        Err(e) => Err(e),
        Ok(channels) => match bitrate_for(config.bitrate) {
            Err(e) => Err(e),
            Ok(bitrate) => Ok(
                OpusSettings {
                    sample_rate: config.sample_rate,
                    channels,
                    application: application_named(config.profile@),
                    bitrate,
                    fec: config.fec,
                    vbr: config.vbr,
                },
            ),
        },
    }
}

/// The layout for a channel count. The codec takes one channel or two; any
/// other count is refused.
pub fn parse_channel(channels: u16) -> (layout: Result<Channels, ConfigError>)
    ensures
        layout == channel_layout(channels),
{
    if channels == 1 {
        Ok(Channels::Mono)
    } else if channels == 2 {
        Ok(Channels::Stereo)
    } else {
        Err(ConfigError::UnsupportedChannels)
    }
}

/// The profile a name stands for.
pub fn parse_application(profile: &str) -> (application: Application)
    ensures
        application == application_named(profile@),
{
    let name: String = profile.to_owned();
    if name == "voip".to_owned() {
        Application::Voip
    } else if name == "lowdelay".to_owned() || name == "lowlatency".to_owned() {
        Application::LowDelay
    } else {
        Application::Audio
    }
}

/// The bitrate setting for a configured rate in kbit/s.
pub fn parse_bitrate(kbps: i32) -> (bitrate: Result<Bitrate, ConfigError>)
    ensures
        bitrate == bitrate_for(kbps),
{
    if kbps == 0 {
        Ok(Bitrate::Auto)
    } else if kbps < 0 {
        Ok(Bitrate::Max)
    } else if kbps <= i32::MAX / 1024 {
        Ok(Bitrate::Bits(1024 * kbps))
    } else {
        Err(ConfigError::BitrateTooLarge)
    }
}

impl OpusSettings {
    /// The settings a configuration asks for, or the reason why the codec
    /// cannot be built from it.
    pub fn from_config(config: &AudioConfig) -> (settings: Result<OpusSettings, ConfigError>)
        ensures
            settings == settings_for(*config),
    {
        let channels: Channels = match parse_channel(config.channels) {
            Ok(c) => c,
            Err(e) => {
                return Err(e);
            },
        };
        let bitrate: Bitrate = match parse_bitrate(config.bitrate) {
            Ok(b) => b,
            Err(e) => {
                return Err(e);
            },
        };
        Ok(
            OpusSettings {
                sample_rate: config.sample_rate,
                channels,
                application: parse_application(config.profile.as_str()),
                bitrate,
                fec: config.fec,
                vbr: config.vbr,
            },
        )
    }
}

} // verus!
