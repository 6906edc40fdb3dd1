//! Keeping count of played samples, to report on the jitter buffer at a
//! steady interval.

use crate::config::AudioConfig;
use vstd::prelude::*;

verus! {

/// `samples` as a count that fits 32 bits.
pub open spec fn block_len(samples: nat) -> nat {
    if samples <= u32::MAX {
        samples
    } else {
        u32::MAX as nat
    }
}

/// The count after a block of `samples` was played, before any report.
pub open spec fn counted(counter: u32, samples: nat) -> nat {
    if counter + block_len(samples) <= u32::MAX {
        (counter + block_len(samples)) as nat
    } else {
        u32::MAX as nat
    }
}

/// Whether a report is due after a block of `samples`.
pub open spec fn report_due(interval: u32, counter: u32, samples: nat) -> bool {
    interval > 0 && counted(counter, samples) >= interval
}

/// The count that is carried over to the next block.
pub open spec fn carried(interval: u32, counter: u32, samples: nat) -> nat {
    if interval == 0 {
        counter as nat
    } else if counted(counter, samples) >= interval {
        counted(counter, samples) % (interval as nat)
    } else {
        counted(counter, samples)
    }
}

/// How long `samples` interleaved samples play, in milliseconds rounded
/// down. A stream without rate or without channels has no duration.
pub open spec fn duration(samples: nat, sample_rate: u32, channels: u16) -> Option<nat> {
    if sample_rate * channels == 0 {
        None
    } else {
        Some((((samples * 1000) as int) / (sample_rate * channels)) as nat)
    }
}

/// The state of the jitter buffer after one block was played.
#[derive(Clone, Copy, Debug, PartialEq, Eq, Structural)]
pub struct BufferReport {
    /// Samples playback asked for.
    pub requested: usize,
    /// Samples of them that came from the queue.
    pub filled: usize,
    /// Samples still queued.
    pub queued: usize,
    /// How long the block plays, in milliseconds.
    pub requested_ms: Option<u128>,
    /// How long what is queued plays, in milliseconds.
    pub queued_ms: Option<u128>,
}

/// Counts played samples and says when a report is due.
#[derive(Clone, Copy, Debug)]
pub struct BufferMonitor {
    interval: u32,
    counter: u32,
    sample_rate: u32,
    channels: u16,
}

/// How long `samples` interleaved samples play, in milliseconds.
pub fn duration_ms(samples: usize, sample_rate: u32, channels: u16) -> (ms: Option<u128>)
    ensures
        match ms {
            Some(t) => duration(samples as nat, sample_rate, channels) == Some(t as nat),
            None => duration(samples as nat, sample_rate, channels) is None,
        },
{
    let rate: u128 = sample_rate as u128;
    let count: u128 = channels as u128;
    assert(rate * count <= 0xFFFF_FFFF * 0xFFFF) by (nonlinear_arith)
        requires
            rate <= 0xFFFF_FFFF,
            count <= 0xFFFF,
    ;
    let per_second: u128 = rate * count;
    if per_second == 0 {
        None
    } else {
        Some((samples as u128) * 1000 / per_second)
    }
}

impl BufferMonitor {
    /// Samples between two reports; zero for none at all.
    pub closed spec fn interval(&self) -> u32 {
        self.interval
    }

    /// Samples played since the last report.
    pub closed spec fn counter(&self) -> u32 {
        self.counter
    }

    /// Samples per second and channel.
    pub closed spec fn sample_rate(&self) -> u32 {
        self.sample_rate
    }

    /// Number of interleaved channels.
    pub closed spec fn channels(&self) -> u16 {
        self.channels
    }

    /// A monitor that reports every `interval` samples, or never if
    /// `interval` is zero.
    pub fn new(interval: u32, sample_rate: u32, channels: u16) -> (monitor: Self)
        ensures
            monitor.interval() == interval,
            monitor.counter() == 0,
            monitor.sample_rate() == sample_rate,
            monitor.channels() == channels,
    {
        BufferMonitor { interval, counter: 0, sample_rate, channels }
    }

    /// The monitor that `config` asks for.
    pub fn from_config(config: &AudioConfig) -> (monitor: Self)
        ensures
            monitor.interval() == config.log_interval(),
            monitor.counter() == 0,
            monitor.sample_rate() == config.sample_rate,
            monitor.channels() == config.channels,
    {
        Self::new(config.stat_interval(), config.sample_rate, config.channels)
    }

    /// Takes note of one played block: playback asked for `requested`
    /// samples, `filled` of them came from the queue, and `queued` are
    /// left in it. Returns the report if one is due now.
    pub fn record(&mut self, requested: usize, filled: usize, queued: usize) -> (report: Option<
        BufferReport,
    >)
        ensures
            final(self).interval() == old(self).interval(),
            final(self).sample_rate() == old(self).sample_rate(),
            final(self).channels() == old(self).channels(),
            final(self).counter() == carried(
                old(self).interval(),
                old(self).counter(),
                requested as nat,
            ),
            report is Some == report_due(
                old(self).interval(),
                old(self).counter(),
                requested as nat,
            ),
            report matches Some(r) ==> {
                &&& r.requested == requested
                &&& r.filled == filled
                &&& r.queued == queued
                &&& match r.requested_ms {
                    Some(t) => duration(
                        requested as nat,
                        old(self).sample_rate(),
                        old(self).channels(),
                    ) == Some(t as nat),
                    None => duration(
                        requested as nat,
                        old(self).sample_rate(),
                        old(self).channels(),
                    ) is None,
                }
                &&& match r.queued_ms {
                    Some(t) => duration(
                        queued as nat,
                        old(self).sample_rate(),
                        old(self).channels(),
                    ) == Some(t as nat),
                    None => duration(
                        queued as nat,
                        old(self).sample_rate(),
                        old(self).channels(),
                    ) is None,
                }
            },
    {
        if self.interval == 0 {
            return None;
        }
        let block: u32 = if requested > u32::MAX as usize {
            u32::MAX
        } else {
            requested as u32
        };
        let counted: u32 = self.counter.saturating_add(block);
        if counted >= self.interval {
            self.counter = counted % self.interval;
            Some(
                BufferReport {
                    requested,
                    filled,
                    queued,
                    requested_ms: duration_ms(requested, self.sample_rate, self.channels),
                    queued_ms: duration_ms(queued, self.sample_rate, self.channels),
                },
            )
        } else {
            self.counter = counted;
            None
        }
    }
}

} // verus!
