//! The receiving side: each datagram is checked, filtered by its sequence
//! id and decoded. What fails a step is dropped; nothing is tried again.

use crate::audio::{CodecError, Decoder};
use crate::config::{AudioConfig, USE_BETA_PACKET_PACER};
use crate::jitter::{arranged, keep_newest, overflow, JitterBuffer};
use crate::packet::{parse_packet, PacketFramer, ProtocolError};
use crate::sequence::{accepts, last_after, SequenceTracker};
use vstd::prelude::*;

verus! {

/// Why a datagram never reached the decoder.
#[derive(Clone, Copy, Debug, PartialEq, Eq, Structural)]
pub enum Rejection {
    /// The datagram is not a packet of this protocol.
    Protocol(ProtocolError),
    /// The packet repeats an id or carries one that has been passed.
    Stale,
}

/// What became of one datagram.
#[derive(Clone, Debug, PartialEq, Eq)]
pub enum ReceiveOutcome {
    /// The payload was decoded; the samples wait to be queued.
    Decoded,
    /// The datagram was dropped before decoding.
    Rejected(Rejection),
    /// The codec failed on the payload; the frame is skipped.
    DecodeFailed(CodecError),
}

/// The payload of `datagram` if a receiver that last let `last` through
/// hands it to the decoder, else the reason why it does not.
pub open spec fn screened(last: Option<i64>, pacing: bool, datagram: Seq<u8>) -> Result<
    Seq<u8>,
    Rejection,
> {
    match parse_packet(datagram, pacing) {
        Err(e) => Err(Rejection::Protocol(e)),
        Ok((None, payload)) => Ok(payload),
        Ok((Some(id), payload)) => if accepts(last, id) {
            Ok(payload)
        } else {
            Err(Rejection::Stale)
        },
    }
}

/// The id that the receiver's filter remembers after `datagram`.
pub open spec fn last_screened(last: Option<i64>, pacing: bool, datagram: Seq<u8>) -> Option<i64> {
    match parse_packet(datagram, pacing) {
        Ok((Some(id), _)) => last_after(last, id),
        _ => last,
    }
}

/// What a datagram that reached the decoder comes to.
pub open spec fn outcome_of_decoding(decoded: Result<(), CodecError>) -> ReceiveOutcome {
    match decoded {
        Ok(_) => ReceiveOutcome::Decoded,
        Err(e) => ReceiveOutcome::DecodeFailed(e),
    }
}

/// The receiver's state between two datagrams.
pub struct ReceivePipeline<T> {
    tracker: SequenceTracker,
    pacing: bool,
    decoded: Vec<T>,
}

impl<T: Copy> ReceivePipeline<T> {
    /// The id last let through, if any.
    pub closed spec fn last(&self) -> Option<i64> {
        self.tracker.last()
    }

    /// Whether packets carry a sequence id.
    pub closed spec fn paces(&self) -> bool {
        self.pacing
    }

    /// The samples of the frame decoded last.
    pub closed spec fn decoded(&self) -> Seq<T> {
        self.decoded@
    }

    /// A receiver that has seen nothing yet.
    pub fn new(pacing: bool) -> (pipeline: Self)
        ensures
            pipeline.last() is None,
            pipeline.paces() == pacing,
            pipeline.decoded() == Seq::<T>::empty(),
    {
        ReceivePipeline { tracker: SequenceTracker::new(), pacing, decoded: Vec::new() }
    }

    /// The receiver that `config` asks for.
    pub fn from_config(config: &AudioConfig) -> (pipeline: Self)
        ensures
            pipeline.last() is None,
            pipeline.paces() == (USE_BETA_PACKET_PACER && config.packet_pacing),
            pipeline.decoded() == Seq::<T>::empty(),
    {
        Self::new(config.pacing_enabled())
    }

    /// The id last let through, if any.
    pub fn last_accepted(&self) -> (last: Option<i64>)
        ensures
            last == self.last(),
    {
        self.tracker.last_accepted()
    }

    /// The samples of the frame decoded last, to be queued for playback.
    pub fn samples(&self) -> (samples: &[T])
        ensures
            samples@ == self.decoded(),
    {
        self.decoded.as_slice()
    }

    /// Queues the samples of the frame decoded last for playback. Returns
    /// how many samples the queue had to drop to stay within its capacity.
    pub fn deliver(&self, buffer: &mut JitterBuffer<T>) -> (dropped: usize)
        ensures
            final(buffer)@ == keep_newest(
                old(buffer)@ + arranged(self.decoded(), old(buffer).swaps()),
                old(buffer).capacity(),
            ),
            dropped == overflow(old(buffer)@.len() + self.decoded().len(), old(buffer).capacity()),
            final(buffer).capacity() == old(buffer).capacity(),
            final(buffer).swaps() == old(buffer).swaps(),
            final(buffer).silence() == old(buffer).silence(),
    {
        buffer.push(self.decoded.as_slice())
    }

    /// Checks the signature of `datagram` and, if packets carry ids, shows
    /// its id to the filter. Returns the payload to decode, a view into
    /// `datagram`, or the reason why the datagram is dropped.
    pub fn screen<'a>(&mut self, datagram: &'a [u8]) -> (payload: Result<&'a [u8], Rejection>)
        ensures
            match payload {
                Ok(bytes) => screened(old(self).last(), old(self).paces(), datagram@) == Ok::<
                    Seq<u8>,
                    Rejection,
                >(bytes@),
                Err(r) => screened(old(self).last(), old(self).paces(), datagram@) == Err::<
                    Seq<u8>,
                    Rejection,
                >(r),
            },
            final(self).last() == last_screened(old(self).last(), old(self).paces(), datagram@),
            final(self).paces() == old(self).paces(),
            final(self).decoded() == old(self).decoded(),
    {
        match PacketFramer::parse(datagram, self.pacing) {
            Err(e) => Err(Rejection::Protocol(e)),
            Ok((None, payload)) => Ok(payload),
            Ok((Some(id), payload)) => {
                if self.tracker.accept(id) {
                    Ok(payload)
                } else {
                    Err(Rejection::Stale)
                }
            },
        }
    }

    /// What a datagram that reached the decoder comes to.
    pub fn outcome_of(decoded: Result<(), CodecError>) -> (outcome: ReceiveOutcome)
        ensures
            outcome == outcome_of_decoding(decoded),
    {
        match decoded {
            Ok(_) => ReceiveOutcome::Decoded,
            Err(e) => ReceiveOutcome::DecodeFailed(e),
        }
    }

    /// Takes one datagram through the pipeline: screens it, and hands the
    /// payload to `decoder` if it passed.
    ///
    /// Whatever the decoder does: a datagram that does not pass is
    /// rejected for the reason `screened` gives and leaves the decoded
    /// samples alone; one that passes is either decoded or failed by the
    /// decoder; and the filter has seen the id either way.
    pub fn receive<D: Decoder<T>>(&mut self, datagram: &[u8], decoder: &mut D) -> (outcome:
        ReceiveOutcome)
        ensures
            match screened(old(self).last(), old(self).paces(), datagram@) {
                Err(r) => outcome == ReceiveOutcome::Rejected(r) && final(self).decoded() == old(
                    self,
                ).decoded(),
                Ok(_) => outcome is Decoded || outcome is DecodeFailed,
            },
            final(self).last() == last_screened(old(self).last(), old(self).paces(), datagram@),
            final(self).paces() == old(self).paces(),
    {
        match self.screen(datagram) {
            Err(r) => ReceiveOutcome::Rejected(r),
            Ok(payload) => {
                let decoded = decoder.decode(payload, &mut self.decoded);
                Self::outcome_of(decoded)
            },
        }
    }
}

} // verus!
