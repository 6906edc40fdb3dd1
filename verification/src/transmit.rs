//! The sending side: captured samples are gathered into frames, each full
//! frame is encoded, wrapped into a packet and handed out for sending.

use crate::audio::{CodecError, Encoder};
use crate::config::{AudioConfig, ConfigError, USE_BETA_PACKET_PACER};
use crate::packet::{lemma_parse_build, packet_bytes, parse_packet, PacketFramer};
use crate::sequence::{id_after, next_id, SequenceCounter};
use vstd::prelude::*;

verus! {

/// Where in the frame the sample at `cursor` is stored: its own place, or
/// its neighbour's when the two samples of every pair are exchanged.
pub open spec fn slot(cursor: nat, swap: bool) -> nat {
    if !swap {
        cursor
    } else if cursor % 2 == 0 {
        cursor + 1
    } else {
        (cursor - 1) as nat
    }
}

/// The frame after one sample arrived. A frame that is already full takes
/// no sample.
pub open spec fn frame_pushed<T>(frame: Seq<T>, cursor: nat, swap: bool, sample: T) -> Seq<T> {
    if cursor < frame.len() {
        frame.update(slot(cursor, swap) as int, sample)
    } else {
        frame
    }
}

/// The cursor after one sample arrived.
pub open spec fn cursor_pushed(cursor: nat, frame_len: nat) -> nat {
    if cursor < frame_len {
        cursor + 1
    } else {
        cursor
    }
}

/// The cursor after `n` samples arrived, every full frame having been taken
/// out at once.
pub open spec fn cursor_fed(cursor: nat, frame_len: nat, n: nat) -> nat
    decreases n,
{
    if n == 0 {
        cursor
    } else {
        let pushed = cursor_pushed(cursor_fed(cursor, frame_len, (n - 1) as nat), frame_len);
        if pushed >= frame_len {
            0
        } else {
            pushed
        }
    }
}

/// How many frames became full while `n` samples arrived.
pub open spec fn frames_fed(cursor: nat, frame_len: nat, n: nat) -> nat
    decreases n,
{
    if n == 0 {
        0
    } else {
        let before = frames_fed(cursor, frame_len, (n - 1) as nat);
        if cursor_pushed(cursor_fed(cursor, frame_len, (n - 1) as nat), frame_len) >= frame_len {
            before + 1
        } else {
            before
        }
    }
}

/// What the accumulator holds after all of `data` arrived.
pub open spec fn frame_fed<T>(frame: Seq<T>, cursor: nat, swap: bool, data: Seq<T>) -> Seq<T>
    decreases data.len(),
{
    if data.len() == 0 {
        frame
    } else {
        frame_pushed(
            frame_fed(frame, cursor, swap, data.drop_last()),
            cursor_fed(cursor, frame.len(), (data.len() - 1) as nat),
            swap,
            data.last(),
        )
    }
}

/// What became of one full frame.
#[derive(Clone, Debug, PartialEq, Eq)]
pub enum FrameOutcome {
    /// The frame was encoded; `packet` is to be sent `copies` times.
    Send { packet: Vec<u8>, copies: u8 },
    /// The codec failed; the frame is dropped and not tried again.
    Dropped(CodecError),
}

/// How many of `outcomes` are packets to send.
pub open spec fn packets_among(outcomes: Seq<FrameOutcome>) -> nat
    decreases outcomes.len(),
{
    if outcomes.len() == 0 {
        0
    } else {
        let before = packets_among(outcomes.drop_last());
        if outcomes.last() is Send {
            before + 1
        } else {
            before
        }
    }
}

/// The id field of the next packet.
pub open spec fn id_for(pacing: bool, upcoming: i64) -> Option<i64> {
    if pacing {
        Some(upcoming)
    } else {
        None
    }
}

/// The counter after `sent` packets.
pub open spec fn counter_after(pacing: bool, upcoming: i64, sent: nat) -> i64 {
    if pacing {
        id_after(upcoming, sent)
    } else {
        upcoming
    }
}

/// Whether `outcome`, if it is a packet, is one that a pipeline with these
/// settings sends after `sent` earlier packets: it reads as a packet with the
/// id the counter then has, and is to be sent `copies` times.
pub open spec fn well_addressed(
    outcome: FrameOutcome,
    pacing: bool,
    upcoming: i64,
    sent: nat,
    copies: u8,
) -> bool {
    outcome matches FrameOutcome::Send { packet, copies: c } ==> {
        &&& c == copies
        &&& parse_packet(packet@, pacing) matches Ok((id, _))
        &&& id == id_for(pacing, counter_after(pacing, upcoming, sent))
    }
}

/// The sender's state between two captured batches.
pub struct TransmitPipeline<T> {
    frame: Vec<T>,
    cursor: usize,
    swap: bool,
    pacing: bool,
    repeat: u8,
    counter: SequenceCounter,
    payload: Vec<u8>,
}

impl<T> TransmitPipeline<T> {
    #[verifier::type_invariant]
    spec fn consistent(self) -> bool {
        &&& self.cursor <= self.frame@.len()
        &&& self.swap ==> self.frame@.len() % 2 == 0
    }
}

impl<T: Copy> TransmitPipeline<T> {
    /// The accumulator: the frame being gathered.
    pub closed spec fn frame(&self) -> Seq<T> {
        self.frame@
    }

    /// Number of samples of the current frame that have arrived.
    pub closed spec fn cursor(&self) -> nat {
        self.cursor as nat
    }

    /// Whether the two samples of every pair are exchanged.
    pub closed spec fn swaps(&self) -> bool {
        self.swap
    }

    /// Whether packets carry a sequence id.
    pub closed spec fn paces(&self) -> bool {
        self.pacing
    }

    /// How many times each packet is to be sent.
    pub closed spec fn copies(&self) -> u8 {
        self.repeat
    }

    /// The sequence id of the next packet.
    pub closed spec fn upcoming(&self) -> i64 {
        self.counter.upcoming()
    }

    /// Whether only the accumulator and the counter differ between `self`
    /// and `other`.
    pub open spec fn same_settings(&self, other: &Self) -> bool {
        &&& self.frame().len() == other.frame().len()
        &&& self.swaps() == other.swaps()
        &&& self.paces() == other.paces()
        &&& self.copies() == other.copies()
    }

    /// A pipeline for frames of `frame_len` samples, all channels counted,
    /// whose accumulator starts out filled with `fill`. Pairs are exchanged
    /// only in frames of even length.
    pub fn new(frame_len: usize, swap: bool, pacing: bool, repeat: u8, fill: T) -> (pipeline: Self)
        ensures
            pipeline.frame() == Seq::new(frame_len as nat, |i: int| fill),
            pipeline.cursor() == 0,
            pipeline.swaps() == (swap && frame_len % 2 == 0),
            pipeline.paces() == pacing,
            pipeline.copies() == repeat,
            pipeline.upcoming() == crate::sequence::FIRST_ID,
    {
        let mut frame: Vec<T> = Vec::new();
        let mut k: usize = 0;
        while k < frame_len
            invariant
                k <= frame_len,
                frame@ == Seq::new(k as nat, |i: int| fill),
            decreases frame_len - k,
        {
            frame.push(fill);
            k += 1;
            assert(frame@ =~= Seq::new(k as nat, |i: int| fill));
        }
        TransmitPipeline {
            frame,
            cursor: 0,
            swap: swap && frame_len % 2 == 0,
            pacing,
            repeat,
            counter: SequenceCounter::new(),
            payload: Vec::new(),
        }
    }

    /// The pipeline that `config` asks for: frames of `frame_size` samples
    /// on each channel, pairs exchanged if the stream is stereo and the
    /// configuration says so.
    pub fn from_config(config: &AudioConfig, fill: T) -> (pipeline: Result<Self, ConfigError>)
        ensures
            match pipeline {
                Ok(p) => {
                    &&& config.frame_samples() <= usize::MAX
                    &&& p.frame() == Seq::new(config.frame_samples(), |i: int| fill)
                    &&& p.cursor() == 0
                    &&& p.swaps() == (config.stereo_swap && config.channels == 2)
                    &&& p.paces() == (USE_BETA_PACKET_PACER && config.packet_pacing)
                    &&& p.copies() == config.repeat_packets
                    &&& p.upcoming() == crate::sequence::FIRST_ID
                },
                Err(e) => e == ConfigError::FrameTooLarge && config.frame_samples() > usize::MAX,
            },
    {
        match config.sample_frame_size() {
            Ok(frame_len) => {
                let swap: bool = config.swaps_pairs();
                assert(swap ==> frame_len % 2 == 0) by (nonlinear_arith)
                    requires
                        swap ==> config.channels == 2,
                        frame_len == config.frame_size * config.channels,
                ;
                Ok(
                    Self::new(
                        frame_len,
                        swap,
                        config.pacing_enabled(),
                        config.repeat_packets,
                        fill,
                    ),
                )
            },
            Err(e) => Err(e),
        }
    }

    /// Sets the id that the next packet carries.
    pub fn resume_at(&mut self, id: i64)
        ensures
            final(self).upcoming() == id,
            final(self).frame() == old(self).frame(),
            final(self).cursor() == old(self).cursor(),
            final(self).same_settings(old(self)),
    {
        proof {
            use_type_invariant(&*self);
        }
        self.counter = SequenceCounter::starting_at(id);
    }

    /// The frame as it stands, for the encoder once it is full.
    pub fn samples(&self) -> (frame: &[T])
        ensures
            frame@ == self.frame(),
    {
        self.frame.as_slice()
    }

    /// Number of samples of the current frame that have arrived.
    pub fn filled(&self) -> (n: usize)
        ensures
            n == self.cursor(),
            n <= self.frame().len(),
    {
        proof {
            use_type_invariant(self);
        }
        self.cursor
    }

    /// The sequence id of the next packet.
    pub fn next_packet_id(&self) -> (id: i64)
        ensures
            id == self.upcoming(),
    {
        self.counter.peek()
    }

    /// Stores one captured sample. Returns whether the frame is now full and
    /// waits to be encoded; a full frame takes no further sample.
    pub fn push_sample(&mut self, sample: T) -> (full: bool)
        ensures
            final(self).frame() == frame_pushed(
                old(self).frame(),
                old(self).cursor(),
                old(self).swaps(),
                sample,
            ),
            final(self).cursor() == cursor_pushed(old(self).cursor(), old(self).frame().len()),
            full == (final(self).cursor() >= final(self).frame().len()),
            final(self).upcoming() == old(self).upcoming(),
            final(self).same_settings(old(self)),
    {
        proof {
            use_type_invariant(&*self);
        }
        let len: usize = self.frame.len();
        if self.cursor < len {
            let place: usize = if !self.swap {
                self.cursor
            } else if self.cursor % 2 == 0 {
                self.cursor + 1
            } else {
                self.cursor - 1
            };
            self.frame[place] = sample;
            self.cursor = self.cursor + 1;
        }
        self.cursor >= len
    }

    /// Closes the current frame with what the encoder made of it, and starts
    /// the next one. After a success the packet is built, with the upcoming
    /// id if packets carry one, and the counter moves on. After a failure
    /// nothing is sent and the counter stays.
    pub fn finish_frame(&mut self, encoded: Result<(), CodecError>, payload: &[u8]) -> (outcome:
        FrameOutcome)
        ensures
            final(self).cursor() == 0,
            final(self).frame() == old(self).frame(),
            final(self).same_settings(old(self)),
            match encoded {
                Ok(_) => {
                    &&& outcome matches FrameOutcome::Send { packet, copies }
                    &&& packet@ == packet_bytes(
                        payload@,
                        id_for(old(self).paces(), old(self).upcoming()),
                    )
                    &&& copies == old(self).copies()
                    &&& final(self).upcoming() == counter_after(
                        old(self).paces(),
                        old(self).upcoming(),
                        1,
                    )
                },
                Err(e) => {
                    &&& outcome == FrameOutcome::Dropped(e)
                    &&& final(self).upcoming() == old(self).upcoming()
                },
            },
    {
        proof {
            use_type_invariant(&*self);
        }
        self.cursor = 0;
        match encoded {
            Ok(_) => {
                let id: Option<i64> = if self.pacing {
                    let mut counter: SequenceCounter = self.counter;
                    let id: i64 = counter.advance();
                    self.counter = counter;
                    Some(id)
                } else {
                    None
                };
                proof {
                    reveal_with_fuel(id_after, 2);
                }
                FrameOutcome::Send { packet: PacketFramer::build(payload, id), copies: self.repeat }
            },
            Err(e) => FrameOutcome::Dropped(e),
        }
    }

    /// Takes one batch of captured samples. Every frame that becomes full is
    /// handed to `encoder` and closed with what the encoder made of it.
    /// Returns what became of each such frame, in order.
    ///
    /// Whatever the encoder does: there is one outcome per full frame; every
    /// packet among them carries the id that follows the one before it; and
    /// the counter has moved on by one per packet.
    pub fn feed<E: Encoder<T>>(&mut self, data: &[T], encoder: &mut E) -> (outcomes: Vec<
        FrameOutcome,
    >)
        ensures
            final(self).frame() == frame_fed(
                old(self).frame(),
                old(self).cursor(),
                old(self).swaps(),
                data@,
            ),
            final(self).cursor() == cursor_fed(
                old(self).cursor(),
                old(self).frame().len(),
                data@.len(),
            ),
            outcomes@.len() == frames_fed(old(self).cursor(), old(self).frame().len(), data@.len()),
            final(self).upcoming() == counter_after(
                old(self).paces(),
                old(self).upcoming(),
                packets_among(outcomes@),
            ),
            forall|j: int|
                0 <= j < outcomes@.len() ==> well_addressed(
                    #[trigger] outcomes@[j],
                    old(self).paces(),
                    old(self).upcoming(),
                    packets_among(outcomes@.take(j)),
                    old(self).copies(),
                ),
            final(self).same_settings(old(self)),
    {
        proof {
            use_type_invariant(&*self);
        }
        let mut outcomes: Vec<FrameOutcome> = Vec::new();
        let ghost start = *self;
        let mut k: usize = 0;
        while k < data.len()
            invariant
                k <= data@.len(),
                self.frame() == frame_fed(start.frame(), start.cursor(), start.swaps(), data@.take(
                    k as int,
                )),
                self.cursor() == cursor_fed(start.cursor(), start.frame().len(), k as nat),
                outcomes@.len() == frames_fed(start.cursor(), start.frame().len(), k as nat),
                self.upcoming() == counter_after(
                    start.paces(),
                    start.upcoming(),
                    packets_among(outcomes@),
                ),
                forall|j: int|
                    0 <= j < outcomes@.len() ==> well_addressed(
                        #[trigger] outcomes@[j],
                        start.paces(),
                        start.upcoming(),
                        packets_among(outcomes@.take(j)),
                        start.copies(),
                    ),
                self.same_settings(&start),
            decreases data@.len() - k,
        {
            let ghost before = outcomes@;
            assert(data@.take(k + 1).drop_last() =~= data@.take(k as int));
            let full: bool = self.push_sample(data[k]);
            if full {
                let ghost upcoming = self.upcoming();
                let mut payload: Vec<u8> = Vec::new();
                proof {
                    use_type_invariant(&*self);
                }
                core::mem::swap(&mut self.payload, &mut payload);
                let encoded = encoder.encode(self.frame.as_slice(), &mut payload);
                let outcome: FrameOutcome = self.finish_frame(encoded, payload.as_slice());
                proof {
                    use_type_invariant(&*self);
                    lemma_parse_build(payload@, id_for(start.paces(), upcoming));
                }
                core::mem::swap(&mut self.payload, &mut payload);
                outcomes.push(outcome);
                proof {
                    assert(id_after(upcoming, 1) == next_id(upcoming)) by {
                        reveal_with_fuel(id_after, 2);
                    }
                    assert(outcomes@.drop_last() =~= before);
                    assert(outcomes@.take(before.len() as int) =~= before);
                    assert forall|j: int| 0 <= j < outcomes@.len() implies well_addressed(
                        #[trigger] outcomes@[j],
                        start.paces(),
                        start.upcoming(),
                        packets_among(outcomes@.take(j)),
                        start.copies(),
                    ) by {
                        if j < before.len() {
                            assert(outcomes@.take(j) =~= before.take(j));
                            assert(outcomes@[j] == before[j]);
                        }
                    }
                }
            }
            k += 1;
        }
        assert(data@.take(data@.len() as int) =~= data@);
        outcomes
    }
}

/// From a frame that is not full, feeding `n` samples leaves the remainder
/// of `cursor + n` by the frame's length in the accumulator, and completes
/// as many frames as the quotient says.
pub proof fn lemma_feed_counts(cursor: nat, frame_len: nat, n: nat)
    requires
        cursor < frame_len,
    ensures
        cursor_fed(cursor, frame_len, n) == (cursor + n) % frame_len,
        frames_fed(cursor, frame_len, n) == (cursor + n) / frame_len,
    decreases n,
{
    let d = frame_len as int;
    if n == 0 {
        vstd::arithmetic::div_mod::lemma_fundamental_div_mod_converse(cursor as int, d, 0, cursor as int);
    } else {
        let m = (n - 1) as nat;
        lemma_feed_counts(cursor, frame_len, m);
        let x = (cursor + m) as int;
        let q = x / d;
        let r = x % d;
        vstd::arithmetic::div_mod::lemma_fundamental_div_mod(x, d);
        vstd::arithmetic::div_mod::lemma_mod_pos_bound(x, d);
        assert(x == q * d + r) by (nonlinear_arith)
            requires
                x == d * q + r,
        ;
        if r + 1 < d {
            vstd::arithmetic::div_mod::lemma_fundamental_div_mod_converse(x + 1, d, q, r + 1);
        } else {
            assert(x + 1 == (q + 1) * d + 0) by (nonlinear_arith)
                requires
                    x == q * d + r,
                    r + 1 == d,
            ;
            vstd::arithmetic::div_mod::lemma_fundamental_div_mod_converse(x + 1, d, q + 1, 0);
        }
    }
}

} // verus!
