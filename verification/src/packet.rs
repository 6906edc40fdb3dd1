//! The datagram envelope: a two-byte signature, an optional sequence id,
//! then the encoded payload.

use crate::wire::{i64_be_bytes, i64_from_be, i64_to_be, lemma_i64_be_roundtrip, read_i64_be};
use vstd::prelude::*;
use vstd::slice::slice_subrange;

verus! {

/// Number of signature bytes that open every datagram.
pub const SIGNATURE_SIZE: usize = 2;

/// Number of bytes a sequence id occupies when pacing is enabled.
pub const ID_SIZE: usize = 8;

/// First signature byte.
pub const SIGNATURE_FIRST: u8 = 13;

/// Second signature byte.
pub const SIGNATURE_SECOND: u8 = 37;

/// The two bytes that open every datagram.
pub open spec fn signature() -> Seq<u8> {
    seq![SIGNATURE_FIRST, SIGNATURE_SECOND]
}

/// The bytes of the optional id field.
pub open spec fn id_field(id: Option<i64>) -> Seq<u8> {
    match id {
        Some(x) => i64_be_bytes(x),
        None => Seq::<u8>::empty(),
    }
}

/// The datagram that carries `payload`, with `id` when pacing is enabled.
pub open spec fn packet_bytes(payload: Seq<u8>, id: Option<i64>) -> Seq<u8> {
    signature() + id_field(id) + payload
}

/// Whether `bytes` opens with the signature.
pub open spec fn has_signature(bytes: Seq<u8>) -> bool {
    bytes.len() >= 2 && bytes[0] == SIGNATURE_FIRST && bytes[1] == SIGNATURE_SECOND
}

/// Why a datagram was not taken for a packet.
#[derive(Clone, Copy, Debug, PartialEq, Eq, Structural)]
pub enum ProtocolError {
    /// The datagram does not open with the signature.
    BadSignature,
    /// Pacing is enabled and the datagram ends inside the id field.
    TruncatedId,
}

/// What a datagram holds: its id, if pacing is enabled, and its payload.
pub open spec fn parse_packet(bytes: Seq<u8>, pacing: bool) -> Result<
    (Option<i64>, Seq<u8>),
    ProtocolError,
> {
    if !has_signature(bytes) {
        Err(ProtocolError::BadSignature)
    } else if !pacing {
        Ok((None, bytes.subrange(2, bytes.len() as int)))
    } else if bytes.len() < 10 {
        Err(ProtocolError::TruncatedId)
    } else {
        Ok((Some(i64_from_be(bytes.subrange(2, 10))), bytes.subrange(10, bytes.len() as int)))
    }
}

/// Appends the signature to `buffer`.
pub fn add_signature(buffer: &mut Vec<u8>)
    ensures
        final(buffer)@ == old(buffer)@ + signature(),
{
    buffer.push(SIGNATURE_FIRST);
    buffer.push(SIGNATURE_SECOND);
    assert(buffer@ =~= old(buffer)@ + signature());
}

/// Appends the eight big-endian bytes of `id` to `buffer`.
pub fn add_packet_id(buffer: &mut Vec<u8>, id: i64)
    ensures
        final(buffer)@ == old(buffer)@ + i64_be_bytes(id),
{
    let bytes = i64_to_be(id);
    let mut k: usize = 0;
    while k < 8
        invariant
            k <= 8,
            bytes@ == i64_be_bytes(id),
            buffer@ == old(buffer)@ + bytes@.subrange(0, k as int),
        decreases 8 - k,
    {
        buffer.push(bytes[k]);
        k += 1;
        assert(buffer@ =~= old(buffer)@ + bytes@.subrange(0, k as int));
    }
    assert(bytes@.subrange(0, 8) =~= bytes@);
}

/// Appends `bytes` to `buffer`.
pub fn add_payload(buffer: &mut Vec<u8>, bytes: &[u8])
    ensures
        final(buffer)@ == old(buffer)@ + bytes@,
{
    let mut k: usize = 0;
    while k < bytes.len()
        invariant
            k <= bytes@.len(),
            buffer@ == old(buffer)@ + bytes@.subrange(0, k as int),
        decreases bytes@.len() - k,
    {
        buffer.push(bytes[k]);
        k += 1;
        assert(buffer@ =~= old(buffer)@ + bytes@.subrange(0, k as int));
    }
    assert(bytes@.subrange(0, bytes@.len() as int) =~= bytes@);
}

/// Builds and reads datagrams.
pub struct PacketFramer;

impl PacketFramer {
    /// The datagram for `payload`; `id` is present exactly when pacing is
    /// enabled.
    pub fn build(payload: &[u8], id: Option<i64>) -> (packet: Vec<u8>)
        ensures
            packet@ == packet_bytes(payload@, id),
    {
        let mut packet: Vec<u8> = Vec::new();
        add_signature(&mut packet);
        match id {
            Some(x) => {
                add_packet_id(&mut packet, x);
            },
            None => {},
        }
        add_payload(&mut packet, payload);
        assert(packet@ =~= packet_bytes(payload@, id));
        packet
    }

    /// Reads a datagram. The payload is a view into `bytes`.
    pub fn parse<'a>(bytes: &'a [u8], pacing: bool) -> (parsed: Result<
        (Option<i64>, &'a [u8]),
        ProtocolError,
    >)
        ensures
            match parsed {
                Ok((id, payload)) => parse_packet(bytes@, pacing) == Ok::<
                    (Option<i64>, Seq<u8>),
                    ProtocolError,
                >((id, payload@)),
                Err(e) => parse_packet(bytes@, pacing) == Err::<
                    (Option<i64>, Seq<u8>),
                    ProtocolError,
                >(e),
            },
    {
        if bytes.len() < SIGNATURE_SIZE || bytes[0] != SIGNATURE_FIRST || bytes[1]
            != SIGNATURE_SECOND {
            return Err(ProtocolError::BadSignature);
        }
        if !pacing {
            return Ok((None, slice_subrange(bytes, SIGNATURE_SIZE, bytes.len())));
        }
        if bytes.len() < SIGNATURE_SIZE + ID_SIZE {
            return Err(ProtocolError::TruncatedId);
        }
        let id = read_i64_be(slice_subrange(bytes, SIGNATURE_SIZE, SIGNATURE_SIZE + ID_SIZE));
        Ok((Some(id), slice_subrange(bytes, SIGNATURE_SIZE + ID_SIZE, bytes.len())))
    }
}

/// Reading a built datagram gives back the id and the payload it was built
/// from, for every payload and every id.
pub proof fn lemma_parse_build(payload: Seq<u8>, id: Option<i64>)
    ensures
        parse_packet(packet_bytes(payload, id), id is Some) == Ok::<
            (Option<i64>, Seq<u8>),
            ProtocolError,
        >((id, payload)),
{
    let packet = packet_bytes(payload, id);
    assert(has_signature(packet));
    match id {
        Some(x) => {
            lemma_i64_be_roundtrip(x);
            assert(packet.subrange(2, 10) =~= i64_be_bytes(x));
            assert(packet.subrange(10, packet.len() as int) =~= payload);
        },
        None => {
            assert(packet.subrange(2, packet.len() as int) =~= payload);
        },
    }
}

/// A datagram that does not open with the signature is never read as a
/// packet, with or without pacing.
pub proof fn lemma_parse_rejects_noise(bytes: Seq<u8>, pacing: bool)
    requires
        !has_signature(bytes),
    ensures
        parse_packet(bytes, pacing) == Err::<(Option<i64>, Seq<u8>), ProtocolError>(
            ProtocolError::BadSignature,
        ),
{
}

} // verus!
