use airwire::packet::{add_payload, PacketFramer, ProtocolError, SIGNATURE_FIRST, SIGNATURE_SECOND};
use airwire::{add_packet_id, add_signature, ID_SIZE, SIGNATURE_SIZE};

#[test]
fn signature_is_two_fixed_bytes() {
    let mut buffer = vec![9u8];
    add_signature(&mut buffer);
    assert_eq!(buffer, vec![9, 0x0D, 0x25]);
    assert_eq!(SIGNATURE_SIZE, 2);
    assert_eq!((SIGNATURE_FIRST, SIGNATURE_SECOND), (13, 37));
}

#[test]
fn packet_id_is_big_endian() {
    let mut buffer = Vec::new();
    add_packet_id(&mut buffer, 0x0102_0304_0506_0708);
    assert_eq!(buffer, vec![1, 2, 3, 4, 5, 6, 7, 8]);
    assert_eq!(buffer.len(), ID_SIZE);
}

#[test]
fn packet_id_negative_is_twos_complement() {
    let mut buffer = vec![0xAAu8];
    add_packet_id(&mut buffer, -1);
    assert_eq!(buffer, vec![0xAA, 0xFF, 0xFF, 0xFF, 0xFF, 0xFF, 0xFF, 0xFF, 0xFF]);
    let mut lowest = Vec::new();
    add_packet_id(&mut lowest, i64::MIN);
    assert_eq!(lowest, vec![0x80, 0, 0, 0, 0, 0, 0, 0]);
    let mut highest = Vec::new();
    add_packet_id(&mut highest, i64::MAX);
    assert_eq!(highest, vec![0x7F, 0xFF, 0xFF, 0xFF, 0xFF, 0xFF, 0xFF, 0xFF]);
}

#[test]
fn payload_is_appended_unchanged() {
    let mut buffer = vec![1u8];
    add_payload(&mut buffer, &[2, 3]);
    assert_eq!(buffer, vec![1, 2, 3]);
}

#[test]
fn build_without_id() {
    let packet = PacketFramer::build(&[0xDE, 0xAD], None);
    assert_eq!(packet, vec![0x0D, 0x25, 0xDE, 0xAD]);
}

#[test]
fn build_with_id() {
    let packet = PacketFramer::build(&[0xDE, 0xAD], Some(258));
    assert_eq!(packet, vec![0x0D, 0x25, 0, 0, 0, 0, 0, 0, 1, 2, 0xDE, 0xAD]);
}

#[test]
fn build_then_parse_with_id() {
    let payload = vec![1u8, 2, 3, 4];
    let packet = PacketFramer::build(&payload, Some(-2));
    assert_eq!(packet.len(), 14);
    assert_eq!(&packet[..2], &[0x0D, 0x25]);
    assert_eq!(&packet[2..10], &[0xFF, 0xFF, 0xFF, 0xFF, 0xFF, 0xFF, 0xFF, 0xFE]);
    let (id, body) = PacketFramer::parse(&packet, true).unwrap();
    assert_eq!(id, Some(-2));
    assert_eq!(body, &payload[..]);
}

#[test]
fn build_then_parse_round_trips_many_ids() {
    let ids = [0i64, 1, -1, -2, 255, 256, 65535, 1 << 40, -(1 << 40), i64::MAX, i64::MIN, i64::MAX - 16];
    for id in ids {
        for len in [0usize, 1, 7, 960] {
            let payload: Vec<u8> = (0..len).map(|i| (i * 7 + 3) as u8).collect();
            let packet = PacketFramer::build(&payload, Some(id));
            assert_eq!(PacketFramer::parse(&packet, true), Ok((Some(id), &payload[..])));
            let plain = PacketFramer::build(&payload, None);
            assert_eq!(PacketFramer::parse(&plain, false), Ok((None, &payload[..])));
        }
    }
}

#[test]
fn parse_reads_a_known_datagram() {
    let datagram = [0x0D, 0x25, 0x80, 0, 0, 0, 0, 0, 0, 0x01, 0x11, 0x22];
    assert_eq!(
        PacketFramer::parse(&datagram, true),
        Ok((Some(i64::MIN + 1), &[0x11u8, 0x22][..]))
    );
    assert_eq!(PacketFramer::parse(&datagram, false), Ok((None, &datagram[2..])));
}

#[test]
fn parse_rejects_noise() {
    assert_eq!(PacketFramer::parse(&[1, 2, 3], false), Err(ProtocolError::BadSignature));
    assert_eq!(PacketFramer::parse(&[0x0D, 0x26, 3], true), Err(ProtocolError::BadSignature));
    assert_eq!(PacketFramer::parse(&[0x25, 0x0D], false), Err(ProtocolError::BadSignature));
}

#[test]
fn parse_rejects_short_datagrams() {
    assert_eq!(PacketFramer::parse(&[], false), Err(ProtocolError::BadSignature));
    assert_eq!(PacketFramer::parse(&[0x0D], true), Err(ProtocolError::BadSignature));
    assert_eq!(PacketFramer::parse(&[0x0D, 0x25], false), Ok((None, &[][..])));
    assert_eq!(PacketFramer::parse(&[0x0D, 0x25], true), Err(ProtocolError::TruncatedId));
    assert_eq!(
        PacketFramer::parse(&[0x0D, 0x25, 0, 0, 0, 0, 0, 0, 0], true),
        Err(ProtocolError::TruncatedId)
    );
    assert_eq!(
        PacketFramer::parse(&[0x0D, 0x25, 0, 0, 0, 0, 0, 0, 0, 5], true),
        Ok((Some(5), &[][..]))
    );
}

#[test]
fn parse_leaves_its_input_alone() {
    let noise = vec![7u8; 32];
    let copy = noise.clone();
    assert!(PacketFramer::parse(&noise, true).is_err());
    assert_eq!(noise, copy);
}
