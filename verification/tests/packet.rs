use preflight::crc::{crc_init, CRC_POLY};
use preflight::error::{FramingError, PacketError};
use preflight::msg::MsgType;
use preflight::packet::{encode, parse_response, Packet};

fn lut() -> [u8; 256] {
    crc_init(CRC_POLY)
}

const LINK_STATS_FRAME: [u8; 7] = [6, 0x50, 0x51, 100, 0xf6, 3, 0x3c];

#[test]
fn request_is_type_id_and_checksum() {
    let lut = lut();
    assert_eq!(encode(&lut, MsgType::ReqParams, &[]), Ok(vec![2, 0xfd]));
    assert_eq!(encode(&lut, MsgType::ReqControls, &[]), Ok(vec![5, 0xfa]));
    assert_eq!(encode(&lut, MsgType::ReqLinkStats, &[]), Ok(vec![7, 0x07]));
    assert_eq!(encode(&lut, MsgType::ReqWaypoints, &[]), Ok(vec![12, 0xf3]));
    assert_eq!(encode(&lut, MsgType::ArmMotors, &[]), Ok(vec![8, 0xa2]));
    assert_eq!(encode(&lut, MsgType::DisarmMotors, &[]), Ok(vec![9, 0x09]));
}

#[test]
fn payload_lies_between_type_id_and_checksum() {
    let lut = lut();
    assert_eq!(encode(&lut, MsgType::StartMotor, &[1]), Ok(vec![10, 1, 0x0b]));
    assert_eq!(
        encode(&lut, MsgType::LinkStats, &[0x50, 0x51, 100, 0xf6, 3]),
        Ok(LINK_STATS_FRAME.to_vec())
    );
}

#[test]
fn checksum_covers_type_byte_and_payload() {
    let lut = lut();
    let a = encode(&lut, MsgType::StartMotor, &[1]).unwrap();
    let b = encode(&lut, MsgType::StopMotor, &[1]).unwrap();
    let c = encode(&lut, MsgType::StartMotor, &[2]).unwrap();
    assert_ne!(a[2], b[2]);
    assert_ne!(a[2], c[2]);
}

#[test]
fn payload_of_the_wrong_length_is_not_encoded() {
    let lut = lut();
    let err = Err(PacketError::Framing(FramingError::Length));
    assert_eq!(encode(&lut, MsgType::ReqParams, &[0]), err);
    assert_eq!(encode(&lut, MsgType::StartMotor, &[]), err);
    assert_eq!(encode(&lut, MsgType::Controls, &[0; 17]), err);
    assert_eq!(encode(&lut, MsgType::Waypoints, &[0; 601]), err);
}

#[test]
fn response_gives_up_its_payload() {
    let lut = lut();
    assert_eq!(
        parse_response(&lut, MsgType::LinkStats, &LINK_STATS_FRAME),
        Ok(vec![0x50, 0x51, 100, 0xf6, 3])
    );
}

#[test]
fn response_without_payload() {
    let lut = lut();
    assert_eq!(parse_response(&lut, MsgType::Ack, &[3, 0x56]), Ok(vec![]));
}

#[test]
fn wrong_trailing_byte_is_a_checksum_mismatch() {
    let lut = lut();
    let mut frame = LINK_STATS_FRAME;
    frame[6] = 0x3d;
    assert_eq!(
        parse_response(&lut, MsgType::LinkStats, &frame),
        Err(PacketError::ChecksumMismatch)
    );
    assert_eq!(Packet::parse(&lut, &frame), Err(PacketError::ChecksumMismatch));
}

#[test]
fn every_wrong_trailing_byte_is_a_checksum_mismatch() {
    let lut = lut();
    let mut frame = LINK_STATS_FRAME;
    for trailing in 0..=255u8 {
        frame[6] = trailing;
        let r = parse_response(&lut, MsgType::LinkStats, &frame);
        if trailing == 0x3c {
            assert!(r.is_ok());
        } else {
            assert_eq!(r, Err(PacketError::ChecksumMismatch));
        }
    }
}

#[test]
fn changed_payload_is_a_checksum_mismatch() {
    let lut = lut();
    let mut frame = LINK_STATS_FRAME;
    frame[3] = 99;
    assert_eq!(
        parse_response(&lut, MsgType::LinkStats, &frame),
        Err(PacketError::ChecksumMismatch)
    );
}

#[test]
fn every_bit_flip_of_a_frame_is_rejected() {
    let lut = lut();
    let payload: Vec<u8> = (0..18).map(|i| (i * 37 + 5) as u8).collect();
    let frame = encode(&lut, MsgType::Controls, &payload).unwrap();
    assert_eq!(parse_response(&lut, MsgType::Controls, &frame), Ok(payload));
    for at in 0..frame.len() {
        for bit in 0..8 {
            let mut damaged = frame.clone();
            damaged[at] ^= 1 << bit;
            let r = parse_response(&lut, MsgType::Controls, &damaged);
            let p = Packet::parse(&lut, &damaged);
            if at == 0 {
                assert!(r.is_err());
                assert!(p.is_err());
            } else {
                assert_eq!(r, Err(PacketError::ChecksumMismatch));
                assert_eq!(p, Err(PacketError::ChecksumMismatch));
            }
        }
    }
}

#[test]
fn empty_buffer_is_a_framing_error() {
    let lut = lut();
    assert_eq!(
        parse_response(&lut, MsgType::Params, &[]),
        Err(PacketError::Framing(FramingError::Length))
    );
    assert_eq!(Packet::parse(&lut, &[]), Err(PacketError::Framing(FramingError::Length)));
}

#[test]
fn short_read_is_a_framing_error() {
    let lut = lut();
    assert_eq!(
        parse_response(&lut, MsgType::LinkStats, &LINK_STATS_FRAME[..6]),
        Err(PacketError::Framing(FramingError::Length))
    );
    assert_eq!(
        parse_response(&lut, MsgType::LinkStats, &[6]),
        Err(PacketError::Framing(FramingError::Length))
    );
}

#[test]
fn overlong_buffer_is_a_framing_error() {
    let lut = lut();
    let mut long = LINK_STATS_FRAME.to_vec();
    long.push(0);
    assert_eq!(
        parse_response(&lut, MsgType::LinkStats, &long),
        Err(PacketError::Framing(FramingError::Length))
    );
}

#[test]
fn leading_byte_of_another_type_is_a_framing_error() {
    let lut = lut();
    assert_eq!(
        parse_response(&lut, MsgType::Controls, &LINK_STATS_FRAME),
        Err(PacketError::Framing(FramingError::LeadingByte))
    );
    assert_eq!(
        parse_response(&lut, MsgType::Params, &[3, 0x56]),
        Err(PacketError::Framing(FramingError::LeadingByte))
    );
}

#[test]
fn leading_byte_outside_the_registry_is_unknown() {
    let lut = lut();
    let mut frame = LINK_STATS_FRAME;
    frame[0] = 200;
    assert_eq!(
        parse_response(&lut, MsgType::LinkStats, &frame),
        Err(PacketError::UnknownMessageType(200))
    );
    assert_eq!(Packet::parse(&lut, &[16, 0]), Err(PacketError::UnknownMessageType(16)));
}

#[test]
fn packet_new_closes_a_payload() {
    let lut = lut();
    let p = Packet::new(&lut, MsgType::LinkStats, vec![0x50, 0x51, 100, 0xf6, 3]).unwrap();
    assert_eq!(p.message_type, MsgType::LinkStats);
    assert_eq!(p.payload, vec![0x50, 0x51, 100, 0xf6, 3]);
    assert_eq!(p.checksum, 0x3c);
    assert_eq!(p.to_bytes(), LINK_STATS_FRAME.to_vec());
}

#[test]
fn packet_new_refuses_the_wrong_length() {
    let lut = lut();
    assert_eq!(
        Packet::new(&lut, MsgType::LinkStats, vec![1, 2, 3, 4]),
        Err(PacketError::Framing(FramingError::Length))
    );
    assert_eq!(
        Packet::new(&lut, MsgType::Ack, vec![1]),
        Err(PacketError::Framing(FramingError::Length))
    );
}

#[test]
fn packet_parse_reads_any_type() {
    let lut = lut();
    let p = Packet::parse(&lut, &LINK_STATS_FRAME).unwrap();
    assert_eq!(
        p,
        Packet { message_type: MsgType::LinkStats, payload: vec![0x50, 0x51, 100, 0xf6, 3], checksum: 0x3c }
    );
    let ack = Packet::parse(&lut, &[3, 0x56]).unwrap();
    assert_eq!(ack, Packet { message_type: MsgType::Ack, payload: vec![], checksum: 0x56 });
}

#[test]
fn packet_parse_wants_the_length_of_its_type() {
    let lut = lut();
    assert_eq!(
        Packet::parse(&lut, &LINK_STATS_FRAME[..5]),
        Err(PacketError::Framing(FramingError::Length))
    );
}

#[test]
fn frame_of_every_type_reads_back() {
    let lut = lut();
    for id in 0..16u8 {
        let t = MsgType::try_from(id).unwrap();
        let payload: Vec<u8> = (0..t.payload_size()).map(|i| (i * 7 + id as usize) as u8).collect();
        let frame = encode(&lut, t, &payload).unwrap();
        assert_eq!(frame.len(), t.payload_size() + 2);
        assert_eq!(parse_response(&lut, t, &frame), Ok(payload.clone()));
        let p = Packet::parse(&lut, &frame).unwrap();
        assert_eq!(p.message_type, t);
        assert_eq!(p.payload, payload);
        assert_eq!(p.to_bytes(), frame);
    }
}
