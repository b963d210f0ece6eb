use preflight::error::{DecodeError, DecodeField};
use preflight::waypoint::{waypoint_from_slot, waypoints_from_buf, Location};
use preflight::wire::Binary32;

fn bits(value: f32) -> Binary32 {
    Binary32 { bits: value.to_bits() }
}

fn slot(flag: u8, name: &[u8; 7], x: f32, y: f32, z: f32) -> [u8; 20] {
    let mut s = [0u8; 20];
    s[0] = flag;
    s[1..8].copy_from_slice(name);
    s[8..12].copy_from_slice(&x.to_be_bytes());
    s[12..16].copy_from_slice(&y.to_be_bytes());
    s[16..20].copy_from_slice(&z.to_be_bytes());
    s
}

fn table(slots: &[(usize, [u8; 20])]) -> [u8; 600] {
    let mut t = [0u8; 600];
    for (i, s) in slots {
        t[i * 20..i * 20 + 20].copy_from_slice(s);
    }
    t
}

#[test]
fn unused_slot_is_absent() {
    let unused = slot(0, b"HOME\0\0\0", 1.0, 2.0, 3.0);
    assert_eq!(waypoint_from_slot(&unused), Ok(None));
    assert_eq!(waypoint_from_slot(&[0u8; 20]), Ok(None));
}

#[test]
fn used_slot_named_home() {
    let used = slot(1, b"HOME\0\0\0", 1.0, 2.0, 3.0);
    let location = waypoint_from_slot(&used).unwrap().unwrap();
    assert_eq!(location.name, "HOME\0\0\0");
    assert_eq!(f32::from_bits(location.x.bits), 1.0);
    assert_eq!(f32::from_bits(location.y.bits), 2.0);
    assert_eq!(f32::from_bits(location.z.bits), 3.0);
}

#[test]
fn used_slot_from_literal_bytes() {
    let used = [
        0x01, b'H', b'O', b'M', b'E', 0, 0, 0, 0x3f, 0x80, 0, 0, 0x40, 0x00, 0, 0, 0x40, 0x40, 0,
        0,
    ];
    assert_eq!(
        waypoint_from_slot(&used),
        Ok(Some(Location {
            name: String::from("HOME\0\0\0"),
            x: bits(1.0),
            y: bits(2.0),
            z: bits(3.0),
        }))
    );
}

#[test]
fn any_nonzero_flag_marks_a_slot_used() {
    for flag in [1u8, 2, 7, 0x80, 0xff] {
        let location = waypoint_from_slot(&slot(flag, b"FIELD-B", -4.0, 5.5, 0.0)).unwrap();
        assert_eq!(
            location,
            Some(Location {
                name: String::from("FIELD-B"),
                x: bits(-4.0),
                y: bits(5.5),
                z: bits(0.0),
            })
        );
    }
}

#[test]
fn name_may_hold_text_beyond_ascii() {
    let name: [u8; 7] = [b'c', b'a', b'f', 0xc3, 0xa9, b' ', b'1'];
    let location = waypoint_from_slot(&slot(1, &name, 0.0, 0.0, 0.0)).unwrap().unwrap();
    assert_eq!(location.name, "caf\u{e9} 1");
    assert_eq!(location.name.chars().count(), 6);
}

#[test]
fn name_that_is_no_text_fails_the_slot() {
    let name: [u8; 7] = [b'A', 0xff, b'C', 0, 0, 0, 0];
    assert_eq!(
        waypoint_from_slot(&slot(1, &name, 1.0, 2.0, 3.0)),
        Err(DecodeError { field: DecodeField::WaypointName, offset: 1, value: b'A' })
    );
}

#[test]
fn name_cut_inside_a_character_fails_the_slot() {
    let name: [u8; 7] = [b'a', b'b', b'c', b'd', b'e', b'f', 0xc3];
    assert!(waypoint_from_slot(&slot(1, &name, 0.0, 0.0, 0.0)).is_err());
}

#[test]
fn overlong_and_surrogate_encodings_are_no_text() {
    let overlong: [u8; 7] = [0xc0, 0x80, 0, 0, 0, 0, 0];
    let surrogate: [u8; 7] = [0xed, 0xa0, 0x80, 0, 0, 0, 0];
    let lone_continuation: [u8; 7] = [0x80, 0, 0, 0, 0, 0, 0];
    for name in [overlong, surrogate, lone_continuation] {
        assert_eq!(
            waypoint_from_slot(&slot(1, &name, 0.0, 0.0, 0.0)),
            Err(DecodeError { field: DecodeField::WaypointName, offset: 1, value: name[0] })
        );
    }
}

#[test]
fn name_of_an_unused_slot_is_not_looked_at() {
    let name: [u8; 7] = [0xff; 7];
    assert_eq!(waypoint_from_slot(&slot(0, &name, 1.0, 2.0, 3.0)), Ok(None));
}

#[test]
fn empty_table_has_thirty_absent_slots() {
    let slots = waypoints_from_buf([0u8; 600]).unwrap();
    assert_eq!(slots.len(), 30);
    assert!(slots.iter().all(|s| s.is_none()));
}

#[test]
fn table_with_slots_zero_and_five_used() {
    let buf = table(&[
        (0, slot(1, b"HOME\0\0\0", 1.0, 2.0, 3.0)),
        (5, slot(7, b"FIELD-B", -4.0, 5.5, 0.0)),
    ]);
    let slots = waypoints_from_buf(buf).unwrap();
    assert_eq!(slots.len(), 30);
    for (i, s) in slots.iter().enumerate() {
        assert_eq!(s.is_some(), i == 0 || i == 5, "slot {}", i);
    }
    assert_eq!(
        slots[0],
        Some(Location {
            name: String::from("HOME\0\0\0"),
            x: bits(1.0),
            y: bits(2.0),
            z: bits(3.0),
        })
    );
    assert_eq!(
        slots[5],
        Some(Location {
            name: String::from("FIELD-B"),
            x: bits(-4.0),
            y: bits(5.5),
            z: bits(0.0),
        })
    );
}

#[test]
fn last_slot_is_decoded_too() {
    let buf = table(&[(29, slot(1, b"LAST\0\0\0", 9.0, 8.0, 7.0))]);
    let slots = waypoints_from_buf(buf).unwrap();
    assert_eq!(slots[29].as_ref().map(|l| l.name.as_str()), Some("LAST\0\0\0"));
    assert_eq!(slots[29].as_ref().map(|l| f32::from_bits(l.z.bits)), Some(7.0));
    assert!(slots[..29].iter().all(|s| s.is_none()));
}

#[test]
fn one_bad_name_fails_the_whole_table() {
    let bad: [u8; 7] = [0xfe, b'x', 0, 0, 0, 0, 0];
    let buf = table(&[
        (0, slot(1, b"HOME\0\0\0", 1.0, 2.0, 3.0)),
        (3, slot(1, &bad, 0.0, 0.0, 0.0)),
    ]);
    assert_eq!(
        waypoints_from_buf(buf),
        Err(DecodeError { field: DecodeField::WaypointName, offset: 61, value: 0xfe })
    );
}

#[test]
fn first_bad_slot_is_the_one_reported() {
    let bad_a: [u8; 7] = [b'a', 0x80, 0, 0, 0, 0, 0];
    let bad_b: [u8; 7] = [0xff, 0, 0, 0, 0, 0, 0];
    let buf = table(&[(12, slot(1, &bad_b, 0.0, 0.0, 0.0)), (7, slot(1, &bad_a, 0.0, 0.0, 0.0))]);
    assert_eq!(
        waypoints_from_buf(buf),
        Err(DecodeError { field: DecodeField::WaypointName, offset: 141, value: b'a' })
    );
}

#[test]
fn bad_name_in_an_unused_slot_fails_nothing() {
    let bad: [u8; 7] = [0xff; 7];
    let buf = table(&[(4, slot(0, &bad, 1.0, 1.0, 1.0))]);
    let slots = waypoints_from_buf(buf).unwrap();
    assert!(slots.iter().all(|s| s.is_none()));
}

#[test]
fn default_location_is_the_unnamed_origin() {
    let location = Location::default();
    assert_eq!(location.name, "");
    assert_eq!((location.x.bits, location.y.bits, location.z.bits), (0, 0, 0));
}
