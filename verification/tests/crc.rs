use preflight::crc::{calc_crc, check_crc, checksum, crc_init, CRC_POLY};

fn link_table() -> [u8; 256] {
    crc_init(CRC_POLY)
}

/// A small generator of bytes, the same on every run.
fn sample_bytes(seed: u32, len: usize) -> Vec<u8> {
    let mut state = seed;
    let mut out = Vec::with_capacity(len);
    for _ in 0..len {
        state = state.wrapping_mul(1_664_525).wrapping_add(1_013_904_223);
        out.push((state >> 24) as u8);
    }
    out
}

fn sealed(lut: &[u8; 256], data: &[u8]) -> Vec<u8> {
    let mut frame = data.to_vec();
    frame.push(checksum(lut, data));
    frame
}

/// Counts the single-bit changes of `frame` that still pass the check.
fn undetected_bit_flips(lut: &[u8; 256], frame: &[u8]) -> usize {
    let mut undetected = 0;
    let mut damaged = frame.to_vec();
    for at in 0..frame.len() {
        for bit in 0..8 {
            damaged[at] = frame[at] ^ (1 << bit);
            if check_crc(lut, &damaged) {
                undetected += 1;
            }
        }
        damaged[at] = frame[at];
    }
    undetected
}

#[test]
fn polynomial_is_0xab() {
    assert_eq!(CRC_POLY, 0xab);
}

#[test]
fn table_matches_reference_entries() {
    let lut = link_table();
    assert_eq!(lut[0x00], 0x00);
    assert_eq!(lut[0x01], 0xab);
    assert_eq!(lut[0x02], 0xfd);
    assert_eq!(lut[0x03], 0x56);
    assert_eq!(lut[0x7f], 0xd5);
    assert_eq!(lut[0x80], 0x7f);
    assert_eq!(lut[0xab], 0xfe);
    assert_eq!(lut[0xff], 0xaa);
}

#[test]
fn table_is_the_same_on_every_call() {
    assert_eq!(link_table(), link_table());
}

#[test]
fn table_entry_follows_the_shift_rule() {
    for poly in [0x07u8, 0x31, 0xab, 0xd5, 0x00, 0xff] {
        let lut = crc_init(poly);
        for i in 0..256usize {
            let mut crc = i as u8;
            for _ in 0..8 {
                crc = (crc << 1) ^ (if crc & 0x80 != 0 { poly } else { 0 });
            }
            assert_eq!(lut[i], crc, "poly {:#x}, index {}", poly, i);
        }
    }
}

#[test]
fn first_entries_are_zero_and_the_polynomial() {
    for poly in 0..=255u8 {
        let lut = crc_init(poly);
        assert_eq!(lut[0], 0);
        assert_eq!(lut[1], poly);
    }
}

#[test]
fn link_table_holds_every_byte_once() {
    let lut = link_table();
    let mut seen = [false; 256];
    for value in lut {
        assert!(!seen[value as usize]);
        seen[value as usize] = true;
    }
}

#[test]
fn checksum_of_nothing_is_zero() {
    let lut = link_table();
    assert_eq!(checksum(&lut, &[]), 0);
    assert_eq!(calc_crc(&lut, &[1, 2, 3], 0), 0);
}

#[test]
fn checksum_of_one_byte_is_its_table_entry() {
    let lut = link_table();
    for byte in 0..=255u8 {
        assert_eq!(checksum(&lut, &[byte]), lut[byte as usize]);
    }
}

#[test]
fn checksum_of_known_sequences() {
    let lut = link_table();
    assert_eq!(checksum(&lut, b"123456789"), 0x64);
    assert_eq!(checksum(&lut, &[10, 1]), 0x0b);
    assert_eq!(checksum(&lut, &[11, 2]), 0xa3);
    assert_eq!(checksum(&lut, &[0x0f, 0x01, 0x3f, 0x00, 0x00, 0x00]), 0xce);
}

#[test]
fn calc_crc_covers_only_the_first_size_bytes() {
    let lut = link_table();
    let data = [10u8, 1, 77, 78, 79];
    assert_eq!(calc_crc(&lut, &data, 2), 0x0b);
    assert_eq!(calc_crc(&lut, &data, 1), 0x5f);
    assert_eq!(calc_crc(&lut, &data, 5), checksum(&lut, &data));
}

#[test]
fn calc_crc_takes_up_to_255_bytes() {
    let lut = link_table();
    let data = sample_bytes(11, 300);
    assert_eq!(calc_crc(&lut, &data, 255), checksum(&lut, &data[..255]));
}

#[test]
fn check_refuses_an_empty_frame() {
    assert!(!check_crc(&link_table(), &[]));
}

#[test]
fn check_of_a_lone_byte_asks_for_zero() {
    let lut = link_table();
    assert!(check_crc(&lut, &[0]));
    assert!(!check_crc(&lut, &[1]));
}

#[test]
fn appended_checksum_passes_for_all_short_sequences() {
    let lut = link_table();
    assert!(check_crc(&lut, &sealed(&lut, &[])));
    for a in 0..=255u8 {
        assert!(check_crc(&lut, &sealed(&lut, &[a])));
        for b in 0..=255u8 {
            assert!(check_crc(&lut, &sealed(&lut, &[a, b])));
        }
    }
}

#[test]
fn appended_checksum_passes_for_sampled_long_sequences() {
    let lut = link_table();
    for seed in 0..40u32 {
        let data = sample_bytes(seed, 30 + 17 * seed as usize);
        assert!(check_crc(&lut, &sealed(&lut, &data)));
    }
}

#[test]
fn appended_checksum_passes_under_any_table() {
    for poly in [0x00u8, 0x02, 0x07, 0x80] {
        let lut = crc_init(poly);
        let data = sample_bytes(poly as u32, 50);
        assert!(check_crc(&lut, &sealed(&lut, &data)));
    }
}

#[test]
fn every_bit_flip_fails_for_all_short_sequences() {
    let lut = link_table();
    assert_eq!(undetected_bit_flips(&lut, &sealed(&lut, &[])), 0);
    for a in 0..=255u8 {
        assert_eq!(undetected_bit_flips(&lut, &sealed(&lut, &[a])), 0);
        for b in (0..=255u8).step_by(3) {
            assert_eq!(undetected_bit_flips(&lut, &sealed(&lut, &[a, b])), 0);
        }
    }
}

#[test]
fn every_bit_flip_fails_for_sampled_long_sequences() {
    let lut = link_table();
    for seed in 0..8u32 {
        let data = sample_bytes(100 + seed, 600);
        assert_eq!(undetected_bit_flips(&lut, &sealed(&lut, &data)), 0);
    }
}

#[test]
fn changed_byte_changes_the_checksum() {
    let lut = link_table();
    let data = sample_bytes(5, 40);
    let crc = checksum(&lut, &data);
    for at in 0..data.len() {
        let mut changed = data.clone();
        for byte in 0..=255u8 {
            if byte != data[at] {
                changed[at] = byte;
                assert_ne!(checksum(&lut, &changed), crc);
            }
        }
    }
}
