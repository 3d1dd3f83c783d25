use fzrom::DecodeError;
use fzrom::MAX_ROMSIZE;
use fzrom::fetch_byte;
use fzrom::fetch_word;
use fzrom::car::ACCEL_START;
use fzrom::car::ARRAY_SIZE_19;
use fzrom::car::ARRAY_SIZE_31;
use fzrom::car::ARRAY_SIZE_32;
use fzrom::car::BRAKE_DATA_START;
use fzrom::car::CAR_DATA_END;
use fzrom::car::DASH_HANDLE_START;
use fzrom::car::SLIDE_DATA_START;
use fzrom::car::get_carstats;
use fzrom::map::get_world_ptr;
use fzrom::map::map_table;

/// A full-capacity image whose byte at `i` is a cheap pseudo-random
/// function of `i`, so that distinct offsets almost always differ.
fn patterned_image() -> Vec<u8> {
    let mut rom = vec![0u8; MAX_ROMSIZE];
    for i in 0..rom.len() {
        rom[i] = ((i.wrapping_mul(7).wrapping_add(i >> 8)) % 251) as u8;
    }
    rom
}

#[test]
fn carstats_succeeds_and_shares_fields_across_all_cars() {
    let rom = patterned_image();
    let all: Vec<_> = (1usize..=4)
        .map(|car| get_carstats(&rom, car).expect("valid car index must decode"))
        .collect();
    for s in &all[1..] {
        assert_eq!(s.brake_data, all[0].brake_data);
        assert_eq!(s.slide_data, all[0].slide_data);
        assert_eq!(s.dash_handle, all[0].dash_handle);
        assert_eq!(s.dash_handle_over, all[0].dash_handle_over);
    }
    assert_eq!(all[0].brake_data, rom[BRAKE_DATA_START..BRAKE_DATA_START + ARRAY_SIZE_32].to_vec());
    assert_eq!(all[0].slide_data, rom[SLIDE_DATA_START..SLIDE_DATA_START + ARRAY_SIZE_31].to_vec());
    assert_eq!(all[0].dash_handle, rom[DASH_HANDLE_START..DASH_HANDLE_START + ARRAY_SIZE_32].to_vec());
    assert_eq!(all[0].dash_handle_over, rom[DASH_HANDLE_START + ARRAY_SIZE_32]);
}

#[test]
fn carstats_rejects_invalid_index_without_reading() {
    // an empty buffer: any read would fail, so rejection proves none happens
    let rom: Vec<u8> = Vec::new();
    for car in [0usize, 5, 6, 100] {
        match get_carstats(&rom, car) {
            Err(e) => assert_eq!(e, DecodeError::InvalidIndex),
            Ok(_) => panic!("car index {} must be rejected", car),
        }
    }
}

#[test]
fn world_ptr_matches_table_region_for_every_world() {
    let rom = patterned_image();
    for world in 1usize..=8 {
        let table = map_table(world, 0);
        let w = get_world_ptr(&rom, world).expect("valid world index must decode");
        assert_eq!(w.0.len(), 16);
        for row in 0..16 {
            assert_eq!(w.0[row].len(), 32);
            for col in 0..32 {
                assert_eq!(w.0[row][col], rom[table.start + row * 32 + col]);
            }
        }
    }
}

#[test]
fn world_ptr_rejects_invalid_index_without_reading() {
    let rom: Vec<u8> = Vec::new();
    for world in [0usize, 9, 10, 255] {
        match get_world_ptr(&rom, world) {
            Err(e) => assert_eq!(e, DecodeError::InvalidIndex),
            Ok(_) => panic!("world index {} must be rejected", world),
        }
    }
}

#[test]
fn word_combines_bytes_little_endian() {
    let mut rom = vec![0u8; 64];
    rom[0] = 0x34;
    rom[1] = 0x12;
    rom[10] = 0xFF;
    rom[11] = 0x00;
    rom[20] = 0x00;
    rom[21] = 0xFF;
    rom[30] = 0xCD;
    rom[31] = 0xAB;
    for start in [0usize, 10, 20, 30] {
        let got = fetch_word(&rom, start).unwrap();
        let expected = (rom[start] as u16) | ((rom[start + 1] as u16) << 8);
        assert_eq!(got, expected);
    }
    assert_eq!(fetch_word(&rom, 0).unwrap(), 0x1234);
    assert_eq!(fetch_word(&rom, 30).unwrap(), 0xABCD);
}

#[test]
fn byte_fetch_checks_declared_capacity_not_real_length() {
    // a buffer much shorter than the declared capacity
    let rom = vec![0xEEu8; 16];
    // an offset past the declared capacity is caught whatever the length
    assert_eq!(fetch_byte(&rom, MAX_ROMSIZE + 1), Err(DecodeError::OutOfRange));
    assert_eq!(fetch_byte(&rom, usize::MAX), Err(DecodeError::OutOfRange));
    // an offset inside the real length is served
    assert_eq!(fetch_byte(&rom, 15), Ok(0xEE));
    // an offset between the real length and the declared capacity is NOT
    // caught by the capacity check: the read would go out of bounds, so the
    // precondition of fetch_byte rules that case out instead.
}

#[test]
fn word_fetch_fails_when_high_byte_is_past_capacity() {
    let rom = vec![0u8; 16];
    // the high byte at MAX_ROMSIZE + 1 fails the capacity check first
    assert_eq!(fetch_word(&rom, MAX_ROMSIZE), Err(DecodeError::OutOfRange));
    assert_eq!(fetch_word(&rom, MAX_ROMSIZE + 7), Err(DecodeError::OutOfRange));
}

#[test]
fn car_two_acceleration_reads_exact_literal_bytes() {
    let mut rom = vec![0u8; CAR_DATA_END];
    // car 2's acceleration curve starts one stride past ACCEL_START
    let start = ACCEL_START + ARRAY_SIZE_19;
    let literal: [u8; 19] = [
        0x01, 0x02, 0x03, 0x05, 0x08, 0x0D, 0x15, 0x22, 0x37, 0x59, 0x90, 0xE9, 0x79, 0x62, 0xDB,
        0x3D, 0x18, 0x55, 0x6D,
    ];
    rom[start..start + 19].copy_from_slice(&literal);
    let stats = get_carstats(&rom, 2).expect("car 2 must decode");
    assert_eq!(stats.accele_data, literal.to_vec());
}

#[test]
fn world_one_grid_reproduces_repeating_pattern_row_major() {
    let mut rom = vec![0u8; MAX_ROMSIZE];
    let table = map_table(1, 0);
    for i in 0..table.len {
        rom[table.start + i] = (i % 256) as u8;
    }
    let w = get_world_ptr(&rom, 1).expect("world 1 must decode");
    for row in 0..16 {
        for col in 0..32 {
            assert_eq!(w.0[row][col], ((row * 32 + col) % 256) as u8);
        }
    }
}
