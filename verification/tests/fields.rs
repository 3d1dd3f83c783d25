use fzrom::car::CAR_DATA_END;
use fzrom::car::DAMAGE_DATA_SIZE;
use fzrom::car::DAMAGE_DATA_1_START;
use fzrom::car::DAMAGE_DATA_2_START;
use fzrom::car::DAMAGE_DATA_3_START;
use fzrom::car::DAMAGE_DATA_4_START;
use fzrom::car::DAMAGE_DATA_5_START;
use fzrom::car::DAMAGE_TIME_START;
use fzrom::car::HANDLE_DATA_START;
use fzrom::car::ARRAY_SIZE_19;
use fzrom::car::MAXIMUM_SPEED_START;
use fzrom::car::SLIP_VECTOR_START;
use fzrom::car::get_carstats;
use fzrom::map::MapTable;
use fzrom::map::map_table;

#[test]
fn word_fields_use_per_car_stride_of_two() {
    let mut rom = vec![0u8; CAR_DATA_END];
    // car 3 sits two strides past the base
    let start = MAXIMUM_SPEED_START + 2 * 2;
    rom[start] = 0xCD;
    rom[start + 1] = 0xAB;
    let stats = get_carstats(&rom, 3).expect("car 3 must decode");
    assert_eq!(stats.maximum_speed, 0xABCD);
}

#[test]
fn byte_fields_use_per_car_stride_of_one() {
    let mut rom = vec![0u8; CAR_DATA_END];
    rom[SLIP_VECTOR_START + 3] = 0x42;
    rom[DAMAGE_TIME_START + 3] = 0x3C;
    let stats = get_carstats(&rom, 4).expect("car 4 must decode");
    assert_eq!(stats.slip_vector, 0x42);
    assert_eq!(stats.damage_time, 0x3C);
}

#[test]
fn damage_data_gathers_five_causes_from_separate_bases() {
    let mut rom = vec![0u8; CAR_DATA_END];
    rom[DAMAGE_DATA_1_START + 1] = 10;
    rom[DAMAGE_DATA_2_START + 1] = 20;
    rom[DAMAGE_DATA_3_START + 1] = 30;
    rom[DAMAGE_DATA_4_START + 1] = 40;
    rom[DAMAGE_DATA_5_START + 1] = 50;
    let stats = get_carstats(&rom, 2).expect("car 2 must decode");
    assert_eq!(stats.damage_data.len(), DAMAGE_DATA_SIZE);
    assert_eq!(stats.damage_data, vec![10, 20, 30, 40, 50]);
}

#[test]
fn handle_data_is_indexed_per_car() {
    let mut rom = vec![0u8; CAR_DATA_END];
    for car in 1usize..=4 {
        let start = HANDLE_DATA_START + (car - 1) * ARRAY_SIZE_19;
        for i in 0..ARRAY_SIZE_19 {
            rom[start + i] = (car * 16 + i) as u8;
        }
    }
    for car in 1usize..=4 {
        let stats = get_carstats(&rom, car).expect("valid car index must decode");
        let expected: Vec<u8> = (0..ARRAY_SIZE_19).map(|i| (car * 16 + i) as u8).collect();
        assert_eq!(stats.handle_data, expected);
    }
}

#[test]
fn map_table_holds_the_static_schema() {
    assert_eq!(map_table(1, 0), MapTable { start: 0x19F80, len: 0x200 });
    assert_eq!(map_table(2, 2), MapTable { start: 0x1FA00, len: 0x5C00 });
    assert_eq!(map_table(8, 3), MapTable { start: 0x68000, len: 0x50C0 });
    // slots past a world's last table are unused
    assert_eq!(map_table(3, 3), MapTable { start: 0x0, len: 0x0 });
    assert_eq!(map_table(7, 3), MapTable { start: 0x0, len: 0x0 });
}

#[test]
fn each_world_grid_start_differs() {
    let mut starts: Vec<usize> = (1usize..=8).map(|w| map_table(w, 0).start).collect();
    starts.sort();
    starts.dedup();
    assert_eq!(starts.len(), 8);
}
