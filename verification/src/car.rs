//! Per-vehicle statistics decoder.
//!
//! Each vehicle's record is read from fixed absolute offsets; indexed
//! fields add a per-vehicle stride of the field's own width (1 byte for
//! byte fields, 2 for word fields, the array length for array fields).
//! Three fields — brake data, slide data and dash handle — are shared
//! game-wide and read from one fixed offset whatever the vehicle index.

use vstd::prelude::*;

use crate::DecodeError;
use crate::fetch_byte;
use crate::fetch_word;
use crate::word_le;

verus! {

/// Length of the acceleration and handle curves.
pub const ARRAY_SIZE_19: usize = 0x13;

/// Length of the slide curve.
pub const ARRAY_SIZE_31: usize = 0x1F;

/// Length of the brake and dash-handle curves.
pub const ARRAY_SIZE_32: usize = 0x20;

/// Number of damage causes: crash, graze, on wall, out of course, bomb.
pub const DAMAGE_DATA_SIZE: usize = 0x5;

pub const ACCEL_START: usize = 0x14A4A;
pub const BRAKE_DATA_START: usize = 0x14A96;
pub const DAMAGE_DATA_1_START: usize = 0x7AB1;
pub const DAMAGE_DATA_2_START: usize = 0x7AB5;
pub const DAMAGE_DATA_3_START: usize = 0x7AB9;
pub const DAMAGE_DATA_4_START: usize = 0x7ABD;
pub const DAMAGE_DATA_5_START: usize = 0x7AC1;
pub const DAMAGE_SPEED_START: usize = 0x7ACD;
pub const DAMAGE_TIME_START: usize = 0x7AED;
pub const DASH_HANDLE_START: usize = 0x149F7;
pub const ENEMY_SPIN_INIT_START: usize = 0x7AE5;
pub const FRICTION_DATA_START: usize = 0x7AA9;
pub const GRIP_LIMIT_START: usize = 0x7AA1;
pub const GRIP_VECSPD_START: usize = 0x7A85;
pub const HANDLE_DATA_START: usize = 0x149AB;
pub const MAXIMUM_SPEED_START: usize = 0x7A91;
pub const MYCAR_SPIN_INIT_START: usize = 0x7ADD;
pub const POWER_DOWN_SENS_START: usize = 0x7AD5;
pub const REDUCE_DATA_START: usize = 0x7AAD;
pub const REPAIR_SPEED_START: usize = 0x7AC5;
pub const SLIDE_DATA_START: usize = 0x14A18;
pub const SLIP_SPEED_START: usize = 0x7A99;
pub const SLIP_VECTOR_START: usize = 0x7A81;
pub const SLIP_VECSPD1_START: usize = 0x7A89;
pub const SLIP_VECSPD2_START: usize = 0x7A8D;

/// One past the highest offset any vehicle field reads: the end of the
/// shared brake curve, which sits last in the image.
pub const CAR_DATA_END: usize = BRAKE_DATA_START + ARRAY_SIZE_32;

/// One vehicle's statistics, assembled from the image by `get_carstats`.
#[derive(Clone, Debug)]
pub struct CarStats {
    pub accele_data: Vec<u8>,
    /// Shared game-wide: same bytes for every vehicle.
    pub brake_data: Vec<u8>,
    pub slip_vector: u8,
    pub grip_vecspd: u8,
    pub slip_vecspd1: u8,
    pub slip_vecspd2: u8,
    pub maximum_speed: u16,
    pub slip_speed: u16,
    pub grip_limit: u16,
    pub friction_data: u8,
    pub reduce_data: u8,
    /// One byte per damage cause: crash, graze, on wall, out of course, bomb.
    pub damage_data: Vec<u8>,
    pub repair_speed: u16,
    pub damage_speed: u16,
    pub power_down_sens: u16,
    pub mycar_spin_init: u16,
    pub enemy_spin_init: u16,
    /// In frames at 60 frames per second.
    pub damage_time: u8,
    pub handle_data: Vec<u8>,
    /// Shared game-wide: same bytes for every vehicle.
    pub dash_handle: Vec<u8>,
    /// The 33rd dash-handle byte, kept apart from the 32-byte curve.
    pub dash_handle_over: u8,
    /// Shared game-wide: same bytes for every vehicle.
    pub slide_data: Vec<u8>,
}

/// Valid vehicle indices run from 1 to 4.
pub open spec fn car_in_range(car: usize) -> bool {
    1 <= car <= 4
}

/// What every field of a decoded record holds, in terms of the image bytes
/// and the offset schema. The brake, slide and dash-handle clauses do not
/// mention `car`: those fields are shared game-wide.
pub open spec fn car_stats_matches(rom: Seq<u8>, car: int, s: CarStats) -> bool {
    &&& s.accele_data@ == rom.subrange(
        ACCEL_START + (car - 1) * ARRAY_SIZE_19,
        ACCEL_START + car * ARRAY_SIZE_19,
    )
    &&& s.brake_data@ == rom.subrange(
        BRAKE_DATA_START as int,
        BRAKE_DATA_START + ARRAY_SIZE_32,
    )
    &&& s.slip_vector == rom[SLIP_VECTOR_START + (car - 1)]
    &&& s.grip_vecspd == rom[GRIP_VECSPD_START + (car - 1)]
    &&& s.slip_vecspd1 == rom[SLIP_VECSPD1_START + (car - 1)]
    &&& s.slip_vecspd2 == rom[SLIP_VECSPD2_START + (car - 1)]
    &&& s.maximum_speed == word_le(rom, MAXIMUM_SPEED_START + (car - 1) * 2)
    &&& s.slip_speed == word_le(rom, SLIP_SPEED_START + (car - 1) * 2)
    &&& s.grip_limit == word_le(rom, GRIP_LIMIT_START + (car - 1) * 2)
    &&& s.friction_data == rom[FRICTION_DATA_START + (car - 1)]
    &&& s.reduce_data == rom[REDUCE_DATA_START + (car - 1)]
    &&& s.damage_data@ == seq![
        rom[DAMAGE_DATA_1_START + (car - 1)],
        rom[DAMAGE_DATA_2_START + (car - 1)],
        rom[DAMAGE_DATA_3_START + (car - 1)],
        rom[DAMAGE_DATA_4_START + (car - 1)],
        rom[DAMAGE_DATA_5_START + (car - 1)],
    ]
    &&& s.repair_speed == word_le(rom, REPAIR_SPEED_START + (car - 1) * 2)
    &&& s.damage_speed == word_le(rom, DAMAGE_SPEED_START + (car - 1) * 2)
    &&& s.power_down_sens == word_le(rom, POWER_DOWN_SENS_START + (car - 1) * 2)
    &&& s.mycar_spin_init == word_le(rom, MYCAR_SPIN_INIT_START + (car - 1) * 2)
    &&& s.enemy_spin_init == word_le(rom, ENEMY_SPIN_INIT_START + (car - 1) * 2)
    &&& s.damage_time == rom[DAMAGE_TIME_START + (car - 1)]
    &&& s.handle_data@ == rom.subrange(
        HANDLE_DATA_START + (car - 1) * ARRAY_SIZE_19,
        HANDLE_DATA_START + car * ARRAY_SIZE_19,
    )
    &&& s.dash_handle@ == rom.subrange(
        DASH_HANDLE_START as int,
        DASH_HANDLE_START + ARRAY_SIZE_32,
    )
    &&& s.dash_handle_over == rom[DASH_HANDLE_START + ARRAY_SIZE_32]
    &&& s.slide_data@ == rom.subrange(
        SLIDE_DATA_START as int,
        SLIDE_DATA_START + ARRAY_SIZE_31,
    )
}

/// The brake, slide and dash-handle data are shared game-wide: any two
/// records decoded from the same image agree on them byte for byte,
/// whatever their vehicle indices.
pub proof fn lemma_shared_fields_equal(
    rom: Seq<u8>,
    car_a: int,
    car_b: int,
    a: CarStats,
    b: CarStats,
)
    requires
        1 <= car_a <= 4,
        1 <= car_b <= 4,
        car_stats_matches(rom, car_a, a),
        car_stats_matches(rom, car_b, b),
    ensures
        a.brake_data@ == b.brake_data@,
        a.slide_data@ == b.slide_data@,
        a.dash_handle@ == b.dash_handle@,
        a.dash_handle_over == b.dash_handle_over,
{
}

fn validate_car(car: usize) -> (r: Result<(), DecodeError>)
    ensures
        r is Ok <==> car_in_range(car),
        !car_in_range(car) ==> r == Err::<(), DecodeError>(DecodeError::InvalidIndex),
{
    if car < 1 || car > 4 {
        return Err(DecodeError::InvalidIndex);
    }
    Ok(())
}

/// Copies `count` bytes of the image starting at `start`. The caller keeps
/// the range inside the buffer; there is no capacity check here.
fn fetch_bytes(rom: &[u8], start: usize, count: usize) -> (r: Vec<u8>)
    requires
        start + count <= rom@.len(),
    ensures
        r@ == rom@.subrange(start as int, start + count),
{
    let n: usize = rom.len();
    let mut out: Vec<u8> = Vec::new();
    let mut i: usize = 0;
    while i < count
        invariant
            start + count <= n == rom@.len(),
            i <= count,
            out@ == rom@.subrange(start as int, start + i),
        decreases count - i,
    {
        out.push(rom[start + i]);
        proof {
            assert(rom@.subrange(start as int, start + i + 1) =~= rom@.subrange(
                start as int,
                start + i,
            ).push(rom@[start + i]));
        }
        i = i + 1;
    }
    out
}

/// Decodes the full record for one vehicle. Succeeds exactly on vehicle
/// indices 1 to 4 and then pins every field to the image bytes that the
/// offset schema names; any other index is rejected before any read.
pub fn get_carstats(rom: &[u8], car: usize) -> (r: Result<CarStats, DecodeError>)
    requires
        car_in_range(car) ==> CAR_DATA_END <= rom@.len(),
    ensures
        r is Ok <==> car_in_range(car),
        r matches Ok(s) ==> car_stats_matches(rom@, car as int, s),
        !car_in_range(car) ==> r == Err::<CarStats, DecodeError>(DecodeError::InvalidIndex),
{
    validate_car(car)?;

    let stats = CarStats {
        accele_data: get_accel_data(rom, car)?,
        brake_data: get_brake_data(rom)?,
        slip_vector: get_slip_vector(rom, car)?,
        grip_vecspd: get_grip_vecspd(rom, car)?,
        slip_vecspd1: get_slip_vecspd1(rom, car)?,
        slip_vecspd2: get_slip_vecspd2(rom, car)?,
        maximum_speed: get_maximum_speed(rom, car)?,
        slip_speed: get_slip_speed(rom, car)?,
        grip_limit: get_grip_limit(rom, car)?,
        friction_data: get_friction_data(rom, car)?,
        reduce_data: get_reduce_data(rom, car)?,
        damage_data: get_damage_data(rom, car)?,
        repair_speed: get_repair_speed(rom, car)?,
        damage_speed: get_damage_speed(rom, car)?,
        power_down_sens: get_power_down_sens(rom, car)?,
        mycar_spin_init: get_mycar_spin_init(rom, car)?,
        enemy_spin_init: get_enemy_spin_init(rom, car)?,
        damage_time: get_damage_time(rom, car)?,
        handle_data: get_handle_data(rom, car)?,
        dash_handle: get_dash_handle(rom)?,
        dash_handle_over: get_dash_handle_over(rom)?,
        slide_data: get_slide_data(rom)?,
    };
    Ok(stats)
}

fn get_accel_data(rom: &[u8], car: usize) -> (r: Result<Vec<u8>, DecodeError>)
    requires
        car_in_range(car) ==> ACCEL_START + car * ARRAY_SIZE_19 <= rom@.len(),
    ensures
        r is Ok <==> car_in_range(car),
        r matches Ok(d) ==> d@ == rom@.subrange(
            ACCEL_START + (car - 1) * ARRAY_SIZE_19,
            ACCEL_START + car * ARRAY_SIZE_19,
        ),
        !car_in_range(car) ==> r == Err::<Vec<u8>, DecodeError>(DecodeError::InvalidIndex),
{
    validate_car(car)?;
    // data for "car 0" (enemy acceleration) sits just before ACCEL_START,
    // so index 1 reads from ACCEL_START itself
    let start: usize = ACCEL_START + ((car - 1) * ARRAY_SIZE_19);
    Ok(fetch_bytes(rom, start, ARRAY_SIZE_19))
}

fn get_brake_data(rom: &[u8]) -> (r: Result<Vec<u8>, DecodeError>)
    requires
        BRAKE_DATA_START + ARRAY_SIZE_32 <= rom@.len(),
    ensures
        r matches Ok(d) && d@ == rom@.subrange(
            BRAKE_DATA_START as int,
            BRAKE_DATA_START + ARRAY_SIZE_32,
        ),
{
    Ok(fetch_bytes(rom, BRAKE_DATA_START, ARRAY_SIZE_32))
}

fn get_damage_data(rom: &[u8], car: usize) -> (r: Result<Vec<u8>, DecodeError>)
    requires
        car_in_range(car) ==> DAMAGE_DATA_5_START + (car - 1) < rom@.len(),
    ensures
        r is Ok <==> car_in_range(car),
        r matches Ok(d) ==> d@ == seq![
            rom@[DAMAGE_DATA_1_START + (car - 1)],
            rom@[DAMAGE_DATA_2_START + (car - 1)],
            rom@[DAMAGE_DATA_3_START + (car - 1)],
            rom@[DAMAGE_DATA_4_START + (car - 1)],
            rom@[DAMAGE_DATA_5_START + (car - 1)],
        ],
        !car_in_range(car) ==> r == Err::<Vec<u8>, DecodeError>(DecodeError::InvalidIndex),
{
    validate_car(car)?;

    let mut data: Vec<u8> = Vec::new();
    data.push(fetch_byte(rom, DAMAGE_DATA_1_START + (car - 1))?);
    data.push(fetch_byte(rom, DAMAGE_DATA_2_START + (car - 1))?);
    data.push(fetch_byte(rom, DAMAGE_DATA_3_START + (car - 1))?);
    data.push(fetch_byte(rom, DAMAGE_DATA_4_START + (car - 1))?);
    data.push(fetch_byte(rom, DAMAGE_DATA_5_START + (car - 1))?);
    proof {
        assert(data@ =~= seq![
            rom@[DAMAGE_DATA_1_START + (car - 1)],
            rom@[DAMAGE_DATA_2_START + (car - 1)],
            rom@[DAMAGE_DATA_3_START + (car - 1)],
            rom@[DAMAGE_DATA_4_START + (car - 1)],
            rom@[DAMAGE_DATA_5_START + (car - 1)],
        ]);
    }
    Ok(data)
}

fn get_damage_speed(rom: &[u8], car: usize) -> (r: Result<u16, DecodeError>)
    requires
        car_in_range(car) ==> DAMAGE_SPEED_START + (car - 1) * 2 + 1 < rom@.len(),
    ensures
        r is Ok <==> car_in_range(car),
        car_in_range(car) ==> r == Ok::<u16, DecodeError>(
            word_le(rom@, DAMAGE_SPEED_START + (car as int - 1) * 2),
        ),
        !car_in_range(car) ==> r == Err::<u16, DecodeError>(DecodeError::InvalidIndex),
{
    validate_car(car)?;

    let start: usize = DAMAGE_SPEED_START + ((car - 1) * 2);
    fetch_word(rom, start)
}

fn get_damage_time(rom: &[u8], car: usize) -> (r: Result<u8, DecodeError>)
    requires
        car_in_range(car) ==> DAMAGE_TIME_START + (car - 1) < rom@.len(),
    ensures
        r is Ok <==> car_in_range(car),
        car_in_range(car) ==> r == Ok::<u8, DecodeError>(rom@[DAMAGE_TIME_START + (car - 1)]),
        !car_in_range(car) ==> r == Err::<u8, DecodeError>(DecodeError::InvalidIndex),
{
    validate_car(car)?;

    fetch_byte(rom, DAMAGE_TIME_START + (car - 1))
}

fn get_dash_handle(rom: &[u8]) -> (r: Result<Vec<u8>, DecodeError>)
    requires
        DASH_HANDLE_START + ARRAY_SIZE_32 <= rom@.len(),
    ensures
        r matches Ok(d) && d@ == rom@.subrange(
            DASH_HANDLE_START as int,
            DASH_HANDLE_START + ARRAY_SIZE_32,
        ),
{
    Ok(fetch_bytes(rom, DASH_HANDLE_START, ARRAY_SIZE_32))
}

fn get_dash_handle_over(rom: &[u8]) -> (r: Result<u8, DecodeError>)
    requires
        DASH_HANDLE_START + ARRAY_SIZE_32 < rom@.len(),
    ensures
        r == Ok::<u8, DecodeError>(rom@[DASH_HANDLE_START + ARRAY_SIZE_32]),
{
    let start: usize = DASH_HANDLE_START + ARRAY_SIZE_32;
    fetch_byte(rom, start)
}

fn get_enemy_spin_init(rom: &[u8], car: usize) -> (r: Result<u16, DecodeError>)
    requires
        car_in_range(car) ==> ENEMY_SPIN_INIT_START + (car - 1) * 2 + 1 < rom@.len(),
    ensures
        r is Ok <==> car_in_range(car),
        car_in_range(car) ==> r == Ok::<u16, DecodeError>(
            word_le(rom@, ENEMY_SPIN_INIT_START + (car as int - 1) * 2),
        ),
        !car_in_range(car) ==> r == Err::<u16, DecodeError>(DecodeError::InvalidIndex),
{
    validate_car(car)?;

    let start: usize = ENEMY_SPIN_INIT_START + ((car - 1) * 2);
    fetch_word(rom, start)
}

fn get_friction_data(rom: &[u8], car: usize) -> (r: Result<u8, DecodeError>)
    requires
        car_in_range(car) ==> FRICTION_DATA_START + (car - 1) < rom@.len(),
    ensures
        r is Ok <==> car_in_range(car),
        car_in_range(car) ==> r == Ok::<u8, DecodeError>(rom@[FRICTION_DATA_START + (car - 1)]),
        !car_in_range(car) ==> r == Err::<u8, DecodeError>(DecodeError::InvalidIndex),
{
    validate_car(car)?;

    fetch_byte(rom, FRICTION_DATA_START + (car - 1))
}

fn get_grip_limit(rom: &[u8], car: usize) -> (r: Result<u16, DecodeError>)
    requires
        car_in_range(car) ==> GRIP_LIMIT_START + (car - 1) * 2 + 1 < rom@.len(),
    ensures
        r is Ok <==> car_in_range(car),
        car_in_range(car) ==> r == Ok::<u16, DecodeError>(
            word_le(rom@, GRIP_LIMIT_START + (car as int - 1) * 2),
        ),
        !car_in_range(car) ==> r == Err::<u16, DecodeError>(DecodeError::InvalidIndex),
{
    validate_car(car)?;

    let start: usize = GRIP_LIMIT_START + ((car - 1) * 2);
    fetch_word(rom, start)
}

fn get_grip_vecspd(rom: &[u8], car: usize) -> (r: Result<u8, DecodeError>)
    requires
        car_in_range(car) ==> GRIP_VECSPD_START + (car - 1) < rom@.len(),
    ensures
        r is Ok <==> car_in_range(car),
        car_in_range(car) ==> r == Ok::<u8, DecodeError>(rom@[GRIP_VECSPD_START + (car - 1)]),
        !car_in_range(car) ==> r == Err::<u8, DecodeError>(DecodeError::InvalidIndex),
{
    validate_car(car)?;

    fetch_byte(rom, GRIP_VECSPD_START + (car - 1))
}

fn get_handle_data(rom: &[u8], car: usize) -> (r: Result<Vec<u8>, DecodeError>)
    requires
        car_in_range(car) ==> HANDLE_DATA_START + car * ARRAY_SIZE_19 <= rom@.len(),
    ensures
        r is Ok <==> car_in_range(car),
        r matches Ok(d) ==> d@ == rom@.subrange(
            HANDLE_DATA_START + (car - 1) * ARRAY_SIZE_19,
            HANDLE_DATA_START + car * ARRAY_SIZE_19,
        ),
        !car_in_range(car) ==> r == Err::<Vec<u8>, DecodeError>(DecodeError::InvalidIndex),
{
    validate_car(car)?;

    let start: usize = HANDLE_DATA_START + ((car - 1) * ARRAY_SIZE_19);
    Ok(fetch_bytes(rom, start, ARRAY_SIZE_19))
}

fn get_maximum_speed(rom: &[u8], car: usize) -> (r: Result<u16, DecodeError>)
    requires
        car_in_range(car) ==> MAXIMUM_SPEED_START + (car - 1) * 2 + 1 < rom@.len(),
    ensures
        r is Ok <==> car_in_range(car),
        car_in_range(car) ==> r == Ok::<u16, DecodeError>(
            word_le(rom@, MAXIMUM_SPEED_START + (car as int - 1) * 2),
        ),
        !car_in_range(car) ==> r == Err::<u16, DecodeError>(DecodeError::InvalidIndex),
{
    validate_car(car)?;

    let start: usize = MAXIMUM_SPEED_START + ((car - 1) * 2);
    fetch_word(rom, start)
}

fn get_mycar_spin_init(rom: &[u8], car: usize) -> (r: Result<u16, DecodeError>)
    requires
        car_in_range(car) ==> MYCAR_SPIN_INIT_START + (car - 1) * 2 + 1 < rom@.len(),
    ensures
        r is Ok <==> car_in_range(car),
        car_in_range(car) ==> r == Ok::<u16, DecodeError>(
            word_le(rom@, MYCAR_SPIN_INIT_START + (car as int - 1) * 2),
        ),
        !car_in_range(car) ==> r == Err::<u16, DecodeError>(DecodeError::InvalidIndex),
{
    validate_car(car)?;

    let start: usize = MYCAR_SPIN_INIT_START + ((car - 1) * 2);
    fetch_word(rom, start)
}

fn get_power_down_sens(rom: &[u8], car: usize) -> (r: Result<u16, DecodeError>)
    requires
        car_in_range(car) ==> POWER_DOWN_SENS_START + (car - 1) * 2 + 1 < rom@.len(),
    ensures
        r is Ok <==> car_in_range(car),
        car_in_range(car) ==> r == Ok::<u16, DecodeError>(
            word_le(rom@, POWER_DOWN_SENS_START + (car as int - 1) * 2),
        ),
        !car_in_range(car) ==> r == Err::<u16, DecodeError>(DecodeError::InvalidIndex),
{
    validate_car(car)?;

    let start: usize = POWER_DOWN_SENS_START + ((car - 1) * 2);
    fetch_word(rom, start)
}

fn get_reduce_data(rom: &[u8], car: usize) -> (r: Result<u8, DecodeError>)
    requires
        car_in_range(car) ==> REDUCE_DATA_START + (car - 1) < rom@.len(),
    ensures
        r is Ok <==> car_in_range(car),
        car_in_range(car) ==> r == Ok::<u8, DecodeError>(rom@[REDUCE_DATA_START + (car - 1)]),
        !car_in_range(car) ==> r == Err::<u8, DecodeError>(DecodeError::InvalidIndex),
{
    validate_car(car)?;

    fetch_byte(rom, REDUCE_DATA_START + (car - 1))
}

fn get_repair_speed(rom: &[u8], car: usize) -> (r: Result<u16, DecodeError>)
    requires
        car_in_range(car) ==> REPAIR_SPEED_START + (car - 1) * 2 + 1 < rom@.len(),
    ensures
        r is Ok <==> car_in_range(car),
        car_in_range(car) ==> r == Ok::<u16, DecodeError>(
            word_le(rom@, REPAIR_SPEED_START + (car as int - 1) * 2),
        ),
        !car_in_range(car) ==> r == Err::<u16, DecodeError>(DecodeError::InvalidIndex),
{
    validate_car(car)?;

    let start: usize = REPAIR_SPEED_START + ((car - 1) * 2);
    fetch_word(rom, start)
}

fn get_slide_data(rom: &[u8]) -> (r: Result<Vec<u8>, DecodeError>)
    requires
        SLIDE_DATA_START + ARRAY_SIZE_31 <= rom@.len(),
    ensures
        r matches Ok(d) && d@ == rom@.subrange(
            SLIDE_DATA_START as int,
            SLIDE_DATA_START + ARRAY_SIZE_31,
        ),
{
    Ok(fetch_bytes(rom, SLIDE_DATA_START, ARRAY_SIZE_31))
}

fn get_slip_speed(rom: &[u8], car: usize) -> (r: Result<u16, DecodeError>)
    requires
        car_in_range(car) ==> SLIP_SPEED_START + (car - 1) * 2 + 1 < rom@.len(),
    ensures
        r is Ok <==> car_in_range(car),
        car_in_range(car) ==> r == Ok::<u16, DecodeError>(
            word_le(rom@, SLIP_SPEED_START + (car as int - 1) * 2),
        ),
        !car_in_range(car) ==> r == Err::<u16, DecodeError>(DecodeError::InvalidIndex),
{
    validate_car(car)?;

    let start: usize = SLIP_SPEED_START + ((car - 1) * 2);
    fetch_word(rom, start)
}

fn get_slip_vecspd1(rom: &[u8], car: usize) -> (r: Result<u8, DecodeError>)
    requires
        car_in_range(car) ==> SLIP_VECSPD1_START + (car - 1) < rom@.len(),
    ensures
        r is Ok <==> car_in_range(car),
        car_in_range(car) ==> r == Ok::<u8, DecodeError>(rom@[SLIP_VECSPD1_START + (car - 1)]),
        !car_in_range(car) ==> r == Err::<u8, DecodeError>(DecodeError::InvalidIndex),
{
    validate_car(car)?;

    fetch_byte(rom, SLIP_VECSPD1_START + (car - 1))
}

fn get_slip_vecspd2(rom: &[u8], car: usize) -> (r: Result<u8, DecodeError>)
    requires
        car_in_range(car) ==> SLIP_VECSPD2_START + (car - 1) < rom@.len(),
    ensures
        r is Ok <==> car_in_range(car),
        car_in_range(car) ==> r == Ok::<u8, DecodeError>(rom@[SLIP_VECSPD2_START + (car - 1)]),
        !car_in_range(car) ==> r == Err::<u8, DecodeError>(DecodeError::InvalidIndex),
{
    validate_car(car)?;

    fetch_byte(rom, SLIP_VECSPD2_START + (car - 1))
}

fn get_slip_vector(rom: &[u8], car: usize) -> (r: Result<u8, DecodeError>)
    requires
        car_in_range(car) ==> SLIP_VECTOR_START + (car - 1) < rom@.len(),
    ensures
        r is Ok <==> car_in_range(car),
        car_in_range(car) ==> r == Ok::<u8, DecodeError>(rom@[SLIP_VECTOR_START + (car - 1)]),
        !car_in_range(car) ==> r == Err::<u8, DecodeError>(DecodeError::InvalidIndex),
{
    validate_car(car)?;

    fetch_byte(rom, SLIP_VECTOR_START + (car - 1))
}

} // verus!
