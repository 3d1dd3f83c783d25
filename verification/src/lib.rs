//! Decoder for the fixed-layout data tables of a console cartridge image.
//!
//! The image is a flat byte buffer of at most `MAX_ROMSIZE` bytes. A
//! hardcoded offset schema locates each table; bounds-checked primitives
//! read single bytes and little-endian words out of the buffer, and the
//! decoders in `car` and `map` assemble them into typed records.

use vstd::prelude::*;

pub mod car;
pub mod map;

verus! {

/// Declared maximum capacity of a cartridge image, in bytes.
pub const MAX_ROMSIZE: usize = 0x80000;

/// The ways a decode can fail.
///
/// `OutOfRange`: a computed byte offset falls outside the declared maximum
/// capacity of the image. `InvalidIndex`: a vehicle or world index outside
/// its valid range; raised before any buffer read.
#[derive(Clone, Copy, Debug, PartialEq, Eq, Structural)]
pub enum DecodeError {
    OutOfRange,
    InvalidIndex,
}

/// The little-endian 16-bit word stored at `start`: low byte first.
pub open spec fn word_le(rom: Seq<u8>, start: int) -> u16
    recommends
        0 <= start,
        start + 1 < rom.len(),
{
    (rom[start] as u16) | ((rom[start + 1] as u16) << 8)
}

/// Reads the byte at `start`.
///
/// The bound check compares `start` against the declared maximum capacity
/// `MAX_ROMSIZE`, not against the buffer's actual length, so an offset
/// between the two is not caught here; the precondition rules such an
/// offset out instead of letting the read go out of bounds.
pub fn fetch_byte(rom: &[u8], start: usize) -> (r: Result<u8, DecodeError>)
    requires
        start <= MAX_ROMSIZE ==> start < rom@.len(),
    ensures
        start > MAX_ROMSIZE ==> r == Err::<u8, DecodeError>(DecodeError::OutOfRange),
        start <= MAX_ROMSIZE ==> r == Ok::<u8, DecodeError>(rom@[start as int]),
{
    if start > MAX_ROMSIZE {
        return Err(DecodeError::OutOfRange);
    }
    Ok(rom[start])
}

/// Reads the little-endian word at `start`: the byte at `start` is the low
/// half, the byte at `start + 1` the high half. The high byte is fetched
/// first, so an offset just past the declared capacity fails on that read.
pub fn fetch_word(rom: &[u8], start: usize) -> (r: Result<u16, DecodeError>)
    requires
        start + 1 <= MAX_ROMSIZE ==> start + 1 < rom@.len(),
        start + 1 <= usize::MAX,
    ensures
        start + 1 > MAX_ROMSIZE ==> r == Err::<u16, DecodeError>(DecodeError::OutOfRange),
        start + 1 <= MAX_ROMSIZE ==> r == Ok::<u16, DecodeError>(word_le(rom@, start as int)),
{
    let hi = match fetch_byte(rom, start + 0x01) {
        Ok(b) => b,
        Err(e) => {
            return Err(e);
        },
    };
    let lo = match fetch_byte(rom, start + 0x00) {
        Ok(b) => b,
        Err(e) => {
            return Err(e);
        },
    };
    let word: u16 = ((hi as u16) << 0x8) | (lo as u16);
    proof {
        assert(word == (lo as u16) | ((hi as u16) << 8)) by (bit_vector)
            requires
                word == ((hi as u16) << 8) | (lo as u16),
        ;
    }
    Ok(word)
}

} // verus!
