//! Overworld map-pointer decoder.
//!
//! Each world owns up to four sub-tables of map data, located by a static
//! table-of-tables. The first sub-table holds the 16-row by 32-column grid
//! of room-pointer bytes that `get_world_ptr` decodes; the deeper room,
//! slit and meta-tile tables are located but not decoded here.

use vstd::prelude::*;

use crate::DecodeError;
use crate::fetch_byte;

verus! {

/// The world grid: 16 rows of 32 room-pointer bytes each.
#[derive(Clone, Debug)]
pub struct WorldPtr(pub Vec<Vec<u8>>);

/// A room: 16 slit pointers. Located by the schema, not decoded here.
#[derive(Clone, Debug)]
pub struct RoomPtr(pub Vec<u16>);

/// A slit of sixteen 2-by-2 meta-tiles. Located by the schema, not decoded
/// here.
#[derive(Clone, Debug)]
pub struct SlitPtr(pub Vec<u16>);

/// One 2-by-2 meta-tile. Located by the schema, not decoded here.
#[derive(Clone, Debug)]
pub struct MetaTilePtr(pub Vec<u8>);

/// One entry of the per-world table-of-tables: where a sub-table starts in
/// the image and how many bytes it spans. Unused slots carry start 0, len 0.
#[derive(Clone, Copy, Debug, PartialEq, Eq, Structural)]
pub struct MapTable {
    pub start: usize,
    pub len: usize,
}

/// Number of rows in a world grid.
pub const WORLD_ROWS: usize = 16;

/// Number of room-pointer bytes per row.
pub const WORLD_COLS: usize = 32;

/// The static table-of-tables: for each world (1 to 8) and sub-table slot
/// (0 to 3), where that sub-table lies in the image. Slot 0 is the world
/// grid; slots past a world's last table carry start 0, len 0.
pub open spec fn map_table_spec(world: int, slot: int) -> MapTable {
    if world == 1 {
        // Big Blue
        if slot == 0 {
            MapTable { start: 0x19F80, len: 0x200 }
        } else if slot == 1 {
            MapTable { start: 0x1A180, len: 0xCA0 }
        } else if slot == 2 {
            MapTable { start: 0x1AE20, len: 0x36A0 }
        } else {
            MapTable { start: 0x0, len: 0x0 }
        }
    } else if world == 2 {
        // Sand Ocean and Silence
        if slot == 0 {
            MapTable { start: 0x1E4E0, len: 0x200 }
        } else if slot == 1 {
            MapTable { start: 0x1E6E0, len: 0x1320 }
        } else if slot == 2 {
            MapTable { start: 0x1FA00, len: 0x5C00 }
        } else {
            MapTable { start: 0x0, len: 0x0 }
        }
    } else if world == 3 {
        // Port Town
        if slot == 0 {
            MapTable { start: 0x25600, len: 0x200 }
        } else if slot == 1 {
            MapTable { start: 0x25800, len: 0xC20 }
        } else if slot == 2 {
            MapTable { start: 0x26420, len: 0x3260 }
        } else {
            MapTable { start: 0x0, len: 0x0 }
        }
    } else if world == 4 {
        // Death Wind
        if slot == 0 {
            MapTable { start: 0x29680, len: 0x200 }
        } else if slot == 1 {
            MapTable { start: 0x29880, len: 0x600 }
        } else if slot == 2 {
            MapTable { start: 0x29E80, len: 0x2110 }
        } else {
            MapTable { start: 0x0, len: 0x0 }
        }
    } else if world == 5 {
        // Red Canyon
        if slot == 0 {
            MapTable { start: 0x2BF90, len: 0x200 }
        } else if slot == 1 {
            MapTable { start: 0x2C190, len: 0x12E0 }
        } else if slot == 2 {
            MapTable { start: 0x2D470, len: 0x2F30 }
        } else {
            MapTable { start: 0x0, len: 0x0 }
        }
    } else if world == 6 {
        // Fire Field
        if slot == 0 {
            MapTable { start: 0x303A0, len: 0x200 }
        } else if slot == 1 {
            MapTable { start: 0x305A0, len: 0xE00 }
        } else if slot == 2 {
            MapTable { start: 0x313A0, len: 0x5530 }
        } else {
            MapTable { start: 0x0, len: 0x0 }
        }
    } else if world == 7 {
        // Mute City
        if slot == 0 {
            MapTable { start: 0x368D0, len: 0x200 }
        } else if slot == 1 {
            MapTable { start: 0x36AD0, len: 0xF80 }
        } else if slot == 2 {
            MapTable { start: 0x37A50, len: 0x49B0 }
        } else {
            MapTable { start: 0x0, len: 0x0 }
        }
    } else {
        // White Land 1 and 2
        if slot == 0 {
            MapTable { start: 0x3C400, len: 0x200 }
        } else if slot == 1 {
            MapTable { start: 0x3C600, len: 0x1680 }
        } else if slot == 2 {
            MapTable { start: 0x3DC80, len: 0x2380 }
        } else {
            MapTable { start: 0x68000, len: 0x50C0 }
        }
    }
}

/// Looks a sub-table up in the static table-of-tables.
pub fn map_table(world: usize, slot: usize) -> (r: MapTable)
    requires
        world_in_range(world),
        slot < 4,
    ensures
        r == map_table_spec(world as int, slot as int),
{
    match (world, slot) {
        (1, 0) => MapTable { start: 0x19F80, len: 0x200 },
        (1, 1) => MapTable { start: 0x1A180, len: 0xCA0 },
        (1, 2) => MapTable { start: 0x1AE20, len: 0x36A0 },
        (2, 0) => MapTable { start: 0x1E4E0, len: 0x200 },
        (2, 1) => MapTable { start: 0x1E6E0, len: 0x1320 },
        (2, 2) => MapTable { start: 0x1FA00, len: 0x5C00 },
        (3, 0) => MapTable { start: 0x25600, len: 0x200 },
        (3, 1) => MapTable { start: 0x25800, len: 0xC20 },
        (3, 2) => MapTable { start: 0x26420, len: 0x3260 },
        (4, 0) => MapTable { start: 0x29680, len: 0x200 },
        (4, 1) => MapTable { start: 0x29880, len: 0x600 },
        (4, 2) => MapTable { start: 0x29E80, len: 0x2110 },
        (5, 0) => MapTable { start: 0x2BF90, len: 0x200 },
        (5, 1) => MapTable { start: 0x2C190, len: 0x12E0 },
        (5, 2) => MapTable { start: 0x2D470, len: 0x2F30 },
        (6, 0) => MapTable { start: 0x303A0, len: 0x200 },
        (6, 1) => MapTable { start: 0x305A0, len: 0xE00 },
        (6, 2) => MapTable { start: 0x313A0, len: 0x5530 },
        (7, 0) => MapTable { start: 0x368D0, len: 0x200 },
        (7, 1) => MapTable { start: 0x36AD0, len: 0xF80 },
        (7, 2) => MapTable { start: 0x37A50, len: 0x49B0 },
        (8, 0) => MapTable { start: 0x3C400, len: 0x200 },
        (8, 1) => MapTable { start: 0x3C600, len: 0x1680 },
        (8, 2) => MapTable { start: 0x3DC80, len: 0x2380 },
        (8, 3) => MapTable { start: 0x68000, len: 0x50C0 },
        (_, _) => MapTable { start: 0x0, len: 0x0 },
    }
}

/// Valid world indices run from 1 to 8.
pub open spec fn world_in_range(world: usize) -> bool {
    1 <= world <= 8
}

/// The grid `w` holds exactly the bytes of the image region that starts at
/// `start`: 16 rows of 32 bytes, row-major.
pub open spec fn world_grid_matches(rom: Seq<u8>, start: int, w: WorldPtr) -> bool {
    &&& w.0@.len() == WORLD_ROWS
    &&& forall|r: int| 0 <= r < WORLD_ROWS ==> (#[trigger] w.0@[r])@.len() == WORLD_COLS
    &&& forall|r: int, c: int|
        0 <= r < WORLD_ROWS && 0 <= c < WORLD_COLS ==> (#[trigger] w.0@[r]@[c]) == rom[start + r
            * 32 + c]
}

fn validate_world(world: usize) -> (r: Result<(), DecodeError>)
    ensures
        r is Ok <==> world_in_range(world),
        !world_in_range(world) ==> r == Err::<(), DecodeError>(DecodeError::InvalidIndex),
{
    if world < 1 || world > 8 {
        return Err(DecodeError::InvalidIndex);
    }
    Ok(())
}

/// Decodes one world's room-pointer grid. Succeeds exactly on world
/// indices 1 to 8 and then pins every cell to the image byte at the
/// world's grid start plus `row * 32 + col`; any other index is rejected
/// before any read.
#[verifier::loop_isolation(false)]
pub fn get_world_ptr(rom: &[u8], world: usize) -> (res: Result<WorldPtr, DecodeError>)
    requires
        world_in_range(world) ==> map_table_spec(world as int, 0).start + WORLD_ROWS * WORLD_COLS
            <= rom@.len(),
    ensures
        res is Ok <==> world_in_range(world),
        res matches Ok(w) ==> world_grid_matches(
            rom@,
            map_table_spec(world as int, 0).start as int,
            w,
        ),
        !world_in_range(world) ==> res == Err::<WorldPtr, DecodeError>(DecodeError::InvalidIndex),
{
    validate_world(world)?;

    let maptable = map_table(world, 0);

    let mut grid: Vec<Vec<u8>> = Vec::new();
    let mut row: usize = 0;
    while row < WORLD_ROWS
        invariant
            row <= WORLD_ROWS,
            grid@.len() == row,
            forall|r: int| 0 <= r < row ==> (#[trigger] grid@[r])@.len() == WORLD_COLS,
            forall|r: int, c: int|
                0 <= r < row && 0 <= c < WORLD_COLS ==> (#[trigger] grid@[r]@[c]) == rom@[
                    maptable.start + r * 32 + c],
        decreases WORLD_ROWS - row,
    {
        let mut line: Vec<u8> = Vec::new();
        let mut col: usize = 0;
        while col < WORLD_COLS
            invariant
                row < WORLD_ROWS,
                col <= WORLD_COLS,
                line@.len() == col,
                forall|c: int|
                    0 <= c < col ==> (#[trigger] line@[c]) == rom@[maptable.start + row * 32 + c],
            decreases WORLD_COLS - col,
        {
            let loc: usize = maptable.start + (row * 32) + col;
            let b = match fetch_byte(rom, loc) {
                Ok(b) => b,
                Err(e) => {
                    return Err(e);
                },
            };
            line.push(b);
            col = col + 1;
        }
        grid.push(line);
        row = row + 1;
    }

    Ok(WorldPtr(grid))
}

} // verus!
