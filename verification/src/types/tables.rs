//! Lookup tables of the game: the quality percentage that becomes a high-quality
//! chance, and the crafter level that becomes an internal level.

use vstd::prelude::*;
use super::structs::CraftingLevel;

verus! {

/// The high-quality chance, in percent, for each quality percentage from 0 to
/// 100.
pub const HQ_TABLE: [u32; 101] = [
    1, 1, 1, 1, 1, 2, 2, 2, 2, 3, 3, 3, 3, 4, 4, 4, 4, 5, 5, 5, 5, 6, 6, 6, 6, 7, 7, 7, 7, 8, 8, 8,
    9, 9, 9, 10, 10, 10, 11, 11, 11, 12, 12, 12, 13, 13, 13, 14, 14, 14, 15, 15, 15, 16, 16, 17,
    17, 17, 18, 18, 18, 19, 19, 20, 20, 21, 22, 23, 24, 26, 28, 31, 34, 38, 42, 47, 52, 58, 64, 68,
    71, 74, 76, 78, 80, 81, 82, 83, 84, 85, 86, 87, 88, 89, 90, 91, 92, 94, 96, 98, 100,
];

/// The internal level of each crafter level from 0 to 100.
pub const ILEVEL_TABLE: [u32; 101] = [
    0, 1, 2, 3, 4, 5, 6, 7, 8, 9, 10, 11, 12, 13, 14, 15, 16, 17, 18, 19, 20, 21, 22, 23, 24,
    25, 26, 27, 28, 29, 30, 31, 32, 33, 34, 35, 36, 37, 38, 39, 40, 41, 42, 43, 44, 45, 46, 47,
    48, 49, 50, 120, 125, 130, 133, 136, 139, 142, 145, 148, 150, 260, 265, 270, 273, 276, 279,
    282, 285, 288, 290, 390, 395, 400, 403, 406, 409, 412, 415, 418, 420, 517, 520, 525, 530,
    535, 540, 545, 550, 555, 560, 650, 653, 656, 660, 665, 670, 675, 680, 685, 690,
];

/// The internal level that a crafter level stands for: the table's entry, and
/// 0 for a number above the highest level.
pub open spec fn ilevel_of(level: u8) -> u32 {
    if level <= 100 {
        ILEVEL_TABLE[level as int]
    } else {
        0
    }
}

/// The internal level of a crafter level.
pub fn level_to_ilevel(lvl: CraftingLevel) -> (r: u32)
    ensures
        r == ilevel_of(lvl@),
{
    let v = lvl.value();
    ILEVEL_TABLE[v as usize]
}

/// The high-quality chance that a quality percentage stands for: 1 for zero
/// percent, 100 from one hundred percent on, the table's entry in between.
pub open spec fn hq_percent_of(quality_percent: u32) -> u32 {
    if quality_percent == 0 {
        1
    } else if quality_percent >= 100 {
        100
    } else {
        HQ_TABLE[quality_percent as int]
    }
}

/// The high-quality chance of a quality percentage.
pub fn hq_percent(quality_percent: u32) -> (r: u32)
    ensures
        r == hq_percent_of(quality_percent),
{
    if quality_percent == 0 {
        1
    } else if quality_percent >= 100 {
        100
    } else {
        HQ_TABLE[quality_percent as usize]
    }
}

} // verus!
