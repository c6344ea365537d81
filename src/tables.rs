use vstd::prelude::*;

use crate::structs::CraftingLevel;

verus! {

/// The item level that matches a crafter level.
pub open spec fn ilevel_of(lvl: u8) -> u32 {
    if lvl <= 50 {
        lvl as u32
    } else if lvl <= 60 {
        seq![120u32, 125, 130, 133, 136, 139, 142, 145, 148, 150][lvl - 51]
    } else if lvl <= 70 {
        seq![260u32, 265, 270, 273, 276, 279, 282, 285, 288, 290][lvl - 61]
    } else if lvl <= 80 {
        seq![390u32, 395, 400, 403, 406, 409, 412, 415, 418, 420][lvl - 71]
    } else if lvl <= 90 {
        seq![517u32, 520, 525, 530, 535, 540, 545, 550, 555, 560][lvl - 81]
    } else {
        560
    }
}

/// The item level that matches a crafter level.
pub fn level_to_ilevel(level: CraftingLevel) -> (r: u32)
    ensures
        r == ilevel_of(level.spec_value()),
{
    let lvl = level.value();
    if lvl <= 50 {
        lvl as u32
    } else if lvl <= 60 {
        let t: [u32; 10] = [120, 125, 130, 133, 136, 139, 142, 145, 148, 150];
        let r = t[(lvl - 51) as usize];
        assert(t@ =~= seq![120u32, 125, 130, 133, 136, 139, 142, 145, 148, 150]);
        r
    } else if lvl <= 70 {
        let t: [u32; 10] = [260, 265, 270, 273, 276, 279, 282, 285, 288, 290];
        let r = t[(lvl - 61) as usize];
        assert(t@ =~= seq![260u32, 265, 270, 273, 276, 279, 282, 285, 288, 290]);
        r
    } else if lvl <= 80 {
        let t: [u32; 10] = [390, 395, 400, 403, 406, 409, 412, 415, 418, 420];
        let r = t[(lvl - 71) as usize];
        assert(t@ =~= seq![390u32, 395, 400, 403, 406, 409, 412, 415, 418, 420]);
        r
    } else if lvl <= 90 {
        let t: [u32; 10] = [517, 520, 525, 530, 535, 540, 545, 550, 555, 560];
        let r = t[(lvl - 81) as usize];
        assert(t@ =~= seq![517u32, 520, 525, 530, 535, 540, 545, 550, 555, 560]);
        r
    } else {
        560
    }
}

/// The chance of a high-quality result, in percent, for a quality of `p` percent (`p <= 100`).
pub open spec fn hq_chance_of(p: nat) -> u32 {
    if p <= 4 { 1 }
    else if p <= 8 { 2 }
    else if p <= 12 { 3 }
    else if p <= 16 { 4 }
    else if p <= 20 { 5 }
    else if p <= 24 { 6 }
    else if p <= 28 { 7 }
    else if p <= 31 { 8 }
    else if p <= 34 { 9 }
    else if p <= 37 { 10 }
    else if p <= 40 { 11 }
    else if p <= 43 { 12 }
    else if p <= 46 { 13 }
    else if p <= 49 { 14 }
    else if p <= 52 { 15 }
    else if p <= 54 { 16 }
    else if p <= 57 { 17 }
    else if p <= 60 { 18 }
    else if p <= 62 { 19 }
    else if p <= 64 { 20 }
    else if p <= 68 { (p - 44) as u32 }
    else if p <= 100 {
        seq![26u32, 28, 31, 34, 38, 42, 47, 52, 58, 64, 68, 71, 74, 76, 78, 80, 81, 82, 83, 84,
            85, 86, 87, 88, 89, 90, 91, 92, 94, 96, 98, 100][p - 69]
    } else { 100 }
}

/// The chance of a high-quality result, in percent, for a quality of `p` percent.
pub fn hq_chance(p: u32) -> (r: u32)
    requires
        p <= 100,
    ensures
        r == hq_chance_of(p as nat),
{
    if p <= 4 { 1 }
    else if p <= 8 { 2 }
    else if p <= 12 { 3 }
    else if p <= 16 { 4 }
    else if p <= 20 { 5 }
    else if p <= 24 { 6 }
    else if p <= 28 { 7 }
    else if p <= 31 { 8 }
    else if p <= 34 { 9 }
    else if p <= 37 { 10 }
    else if p <= 40 { 11 }
    else if p <= 43 { 12 }
    else if p <= 46 { 13 }
    else if p <= 49 { 14 }
    else if p <= 52 { 15 }
    else if p <= 54 { 16 }
    else if p <= 57 { 17 }
    else if p <= 60 { 18 }
    else if p <= 62 { 19 }
    else if p <= 64 { 20 }
    else if p <= 68 { p - 44 }
    else {
        let t: [u32; 32] = [26, 28, 31, 34, 38, 42, 47, 52, 58, 64, 68, 71, 74, 76, 78, 80, 81, 82,
            83, 84, 85, 86, 87, 88, 89, 90, 91, 92, 94, 96, 98, 100];
        let r = t[(p - 69) as usize];
        assert(t@ =~= seq![26u32, 28, 31, 34, 38, 42, 47, 52, 58, 64, 68, 71, 74, 76, 78, 80, 81,
            82, 83, 84, 85, 86, 87, 88, 89, 90, 91, 92, 94, 96, 98, 100]);
        r
    }
}

} // verus!
