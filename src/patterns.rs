use vstd::prelude::*;

verus! {

/// Whether a stripe pattern shows its first colour at a point whose `x`
/// coordinate has floor `floor_x`: stripes one unit wide alternate along `x`.
pub fn stripe_uses_first(floor_x: i64) -> (r: bool)
    ensures
        r == (floor_x % 2 == 0),
{
    floor_x % 2 == 0
}

/// Whether a ring pattern shows its first colour at a point whose distance
/// from the `y` axis has floor `floor_distance`: rings one unit wide alternate
/// outwards.
pub fn ring_uses_first(floor_distance: i64) -> (r: bool)
    ensures
        r == (floor_distance % 2 == 0),
{
    floor_distance % 2 == 0
}

/// Whether a checker pattern shows its first colour in the unit cube whose
/// corner has the floors `floor_x`, `floor_y`, `floor_z`: neighbouring cubes
/// alternate.
pub fn checker_uses_first(floor_x: i64, floor_y: i64, floor_z: i64) -> (r: bool)
    ensures
        r == ((floor_x + floor_y + floor_z) % 2 == 0),
{
    let sum: i128 = floor_x as i128 + floor_y as i128 + floor_z as i128;
    sum % 2 == 0
}

/// Moving one unit along any axis switches the checker pattern's colour.
pub proof fn lemma_checker_alternates(floor_x: int, floor_y: int, floor_z: int)
    ensures
        ((floor_x + 1 + floor_y + floor_z) % 2 == 0) != ((floor_x + floor_y + floor_z) % 2 == 0),
        ((floor_x + floor_y + 1 + floor_z) % 2 == 0) != ((floor_x + floor_y + floor_z) % 2 == 0),
        ((floor_x + floor_y + floor_z + 1) % 2 == 0) != ((floor_x + floor_y + floor_z) % 2 == 0),
{
}

/// Moving one unit along `x` switches the stripe pattern's colour.
pub proof fn lemma_stripe_alternates(floor_x: int)
    ensures
        ((floor_x + 1) % 2 == 0) != (floor_x % 2 == 0),
{
}

} // verus!
