use vstd::prelude::*;

verus! {

/// The hoodie's walk: frames 0, 1, 0, 2, over and over.
pub fn sprite_cycle(animation_cycle_tick: u32) -> (r: &'static str)
    ensures
        r@ == (if animation_cycle_tick % 4 == 1 {
            "walk_1"@
        } else if animation_cycle_tick % 4 == 3 {
            "walk_2"@
        } else {
            "walk_0"@
        }),
{
    match animation_cycle_tick % 4 {
        0 => "walk_0",
        1 => "walk_1",
        2 => "walk_0",
        _ => "walk_2",
    }
}

} // verus!
