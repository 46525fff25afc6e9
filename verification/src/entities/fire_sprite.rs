use vstd::prelude::*;

verus! {

/// The fire sprite flickers between two frames.
pub fn sprite_cycle(animation_cycle_tick: u32) -> (r: &'static str)
    ensures
        r@ == (if animation_cycle_tick % 2 == 0 { "default"@ } else { "alt"@ }),
{
    if animation_cycle_tick % 2 == 0 {
        "default"
    } else {
        "alt"
    }
}

} // verus!
