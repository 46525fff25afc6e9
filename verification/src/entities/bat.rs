use vstd::prelude::*;

verus! {

/// The bat's sprite cycle: flapping between two frames while it chases, else at rest.
pub fn sprite_cycle(chasing: bool, animation_cycle_tick: u32) -> (r: &'static str)
    ensures
        r@ == (if !chasing {
            "default"@
        } else if animation_cycle_tick % 2 == 0 {
            "fly_0"@
        } else {
            "fly_1"@
        }),
{
    if chasing {
        if animation_cycle_tick % 2 == 0 {
            "fly_0"
        } else {
            "fly_1"
        }
    } else {
        "default"
    }
}

} // verus!
