use vstd::prelude::*;

verus! {

/// A projectile: Firebrand's fireball, or a fire sprite that the boss shoots.
#[derive(Debug, Clone, Copy, PartialEq, Eq, Structural)]
pub enum Mode {
    Fireball,
    Firesprite,
}

pub fn sprite_name(mode: Mode) -> (r: &'static str)
    ensures
        r@ == match mode {
            Mode::Fireball => "fireball"@,
            Mode::Firesprite => "fire_sprite"@,
        },
{
    match mode {
        Mode::Fireball => "fireball",
        Mode::Firesprite => "fire_sprite",
    }
}

/// A fireball shows one frame; a fire sprite flickers between two.
pub fn sprite_cycle(mode: Mode, animation_cycle_tick: u32) -> (r: &'static str)
    ensures
        r@ == (if mode is Firesprite && animation_cycle_tick % 2 == 1 { "alt"@ } else { "default"@ }),
{
    match mode {
        Mode::Fireball => "default",
        Mode::Firesprite => {
            if animation_cycle_tick % 2 == 0 {
                "default"
            } else {
                "alt"
            }
        },
    }
}

} // verus!
