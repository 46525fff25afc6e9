use vstd::prelude::*;

use crate::entities::util::CompassDir;

verus! {

/// Whose death is shown: an enemy's, which plays once, or Firebrand's, which loops.
#[derive(Debug, Clone, Copy, PartialEq, Eq, Structural)]
pub enum Mode {
    EnemyDeath,
    FirebrandDeath,
}

impl Mode {
    pub open spec fn spec_num_animation_frames(self) -> i32 {
        match self {
            Mode::EnemyDeath => 4,
            Mode::FirebrandDeath => 3,
        }
    }

    pub fn num_animation_frames(&self) -> (r: i32)
        ensures
            r == self.spec_num_animation_frames(),
    {
        match self {
            Mode::EnemyDeath => 4,
            Mode::FirebrandDeath => 3,
        }
    }

    pub fn sprite_name(&self) -> (r: &'static str)
        ensures
            r@ == match *self {
                Mode::EnemyDeath => "death"@,
                Mode::FirebrandDeath => "firebrand_death"@,
            },
    {
        match self {
            Mode::EnemyDeath => "death",
            Mode::FirebrandDeath => "firebrand_death",
        }
    }
}

/// The number of the death sprite cycle shown at `animation_frame`: an enemy's death runs once
/// through cycles 0 to 4 and stays on 4; Firebrand's loops through cycles 0 to 3, a diagonal
/// death starting one cycle later.
pub open spec fn spec_death_cycle(mode: Mode, animation_frame: i32, direction: CompassDir) -> int {
    match mode {
        Mode::EnemyDeath => if animation_frame <= 3 { animation_frame as int } else { 4 },
        Mode::FirebrandDeath => {
            let offset: int = if direction.spec_is_diagonal() { 1 } else { 0 };
            (animation_frame + offset) % 3
        },
    }
}

pub open spec fn death_cycle_name(cycle: int) -> Seq<char> {
    if cycle == 0 {
        "death_0"@
    } else if cycle == 1 {
        "death_1"@
    } else if cycle == 2 {
        "death_2"@
    } else if cycle == 3 {
        "death_3"@
    } else {
        "death_4"@
    }
}

/// The sprite cycle shown at `animation_frame` of a death animation.
pub fn sprite_cycle(mode: Mode, animation_frame: i32, direction: CompassDir) -> (r: &'static str)
    requires
        0 <= animation_frame < i32::MAX,
    ensures
        r@ == death_cycle_name(spec_death_cycle(mode, animation_frame, direction)),
{
    match mode {
        Mode::EnemyDeath => match animation_frame {
            0 => "death_0",
            1 => "death_1",
            2 => "death_2",
            3 => "death_3",
            _ => "death_4",
        },
        Mode::FirebrandDeath => {
            let cycle_offset: i32 = if direction.is_diagonal() { 1 } else { 0 };
            match (animation_frame + cycle_offset) % mode.num_animation_frames() {
                0 => "death_0",
                1 => "death_1",
                2 => "death_2",
                _ => "death_3",
            }
        },
    }
}

} // verus!
