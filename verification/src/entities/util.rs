use vstd::prelude::*;

use crate::collision::{Collider, Shape};
use crate::constants::CONTACT_DAMAGE;

verus! {

/// East (to the right) or west (to the left).
#[derive(Debug, Clone, Copy, PartialEq, Eq, Structural)]
pub enum HorizontalDir {
    East,
    West,
}

impl HorizontalDir {
    pub open spec fn spec_invert(self) -> HorizontalDir {
        match self {
            HorizontalDir::East => HorizontalDir::West,
            HorizontalDir::West => HorizontalDir::East,
        }
    }

    /// The opposite direction.
    pub fn invert(&self) -> (r: HorizontalDir)
        ensures
            r == self.spec_invert(),
    {
        match self {
            HorizontalDir::East => HorizontalDir::West,
            HorizontalDir::West => HorizontalDir::East,
        }
    }
}

/// Turning around twice faces the way one started, and turning around always changes direction.
pub proof fn lemma_invert_involution(d: HorizontalDir)
    ensures
        d.spec_invert().spec_invert() == d,
        d.spec_invert() != d,
{
}

/// The axis that a mirror reflects across.
#[derive(Debug, Copy, Clone, PartialEq, Eq, Structural)]
pub enum Axis {
    Horizontal,
    Vertical,
}

/// One of the eight compass directions.
#[derive(Clone, Copy, Debug, PartialEq, Eq, Structural)]
pub enum CompassDir {
    North,
    NorthEast,
    East,
    SouthEast,
    South,
    SouthWest,
    West,
    NorthWest,
}

impl CompassDir {
    /// The direction of the sector that an angle falls in, the full turn being cut into 16
    /// sectors counterclockwise from east, two sectors to a direction (east taking the first and
    /// the last).
    pub open spec fn spec_from_sector(sector: int) -> CompassDir {
        if sector == 0 || sector == 15 {
            CompassDir::East
        } else if sector <= 2 {
            CompassDir::NorthEast
        } else if sector <= 4 {
            CompassDir::North
        } else if sector <= 6 {
            CompassDir::NorthWest
        } else if sector <= 8 {
            CompassDir::West
        } else if sector <= 10 {
            CompassDir::SouthWest
        } else if sector <= 12 {
            CompassDir::South
        } else {
            CompassDir::SouthEast
        }
    }

    /// The direction for a sector in [0, 16) of the angle of a vector; see `spec_from_sector`.
    pub fn from_sector(sector: i32) -> (r: CompassDir)
        requires
            0 <= sector < 16,
        ensures
            r == Self::spec_from_sector(sector as int),
    {
        match sector {
            0 | 15 => CompassDir::East,
            1 | 2 => CompassDir::NorthEast,
            3 | 4 => CompassDir::North,
            5 | 6 => CompassDir::NorthWest,
            7 | 8 => CompassDir::West,
            9 | 10 => CompassDir::SouthWest,
            11 | 12 => CompassDir::South,
            _ => CompassDir::SouthEast,
        }
    }

    pub open spec fn spec_mirrored(self, axis: Axis) -> CompassDir {
        match axis {
            Axis::Horizontal => match self {
                CompassDir::North => CompassDir::South,
                CompassDir::NorthEast => CompassDir::SouthEast,
                CompassDir::East => CompassDir::East,
                CompassDir::SouthEast => CompassDir::NorthEast,
                CompassDir::South => CompassDir::North,
                CompassDir::SouthWest => CompassDir::NorthWest,
                CompassDir::West => CompassDir::West,
                CompassDir::NorthWest => CompassDir::SouthWest,
            },
            Axis::Vertical => match self {
                CompassDir::North => CompassDir::North,
                CompassDir::NorthEast => CompassDir::NorthWest,
                CompassDir::East => CompassDir::West,
                CompassDir::SouthEast => CompassDir::SouthWest,
                CompassDir::South => CompassDir::South,
                CompassDir::SouthWest => CompassDir::SouthEast,
                CompassDir::West => CompassDir::East,
                CompassDir::NorthWest => CompassDir::NorthEast,
            },
        }
    }

    /// The direction reflected across `axis`: across the horizontal axis north and south swap,
    /// across the vertical axis east and west swap.
    pub fn mirrored(&self, axis: Axis) -> (r: CompassDir)
        ensures
            r == self.spec_mirrored(axis),
    {
        match axis {
            Axis::Horizontal => match self {
                CompassDir::North => CompassDir::South,
                CompassDir::NorthEast => CompassDir::SouthEast,
                CompassDir::East => CompassDir::East,
                CompassDir::SouthEast => CompassDir::NorthEast,
                CompassDir::South => CompassDir::North,
                CompassDir::SouthWest => CompassDir::NorthWest,
                CompassDir::West => CompassDir::West,
                CompassDir::NorthWest => CompassDir::SouthWest,
            },
            Axis::Vertical => match self {
                CompassDir::North => CompassDir::North,
                CompassDir::NorthEast => CompassDir::NorthWest,
                CompassDir::East => CompassDir::West,
                CompassDir::SouthEast => CompassDir::SouthWest,
                CompassDir::South => CompassDir::South,
                CompassDir::SouthWest => CompassDir::SouthEast,
                CompassDir::West => CompassDir::East,
                CompassDir::NorthWest => CompassDir::NorthEast,
            },
        }
    }

    pub open spec fn spec_is_diagonal(self) -> bool {
        !(self is North || self is South || self is East || self is West)
    }

    pub fn is_diagonal(&self) -> (r: bool)
        ensures
            r == self.spec_is_diagonal(),
    {
        !matches!(self, CompassDir::North | CompassDir::South | CompassDir::East | CompassDir::West)
    }

    /// All eight directions, clockwise from north.
    pub fn iter() -> (r: Vec<CompassDir>)
        ensures
            r@ == all_directions(),
    {
        vec![
            CompassDir::North,
            CompassDir::NorthEast,
            CompassDir::East,
            CompassDir::SouthEast,
            CompassDir::South,
            CompassDir::SouthWest,
            CompassDir::West,
            CompassDir::NorthWest,
        ]
    }
}

/// Mirroring twice across the same axis gives back the direction; mirrors across the two axes
/// commute; and mirroring keeps a direction diagonal or not.
pub proof fn lemma_mirror_laws(d: CompassDir, axis: Axis)
    ensures
        d.spec_mirrored(axis).spec_mirrored(axis) == d,
        d.spec_mirrored(Axis::Horizontal).spec_mirrored(Axis::Vertical) == d.spec_mirrored(Axis::Vertical).spec_mirrored(Axis::Horizontal),
        d.spec_mirrored(axis).spec_is_diagonal() == d.spec_is_diagonal(),
{
}

/// All eight directions, clockwise from north.
pub open spec fn all_directions() -> Seq<CompassDir> {
    seq![
        CompassDir::North,
        CompassDir::NorthEast,
        CompassDir::East,
        CompassDir::SouthEast,
        CompassDir::South,
        CompassDir::SouthWest,
        CompassDir::West,
        CompassDir::NorthWest,
    ]
}

/// How a direction points along x (east positive) and along y (north positive).
pub open spec fn compass_step(d: CompassDir) -> (int, int) {
    match d {
        CompassDir::North => (0, 1),
        CompassDir::NorthEast => (1, 1),
        CompassDir::East => (1, 0),
        CompassDir::SouthEast => (1, -1),
        CompassDir::South => (0, -1),
        CompassDir::SouthWest => (-1, -1),
        CompassDir::West => (-1, 0),
        CompassDir::NorthWest => (-1, 1),
    }
}

/// How many eighths of a turn counterclockwise from east a direction points.
pub open spec fn eighths_from_east(d: CompassDir) -> int {
    match d {
        CompassDir::East => 0,
        CompassDir::NorthEast => 1,
        CompassDir::North => 2,
        CompassDir::NorthWest => 3,
        CompassDir::West => 4,
        CompassDir::SouthWest => 5,
        CompassDir::South => 6,
        CompassDir::SouthEast => 7,
    }
}

/// The geometry of compass directions: a sector `s` of sixteen (counterclockwise from east)
/// gives the direction nearest its angle, `s / 2` rounded, in eighths of a turn; the
/// horizontal mirror flips the north-south part and keeps the east-west part, the vertical
/// mirror the other way round; a direction is diagonal exactly when it has both parts; and the
/// listing of all directions goes clockwise, one eighth at a time, from north.
pub proof fn lemma_compass_geometry(d: CompassDir, sector: int, i: int)
    ensures
        0 <= sector < 16 ==> eighths_from_east(CompassDir::spec_from_sector(sector)) == ((sector + 1) / 2) % 8,
        compass_step(d.spec_mirrored(Axis::Horizontal)) == (compass_step(d).0, -compass_step(d).1),
        compass_step(d.spec_mirrored(Axis::Vertical)) == (-compass_step(d).0, compass_step(d).1),
        d.spec_is_diagonal() == (compass_step(d).0 != 0 && compass_step(d).1 != 0),
        all_directions().len() == 8,
        0 <= i < 8 ==> eighths_from_east(all_directions()[i]) == (10 - i) % 8,
{
}

impl From<HorizontalDir> for CompassDir {
    fn from(d: HorizontalDir) -> (r: CompassDir) {
        match d {
            HorizontalDir::East => CompassDir::East,
            HorizontalDir::West => CompassDir::West,
        }
    }
}

impl vstd::std_specs::convert::FromSpecImpl<HorizontalDir> for CompassDir {
    open spec fn obeys_from_spec() -> bool {
        true
    }

    open spec fn from_spec(d: HorizontalDir) -> CompassDir {
        match d {
            HorizontalDir::East => CompassDir::East,
            HorizontalDir::West => CompassDir::West,
        }
    }
}

/// The hit points of an enemy, and whether it has died; on death the enemy notifies its spawn
/// point and, unless it was terminated rather than killed, plays its death.
pub struct HitPointState {
    hit_points: i32,
    alive: bool,
    death_animation_dir: HorizontalDir,
    terminated: bool,
}

pub struct HitPointStateView {
    pub hit_points: i32,
    pub alive: bool,
    pub death_animation_dir: HorizontalDir,
    pub terminated: bool,
}

impl View for HitPointState {
    type V = HitPointStateView;

    closed spec fn view(&self) -> HitPointStateView {
        HitPointStateView {
            hit_points: self.hit_points,
            alive: self.alive,
            death_animation_dir: self.death_animation_dir,
            terminated: self.terminated,
        }
    }
}

/// What an enemy's update decided: whether it is still alive, whether its spawn point must be
/// told that it died, and whether its death sound and animation must play, in which direction.
#[derive(Debug, Clone, Copy, PartialEq, Eq, Structural)]
pub struct HitPointOutcome {
    pub alive: bool,
    pub notify_spawn_point: bool,
    pub play_death: bool,
    pub death_animation_dir: HorizontalDir,
}

/// A fireball hit: the damage it deals and the direction it travelled.
#[derive(Debug, Clone, Copy, PartialEq, Eq, Structural)]
pub struct FireballHit {
    pub damage: u32,
    pub direction: HorizontalDir,
}

impl HitPointState {
    pub fn new(hit_points: i32) -> (r: Self)
        ensures
            r@ == (HitPointStateView {
                hit_points,
                alive: true,
                death_animation_dir: HorizontalDir::East,
                terminated: false,
            }),
    {
        Self { hit_points, alive: true, death_animation_dir: HorizontalDir::East, terminated: false }
    }

    pub fn hit_points(&self) -> (r: i32)
        ensures
            r == self@.hit_points,
    {
        self.hit_points
    }

    /// Takes `reduction` hit points away; a death would play toward `direction`.
    pub fn injure(&mut self, reduction: i32, direction: HorizontalDir)
        requires
            i32::MIN <= old(self)@.hit_points - reduction <= i32::MAX,
        ensures
            final(self)@ == (HitPointStateView {
                hit_points: (old(self)@.hit_points - reduction) as i32,
                death_animation_dir: direction,
                ..old(self)@
            }),
    {
        self.hit_points = self.hit_points - reduction;
        self.death_animation_dir = direction;
    }

    /// Kills the entity without a death animation, as when it goes offscreen.
    pub fn terminate(&mut self)
        ensures
            final(self)@ == (HitPointStateView { terminated: true, ..old(self)@ }),
    {
        self.terminated = true;
    }

    pub fn is_alive(&self) -> (r: bool)
        ensures
            r == self@.alive,
    {
        self.alive
    }

    /// Once terminated or out of hit points, the entity dies: its spawn point is told, and if it
    /// was killed (not terminated) its death plays.
    pub fn update(&mut self) -> (r: HitPointOutcome)
        ensures
            ({
                let dies = old(self)@.terminated || old(self)@.hit_points <= 0;
                &&& final(self)@ == (HitPointStateView { alive: if dies { false } else { old(self)@.alive }, ..old(self)@ })
                &&& r == (HitPointOutcome {
                    alive: final(self)@.alive,
                    notify_spawn_point: dies,
                    play_death: old(self)@.hit_points <= 0 && !old(self)@.terminated,
                    death_animation_dir: old(self)@.death_animation_dir,
                })
            }),
    {
        let dies = self.terminated || self.hit_points <= 0;
        if dies {
            self.alive = false;
        }
        HitPointOutcome {
            alive: self.alive,
            notify_spawn_point: dies,
            play_death: self.hit_points <= 0 && !self.terminated,
            death_animation_dir: self.death_animation_dir,
        }
    }

    /// Takes a fireball hit, if the message was one: hit points drop by its damage, but not below
    /// zero. Returns whether the message was a hit.
    pub fn handle_message(&mut self, hit: Option<FireballHit>) -> (r: bool)
        requires
            hit matches Some(h) ==> i32::MIN <= old(self)@.hit_points - (#[verifier::truncate] (h.damage as i32)) <= i32::MAX,
        ensures
            r == hit is Some,
            hit is Some ==> final(self)@.hit_points >= 0,
            match hit {
                Some(h) => final(self)@ == (HitPointStateView {
                    hit_points: if old(self)@.hit_points - (#[verifier::truncate] (h.damage as i32)) > 0 {
                        (old(self)@.hit_points - (#[verifier::truncate] (h.damage as i32))) as i32
                    } else {
                        0i32
                    },
                    death_animation_dir: h.direction,
                    ..old(self)@
                }),
                None => final(self)@ == old(self)@,
            },
    {
        match hit {
            Some(h) => {
                let v = self.hit_points - (#[verifier::truncate] (h.damage as i32));
                self.hit_points = if v > 0 { v } else { 0 };
                self.death_animation_dir = h.direction;
                true
            },
            None => false,
        }
    }
}

/// Whether a marching entity turns around: when an obstacle stands in its way, or the ground it
/// would step onto is missing, not a full square, or hurts on contact.
pub fn should_reverse_march(obstacle_ahead: bool, footing: Option<&Collider>) -> (r: bool)
    ensures
        r == (obstacle_ahead || match footing {
            None => true,
            Some(c) => c.shape != Shape::Square || c.mask & CONTACT_DAMAGE != 0,
        }),
{
    if obstacle_ahead {
        return true;
    }
    match footing {
        None => true,
        Some(c) => !matches!(c.shape, Shape::Square) || c.mask & CONTACT_DAMAGE != 0,
    }
}

} // verus!
