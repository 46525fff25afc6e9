use vstd::prelude::*;

use crate::collision::Space;

verus! {

/// The boss's sprite cycle: it alternates between its "a" and "b" frames, each in the variant of
/// the stage of its shot (1 or 2 while shooting, else 0).
pub fn sprite_cycle(animation_cycle_tick: u32, shoot_cycle: i32) -> (r: &'static str)
    ensures
        r@ == (if animation_cycle_tick % 2 == 0 {
            if shoot_cycle == 1 { "a_1"@ } else if shoot_cycle == 2 { "a_2"@ } else { "a_0"@ }
        } else {
            if shoot_cycle == 1 { "b_1"@ } else if shoot_cycle == 2 { "b_2"@ } else { "b_0"@ }
        }),
{
    if animation_cycle_tick % 2 == 0 {
        match shoot_cycle {
            1 => "a_1",
            2 => "a_2",
            _ => "a_0",
        }
    } else {
        match shoot_cycle {
            1 => "b_1",
            2 => "b_2",
            _ => "b_0",
        }
    }
}

/// The boss's attack: it waits under water, rises near Firebrand, advances on him, and sinks
/// again.
#[derive(Debug, Clone, Copy, PartialEq, Eq, Structural)]
pub enum AttackPhase {
    Submerged,
    Raising,
    Attacking,
    Submerging,
}

/// What the game world measured for one step of the attack.
#[derive(Debug, Clone, Copy, PartialEq, Eq, Structural)]
pub struct AttackInputs {
    /// The boss has waited under water long enough.
    pub submerged_long_enough: bool,
    /// Rising, it has reached Firebrand's height.
    pub reached_attack_height: bool,
    /// The random draw (three in four) that decides whether this attack shoots fire sprites.
    pub will_shoot: bool,
    /// Firebrand is within shooting distance.
    pub within_shoot_distance: bool,
    /// Advancing, it has reached the spot it was heading for.
    pub done_advancing: bool,
    /// Sinking, it has reached its depth.
    pub reached_depth: bool,
}

/// The attack phase and whether this attack still has its fire sprites to launch.
#[derive(Debug, Clone, Copy, PartialEq, Eq, Structural)]
pub struct AttackState {
    pub phase: AttackPhase,
    pub should_launch_firesprites: bool,
}

pub open spec fn next_phase(phase: AttackPhase) -> AttackPhase {
    match phase {
        AttackPhase::Submerged => AttackPhase::Raising,
        AttackPhase::Raising => AttackPhase::Attacking,
        AttackPhase::Attacking => AttackPhase::Submerging,
        AttackPhase::Submerging => AttackPhase::Submerged,
    }
}

impl AttackState {
    pub open spec fn spec_step(self, i: AttackInputs) -> (AttackState, bool) {
        match self.phase {
            AttackPhase::Submerged => if i.submerged_long_enough {
                (AttackState { phase: AttackPhase::Raising, ..self }, false)
            } else {
                (self, false)
            },
            AttackPhase::Raising => if i.reached_attack_height {
                (AttackState { phase: AttackPhase::Attacking, should_launch_firesprites: i.will_shoot }, false)
            } else {
                (self, false)
            },
            AttackPhase::Attacking => {
                let shoot = self.should_launch_firesprites && i.within_shoot_distance;
                let launch = if shoot { false } else { self.should_launch_firesprites };
                let phase = if i.done_advancing { AttackPhase::Submerging } else { AttackPhase::Attacking };
                (AttackState { phase, should_launch_firesprites: launch }, shoot)
            },
            AttackPhase::Submerging => if i.reached_depth {
                (AttackState { phase: AttackPhase::Submerged, ..self }, false)
            } else {
                (self, false)
            },
        }
    }

    /// One step of the attack. The answer says whether the boss starts its shooting countdown
    /// now: it does once per attack, when the draw allowed it and Firebrand is in range.
    pub fn step(&mut self, inputs: AttackInputs) -> (start_shooting: bool)
        ensures
            (*final(self), start_shooting) == old(self).spec_step(inputs),
    {
        match self.phase {
            AttackPhase::Submerged => {
                if inputs.submerged_long_enough {
                    self.phase = AttackPhase::Raising;
                }
                false
            },
            AttackPhase::Raising => {
                if inputs.reached_attack_height {
                    self.phase = AttackPhase::Attacking;
                    self.should_launch_firesprites = inputs.will_shoot;
                }
                false
            },
            AttackPhase::Attacking => {
                let shoot = self.should_launch_firesprites && inputs.within_shoot_distance;
                if shoot {
                    self.should_launch_firesprites = false;
                }
                if inputs.done_advancing {
                    self.phase = AttackPhase::Submerging;
                }
                shoot
            },
            AttackPhase::Submerging => {
                if inputs.reached_depth {
                    self.phase = AttackPhase::Submerged;
                }
                false
            },
        }
    }
}

/// The attack goes round its phases in order, one step at most at a time; it shoots only while
/// attacking, and then not again in the same attack.
pub proof fn lemma_attack_cycle(s: AttackState, i: AttackInputs, j: AttackInputs)
    ensures
        ({
            let (t, shoot) = s.spec_step(i);
            &&& t.phase == s.phase || t.phase == next_phase(s.phase)
            &&& shoot ==> s.phase == AttackPhase::Attacking
            &&& shoot ==> !t.spec_step(j).1
        }),
{
}

/// The boss's death: once its hit points are gone its collider is switched off, its defeat is
/// broadcast once, and when the death animation's countdown runs out its death is broadcast and
/// it stops living.
#[derive(Debug, Clone, Copy, PartialEq, Eq, Structural)]
pub struct BossDeath {
    pub collider_id: Option<u32>,
    pub sent_defeated_message: bool,
    pub alive: bool,
}

/// What a step of the boss's death broadcasts.
#[derive(Debug, Clone, Copy, PartialEq, Eq, Structural)]
pub struct DeathAction {
    pub defeated: bool,
    pub died: bool,
}

impl BossDeath {
    /// One step while the boss has `hit_points`. `countdown_running` says whether the death
    /// animation's countdown was still above zero, `countdown_expired` whether this step took it
    /// below zero (a countdown that lands exactly on zero never expires). Nothing happens while
    /// hit points remain.
    pub fn update(&mut self, hit_points: i32, countdown_running: bool, countdown_expired: bool, collision_space: &mut Space) -> (action: DeathAction)
        requires
            old(collision_space)@.wf(),
        ensures
            final(collision_space)@.wf(),
            hit_points > 0 ==> action == (DeathAction { defeated: false, died: false })
                && *final(self) == *old(self) && final(collision_space)@ == old(collision_space)@,
            hit_points <= 0 ==> {
                let died = countdown_running && countdown_expired;
                &&& action == (DeathAction { defeated: !old(self).sent_defeated_message, died })
                &&& *final(self) == (BossDeath {
                    collider_id: old(self).collider_id,
                    sent_defeated_message: true,
                    alive: if died { false } else { old(self).alive },
                })
                &&& final(collision_space)@ == match old(self).collider_id {
                    Some(id) => old(collision_space)@.deactivated(id),
                    None => old(collision_space)@,
                }
            },
    {
        if hit_points > 0 {
            return DeathAction { defeated: false, died: false };
        }
        match self.collider_id {
            Some(id) => collision_space.deactivate_collider(id),
            None => {},
        }
        let defeated = !self.sent_defeated_message;
        self.sent_defeated_message = true;
        let died = countdown_running && countdown_expired;
        if died {
            self.alive = false;
        }
        DeathAction { defeated, died }
    }
}

} // verus!
