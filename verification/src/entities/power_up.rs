use vstd::prelude::*;

use crate::collision::{Collider, Shape, Space, SpaceView};
use crate::constants::ENTITY;
use crate::text::same_text;

verus! {

/// What a power up gives: a vial, or a heart (one hit point back).
#[derive(Debug, Clone, Copy, PartialEq, Eq, Structural)]
pub enum Type {
    Vial,
    Heart,
}

impl Type {
    /// The power up type that a map property names: "vial" or "heart".
    pub fn from_str(t: &str) -> (r: Option<Type>)
        ensures
            r == (if t@ == "vial"@ {
                Some(Type::Vial)
            } else if t@ == "heart"@ {
                Some(Type::Heart)
            } else {
                None
            }),
    {
        if same_text(t, "vial") {
            Some(Type::Vial)
        } else if same_text(t, "heart") {
            Some(Type::Heart)
        } else {
            None
        }
    }

    pub fn sprite_name(&self) -> (r: &'static str)
        ensures
            r@ == match *self {
                Type::Vial => "vial"@,
                Type::Heart => "heart"@,
            },
    {
        match self {
            Type::Vial => "vial",
            Type::Heart => "heart",
        }
    }
}

/// The messages a power up answers.
#[derive(Debug, Clone, Copy, PartialEq, Eq, Structural)]
pub enum PowerUpMessage {
    FirebrandContact,
    ResetState,
    Other,
}

/// A power up's state: its collider, whether it should be there to be picked up (until
/// Firebrand touches it, and again after a reset), and whether it currently is.
#[derive(Debug, Clone, Copy, PartialEq, Eq, Structural)]
pub struct PowerUpState {
    pub collider_id: Option<u32>,
    pub needs_collider: bool,
    pub is_collider_active: bool,
    pub powerup_type: Type,
}

/// The space after the power up's collider (if it has one) is switched on or off.
pub open spec fn switched(space: SpaceView, collider_id: Option<u32>, on: bool) -> SpaceView {
    match collider_id {
        Some(id) => if on { space.activated(id) } else { space.deactivated(id) },
        None => space,
    }
}

impl PowerUpState {
    /// Places a power up: its square collider, belonging to `entity_id`, goes into the space.
    pub fn init(entity_id: u32, powerup_type: Type, collision_space: &mut Space) -> (r: PowerUpState)
        requires
            old(collision_space)@.wf(),
            old(collision_space)@.colliders.len() < u32::MAX,
        ensures
            final(collision_space)@ == old(collision_space)@.added(Collider { mode: crate::collision::Mode::Dynamic { entity_id }, shape: Shape::Square, mask: ENTITY }),
            final(collision_space)@.wf(),
            r == (PowerUpState {
                collider_id: Some(old(collision_space)@.colliders.len() as u32),
                needs_collider: true,
                is_collider_active: true,
                powerup_type,
            }),
    {
        let id = collision_space.add_collider(Collider::new_dynamic(entity_id, Shape::Square, ENTITY));
        PowerUpState { collider_id: Some(id), needs_collider: true, is_collider_active: true, powerup_type }
    }

    /// Whether the next update takes the power up away: Firebrand touched it and its collider
    /// is still on.
    pub open spec fn consumes(self) -> bool {
        !self.needs_collider && self.is_collider_active
    }

    pub open spec fn spec_handle_message(self, message: PowerUpMessage) -> PowerUpState {
        match message {
            PowerUpMessage::FirebrandContact => PowerUpState { needs_collider: false, ..self },
            PowerUpMessage::ResetState => PowerUpState { needs_collider: true, ..self },
            PowerUpMessage::Other => self,
        }
    }

    /// Firebrand's touch takes the power up away; a reset puts it back.
    pub fn handle_message(&mut self, message: PowerUpMessage)
        ensures
            *final(self) == old(self).spec_handle_message(message),
    {
        match message {
            PowerUpMessage::FirebrandContact => self.needs_collider = false,
            PowerUpMessage::ResetState => self.needs_collider = true,
            PowerUpMessage::Other => {},
        }
    }

    /// Brings the collider in line with whether the power up should be there. When it is taken
    /// away, the answer is the type picked up (which the game broadcasts); otherwise `None`.
    pub fn update(&mut self, collision_space: &mut Space) -> (consumed: Option<Type>)
        requires
            old(collision_space)@.wf(),
        ensures
            final(collision_space)@.wf(),
            final(self).needs_collider == old(self).needs_collider,
            final(self).collider_id == old(self).collider_id,
            final(self).powerup_type == old(self).powerup_type,
            consumed == (if old(self).consumes() { Some(old(self).powerup_type) } else { None }),
            if old(self).consumes() {
                &&& final(collision_space)@ == switched(old(collision_space)@, old(self).collider_id, false)
                &&& !final(self).is_collider_active
            } else if old(self).needs_collider && !old(self).is_collider_active {
                &&& final(collision_space)@ == switched(old(collision_space)@, old(self).collider_id, true)
                &&& final(self).is_collider_active
            } else {
                &&& final(collision_space)@ == old(collision_space)@
                &&& final(self).is_collider_active == old(self).is_collider_active
            },
    {
        if !self.needs_collider && self.is_collider_active {
            match self.collider_id {
                Some(id) => collision_space.deactivate_collider(id),
                None => {},
            }
            self.is_collider_active = false;
            Some(self.powerup_type)
        } else if self.needs_collider && !self.is_collider_active {
            match self.collider_id {
                Some(id) => collision_space.activate_collider(id),
                None => {},
            }
            self.is_collider_active = true;
            None
        } else {
            None
        }
    }
}

/// A power up is consumed once: the update that takes it away reports it, and later updates
/// report nothing until a reset makes it needed again.
pub proof fn lemma_consumed_once(s: PowerUpState, message: PowerUpMessage)
    requires
        !s.needs_collider,
        !s.is_collider_active,
        message != PowerUpMessage::ResetState,
    ensures
        !s.consumes(),
        !s.spec_handle_message(message).consumes(),
        !s.spec_handle_message(message).needs_collider,
        !s.spec_handle_message(message).is_collider_active,
{
}

} // verus!
