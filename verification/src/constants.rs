use vstd::prelude::*;

verus! {

/// Collision mask bits carried by sprites and colliders.
pub const COLLIDER: u32 = 0x8000_0000;
pub const WATER: u32 = 0x4000_0000;
pub const RATCHET: u32 = 0x2000_0000;
pub const ENTITY: u32 = 0x1000_0000;
pub const CONTACT_DAMAGE: u32 = 0x0800_0000;
pub const SHOOTABLE: u32 = 0x0400_0000;

/// The handheld screen the game imitates was 160 px wide, made of 16 px tiles: 10 tiles wide.
pub const ORIGINAL_VIEWPORT_TILES_WIDE: i32 = 10;

} // verus!
