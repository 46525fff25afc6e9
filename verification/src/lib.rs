use vstd::prelude::*;

pub mod constants;
pub mod text;
pub mod xml_items;
pub mod map;
pub mod input;
pub mod audio;
pub mod collision;
pub mod entity;
pub mod entities;
pub mod event_dispatch;
pub mod gamestate;

verus! {
} // verus!
