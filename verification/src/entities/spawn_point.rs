use vstd::prelude::*;

verus! {

/// A spawn point spawns its enemy when it comes into view, and only once that enemy has died may
/// it spawn another.
pub struct SpawnPoint {
    spawned_entity_id: Option<u32>,
    did_become_visible: bool,
}

pub struct SpawnPointView {
    pub spawned_entity_id: Option<u32>,
    pub did_become_visible: bool,
}

impl View for SpawnPoint {
    type V = SpawnPointView;

    closed spec fn view(&self) -> SpawnPointView {
        SpawnPointView { spawned_entity_id: self.spawned_entity_id, did_become_visible: self.did_become_visible }
    }
}

impl Default for SpawnPoint {
    fn default() -> (r: Self)
        ensures
            r@ == (SpawnPointView { spawned_entity_id: None, did_become_visible: false }),
    {
        SpawnPoint { spawned_entity_id: None, did_become_visible: false }
    }
}

impl SpawnPoint {
    /// One frame: returns whether to ask the game to spawn the enemy, which it does when the spawn
    /// point came into view since the last frame and its enemy is not alive.
    pub fn update(&mut self) -> (r: bool)
        ensures
            r == (old(self)@.did_become_visible && old(self)@.spawned_entity_id is None),
            final(self)@ == (SpawnPointView { did_become_visible: false, ..old(self)@ }),
    {
        let r = self.did_become_visible && self.spawned_entity_id.is_none();
        self.did_become_visible = false;
        r
    }

    /// The game's answer to a spawn request: the id of the spawned enemy, if it was spawned.
    pub fn handle_entity_was_spawned(&mut self, entity_id: Option<u32>)
        ensures
            final(self)@ == (SpawnPointView { spawned_entity_id: entity_id, ..old(self)@ }),
    {
        self.spawned_entity_id = entity_id;
    }

    /// The spawned enemy, `sender`, has died.
    pub fn handle_spawned_entity_did_die(&mut self, sender: Option<u32>)
        requires
            sender == old(self)@.spawned_entity_id,
        ensures
            final(self)@ == (SpawnPointView { spawned_entity_id: None, ..old(self)@ }),
    {
        self.spawned_entity_id = None;
    }

    pub fn did_enter_viewport(&mut self)
        ensures
            final(self)@ == (SpawnPointView { did_become_visible: true, ..old(self)@ }),
    {
        self.did_become_visible = true;
    }

    pub fn spawned_entity_id(&self) -> (r: Option<u32>)
        ensures
            r == self@.spawned_entity_id,
    {
        self.spawned_entity_id
    }
}

} // verus!
