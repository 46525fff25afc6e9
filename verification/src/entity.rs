use vstd::prelude::*;

verus! {

/// Vends a new unique id for each entity, starting from zero.
pub struct IdVendor {
    current_id: u32,
}

impl View for IdVendor {
    type V = u32;

    /// The id that the next call of `next_id` hands out.
    closed spec fn view(&self) -> u32 {
        self.current_id
    }
}

impl Default for IdVendor {
    fn default() -> (r: Self)
        ensures
            r@ == 0,
    {
        IdVendor { current_id: 0u32 }
    }
}

impl IdVendor {
    /// Hands out the current id and moves on to the next; every id handed out later is greater.
    pub fn next_id(&mut self) -> (r: u32)
        requires
            old(self)@ < u32::MAX,
        ensures
            r == old(self)@,
            final(self)@ == old(self)@ + 1,
            final(self)@ > r,
    {
        let r = self.current_id;
        self.current_id = self.current_id + 1;
        r
    }
}

/// Vends a new unique id for each entity, counting up from 0.
pub struct EntityIdVendor {
    current_id: u32,
}

impl View for EntityIdVendor {
    type V = u32;

    /// The id that the next call of `next_id` hands out.
    closed spec fn view(&self) -> u32 {
        self.current_id
    }
}

impl Default for EntityIdVendor {
    fn default() -> (r: Self)
        ensures
            r@ == 0,
    {
        EntityIdVendor { current_id: 0u32 }
    }
}

impl EntityIdVendor {
    /// Hands out the current id and moves on to the next; every id handed out later is greater.
    pub fn next_id(&mut self) -> (r: u32)
        requires
            old(self)@ < u32::MAX,
        ensures
            r == old(self)@,
            final(self)@ == old(self)@ + 1,
            final(self)@ > r,
    {
        let r = self.current_id;
        self.current_id = self.current_id + 1;
        r
    }
}

} // verus!
