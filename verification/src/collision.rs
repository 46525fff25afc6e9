use std::collections::HashMap;
use std::collections::HashSet;

use vstd::prelude::*;

verus! {

broadcast use vstd::std_specs::hash::group_hash_axioms;

/// The shape of a collider: `Empty` collides with nothing; `Square` is a full unit square; the others are triangles whose
/// sloped edge faces the named direction (a `NorthEast` triangle's edge normal points up and to
/// the right).
#[derive(Copy, Clone, Debug, PartialEq, Eq, Hash, Structural)]
pub enum Shape {
    Empty,
    Square,
    NorthEast,
    SouthEast,
    SouthWest,
    NorthWest,
}

impl Shape {
    pub open spec fn spec_flipped_horizontally(self) -> Shape {
        match self {
            Shape::Empty => Shape::Empty,
            Shape::Square => Shape::Square,
            Shape::NorthEast => Shape::NorthWest,
            Shape::SouthEast => Shape::SouthWest,
            Shape::SouthWest => Shape::SouthEast,
            Shape::NorthWest => Shape::NorthEast,
        }
    }

    pub open spec fn spec_flipped_vertically(self) -> Shape {
        match self {
            Shape::Empty => Shape::Empty,
            Shape::Square => Shape::Square,
            Shape::NorthEast => Shape::SouthEast,
            Shape::SouthEast => Shape::NorthEast,
            Shape::SouthWest => Shape::NorthWest,
            Shape::NorthWest => Shape::SouthWest,
        }
    }

    /// A diagonal flip swaps the x and y axes (a mirror across the +x/+y diagonal), which only
    /// changes the two triangles that are not symmetric across that axis.
    pub open spec fn spec_flipped_diagonally(self) -> Shape {
        match self {
            Shape::Empty => Shape::Empty,
            Shape::Square => Shape::Square,
            Shape::NorthEast => Shape::NorthEast,
            Shape::SouthEast => Shape::NorthWest,
            Shape::SouthWest => Shape::SouthWest,
            Shape::NorthWest => Shape::SouthEast,
        }
    }

    /// The shape mirrored left to right.
    pub fn flipped_horizontally(&self) -> (r: Shape)
        ensures
            r == self.spec_flipped_horizontally(),
    {
        match self {
            Shape::Empty => Shape::Empty,
            Shape::Square => Shape::Square,
            Shape::NorthEast => Shape::NorthWest,
            Shape::SouthEast => Shape::SouthWest,
            Shape::SouthWest => Shape::SouthEast,
            Shape::NorthWest => Shape::NorthEast,
        }
    }

    /// The shape mirrored top to bottom.
    pub fn flipped_vertically(&self) -> (r: Shape)
        ensures
            r == self.spec_flipped_vertically(),
    {
        match self {
            Shape::Empty => Shape::Empty,
            Shape::Square => Shape::Square,
            Shape::NorthEast => Shape::SouthEast,
            Shape::SouthEast => Shape::NorthEast,
            Shape::SouthWest => Shape::NorthWest,
            Shape::NorthWest => Shape::SouthWest,
        }
    }

    /// The shape with its x and y axes swapped.
    pub fn flipped_diagonally(&self) -> (r: Shape)
        ensures
            r == self.spec_flipped_diagonally(),
    {
        match self {
            Shape::Empty => Shape::Empty,
            Shape::Square => Shape::Square,
            Shape::NorthEast => Shape::NorthEast,
            Shape::SouthEast => Shape::NorthWest,
            Shape::SouthWest => Shape::SouthWest,
            Shape::NorthWest => Shape::SouthEast,
        }
    }
}

/// Flipping twice the same way gives back the shape one started with.
pub proof fn lemma_double_flip_is_identity(s: Shape)
    ensures
        s.spec_flipped_horizontally().spec_flipped_horizontally() == s,
        s.spec_flipped_vertically().spec_flipped_vertically() == s,
        s.spec_flipped_diagonally().spec_flipped_diagonally() == s,
{
}

/// Horizontal and vertical flips may be applied in either order.
pub proof fn lemma_flips_commute(s: Shape)
    ensures
        s.spec_flipped_horizontally().spec_flipped_vertically() == s.spec_flipped_vertically().spec_flipped_horizontally(),
{
}

/// A horizontal flip seen through a swap of the axes is a vertical flip.
pub proof fn lemma_diagonal_conjugates_horizontal(s: Shape)
    ensures
        s.spec_flipped_diagonally().spec_flipped_horizontally().spec_flipped_diagonally() == s.spec_flipped_vertically(),
{
}

/// Flipping never turns a shape into or out of `Empty` or `Square`.
pub proof fn lemma_flips_keep_kind(s: Shape)
    ensures
        (s.spec_flipped_horizontally() == Shape::Empty) == (s == Shape::Empty),
        (s.spec_flipped_vertically() == Shape::Empty) == (s == Shape::Empty),
        (s.spec_flipped_diagonally() == Shape::Empty) == (s == Shape::Empty),
        (s.spec_flipped_horizontally() == Shape::Square) == (s == Shape::Square),
        (s.spec_flipped_vertically() == Shape::Square) == (s == Shape::Square),
        (s.spec_flipped_diagonally() == Shape::Square) == (s == Shape::Square),
{
}

/// What a collision query callback answers: keep searching, or stop.
#[derive(Debug, Copy, Clone, PartialEq, Eq, Structural)]
pub enum Sentinel {
    Continue,
    Stop,
}

/// A direction in which to probe the collision space.
#[derive(Clone, Copy, Debug, PartialEq, Eq, Structural)]
pub enum ProbeDir {
    Up,
    Right,
    Down,
    Left,
}

/// How a collider is placed: a static collider fills the unit cell at an integer position; a
/// dynamic one belongs to an entity and moves with it (its bounds are kept by the game world).
#[derive(Clone, Copy, Debug, PartialEq, Eq, Structural)]
pub enum Mode {
    Static { x: i32, y: i32 },
    Dynamic { entity_id: u32 },
}

/// A collider: where it is, what shape it has, and the mask bits that queries match against.
#[derive(Clone, Copy, Debug, PartialEq, Eq, Structural)]
pub struct Collider {
    pub mode: Mode,
    pub shape: Shape,
    pub mask: u32,
}

impl Collider {
    pub fn new_static(x: i32, y: i32, shape: Shape, mask: u32) -> (r: Collider)
        ensures
            r == (Collider { mode: Mode::Static { x, y }, shape, mask }),
    {
        Collider { mode: Mode::Static { x, y }, shape, mask }
    }

    pub fn new_dynamic(entity_id: u32, shape: Shape, mask: u32) -> (r: Collider)
        ensures
            r == (Collider { mode: Mode::Dynamic { entity_id }, shape, mask }),
    {
        Collider { mode: Mode::Dynamic { entity_id }, shape, mask }
    }

    pub open spec fn spec_entity_id(self) -> Option<u32> {
        match self.mode {
            Mode::Static { .. } => None,
            Mode::Dynamic { entity_id } => Some(entity_id),
        }
    }

    /// The entity a dynamic collider belongs to; static colliders belong to none.
    pub fn entity_id(&self) -> (r: Option<u32>)
        ensures
            r == self.spec_entity_id(),
    {
        match self.mode {
            Mode::Static { .. } => None,
            Mode::Dynamic { entity_id } => Some(entity_id),
        }
    }

    /// Whether the collider covers the centre of its own cell: every shape but `Empty` does (the
    /// centre lies on the sloped edge of each triangle, and the edge belongs to the triangle).
    pub open spec fn covers_cell_center(self) -> bool {
        self.shape != Shape::Empty
    }
}

/// The key under which the static collider of cell `(x, y)` is indexed: `x` in the high 32 bits,
/// `y` shifted to be non-negative in the low 32 bits.
pub open spec fn cell_key(x: i32, y: i32) -> i64 {
    (x * 0x1_0000_0000 + (y + 0x8000_0000)) as i64
}

proof fn lemma_cell_key_range(x: i32, y: i32)
    ensures
        cell_key(x, y) as int == x * 0x1_0000_0000 + (y + 0x8000_0000),
{
}

/// Distinct cells have distinct keys.
pub proof fn lemma_cell_key_injective(x1: i32, y1: i32, x2: i32, y2: i32)
    ensures
        cell_key(x1, y1) == cell_key(x2, y2) ==> x1 == x2 && y1 == y2,
{
    lemma_cell_key_range(x1, y1);
    lemma_cell_key_range(x2, y2);
    if x1 < x2 {
        assert(x1 * 0x1_0000_0000 + 0x1_0000_0000 <= x2 * 0x1_0000_0000);
    } else if x2 < x1 {
        assert(x2 * 0x1_0000_0000 + 0x1_0000_0000 <= x1 * 0x1_0000_0000);
    }
}

fn cell_key_of(x: i32, y: i32) -> (k: i64)
    ensures
        k == cell_key(x, y),
{
    proof {
        lemma_cell_key_range(x, y);
    }
    (x as i64) * 0x1_0000_0000i64 + ((y as i64) + 0x8000_0000i64)
}

/// What a `Space` holds: its colliders by id (an id is an index), the ids that are switched on,
/// the static collider indexed under each cell, the dynamic colliders in the order queries visit
/// them, and whether that order has to be sorted again.
pub struct SpaceView {
    pub colliders: Seq<Collider>,
    pub active: Set<u32>,
    pub static_cells: Map<(i32, i32), usize>,
    pub dynamic: Seq<usize>,
    pub need_sort: bool,
}

impl SpaceView {
    /// Ids are `u32`, indexes into the colliders; every id that is switched on, indexed under a
    /// cell or listed as dynamic names a collider, and the collider indexed under a cell is a
    /// static one in that cell.
    pub open spec fn wf(self) -> bool {
        &&& self.colliders.len() <= u32::MAX
        &&& forall|id: u32| #[trigger] self.active.contains(id) ==> id < self.colliders.len()
        &&& forall|p: (i32, i32)| #[trigger] self.static_cells.contains_key(p) ==> {
            &&& self.static_cells[p] < self.colliders.len()
            &&& self.colliders[self.static_cells[p] as int].mode == (Mode::Static { x: p.0, y: p.1 })
        }
        &&& forall|i: int| 0 <= i < self.dynamic.len() ==> #[trigger] self.dynamic[i] < self.colliders.len()
    }

    /// The space after `c` is added: it gets the next id, is switched on, and is indexed under its
    /// cell (a static collider, replacing what was indexed there) or appended to the dynamic
    /// colliders, whose order then needs sorting.
    pub open spec fn added(self, c: Collider) -> SpaceView {
        let id = self.colliders.len();
        SpaceView {
            colliders: self.colliders.push(c),
            active: self.active.insert(id as u32),
            static_cells: match c.mode {
                Mode::Static { x, y } => self.static_cells.insert((x, y), id as usize),
                Mode::Dynamic { .. } => self.static_cells,
            },
            dynamic: match c.mode {
                Mode::Static { .. } => self.dynamic,
                Mode::Dynamic { .. } => self.dynamic.push(id as usize),
            },
            need_sort: match c.mode {
                Mode::Static { .. } => self.need_sort,
                Mode::Dynamic { .. } => true,
            },
        }
    }

    /// The space after each of `cs` is added in turn.
    pub open spec fn added_all(self, cs: Seq<Collider>) -> SpaceView
        decreases cs.len(),
    {
        if cs.len() == 0 {
            self
        } else {
            self.added_all(cs.drop_last()).added(cs.last())
        }
    }

    pub open spec fn empty() -> SpaceView {
        SpaceView {
            colliders: Seq::empty(),
            active: Set::empty(),
            static_cells: Map::empty(),
            dynamic: Seq::empty(),
            need_sort: false,
        }
    }

    /// The space after collider `id` is switched off: it leaves the switched-on ids and, if it
    /// exists, the cell index at its position (whatever is indexed there) or the dynamic list.
    pub open spec fn deactivated(self, id: u32) -> SpaceView {
        let active = self.active.remove(id);
        if id < self.colliders.len() {
            match self.colliders[id as int].mode {
                Mode::Static { x, y } => SpaceView {
                    active,
                    static_cells: self.static_cells.remove((x, y)),
                    ..self
                },
                Mode::Dynamic { .. } => SpaceView {
                    active,
                    dynamic: self.dynamic.filter(|d: usize| d != id as usize),
                    ..self
                },
            }
        } else {
            SpaceView { active, ..self }
        }
    }

    /// The space after collider `id` is switched on: if it exists it joins the switched-on ids
    /// and is indexed under its cell or appended to the dynamic colliders (which then need
    /// sorting); an unknown id changes nothing.
    pub open spec fn activated(self, id: u32) -> SpaceView {
        if id < self.colliders.len() {
            let active = self.active.insert(id);
            match self.colliders[id as int].mode {
                Mode::Static { x, y } => SpaceView {
                    active,
                    static_cells: self.static_cells.insert((x, y), id as usize),
                    ..self
                },
                Mode::Dynamic { .. } => SpaceView {
                    active,
                    dynamic: self.dynamic.push(id as usize),
                    need_sort: true,
                    ..self
                },
            }
        } else {
            self
        }
    }

    /// The space after collider `id` moves to cell `(x, y)`: a static collider leaves the index of
    /// its old cell and is indexed under the new one; for a dynamic collider only the order of
    /// the dynamic colliders goes stale. An unknown id changes nothing.
    pub open spec fn moved(self, id: u32, x: i32, y: i32) -> SpaceView {
        if id < self.colliders.len() {
            let c = self.colliders[id as int];
            match c.mode {
                Mode::Static { x: old_x, y: old_y } => SpaceView {
                    colliders: self.colliders.update(id as int, Collider { mode: Mode::Static { x, y }, ..c }),
                    static_cells: self.static_cells.remove((old_x, old_y)).insert((x, y), id as usize),
                    ..self
                },
                Mode::Dynamic { .. } => SpaceView { need_sort: true, ..self },
            }
        } else {
            self
        }
    }

    /// The space with its dynamic colliders put in the order `order` (the one at position
    /// `order[k]` comes `k`-th), which no longer needs sorting.
    pub open spec fn reordered(self, order: Seq<usize>) -> SpaceView {
        SpaceView {
            dynamic: Seq::new(order.len(), |k: int| self.dynamic[order[k] as int]),
            need_sort: false,
            ..self
        }
    }

    /// The static collider indexed under cell `(x, y)`, if it shares a mask bit with `mask` and
    /// covers the centre of the cell.
    pub open spec fn static_collider_at(self, x: i32, y: i32, mask: u32) -> Option<Collider> {
        if self.static_cells.contains_key((x, y)) {
            let c = self.colliders[self.static_cells[(x, y)] as int];
            if c.mask & mask != 0 && c.covers_cell_center() {
                Some(c)
            } else {
                None
            }
        } else {
            None
        }
    }
}

/// The colliders of a level, with an index of the static ones by cell and the list of the
/// dynamic ones that queries visit.
pub struct Space {
    colliders: Vec<Collider>,
    active_colliders: HashSet<u32>,
    static_colliders: HashMap<i64, usize>,
    dynamic_colliders: Vec<usize>,
    dynamic_colliders_need_sort: bool,
}

impl View for Space {
    type V = SpaceView;

    closed spec fn view(&self) -> SpaceView {
        SpaceView {
            colliders: self.colliders@,
            active: self.active_colliders@,
            static_cells: cells_of(self.static_colliders@),
            dynamic: self.dynamic_colliders@,
            need_sort: self.dynamic_colliders_need_sort,
        }
    }
}

/// The index by cell that a map keyed by `cell_key` stands for.
pub open spec fn cells_of(m: Map<i64, usize>) -> Map<(i32, i32), usize> {
    Map::new(
        |p: (i32, i32)| m.contains_key(cell_key(p.0, p.1)),
        |p: (i32, i32)| m[cell_key(p.0, p.1)],
    )
}

proof fn lemma_cells_insert(m: Map<i64, usize>, x: i32, y: i32, v: usize)
    ensures
        cells_of(m.insert(cell_key(x, y), v)) == cells_of(m).insert((x, y), v),
{
    assert forall|p: (i32, i32)| #![auto] cell_key(p.0, p.1) == cell_key(x, y) implies p == (x, y) by {
        lemma_cell_key_injective(p.0, p.1, x, y);
    }
    assert(cells_of(m.insert(cell_key(x, y), v)) =~= cells_of(m).insert((x, y), v));
}

proof fn lemma_cells_remove(m: Map<i64, usize>, x: i32, y: i32)
    ensures
        cells_of(m.remove(cell_key(x, y))) == cells_of(m).remove((x, y)),
{
    assert forall|p: (i32, i32)| #![auto] cell_key(p.0, p.1) == cell_key(x, y) implies p == (x, y) by {
        lemma_cell_key_injective(p.0, p.1, x, y);
    }
    assert(cells_of(m.remove(cell_key(x, y))) =~= cells_of(m).remove((x, y)));
}

/// The test that keeps every dynamic collider but `id`.
pub open spec fn other_than(id: u32) -> spec_fn(usize) -> bool {
    |d: usize| d != id as usize
}

impl Space {
    /// A space holding `colliders`, added one after the other (each gets its index as its id).
    pub fn new(colliders: &[Collider]) -> (r: Space)
        requires
            colliders@.len() <= u32::MAX,
        ensures
            r@ == SpaceView::empty().added_all(colliders@),
            r@.wf(),
    {
        let mut space = Space {
            colliders: Vec::new(),
            active_colliders: HashSet::new(),
            static_colliders: HashMap::new(),
            dynamic_colliders: Vec::new(),
            dynamic_colliders_need_sort: false,
        };
        proof {
            assert(cells_of(Map::empty()) =~= Map::empty());
            assert(colliders@.take(0) =~= Seq::empty());
        }
        let mut i: usize = 0;
        while i < colliders.len()
            invariant
                i <= colliders@.len() <= u32::MAX,
                space@ == SpaceView::empty().added_all(colliders@.take(i as int)),
                space@.wf(),
                space@.colliders.len() == i,
            decreases colliders@.len() - i,
        {
            proof {
                assert(colliders@.take(i + 1).drop_last() =~= colliders@.take(i as int));
            }
            space.add_collider(colliders[i]);
            i = i + 1;
        }
        proof {
            assert(colliders@.take(i as int) =~= colliders@);
        }
        space
    }

    /// Adds `collider`, switched on, and returns its id.
    pub fn add_collider(&mut self, collider: Collider) -> (id: u32)
        requires
            old(self)@.wf(),
            old(self)@.colliders.len() < u32::MAX,
        ensures
            id == old(self)@.colliders.len(),
            final(self)@ == old(self)@.added(collider),
            final(self)@.wf(),
    {
        let index = self.colliders.len();
        self.colliders.push(collider);
        self.active_colliders.insert(index as u32);
        match collider.mode {
            Mode::Static { x, y } => {
                let key = cell_key_of(x, y);
                proof {
                    lemma_cells_insert(self.static_colliders@, x, y, index);
                }
                self.static_colliders.insert(key, index);
            },
            Mode::Dynamic { .. } => {
                self.dynamic_colliders.push(index);
                self.dynamic_colliders_need_sort = true;
            },
        }
        proof {
            let v = self@;
            let o = old(self)@;
            assert(v.colliders.len() <= u32::MAX);
            assert forall|id: u32| #[trigger] v.active.contains(id) implies id < v.colliders.len() by {
                if id != index as u32 {
                    assert(o.active.contains(id));
                }
            }
            assert forall|k: int| 0 <= k < v.dynamic.len() implies #[trigger] v.dynamic[k] < v.colliders.len() by {
                if k < o.dynamic.len() {
                    assert(o.dynamic[k] == v.dynamic[k]);
                }
            }
            assert forall|p: (i32, i32)| #[trigger] v.static_cells.contains_key(p) implies {
                &&& v.static_cells[p] < v.colliders.len()
                &&& v.colliders[v.static_cells[p] as int].mode == (Mode::Static { x: p.0, y: p.1 })
            } by {
                if v.static_cells[p] != index {
                    assert(o.static_cells.contains_key(p));
                    assert(v.colliders[v.static_cells[p] as int] == o.colliders[o.static_cells[p] as int]);
                }
            }
        }
        index as u32
    }

    /// How many colliders the space holds (switched on or not); the next one added gets this id.
    pub fn num_colliders(&self) -> (r: usize)
        ensures
            r == self@.colliders.len(),
    {
        self.colliders.len()
    }

    /// The collider with id `collider_id`, if there is one.
    pub fn get_collider(&self, collider_id: u32) -> (r: Option<&Collider>)
        ensures
            match r {
                Some(c) => collider_id < self@.colliders.len() && *c == self@.colliders[collider_id as int],
                None => collider_id >= self@.colliders.len(),
            },
    {
        let i = collider_id as usize;
        if i < self.colliders.len() {
            Some(&self.colliders[i])
        } else {
            None
        }
    }

    /// Switches collider `collider_id` off.
    pub fn deactivate_collider(&mut self, collider_id: u32)
        requires
            old(self)@.wf(),
        ensures
            final(self)@ == old(self)@.deactivated(collider_id),
            final(self)@.wf(),
    {
        self.active_colliders.remove(&collider_id);
        let i = collider_id as usize;
        if i < self.colliders.len() {
            let c = self.colliders[i];
            match c.mode {
                Mode::Static { x, y } => {
                    let key = cell_key_of(x, y);
                    proof {
                        lemma_cells_remove(self.static_colliders@, x, y);
                    }
                    self.static_colliders.remove(&key);
                },
                Mode::Dynamic { .. } => {
                    let ghost keep = other_than(collider_id);
                    let ghost before = self.dynamic_colliders@;
                    let mut kept: Vec<usize> = Vec::new();
                    let mut j: usize = 0;
                    proof {
                        assert(before.take(0) =~= Seq::empty());
                        reveal(Seq::filter);
                    }
                    while j < self.dynamic_colliders.len()
                        invariant
                            j <= self.dynamic_colliders@.len(),
                            self.dynamic_colliders@ == before,
                            keep == other_than(collider_id),
                            i == collider_id as usize,
                            kept@ == before.take(j as int).filter(keep),
                        decreases self.dynamic_colliders@.len() - j,
                    {
                        let d = self.dynamic_colliders[j];
                        proof {
                            assert(before.take(j + 1) =~= before.take(j as int).push(d));
                            before.take(j as int).lemma_filter_push(d, keep);
                            assert(keep(d) == (d != i));
                        }
                        if d != i {
                            kept.push(d);
                        }
                        j = j + 1;
                    }
                    proof {
                        assert(before.take(j as int) =~= before);
                    }
                    self.dynamic_colliders = kept;
                },
            }
        }
        proof {
            let v = self@;
            let o = old(self)@;
            assert forall|id: u32| #[trigger] v.active.contains(id) implies id < v.colliders.len() by {
                assert(o.active.contains(id));
            }
            if !(i < self.colliders.len() && o.colliders[i as int].mode is Static) {
                assert(v.static_cells == o.static_cells);
            }
            if !(i < self.colliders.len() && o.colliders[i as int].mode is Dynamic) {
                assert(v.dynamic == o.dynamic);
            }
            if i < self.colliders.len() && o.colliders[i as int].mode is Static {
                assert forall|p: (i32, i32)| #[trigger] v.static_cells.contains_key(p) implies {
                    &&& v.static_cells[p] < v.colliders.len()
                    &&& v.colliders[v.static_cells[p] as int].mode == (Mode::Static { x: p.0, y: p.1 })
                } by {
                    assert(o.static_cells.contains_key(p));
                }
            }
            if i < self.colliders.len() && o.colliders[i as int].mode is Dynamic {
                assert forall|k: int| 0 <= k < v.dynamic.len() implies #[trigger] v.dynamic[k] < v.colliders.len() by {
                    o.dynamic.lemma_filter_contains_rev(other_than(collider_id), v.dynamic[k]);
                    assert(v.dynamic.contains(v.dynamic[k]));
                }
            }
        }
    }

    /// Switches collider `collider_id` on again; an unknown id is ignored.
    pub fn activate_collider(&mut self, collider_id: u32)
        requires
            old(self)@.wf(),
        ensures
            final(self)@ == old(self)@.activated(collider_id),
            final(self)@.wf(),
    {
        let i = collider_id as usize;
        if i < self.colliders.len() {
            let c = self.colliders[i];
            self.active_colliders.insert(collider_id);
            match c.mode {
                Mode::Static { x, y } => {
                    let key = cell_key_of(x, y);
                    proof {
                        lemma_cells_insert(self.static_colliders@, x, y, i);
                    }
                    self.static_colliders.insert(key, i);
                },
                Mode::Dynamic { .. } => {
                    self.dynamic_colliders.push(i);
                    self.dynamic_colliders_need_sort = true;
                },
            }
        }
    }

    /// Whether collider `collider_id` is switched on.
    pub fn is_collider_activated(&self, collider_id: u32) -> (r: bool)
        ensures
            r == self@.active.contains(collider_id),
    {
        self.active_colliders.contains(&collider_id)
    }

    /// Moves collider `collider_id` to cell `(x, y)`. For a static collider this re-indexes it;
    /// a dynamic collider's bounds are kept by the game world, so here only the order of the
    /// dynamic colliders is marked stale. An unknown id is ignored.
    pub fn update_collider_position(&mut self, collider_id: u32, x: i32, y: i32)
        requires
            old(self)@.wf(),
        ensures
            final(self)@ == old(self)@.moved(collider_id, x, y),
            final(self)@.wf(),
    {
        let i = collider_id as usize;
        if i < self.colliders.len() {
            let c = self.colliders[i];
            match c.mode {
                Mode::Static { x: old_x, y: old_y } => {
                    let old_key = cell_key_of(old_x, old_y);
                    let new_key = cell_key_of(x, y);
                    proof {
                        lemma_cells_remove(self.static_colliders@, old_x, old_y);
                        lemma_cells_insert(self.static_colliders@.remove(old_key), x, y, i);
                    }
                    self.static_colliders.remove(&old_key);
                    self.colliders.set(i, Collider { mode: Mode::Static { x, y }, ..c });
                    self.static_colliders.insert(new_key, i);
                    proof {
                        let v = self@;
                        let o = old(self)@;
                        assert forall|p: (i32, i32)| #[trigger] v.static_cells.contains_key(p) implies {
                            &&& v.static_cells[p] < v.colliders.len()
                            &&& v.colliders[v.static_cells[p] as int].mode == (Mode::Static { x: p.0, y: p.1 })
                        } by {
                            if p != (x, y) {
                                assert(o.static_cells.contains_key(p));
                                assert(p != (old_x, old_y));
                                assert(o.static_cells[p] != i);
                            }
                        }
                    }
                },
                Mode::Dynamic { .. } => {
                    self.dynamic_colliders_need_sort = true;
                },
            }
        }
    }

    /// The static collider indexed under cell `(x, y)`, if it shares a bit with `mask` and covers
    /// the centre of the cell.
    pub fn get_static_collider_at(&self, x: i32, y: i32, mask: u32) -> (r: Option<&Collider>)
        requires
            self@.wf(),
        ensures
            match r {
                Some(c) => self@.static_collider_at(x, y, mask) == Some(*c),
                None => self@.static_collider_at(x, y, mask) is None,
            },
    {
        let key = cell_key_of(x, y);
        match self.static_colliders.get(&key) {
            Some(index) => {
                proof {
                    assert(self@.static_cells.contains_key((x, y)));
                    assert(self@.static_cells[(x, y)] == *index);
                }
                let c = &self.colliders[*index];
                if c.mask & mask != 0 && !matches!(c.shape, Shape::Empty) {
                    Some(c)
                } else {
                    None
                }
            },
            None => None,
        }
    }

    /// The dynamic colliders, in the order that queries visit them.
    pub fn dynamic_colliders(&self) -> (r: &Vec<usize>)
        ensures
            r@ == self@.dynamic,
    {
        &self.dynamic_colliders
    }

    /// Whether the dynamic colliders were added or moved since they were last put in order.
    pub fn dynamic_colliders_need_sort(&self) -> (r: bool)
        ensures
            r == self@.need_sort,
    {
        self.dynamic_colliders_need_sort
    }

    /// Puts the dynamic colliders in a new order: the one at position `order[k]` comes `k`-th.
    /// `order` must be a permutation of the positions; otherwise nothing changes and the answer
    /// is `false`.
    pub fn reorder_dynamic_colliders(&mut self, order: &Vec<usize>) -> (accepted: bool)
        requires
            old(self)@.wf(),
        ensures
            accepted == is_permutation(order@, old(self)@.dynamic.len()),
            accepted ==> final(self)@ == old(self)@.reordered(order@),
            !accepted ==> final(self)@ == old(self)@,
            final(self)@.wf(),
    {
        let n = self.dynamic_colliders.len();
        if order.len() != n {
            return false;
        }
        let mut seen: Vec<bool> = Vec::new();
        let mut k: usize = 0;
        while k < n
            invariant
                k <= n,
                seen@.len() == k,
                forall|j: int| 0 <= j < k ==> !#[trigger] seen@[j],
            decreases n - k,
        {
            seen.push(false);
            k = k + 1;
        }
        let mut i: usize = 0;
        while i < n
            invariant
                i <= n,
                n == self@.dynamic.len(),
                self@ == old(self)@,
                old(self)@.wf(),
                order@.len() == n,
                seen@.len() == n,
                forall|j: int| 0 <= j < i ==> #[trigger] order@[j] < n,
                forall|j1: int, j2: int| 0 <= j1 < j2 < i ==> order@[j1] != order@[j2],
                forall|p: int| 0 <= p < n ==> (#[trigger] seen@[p] <==> exists|j: int| 0 <= j < i && order@[j] == p),
            decreases n - i,
        {
            let p = order[i];
            if p >= n || seen[p] {
                proof {
                    if p < n {
                        let j = choose|j: int| 0 <= j < i && order@[j] == p;
                        assert(order@[j] == order@[i as int]);
                    }
                }
                return false;
            }
            seen.set(p, true);
            proof {
                assert forall|q: int| 0 <= q < n implies (#[trigger] seen@[q] <==> exists|j: int| 0 <= j < i + 1 && order@[j] == q) by {
                    if q == p {
                        assert(order@[i as int] == q);
                    }
                }
            }
            i = i + 1;
        }
        let mut reordered: Vec<usize> = Vec::new();
        let mut k: usize = 0;
        while k < n
            invariant
                k <= n,
                order@.len() == n,
                self.dynamic_colliders@.len() == n,
                forall|j: int| 0 <= j < n ==> #[trigger] order@[j] < n,
                reordered@.len() == k,
                forall|j: int| 0 <= j < k ==> #[trigger] reordered@[j] == self.dynamic_colliders@[order@[j] as int],
            decreases n - k,
        {
            reordered.push(self.dynamic_colliders[order[k]]);
            k = k + 1;
        }
        proof {
            assert(reordered@ =~= old(self)@.reordered(order@).dynamic);
        }
        self.dynamic_colliders = reordered;
        self.dynamic_colliders_need_sort = false;
        proof {
            let v = self@;
            let o = old(self)@;
            assert forall|j: int| 0 <= j < v.dynamic.len() implies #[trigger] v.dynamic[j] < v.colliders.len() by {
                assert(v.dynamic[j] == o.dynamic[order@[j] as int]);
            }
        }
        true
    }
}

/// Whether `order` lists each of the positions `0..n` exactly once.
pub open spec fn is_permutation(order: Seq<usize>, n: nat) -> bool {
    &&& order.len() == n
    &&& forall|j: int| 0 <= j < n ==> #[trigger] order[j] < n
    &&& forall|j1: int, j2: int| 0 <= j1 < j2 < n ==> order[j1] != order[j2]
}

/// Every position `0..n` occurs in a permutation of them.
proof fn lemma_permutation_covers(order: Seq<usize>, n: nat, p: int)
    requires
        is_permutation(order, n),
        0 <= p < n,
    ensures
        exists|j: int| 0 <= j < n && order[j] == p,
{
    let positions = Seq::new(n, |j: int| order[j] as int);
    assert(positions.no_duplicates());
    positions.unique_seq_to_set();
    vstd::set_lib::lemma_int_range(0, n as int);
    assert(positions.to_set().subset_of(vstd::set_lib::set_int_range(0, n as int)));
    vstd::set_lib::lemma_subset_equality(positions.to_set(), vstd::set_lib::set_int_range(0, n as int));
    assert(vstd::set_lib::set_int_range(0, n as int).contains(p));
    assert(positions.to_set().contains(p));
    let j = choose|j: int| 0 <= j < positions.len() && positions[j] == p;
    assert(order[j] == p);
}

/// Putting the dynamic colliders in a new order keeps the same colliders, and as many of them.
pub proof fn lemma_reorder_keeps_colliders(v: SpaceView, order: Seq<usize>, d: usize)
    requires
        is_permutation(order, v.dynamic.len()),
    ensures
        v.reordered(order).dynamic.len() == v.dynamic.len(),
        v.reordered(order).dynamic.contains(d) <==> v.dynamic.contains(d),
{
    let r = v.reordered(order).dynamic;
    if r.contains(d) {
        let k = choose|k: int| 0 <= k < r.len() && r[k] == d;
        assert(v.dynamic[order[k] as int] == d);
    }
    if v.dynamic.contains(d) {
        let p = choose|p: int| 0 <= p < v.dynamic.len() && v.dynamic[p] == d;
        lemma_permutation_covers(order, v.dynamic.len(), p);
        let j = choose|j: int| 0 <= j < v.dynamic.len() && order[j] == p;
        assert(r[j] == d);
    }
}

/// A collider that is switched off is no longer on, and switching it on again turns it back on.
pub proof fn lemma_switch_off_then_on(v: SpaceView, id: u32)
    requires
        v.wf(),
        id < v.colliders.len(),
    ensures
        !v.deactivated(id).active.contains(id),
        v.deactivated(id).activated(id).active.contains(id),
{
}

/// Switching a static collider that is on and indexed under its cell off and on again leaves the
/// space as it was.
pub proof fn lemma_static_toggle_restores(v: SpaceView, id: u32)
    requires
        v.wf(),
        id < v.colliders.len(),
        v.colliders[id as int].mode is Static,
        v.active.contains(id),
        v.static_cells.contains_key((v.colliders[id as int].mode->x, v.colliders[id as int].mode->y)),
        v.static_cells[(v.colliders[id as int].mode->x, v.colliders[id as int].mode->y)] == id,
    ensures
        v.deactivated(id).activated(id) == v,
{
    let cell = (v.colliders[id as int].mode->x, v.colliders[id as int].mode->y);
    assert(v.active.remove(id).insert(id) =~= v.active);
    assert(v.static_cells.remove(cell).insert(cell, id as usize) =~= v.static_cells);
}

/// A static collider that was just added is found in its cell by any mask it shares a bit with,
/// unless its shape is `Empty`.
pub proof fn lemma_added_static_is_found(v: SpaceView, c: Collider, mask: u32)
    requires
        v.wf(),
        c.mode is Static,
    ensures
        v.added(c).static_collider_at(c.mode->x, c.mode->y, mask)
            == (if c.mask & mask != 0 && c.shape != Shape::Empty { Some(c) } else { None }),
{
}

} // verus!
