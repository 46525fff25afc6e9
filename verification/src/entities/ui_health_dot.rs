use vstd::prelude::*;

verus! {

/// One dot of the health bar: its index in the bar (found the first time it updates), whether it
/// is shown (the player has at least that many hit points at full health) and whether it is
/// filled (the player has at least that many hit points now).
pub struct UiHealthDot {
    index: Option<i32>,
    visible: bool,
    filled: bool,
}

pub struct UiHealthDotView {
    pub index: Option<i32>,
    pub visible: bool,
    pub filled: bool,
}

impl View for UiHealthDot {
    type V = UiHealthDotView;

    closed spec fn view(&self) -> UiHealthDotView {
        UiHealthDotView { index: self.index, visible: self.visible, filled: self.filled }
    }
}

impl Default for UiHealthDot {
    fn default() -> (r: Self)
        ensures
            r@ == (UiHealthDotView { index: None, visible: false, filled: false }),
    {
        UiHealthDot { index: None, visible: false, filled: false }
    }
}

/// The columns `x - 1` down to `x - k` all hold a dot.
pub open spec fn dots_to_left(x: int, dot_columns: Seq<i32>, k: int) -> bool {
    forall|v: i32| x - k <= v <= x - 1 ==> #[trigger] dot_columns.contains(v)
}

/// Walks left from column `x` over the dots of its row, given as the columns that hold one, and
/// returns how many dots it passes before a column without one: the dot's index in the bar.
pub fn determine_index(x: i32, dot_columns: &Vec<i32>) -> (r: i32)
    requires
        x - dot_columns@.len() - 1 >= i32::MIN,
        dot_columns@.len() < i32::MAX,
    ensures
        0 <= r <= dot_columns@.len(),
        dots_to_left(x as int, dot_columns@, r as int),
        !dot_columns@.contains((x - r - 1) as i32),
{
    let mut offset: i32 = 1;
    loop
        invariant
            x - dot_columns@.len() - 1 >= i32::MIN,
            dot_columns@.len() < i32::MAX,
            1 <= offset <= dot_columns@.len() + 1,
            dots_to_left(x as int, dot_columns@, offset - 1),
        decreases dot_columns@.len() + 1 - offset,
    {
        if contains(dot_columns, x - offset) {
            proof {
                lemma_run_fits(x as int, dot_columns@, offset as int);
            }
            offset = offset + 1;
        } else {
            return offset - 1;
        }
    }
}

/// `k` distinct columns to the left all hold a dot, so there are at least `k` entries.
proof fn lemma_run_fits(x: int, dot_columns: Seq<i32>, k: int)
    requires
        k >= 1,
        x <= i32::MAX,
        x - dot_columns.len() - 1 >= i32::MIN,
        dots_to_left(x, dot_columns, k),
    ensures
        k <= dot_columns.len(),
{
    let run = Set::new(|v: i32| x - k <= v <= x - 1);
    assert(run =~= Set::new(|v: i32| x - k <= v <= x - 1));
    if k > dot_columns.len() {
        let small = Set::new(|v: i32| x - dot_columns.len() - 1 <= v <= x - 1);
        assert forall|v: i32| small.contains(v) implies dot_columns.to_set().contains(v) by {
            assert(dot_columns.contains(v));
        }
        lemma_int_range_set_len(x - dot_columns.len() - 1, x - 1);
        dot_columns.lemma_cardinality_of_set();
        vstd::set_lib::lemma_len_subset(small, dot_columns.to_set());
    }
}

/// The integers from `lo` to `hi`, as i32s, number `hi - lo + 1`.
proof fn lemma_int_range_set_len(lo: int, hi: int)
    requires
        i32::MIN <= lo,
        lo <= hi + 1,
        hi <= i32::MAX,
    ensures
        Set::new(|v: i32| lo <= v <= hi).finite(),
        Set::new(|v: i32| lo <= v <= hi).len() == hi - lo + 1,
    decreases hi - lo + 1,
{
    if lo == hi + 1 {
        assert(Set::new(|v: i32| lo <= v <= hi) =~= Set::<i32>::empty());
    } else {
        lemma_int_range_set_len(lo, hi - 1);
        assert(Set::new(|v: i32| lo <= v <= hi) =~= Set::new(|v: i32| lo <= v <= hi - 1).insert(hi as i32));
    }
}

fn contains(v: &Vec<i32>, x: i32) -> (r: bool)
    ensures
        r == v@.contains(x),
{
    let mut i: usize = 0;
    while i < v.len()
        invariant
            0 <= i <= v.len(),
            forall|j: int| 0 <= j < i ==> v@[j] != x,
        decreases v.len() - i,
    {
        if v[i] == x {
            return true;
        }
        i = i + 1;
    }
    false
}

impl UiHealthDot {
    /// Learns the dot's index the first time (`index_if_unknown`, as `determine_index` finds it),
    /// then shows the dot if the player's full health reaches past it and fills it if the
    /// player's health does.
    pub fn update(&mut self, index_if_unknown: i32, player_health: (u32, u32))
        ensures
            ({
                let index = match old(self)@.index {
                    Some(i) => i,
                    None => index_if_unknown,
                };
                final(self)@ == (UiHealthDotView {
                    index: Some(index),
                    visible: index < (player_health.1 as i32),
                    filled: index < (player_health.0 as i32),
                })
            }),
    {
        if self.index.is_none() {
            self.index = Some(index_if_unknown);
        }
        if let Some(index) = self.index {
            self.visible = index < player_health.1 as i32;
            self.filled = index < player_health.0 as i32;
        }
    }

    pub fn should_draw(&self) -> (r: bool)
        ensures
            r == self@.visible,
    {
        self.visible
    }

    pub fn sprite_cycle(&self) -> (r: &'static str)
        ensures
            r@ == (if self@.filled { "full"@ } else { "empty"@ }),
    {
        if self.filled {
            "full"
        } else {
            "empty"
        }
    }
}

} // verus!
