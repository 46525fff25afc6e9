use std::collections::HashMap;

use vstd::prelude::*;

verus! {

broadcast use vstd::std_specs::hash::group_hash_axioms;

/// The state of a button from frame to frame: `Pressed` on the frame it goes down, `Down` while
/// it stays down, `Released` on the frame it comes up, `Up` while it stays up.
#[derive(Clone, Copy, Debug, PartialEq, Eq, Structural)]
pub enum ButtonState {
    Pressed,
    Down,
    Released,
    Up,
}

impl Default for ButtonState {
    fn default() -> (r: Self)
        ensures
            r == ButtonState::Up,
    {
        ButtonState::Up
    }
}

impl ButtonState {
    pub open spec fn spec_transition(self, key_down: bool) -> ButtonState {
        if key_down {
            match self {
                ButtonState::Pressed => ButtonState::Down,
                ButtonState::Down => ButtonState::Down,
                ButtonState::Released => ButtonState::Pressed,
                ButtonState::Up => ButtonState::Pressed,
            }
        } else {
            match self {
                ButtonState::Pressed => ButtonState::Released,
                ButtonState::Down => ButtonState::Released,
                ButtonState::Released => ButtonState::Up,
                ButtonState::Up => ButtonState::Up,
            }
        }
    }

    pub open spec fn spec_is_active(self) -> bool {
        self is Pressed || self is Down
    }

    /// The state after one frame in which the key is (or is not) held down.
    pub open spec fn spec_settled(self) -> ButtonState {
        self.spec_transition(self.spec_is_active())
    }

    fn transition(&self, key_down: bool) -> (r: ButtonState)
        ensures
            r == self.spec_transition(key_down),
    {
        if key_down {
            match self {
                ButtonState::Pressed => ButtonState::Down,
                ButtonState::Down => ButtonState::Down,
                ButtonState::Released => ButtonState::Pressed,
                ButtonState::Up => ButtonState::Pressed,
            }
        } else {
            match self {
                ButtonState::Pressed => ButtonState::Released,
                ButtonState::Down => ButtonState::Released,
                ButtonState::Released => ButtonState::Up,
                ButtonState::Up => ButtonState::Up,
            }
        }
    }

    /// Whether the button is held down.
    pub fn is_active(&self) -> (r: bool)
        ensures
            r == self.spec_is_active(),
    {
        match self {
            ButtonState::Pressed | ButtonState::Down => true,
            _ => false,
        }
    }
}

/// A key event makes the button active exactly when the key went down; a frame passing turns
/// `Pressed` into `Down` and `Released` into `Up`, after which further frames change nothing.
pub proof fn lemma_button_transitions(b: ButtonState, key_down: bool)
    ensures
        b.spec_transition(key_down).spec_is_active() == key_down,
        b.spec_settled().spec_is_active() == b.spec_is_active(),
        b.spec_settled().spec_settled() == b.spec_settled(),
        b is Pressed ==> b.spec_settled() is Down,
        b is Released ==> b.spec_settled() is Up,
        b.spec_transition(key_down).spec_transition(key_down).spec_transition(key_down)
            == b.spec_transition(key_down).spec_transition(key_down),
{
}

/// The state of each registered key, keyed by its key code.
pub struct InputState {
    buttons: HashMap<u32, ButtonState>,
}

impl View for InputState {
    type V = Map<u32, ButtonState>;

    closed spec fn view(&self) -> Map<u32, ButtonState> {
        self.buttons@
    }
}

impl Default for InputState {
    fn default() -> (r: Self)
        ensures
            r@ == Map::<u32, ButtonState>::empty(),
    {
        Self { buttons: HashMap::new() }
    }
}

impl InputState {
    /// An input state that tracks `keys`, each `Up`.
    pub fn for_keys(keys: &[u32]) -> (r: Self)
        ensures
            r@.dom() == keys@.to_set(),
            forall|k: u32| #[trigger] r@.contains_key(k) ==> r@[k] == ButtonState::Up,
    {
        let mut buttons: HashMap<u32, ButtonState> = HashMap::new();
        let mut i: usize = 0;
        while i < keys.len()
            invariant
                0 <= i <= keys@.len(),
                buttons@.dom() == keys@.take(i as int).to_set(),
                forall|k: u32| #[trigger] buttons@.contains_key(k) ==> buttons@[k] == ButtonState::Up,
            decreases keys.len() - i,
        {
            buttons.insert(keys[i], ButtonState::default());
            proof {
                assert(keys@.take(i + 1) =~= keys@.take(i as int).push(keys@[i as int]));
                keys@.take(i as int).lemma_push_to_set_commute(keys@[i as int]);
            }
            i = i + 1;
        }
        proof {
            assert(keys@.take(keys@.len() as int) =~= keys@);
        }
        Self { buttons }
    }

    /// Starts tracking `key`, as `Up`.
    pub fn register(&mut self, key: u32)
        ensures
            final(self)@ == old(self)@.insert(key, ButtonState::Up),
    {
        self.buttons.insert(key, ButtonState::default());
    }

    /// Sets the state of `key`, tracking it if it was not.
    pub fn set(&mut self, key: u32, state: ButtonState)
        ensures
            final(self)@ == old(self)@.insert(key, state),
    {
        self.buttons.insert(key, state);
    }

    /// The state of `key`, if it is tracked.
    pub fn get_button_state(&self, key: u32) -> (r: Option<&ButtonState>)
        ensures
            match r {
                Some(b) => self@.contains_key(key) && *b == self@[key],
                None => !self@.contains_key(key),
            },
    {
        self.buttons.get(&key)
    }

    /// A key went down (`pressed`) or up: a tracked key moves to its next state and the event is
    /// consumed (true); an untracked key is left alone (false).
    pub fn process_keyboard(&mut self, key: u32, pressed: bool) -> (r: bool)
        ensures
            r == old(self)@.contains_key(key),
            r ==> final(self)@ == old(self)@.insert(key, old(self)@[key].spec_transition(pressed)),
            !r ==> final(self)@ == old(self)@,
    {
        match self.buttons.get(&key) {
            Some(button_state) => {
                let new_state = button_state.transition(pressed);
                self.buttons.insert(key, new_state);
                true
            },
            None => false,
        }
    }

    /// One frame passes: each key moves on as if still held as it was.
    pub fn update(&mut self)
        ensures
            final(self)@.dom() == old(self)@.dom(),
            forall|k: u32| #[trigger] final(self)@.contains_key(k) ==> final(self)@[k] == old(self)@[k].spec_settled(),
    {
        let mut keys: Vec<u32> = Vec::new();
        for k in it: self.buttons.keys()
            invariant
                keys@ == it.seq().unref().take(it.index() as int),
                it.seq().unref().to_set() == self.buttons@.dom(),
                it.seq().no_duplicates(),
                it.index() == it.seq().len() ==> keys@.to_set() == self.buttons@.dom() && keys@.no_duplicates(),
        {
            keys.push(*k);
            proof {
                assert(it.seq().unref().take(it.index() + 1) =~= keys@);
                assert(it.index() + 1 == it.seq().len() ==> keys@ =~= it.seq().unref());
                assert(forall|a: int, b: int| 0 <= a < b < keys@.len() ==> it.seq()[a] != it.seq()[b]);
            }
        }
        let ghost old_map = self.buttons@;
        proof {
            assert(keys@.to_set() =~= old_map.dom());
        }
        let mut i: usize = 0;
        while i < keys.len()
            invariant
                0 <= i <= keys@.len(),
                keys@.no_duplicates(),
                keys@.to_set() == old_map.dom(),
                self.buttons@.dom() == old_map.dom(),
                forall|k: u32| #[trigger] self.buttons@.contains_key(k) ==> self.buttons@[k] == (
                    if keys@.take(i as int).contains(k) { old_map[k].spec_settled() } else { old_map[k] }),
            decreases keys.len() - i,
        {
            let k = keys[i];
            proof {
                assert(keys@.to_set().contains(k));
                assert(!keys@.take(i as int).contains(k)) by {
                    if keys@.take(i as int).contains(k) {
                        let j = choose|j: int| 0 <= j < i && #[trigger] keys@.take(i as int)[j] == k;
                        assert(keys@[j] == keys@[i as int]);
                    }
                }
            }
            match self.buttons.get(&k) {
                Some(b) => {
                    let settled = b.transition(b.is_active());
                    self.buttons.insert(k, settled);
                },
                None => {},
            }
            proof {
                assert forall|q: u32| #[trigger] keys@.take(i + 1).contains(q) == (keys@.take(i as int).contains(q) || q == k) by {
                    if keys@.take(i + 1).contains(q) {
                        let j = choose|j: int| 0 <= j < i + 1 && #[trigger] keys@.take(i + 1)[j] == q;
                        if j < i {
                            assert(keys@.take(i as int)[j] == q);
                        }
                    }
                    if keys@.take(i as int).contains(q) {
                        let j = choose|j: int| 0 <= j < i && #[trigger] keys@.take(i as int)[j] == q;
                        assert(keys@.take(i + 1)[j] == q);
                    }
                    if q == k {
                        assert(keys@.take(i + 1)[i as int] == q);
                    }
                }
                assert(self.buttons@.dom() =~= old_map.dom());
            }
            i = i + 1;
        }
        proof {
            assert(keys@.take(keys@.len() as int) =~= keys@);
            assert forall|k: u32| #[trigger] self.buttons@.contains_key(k) implies keys@.contains(k) by {
                assert(keys@.to_set().contains(k));
            }
        }
    }
}

/// Movement along an axis from a pair of buttons: -1 while only the negative one is down (or just
/// released), +1 for only the positive one, 0 for both or neither.
pub fn input_accumulator(negative: &ButtonState, positive: &ButtonState) -> (r: i32)
    ensures
        r == (if *positive is Up { 0int } else { 1int }) - (if *negative is Up { 0int } else { 1int }),
{
    let mut acc: i32 = 0;
    match negative {
        ButtonState::Pressed | ButtonState::Down | ButtonState::Released => {
            acc = acc - 1;
        },
        ButtonState::Up => {},
    }
    match positive {
        ButtonState::Pressed | ButtonState::Down | ButtonState::Released => {
            acc = acc + 1;
        },
        ButtonState::Up => {},
    }
    acc
}

} // verus!
