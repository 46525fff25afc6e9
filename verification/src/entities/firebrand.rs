use vstd::prelude::*;

use crate::collision::{Collider, Space};
use crate::constants::CONTACT_DAMAGE;
use crate::entities::power_up::Type;
use crate::event_dispatch::{Dispatcher, Message};
use crate::entities::util::HorizontalDir;
use crate::input::{ButtonState, InputState};

verus! {

/// Firebrand's hit points when at full health.
pub const HIT_POINTS: u32 = 2;
/// The damage that touching a harmful tile or enemy deals.
pub const CONTACT_DAMAGE_HIT_POINTS: u32 = 1;
/// The damage that a fireball deals.
pub const FIREBALL_PROJECTILE_DAMAGE: u32 = 1;

/// The player's health and tally: hit points, vials caught, lives left, and whether alive.
#[derive(Debug, Clone, Copy, PartialEq, Eq, Structural)]
pub struct CharacterState {
    pub hit_points: u32,
    pub hit_points_max: u32,
    pub num_vials: u32,
    pub num_lives: u32,
    pub alive: bool,
}

impl CharacterState {
    /// A player at full health with `num_lives_remaining` lives and no vials.
    pub fn new(num_lives_remaining: u32) -> (r: Self)
        ensures
            r == (CharacterState {
                hit_points: HIT_POINTS,
                hit_points_max: HIT_POINTS,
                num_vials: 0,
                num_lives: num_lives_remaining,
                alive: true,
            }),
    {
        CharacterState {
            hit_points: HIT_POINTS,
            hit_points_max: HIT_POINTS,
            num_vials: 0,
            num_lives: num_lives_remaining,
            alive: true,
        }
    }

    /// A vial adds one to the vials; a heart gives back one hit point, up to full health.
    pub fn receive_powerup(&mut self, powerup_type: Type)
        requires
            powerup_type is Vial ==> old(self).num_vials < u32::MAX,
            powerup_type is Heart ==> old(self).hit_points < u32::MAX,
        ensures
            *final(self) == match powerup_type {
                Type::Vial => CharacterState { num_vials: (old(self).num_vials + 1) as u32, ..*old(self) },
                Type::Heart => CharacterState {
                    hit_points: if old(self).hit_points + 1 < HIT_POINTS { (old(self).hit_points + 1) as u32 } else { HIT_POINTS },
                    ..*old(self)
                },
            },
            old(self).hit_points <= HIT_POINTS ==> final(self).hit_points <= HIT_POINTS,
    {
        match powerup_type {
            Type::Vial => {
                self.num_vials = self.num_vials + 1;
            },
            Type::Heart => {
                let hp = self.hit_points + 1;
                self.hit_points = if hp < HIT_POINTS { hp } else { HIT_POINTS };
            },
        }
    }

    /// Takes `damage` unless dead or `invulnerable`: hit points drop, not below zero, and at
    /// zero the player dies. Returns whether the player is injured and lives on (and so enters
    /// the injury stance).
    pub fn receive_injury(&mut self, damage: u32, invulnerable: bool) -> (r: bool)
        ensures
            old(self).alive && !invulnerable ==> {
                let hp = if old(self).hit_points < damage { 0 } else { old(self).hit_points - damage };
                &&& *final(self) == CharacterState { hit_points: hp as u32, alive: hp > 0, ..*old(self) }
                &&& r == (hp > 0)
            },
            !(old(self).alive && !invulnerable) ==> *final(self) == *old(self) && !r,
            final(self).hit_points <= old(self).hit_points,
    {
        if self.alive && !invulnerable {
            let d = if self.hit_points < damage { self.hit_points } else { damage };
            self.hit_points = self.hit_points - d;
            if self.hit_points == 0 {
                self.alive = false;
                false
            } else {
                true
            }
        } else {
            false
        }
    }
}


/// Key codes of the keys that steer Firebrand (the app maps the window system's keys to them).
pub const KEY_W: u32 = 87;
pub const KEY_A: u32 = 65;
pub const KEY_D: u32 = 68;
pub const KEY_SPACE: u32 = 32;
pub const KEY_DELETE: u32 = 127;

/// A gamepad button, as the game reads it.
#[derive(Debug, Clone, Copy, PartialEq, Eq, Structural)]
pub enum GamepadButton {
    South,
    North,
    East,
    West,
    DPadUp,
    DPadLeft,
    DPadRight,
    Other,
}

/// A gamepad event, as the game reads it.
#[derive(Debug, Clone, Copy, PartialEq, Eq, Structural)]
pub enum GamepadEvent {
    ButtonPressed(GamepadButton),
    ButtonReleased(GamepadButton),
    Other,
}

/// The key that a gamepad button stands for: south and north fire (space), east, west and up
/// jump (W), left and right move (A, D).
pub open spec fn spec_key_for_button(button: GamepadButton) -> Option<u32> {
    match button {
        GamepadButton::South | GamepadButton::North => Some(KEY_SPACE),
        GamepadButton::East | GamepadButton::West => Some(KEY_W),
        GamepadButton::DPadUp => Some(KEY_W),
        GamepadButton::DPadLeft => Some(KEY_A),
        GamepadButton::DPadRight => Some(KEY_D),
        GamepadButton::Other => None,
    }
}

/// The four keys that Firebrand answers to.
pub open spec fn firebrand_keys(m: Map<u32, ButtonState>) -> bool {
    m.contains_key(KEY_W) && m.contains_key(KEY_A) && m.contains_key(KEY_D) && m.contains_key(KEY_SPACE)
}

/// Firebrand's controls: W jumps, A and D move, space fires.
pub struct FirebrandInputState {
    input_state: InputState,
}

impl View for FirebrandInputState {
    type V = Map<u32, ButtonState>;

    closed spec fn view(&self) -> Map<u32, ButtonState> {
        self.input_state@
    }
}

impl FirebrandInputState {
    #[verifier::type_invariant]
    spec fn tracks_keys(&self) -> bool {
        firebrand_keys(self.input_state@)
    }

    pub fn new() -> (r: Self)
        ensures
            r@ == Map::<u32, ButtonState>::empty().insert(KEY_W, ButtonState::Up).insert(KEY_A, ButtonState::Up)
                .insert(KEY_D, ButtonState::Up).insert(KEY_SPACE, ButtonState::Up),
    {
        FirebrandInputState { input_state: fresh_keys() }
    }

    /// A key went down or up; returns whether it is one of Firebrand's keys.
    pub fn process_keyboard(&mut self, key: u32, pressed: bool) -> (r: bool)
        ensures
            r == old(self)@.contains_key(key),
            r ==> final(self)@ == old(self)@.insert(key, old(self)@[key].spec_transition(pressed)),
            !r ==> final(self)@ == old(self)@,
    {
        proof {
            use_type_invariant(&*self);
        }
        let mut input_state = fresh_keys();
        std::mem::swap(&mut input_state, &mut self.input_state);
        let r = input_state.process_keyboard(key, pressed);
        self.input_state = input_state;
        r
    }

    /// Maps a gamepad button event onto the key it stands for.
    pub fn gamepad_input(&mut self, event: GamepadEvent)
        ensures
            match event {
                GamepadEvent::ButtonPressed(b) => match spec_key_for_button(b) {
                    Some(k) => final(self)@ == old(self)@.insert(k, old(self)@[k].spec_transition(true)),
                    None => final(self)@ == old(self)@,
                },
                GamepadEvent::ButtonReleased(b) => match spec_key_for_button(b) {
                    Some(k) => final(self)@ == old(self)@.insert(k, old(self)@[k].spec_transition(false)),
                    None => final(self)@ == old(self)@,
                },
                GamepadEvent::Other => final(self)@ == old(self)@,
            },
    {
        proof {
            use_type_invariant(&*self);
        }
        let input = match event {
            GamepadEvent::ButtonPressed(button) => match key_for_button(button) {
                Some(k) => Some((k, true)),
                None => None,
            },
            GamepadEvent::ButtonReleased(button) => match key_for_button(button) {
                Some(k) => Some((k, false)),
                None => None,
            },
            GamepadEvent::Other => None,
        };
        if let Some((key, pressed)) = input {
            self.process_keyboard(key, pressed);
        }
    }

    /// One frame passes for every key.
    pub fn update(&mut self)
        ensures
            final(self)@.dom() == old(self)@.dom(),
            forall|k: u32| #[trigger] final(self)@.contains_key(k) ==> final(self)@[k] == old(self)@[k].spec_settled(),
    {
        proof {
            use_type_invariant(&*self);
        }
        let mut input_state = fresh_keys();
        std::mem::swap(&mut input_state, &mut self.input_state);
        input_state.update();
        proof {
            assert(firebrand_keys(input_state@));
        }
        self.input_state = input_state;
    }

    /// Holds the keys as given (down or up), in place of the player; returns whether any is down.
    pub fn override_user_input(&mut self, left: bool, right: bool, jump: bool, fire: bool) -> (r: bool)
        ensures
            final(self)@ == old(self)@
                .insert(KEY_W, if jump { ButtonState::Down } else { ButtonState::Up })
                .insert(KEY_A, if left { ButtonState::Down } else { ButtonState::Up })
                .insert(KEY_D, if right { ButtonState::Down } else { ButtonState::Up })
                .insert(KEY_SPACE, if fire { ButtonState::Down } else { ButtonState::Up }),
            r == (left || right || jump || fire),
    {
        let mut input_state = fresh_keys();
        std::mem::swap(&mut input_state, &mut self.input_state);
        input_state.set(KEY_W, if jump { ButtonState::Down } else { ButtonState::Up });
        input_state.set(KEY_A, if left { ButtonState::Down } else { ButtonState::Up });
        input_state.set(KEY_D, if right { ButtonState::Down } else { ButtonState::Up });
        input_state.set(KEY_SPACE, if fire { ButtonState::Down } else { ButtonState::Up });
        self.input_state = input_state;
        left || right || jump || fire
    }

    fn button(&self, key: u32) -> (r: ButtonState)
        requires
            key == KEY_W || key == KEY_A || key == KEY_D || key == KEY_SPACE,
        ensures
            r == self@[key],
    {
        proof {
            use_type_invariant(self);
        }
        match self.input_state.get_button_state(key) {
            Some(b) => *b,
            None => ButtonState::Up,
        }
    }

    pub fn jump(&self) -> (r: ButtonState)
        ensures
            r == self@[KEY_W],
    {
        self.button(KEY_W)
    }

    pub fn move_left(&self) -> (r: ButtonState)
        ensures
            r == self@[KEY_A],
    {
        self.button(KEY_A)
    }

    pub fn move_right(&self) -> (r: ButtonState)
        ensures
            r == self@[KEY_D],
    {
        self.button(KEY_D)
    }

    pub fn fire(&self) -> (r: ButtonState)
        ensures
            r == self@[KEY_SPACE],
    {
        self.button(KEY_SPACE)
    }
}

/// An input state tracking Firebrand's four keys, all up.
fn fresh_keys() -> (r: InputState)
    ensures
        r@ == Map::<u32, ButtonState>::empty().insert(KEY_W, ButtonState::Up).insert(KEY_A, ButtonState::Up)
            .insert(KEY_D, ButtonState::Up).insert(KEY_SPACE, ButtonState::Up),
        firebrand_keys(r@),
{
    let mut input_state = InputState::default();
    input_state.register(KEY_W);
    input_state.register(KEY_A);
    input_state.register(KEY_D);
    input_state.register(KEY_SPACE);
    input_state
}

fn key_for_button(button: GamepadButton) -> (r: Option<u32>)
    ensures
        r == spec_key_for_button(button),
{
    match button {
        GamepadButton::South | GamepadButton::North => Some(KEY_SPACE),
        GamepadButton::East | GamepadButton::West => Some(KEY_W),
        GamepadButton::DPadUp => Some(KEY_W),
        GamepadButton::DPadLeft => Some(KEY_A),
        GamepadButton::DPadRight => Some(KEY_D),
        GamepadButton::Other => None,
    }
}

/// What Firebrand made of a key event.
#[derive(Debug, Clone, Copy, PartialEq, Eq, Structural)]
pub struct KeyboardOutcome {
    /// Whether the event was used (and should go no further).
    pub consumed: bool,
    /// Whether the player asked to die (Delete pressed).
    pub self_destruct: bool,
}

/// Firebrand's handling of a key event: after walking through the exit door it walks right for
/// good and lets every key through; otherwise its own keys steer it, and pressing Delete kills it.
pub fn process_keyboard(
    input_state: &mut FirebrandInputState,
    did_pass_through_exit_door: bool,
    key: u32,
    pressed: bool,
) -> (r: KeyboardOutcome)
    ensures
        did_pass_through_exit_door ==> r == (KeyboardOutcome { consumed: false, self_destruct: false })
            && final(input_state)@ == old(input_state)@.insert(KEY_W, ButtonState::Up).insert(KEY_A, ButtonState::Up)
                .insert(KEY_D, ButtonState::Down).insert(KEY_SPACE, ButtonState::Up),
        !did_pass_through_exit_door && old(input_state)@.contains_key(key) ==> r == (KeyboardOutcome { consumed: true, self_destruct: false })
            && final(input_state)@ == old(input_state)@.insert(key, old(input_state)@[key].spec_transition(pressed)),
        !did_pass_through_exit_door && !old(input_state)@.contains_key(key) ==> final(input_state)@ == old(input_state)@
            && r == (if key == KEY_DELETE && pressed {
                KeyboardOutcome { consumed: true, self_destruct: true }
            } else {
                KeyboardOutcome { consumed: false, self_destruct: false }
            }),
{
    if did_pass_through_exit_door {
        input_state.override_user_input(false, true, false, false);
        KeyboardOutcome { consumed: false, self_destruct: false }
    } else if input_state.process_keyboard(key, pressed) {
        KeyboardOutcome { consumed: true, self_destruct: false }
    } else if key == KEY_DELETE && pressed {
        KeyboardOutcome { consumed: true, self_destruct: true }
    } else {
        KeyboardOutcome { consumed: false, self_destruct: false }
    }
}

/// Firebrand's stance.
#[derive(Debug, Clone, Copy, PartialEq, Eq, Structural)]
pub enum Stance {
    Standing,
    InAir,
    Flying,
    /// Holding on to a wall, which lies to the east of Firebrand (its left edge past his
    /// position) or to the west.
    WallHold { wall_to_east: bool },
    Injury,
}

/// The way Firebrand faces: while frozen, as before; holding a wall, away from it; otherwise the
/// way the player steers (left first), else as before.
pub fn character_facing(
    frozen: bool,
    stance: Stance,
    facing: HorizontalDir,
    input_state: &FirebrandInputState,
) -> (r: HorizontalDir)
    ensures
        r == (if frozen {
            facing
        } else {
            match stance {
                Stance::WallHold { wall_to_east } => if wall_to_east { HorizontalDir::West } else { HorizontalDir::East },
                _ => if input_state@[KEY_A].spec_is_active() {
                    HorizontalDir::West
                } else if input_state@[KEY_D].spec_is_active() {
                    HorizontalDir::East
                } else {
                    facing
                },
            }
        }),
{
    if frozen {
        facing
    } else {
        match stance {
            Stance::WallHold { wall_to_east } => {
                if wall_to_east {
                    HorizontalDir::West
                } else {
                    HorizontalDir::East
                }
            },
            _ => {
                if input_state.move_left().is_active() {
                    HorizontalDir::West
                } else if input_state.move_right().is_active() {
                    HorizontalDir::East
                } else {
                    facing
                }
            },
        }
    }
}

/// The stance that picks Firebrand's animation: in water he walks, whether he stands, jumps or
/// flies.
pub open spec fn animation_stance(stance: Stance, in_water: bool) -> Stance {
    if in_water && (stance is Standing || stance is InAir || stance is Flying) {
        Stance::Standing
    } else {
        stance
    }
}

/// Frames 0, 1, 2, 1 of a four-frame loop: `first`, `middle`, `last`, `middle`.
pub open spec fn there_and_back(frame: u32, first: Seq<char>, middle: Seq<char>, last: Seq<char>) -> Seq<char> {
    if frame % 4 == 0 {
        first
    } else if frame % 4 == 2 {
        last
    } else {
        middle
    }
}

/// The animation cycle Firebrand shows, from his stance, whether he is in water, shooting or
/// moving, and the frame counter of the running animation.
pub open spec fn spec_character_cycle(stance: Stance, in_water: bool, is_shooting: bool, is_moving: bool, frame: u32) -> Seq<char> {
    match animation_stance(stance, in_water) {
        Stance::Standing => if is_shooting {
            "shoot"@
        } else if is_moving {
            if frame % 4 == 1 {
                "walk_1"@
            } else if frame % 4 == 3 {
                "walk_2"@
            } else {
                "walk_0"@
            }
        } else {
            "walk_0"@
        },
        Stance::InAir => if is_shooting {
            there_and_back(frame, "fly_shoot_0"@, "fly_shoot_1"@, "fly_shoot_2"@)
        } else {
            there_and_back(frame, "jump_0"@, "jump_1"@, "jump_2"@)
        },
        Stance::Flying => if is_shooting {
            there_and_back(frame, "fly_shoot_0"@, "fly_shoot_1"@, "fly_shoot_2"@)
        } else {
            there_and_back(frame, "fly_0"@, "fly_1"@, "fly_2"@)
        },
        Stance::WallHold { .. } => if is_shooting {
            "wall_shoot"@
        } else {
            "wall"@
        },
        Stance::Injury => if frame % 2 == 1 {
            "injured"@
        } else if frame % 4 == 0 {
            "fly_shoot_1"@
        } else {
            "fly_shoot_2"@
        },
    }
}

/// Picks Firebrand's animation cycle. `frame` counts the frames of the running animation (how
/// many frame durations have passed since it started); `is_shooting` says whether he shot
/// within the last fireball cycle, `walking_on` whether he is walking on by himself. The second
/// value says whether the animation stops and starts over: it does when he stands still.
pub fn character_cycle(
    stance: Stance,
    in_water: bool,
    is_shooting: bool,
    input_state: &FirebrandInputState,
    walking_on: bool,
    frame: u32,
) -> (r: (&'static str, bool))
    ensures
        ({
            let is_moving = input_state@[KEY_A].spec_is_active() || input_state@[KEY_D].spec_is_active() || walking_on;
            &&& r.0@ == spec_character_cycle(stance, in_water, is_shooting, is_moving, frame)
            &&& r.1 == (animation_stance(stance, in_water) is Standing && !is_shooting && !is_moving)
        }),
{
    let stance = if in_water {
        match stance {
            Stance::Standing | Stance::InAir | Stance::Flying => Stance::Standing,
            _ => stance,
        }
    } else {
        stance
    };
    let is_moving = input_state.move_left().is_active() || input_state.move_right().is_active() || walking_on;
    let f = frame % 4;
    match stance {
        Stance::Standing => {
            if is_shooting {
                ("shoot", false)
            } else if is_moving {
                match f {
                    0 => ("walk_0", false),
                    1 => ("walk_1", false),
                    2 => ("walk_0", false),
                    _ => ("walk_2", false),
                }
            } else {
                ("walk_0", true)
            }
        },
        Stance::InAir => {
            if is_shooting {
                match f {
                    0 => ("fly_shoot_0", false),
                    2 => ("fly_shoot_2", false),
                    _ => ("fly_shoot_1", false),
                }
            } else {
                match f {
                    0 => ("jump_0", false),
                    2 => ("jump_2", false),
                    _ => ("jump_1", false),
                }
            }
        },
        Stance::Flying => {
            if is_shooting {
                match f {
                    0 => ("fly_shoot_0", false),
                    2 => ("fly_shoot_2", false),
                    _ => ("fly_shoot_1", false),
                }
            } else {
                match f {
                    0 => ("fly_0", false),
                    2 => ("fly_2", false),
                    _ => ("fly_1", false),
                }
            }
        },
        Stance::WallHold { .. } => {
            if is_shooting {
                ("wall_shoot", false)
            } else {
                ("wall", false)
            }
        },
        Stance::Injury => {
            match f {
                0 => ("fly_shoot_1", false),
                2 => ("fly_shoot_2", false),
                _ => ("injured", false),
            }
        },
    }
}

/// Whether Firebrand is drawn: never once dead; while invulnerable, throughout the injury
/// animation and then on the even blink periods only (`blink_period` counts the blink periods
/// since the invulnerability began); otherwise always.
pub fn should_draw(alive: bool, invulnerable: bool, injury_playing: bool, blink_period: u32) -> (r: bool)
    ensures
        r == (alive && (!invulnerable || injury_playing || blink_period % 2 == 0)),
{
    if !alive {
        false
    } else if invulnerable {
        if injury_playing {
            true
        } else {
            blink_period % 2 == 0
        }
    } else {
        true
    }
}

/// The messages Firebrand sends to the entities he touches: one `event` to the entity of each
/// contacting collider that belongs to one, in order.
pub open spec fn contact_messages<E>(sender: u32, contacts: Seq<Collider>, event: E) -> Seq<Message<E>>
    decreases contacts.len(),
{
    if contacts.len() == 0 {
        Seq::empty()
    } else {
        let earlier = contact_messages(sender, contacts.drop_last(), event);
        match contacts.last().spec_entity_id() {
            Some(recipient) => earlier.push(Message::spec_new(Some(sender), Some(recipient), event)),
            None => earlier,
        }
    }
}

/// Tells each entity Firebrand touches about it (with `contact_event`), and answers whether any
/// of the contacting colliders hurts on contact.
pub fn process_contacts<E: Copy>(
    entity_id: u32,
    contacting_colliders: &Vec<Collider>,
    message_dispatcher: &mut Dispatcher<E>,
    contact_event: E,
) -> (contact_damage: bool)
    ensures
        final(message_dispatcher)@ == old(message_dispatcher)@ + contact_messages(entity_id, contacting_colliders@, contact_event),
        contact_damage == exists|i: int| 0 <= i < contacting_colliders@.len() && #[trigger] contacting_colliders@[i].mask & CONTACT_DAMAGE != 0,
{
    let mut contact_damage = false;
    let mut i: usize = 0;
    proof {
        assert(contacting_colliders@.take(0) =~= Seq::<Collider>::empty());
        assert(message_dispatcher@ =~= old(message_dispatcher)@ + Seq::<Message<E>>::empty());
    }
    while i < contacting_colliders.len()
        invariant
            i <= contacting_colliders@.len(),
            message_dispatcher@ == old(message_dispatcher)@ + contact_messages(entity_id, contacting_colliders@.take(i as int), contact_event),
            contact_damage == exists|j: int| 0 <= j < i && #[trigger] contacting_colliders@[j].mask & CONTACT_DAMAGE != 0,
        decreases contacting_colliders@.len() - i,
    {
        let c = contacting_colliders[i];
        proof {
            assert(contacting_colliders@.take(i + 1).drop_last() =~= contacting_colliders@.take(i as int));
            assert(contacting_colliders@.take(i + 1).last() == c);
        }
        if c.mask & CONTACT_DAMAGE != 0 {
            contact_damage = true;
        }
        match c.entity_id() {
            Some(recipient) => {
                message_dispatcher.entity_to_entity(entity_id, recipient, contact_event);
            },
            None => {},
        }
        proof {
            let before = old(message_dispatcher)@;
            let done = contact_messages(entity_id, contacting_colliders@.take(i as int), contact_event);
            match c.spec_entity_id() {
                Some(recipient) => {
                    assert((before + done).push(Message::spec_new(Some(entity_id), Some(recipient), contact_event))
                        =~= before + done.push(Message::spec_new(Some(entity_id), Some(recipient), contact_event)));
                },
                None => {},
            }
        }
        i = i + 1;
    }
    proof {
        assert(contacting_colliders@.take(i as int) =~= contacting_colliders@);
    }
    contact_damage
}

/// What a press or release of the jump button does besides changing the stance.
#[derive(Debug, Clone, Copy, PartialEq, Eq, Structural)]
pub enum JumpEffect {
    /// Nothing.
    Nothing,
    /// A jump starts: the jump time is full.
    Jump,
    /// A jump from a wall: the jump time is full and Firebrand is pushed away from the wall,
    /// west when it is to his east.
    WallJump { push_west: bool },
    /// In water a jump in the air starts afresh: jump time and flight time are both full.
    WaterJump,
    /// Flight starts, which ends the rise of the jump.
    Fly,
    /// The button was released: the rise of the jump ends.
    EndRise,
}

pub open spec fn spec_handle_jump(
    stance: Stance,
    jump: ButtonState,
    can_act: bool,
    in_water: bool,
    flight_time_left: bool,
) -> (Stance, JumpEffect) {
    if !can_act {
        (stance, JumpEffect::Nothing)
    } else {
        match jump {
            ButtonState::Pressed => match stance {
                Stance::Standing => (Stance::InAir, JumpEffect::Jump),
                Stance::InAir => if in_water {
                    (Stance::InAir, JumpEffect::WaterJump)
                } else if flight_time_left {
                    (Stance::Flying, JumpEffect::Fly)
                } else {
                    (Stance::InAir, JumpEffect::Nothing)
                },
                Stance::Flying => (Stance::InAir, JumpEffect::Nothing),
                Stance::WallHold { wall_to_east } => (Stance::InAir, JumpEffect::WallJump { push_west: wall_to_east }),
                Stance::Injury => (Stance::Injury, JumpEffect::Nothing),
            },
            ButtonState::Released => (stance, JumpEffect::EndRise),
            _ => (stance, JumpEffect::Nothing),
        }
    }
}

/// The jump button's part of Firebrand's update. `can_act` is false while he is frozen or
/// injured; `flight_time_left` says whether some of his flight time remains. Pressed, the button
/// makes him jump from the ground or from a wall, fly from the air while flight time remains
/// (out of water), stop flying, or, in water, jump again from the air; released, it ends the
/// rise of a jump. The answer is his new stance and what else the button did.
pub fn handle_jump(
    stance: Stance,
    jump: ButtonState,
    can_act: bool,
    in_water: bool,
    flight_time_left: bool,
) -> (r: (Stance, JumpEffect))
    ensures
        r == spec_handle_jump(stance, jump, can_act, in_water, flight_time_left),
{
    if !can_act {
        return (stance, JumpEffect::Nothing);
    }
    match jump {
        ButtonState::Pressed => match stance {
            Stance::Standing => (Stance::InAir, JumpEffect::Jump),
            Stance::InAir => {
                if in_water {
                    (Stance::InAir, JumpEffect::WaterJump)
                } else if flight_time_left {
                    (Stance::Flying, JumpEffect::Fly)
                } else {
                    (Stance::InAir, JumpEffect::Nothing)
                }
            },
            Stance::Flying => (Stance::InAir, JumpEffect::Nothing),
            Stance::WallHold { wall_to_east } => (Stance::InAir, JumpEffect::WallJump { push_west: wall_to_east }),
            Stance::Injury => (Stance::Injury, JumpEffect::Nothing),
        },
        ButtonState::Released => (stance, JumpEffect::EndRise),
        _ => (stance, JumpEffect::Nothing),
    }
}

/// The jump button never injures Firebrand or sets him on the ground or a wall; it changes
/// nothing while he cannot act or is injured; and he only takes flight from the air, out of
/// water, with flight time left.
pub proof fn lemma_jump_stances(stance: Stance, jump: ButtonState, can_act: bool, in_water: bool, flight_time_left: bool)
    ensures
        ({
            let (next, _) = spec_handle_jump(stance, jump, can_act, in_water, flight_time_left);
            &&& next != stance ==> (next is InAir || next is Flying)
            &&& (!can_act || stance is Injury) ==> next == stance
            &&& (next is Flying && stance != next) ==> (stance is InAir && !in_water && flight_time_left && can_act)
        }),
{
}

/// Firebrand's death report: once he is dead, his collider leaves the space and the death is
/// broadcast, both a single time.
#[derive(Debug, Clone, Copy, PartialEq, Eq, Structural)]
pub struct DeathReport {
    pub collider_id: Option<u32>,
    pub did_send_death_message: bool,
}

impl DeathReport {
    /// On the first update after Firebrand died, switches his collider off, forgets it and
    /// answers `true`: the death is to be broadcast. Otherwise changes nothing and answers
    /// `false`.
    pub fn update(&mut self, alive: bool, collision_space: &mut Space) -> (broadcast_death: bool)
        requires
            old(collision_space)@.wf(),
        ensures
            final(collision_space)@.wf(),
            broadcast_death == (!alive && !old(self).did_send_death_message),
            broadcast_death ==> {
                &&& *final(self) == (DeathReport { collider_id: None, did_send_death_message: true })
                &&& final(collision_space)@ == match old(self).collider_id {
                    Some(id) => old(collision_space)@.deactivated(id),
                    None => old(collision_space)@,
                }
            },
            !broadcast_death ==> *final(self) == *old(self) && final(collision_space)@ == old(collision_space)@,
    {
        if !alive && !self.did_send_death_message {
            match self.collider_id {
                Some(id) => collision_space.deactivate_collider(id),
                None => {},
            }
            self.collider_id = None;
            self.did_send_death_message = true;
            true
        } else {
            false
        }
    }
}

/// The messages Firebrand answers.
#[derive(Debug, Clone, Copy, PartialEq, Eq, Structural)]
pub enum FirebrandMessage {
    DidShootFireball,
    RaiseExitFloor,
    ExitDoorOpened,
    HitByFireball { damage: u32 },
    ContactedPowerUp { powerup_type: Type },
    PassedThroughExitDoor,
    Created { checkpoint: u32 },
    Other,
}

/// The switches that Firebrand's messages flip: frozen (no input is taken, as while the exit
/// floor rises or he walks onto the level), through the exit door, and walking onto the level.
#[derive(Debug, Clone, Copy, PartialEq, Eq, Structural)]
pub struct FirebrandFlags {
    pub frozen: bool,
    pub did_pass_through_exit_door: bool,
    pub walking_on: bool,
}

/// What answering a message asks of the rest of Firebrand's update.
#[derive(Debug, Clone, Copy, PartialEq, Eq, Structural)]
pub struct MessageOutcome {
    /// A fireball was shot: the shooting animation starts now.
    pub shot: bool,
    /// Firebrand was hurt and lives on: he enters the injury stance.
    pub injured: bool,
}

/// Answers one message. Created at the level's start (checkpoint 0), Firebrand is frozen and
/// walks onto the level; the exit floor freezes him until the exit door has opened; a fireball
/// hurts him (unless `invulnerable`); a power up is received.
pub fn handle_message(
    flags: &mut FirebrandFlags,
    character: &mut CharacterState,
    invulnerable: bool,
    message: FirebrandMessage,
) -> (r: MessageOutcome)
    requires
        message matches FirebrandMessage::ContactedPowerUp { powerup_type } ==> {
            &&& powerup_type is Vial ==> old(character).num_vials < u32::MAX
            &&& powerup_type is Heart ==> old(character).hit_points < u32::MAX
        },
    ensures
        r.shot == (message is DidShootFireball),
        !(message is HitByFireball) ==> !r.injured,
        match message {
            FirebrandMessage::RaiseExitFloor => *final(flags) == FirebrandFlags { frozen: true, ..*old(flags) },
            FirebrandMessage::ExitDoorOpened => *final(flags) == FirebrandFlags { frozen: false, ..*old(flags) },
            FirebrandMessage::PassedThroughExitDoor => *final(flags) == FirebrandFlags { did_pass_through_exit_door: true, ..*old(flags) },
            FirebrandMessage::Created { checkpoint } => *final(flags) == if checkpoint == 0 {
                FirebrandFlags { frozen: true, walking_on: true, ..*old(flags) }
            } else {
                *old(flags)
            },
            _ => *final(flags) == *old(flags),
        },
        match message {
            FirebrandMessage::HitByFireball { damage } => old(character).alive && !invulnerable ==> {
                let hp = if old(character).hit_points < damage { 0 } else { old(character).hit_points - damage };
                &&& *final(character) == CharacterState { hit_points: hp as u32, alive: hp > 0, ..*old(character) }
                &&& r.injured == (hp > 0)
            },
            FirebrandMessage::ContactedPowerUp { powerup_type } => *final(character) == match powerup_type {
                Type::Vial => CharacterState { num_vials: (old(character).num_vials + 1) as u32, ..*old(character) },
                Type::Heart => CharacterState {
                    hit_points: if old(character).hit_points + 1 < HIT_POINTS { (old(character).hit_points + 1) as u32 } else { HIT_POINTS },
                    ..*old(character)
                },
            },
            _ => *final(character) == *old(character),
        },
        (message is HitByFireball && !(old(character).alive && !invulnerable)) ==> *final(character) == *old(character) && !r.injured,
{
    match message {
        FirebrandMessage::DidShootFireball => MessageOutcome { shot: true, injured: false },
        FirebrandMessage::RaiseExitFloor => {
            flags.frozen = true;
            MessageOutcome { shot: false, injured: false }
        },
        FirebrandMessage::ExitDoorOpened => {
            flags.frozen = false;
            MessageOutcome { shot: false, injured: false }
        },
        FirebrandMessage::HitByFireball { damage } => {
            let injured = character.receive_injury(damage, invulnerable);
            MessageOutcome { shot: false, injured }
        },
        FirebrandMessage::ContactedPowerUp { powerup_type } => {
            character.receive_powerup(powerup_type);
            MessageOutcome { shot: false, injured: false }
        },
        FirebrandMessage::PassedThroughExitDoor => {
            flags.did_pass_through_exit_door = true;
            MessageOutcome { shot: false, injured: false }
        },
        FirebrandMessage::Created { checkpoint } => {
            if checkpoint == 0 {
                flags.frozen = true;
                flags.walking_on = true;
            }
            MessageOutcome { shot: false, injured: false }
        },
        FirebrandMessage::Other => MessageOutcome { shot: false, injured: false },
    }
}

/// Whether `name` begins with `prefix`.
pub open spec fn starts_with(name: Seq<char>, prefix: Seq<char>) -> bool {
    name.len() >= prefix.len() && name.subrange(0, prefix.len() as int) == prefix
}

/// Firebrand's animation shows his shooting exactly when he shoots (unless he is hurt, whose
/// animation borrows shooting frames): standing, or anywhere in water, the cycle is `shoot`;
/// in the air or flying out of water, a `fly_shoot_` frame; on a wall, `wall_shoot`. When he
/// does not shoot, the cycle is a walk (on the ground or in water), jump (in the air) or fly
/// (flying) frame, or `wall`; standing still it is the first walk frame. Hurt, he shows
/// `injured` on every other frame. The running frame matters only modulo 4.
pub proof fn lemma_cycle_shows_shooting(stance: Stance, in_water: bool, is_shooting: bool, is_moving: bool, frame: u32)
    ensures
        ({
            let c = spec_character_cycle(stance, in_water, is_shooting, is_moving, frame);
            let on_ground = stance is Standing || (in_water && (stance is InAir || stance is Flying));
            &&& is_shooting && on_ground ==> c == "shoot"@
            &&& is_shooting && !in_water && (stance is InAir || stance is Flying) ==> starts_with(c, "fly_shoot_"@)
            &&& stance is WallHold ==> c == (if is_shooting { "wall_shoot"@ } else { "wall"@ })
            &&& !is_shooting && on_ground ==> starts_with(c, "walk_"@)
            &&& !is_shooting && !in_water && stance is InAir ==> starts_with(c, "jump_"@)
            &&& !is_shooting && !in_water && stance is Flying ==> starts_with(c, "fly_"@) && !starts_with(c, "fly_shoot"@)
            &&& !is_shooting && !is_moving && on_ground ==> c == "walk_0"@
            &&& stance is Injury ==> ((c == "injured"@) == (frame % 2 == 1))
            &&& stance is Injury && frame % 2 == 0 ==> starts_with(c, "fly_shoot_"@)
            &&& frame <= u32::MAX - 4 ==> spec_character_cycle(stance, in_water, is_shooting, is_moving, (frame + 4) as u32) == c
        }),
{
    reveal_strlit("shoot");
    reveal_strlit("fly_shoot_");
    reveal_strlit("fly_shoot");
    reveal_strlit("fly_shoot_0");
    reveal_strlit("fly_shoot_1");
    reveal_strlit("fly_shoot_2");
    reveal_strlit("walk_");
    reveal_strlit("walk_0");
    reveal_strlit("walk_1");
    reveal_strlit("walk_2");
    reveal_strlit("jump_");
    reveal_strlit("jump_0");
    reveal_strlit("jump_1");
    reveal_strlit("jump_2");
    reveal_strlit("fly_");
    reveal_strlit("fly_0");
    reveal_strlit("fly_1");
    reveal_strlit("fly_2");
    reveal_strlit("injured");
    assert("fly_shoot_1"@ != "injured"@ && "fly_shoot_2"@ != "injured"@) by {
        assert("fly_shoot_1"@.len() != "injured"@.len());
        assert("fly_shoot_2"@.len() != "injured"@.len());
    }
    assert("fly_shoot_0"@.subrange(0, 10) =~= "fly_shoot_"@);
    assert("fly_shoot_1"@.subrange(0, 10) =~= "fly_shoot_"@);
    assert("fly_shoot_2"@.subrange(0, 10) =~= "fly_shoot_"@);
    assert("walk_0"@.subrange(0, 5) =~= "walk_"@);
    assert("walk_1"@.subrange(0, 5) =~= "walk_"@);
    assert("walk_2"@.subrange(0, 5) =~= "walk_"@);
    assert("jump_0"@.subrange(0, 5) =~= "jump_"@);
    assert("jump_1"@.subrange(0, 5) =~= "jump_"@);
    assert("jump_2"@.subrange(0, 5) =~= "jump_"@);
    assert("fly_0"@.subrange(0, 4) =~= "fly_"@);
    assert("fly_1"@.subrange(0, 4) =~= "fly_"@);
    assert("fly_2"@.subrange(0, 4) =~= "fly_"@);
    assert(((frame + 4) as u32) % 4 == frame % 4 && ((frame + 4) as u32) % 2 == frame % 2 || frame > u32::MAX - 4);
}

/// Each gamepad button stands for the key of its own action, and no other button does: the
/// D-pad's right for D (move right, what `move_right` reads), its left for A (move left, what
/// `move_left` reads), south and north for space (fire), east, west and the D-pad's up for W
/// (jump); other buttons for none. So pressing D-pad right or left changes the one direction it
/// names and leaves the other as it was.
pub proof fn lemma_gamepad_buttons_keys(b: GamepadButton, m: Map<u32, ButtonState>)
    ensures
        (spec_key_for_button(b) == Some(KEY_D)) == (b == GamepadButton::DPadRight),
        (spec_key_for_button(b) == Some(KEY_A)) == (b == GamepadButton::DPadLeft),
        (spec_key_for_button(b) == Some(KEY_SPACE)) == (b == GamepadButton::South || b == GamepadButton::North),
        (spec_key_for_button(b) == Some(KEY_W))
            == (b == GamepadButton::East || b == GamepadButton::West || b == GamepadButton::DPadUp),
        (spec_key_for_button(b) is None) == (b == GamepadButton::Other),
        KEY_D == 68 && KEY_A == 65 && KEY_W == 87 && KEY_SPACE == 32,
        spec_key_for_button(b) matches Some(k) ==> {
            let pressed = m.insert(k, m[k].spec_transition(true));
            &&& b == GamepadButton::DPadRight ==> pressed[KEY_D] == m[KEY_D].spec_transition(true) && pressed[KEY_A] == m[KEY_A]
            &&& b == GamepadButton::DPadLeft ==> pressed[KEY_A] == m[KEY_A].spec_transition(true) && pressed[KEY_D] == m[KEY_D]
        },
{
}

} // verus!
