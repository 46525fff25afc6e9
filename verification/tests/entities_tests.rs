use platformer::entities::death_animation::{self, Mode};
use platformer::entities::firebrand::{
    character_facing, process_keyboard, CharacterState, FirebrandInputState, GamepadButton, GamepadEvent, Stance,
    HIT_POINTS, KEY_A, KEY_D, KEY_DELETE, KEY_SPACE, KEY_W,
};
use platformer::entities::power_up::Type;
use platformer::entities::spawn_point::SpawnPoint;
use platformer::entities::ui_digit::UiDigit;
use platformer::entities::ui_health_dot::{determine_index, UiHealthDot};
use platformer::entities::util::{Axis, CompassDir, FireballHit, HitPointOutcome, HitPointState, HorizontalDir};
use platformer::entities::{
    bat, boss_fish, fire_sprite, fireball, hoodie, instantiate_entity_by_class_name, instantiate_map_sprite, EntityClass,
    InstantiateError,
};
use platformer::entity::{EntityIdVendor, IdVendor};
use platformer::input::ButtonState;

#[test]
fn class_roles() {
    assert!(EntityClass::Bat.is_enemy());
    assert!(EntityClass::Hoodie.is_enemy());
    assert!(!EntityClass::Firebrand.is_enemy());
    assert!(EntityClass::Fireball.is_projectile());
    assert!(EntityClass::BossFish.is_boss());
    assert!(EntityClass::Firebrand.is_player());
    assert!(EntityClass::UiHealthDot.is_ui());
    assert!(!EntityClass::Bat.is_ui());
    assert!(EntityClass::SpawnPoint.survives_level_restart());
    assert!(EntityClass::PowerUp.survives_level_restart());
    assert!(!EntityClass::Bat.survives_level_restart());
    assert!(!EntityClass::Firebrand.survives_level_restart());
}

#[test]
fn class_names_map_to_classes() {
    assert_eq!(instantiate_entity_by_class_name("Bat"), Some(EntityClass::Bat));
    assert_eq!(instantiate_entity_by_class_name("BossFightTrigger"), Some(EntityClass::BossFightTrigger));
    assert_eq!(instantiate_entity_by_class_name("UiHealthDot"), Some(EntityClass::UiHealthDot));
    assert_eq!(instantiate_entity_by_class_name("Firebrand"), None);
    assert_eq!(instantiate_entity_by_class_name("bat"), None);
    assert_eq!(instantiate_entity_by_class_name(""), None);
}

#[test]
fn map_sprites_take_vended_or_own_ids() {
    let mut vendor = IdVendor::default();
    assert_eq!(instantiate_map_sprite("Hoodie", None, Some(&mut vendor)), Ok((EntityClass::Hoodie, 0)));
    assert_eq!(instantiate_map_sprite("Bat", Some(5), Some(&mut vendor)), Ok((EntityClass::Bat, 1)));
    assert_eq!(instantiate_map_sprite("Nope", None, Some(&mut vendor)), Err(InstantiateError::UnknownEntityClass));
    assert_eq!(vendor.next_id(), 2);
    assert_eq!(instantiate_map_sprite("PowerUp", Some(42), None), Ok((EntityClass::PowerUp, 42)));
    assert_eq!(instantiate_map_sprite("Nope", None, None), Err(InstantiateError::UnknownEntityClass));
}

#[test]
fn id_vendors_count_up() {
    let mut v = IdVendor::default();
    assert_eq!(v.next_id(), 0);
    assert_eq!(v.next_id(), 1);
    let mut e = EntityIdVendor::default();
    assert_eq!(e.next_id(), 0);
    assert_eq!(e.next_id(), 1);
}

#[test]
fn directions_invert_and_mirror() {
    assert_eq!(HorizontalDir::East.invert(), HorizontalDir::West);
    assert_eq!(HorizontalDir::West.invert().invert(), HorizontalDir::West);
    assert_eq!(CompassDir::NorthEast.mirrored(Axis::Horizontal), CompassDir::SouthEast);
    assert_eq!(CompassDir::NorthEast.mirrored(Axis::Vertical), CompassDir::NorthWest);
    assert_eq!(CompassDir::East.mirrored(Axis::Horizontal), CompassDir::East);
    for d in CompassDir::iter() {
        assert_eq!(d.mirrored(Axis::Horizontal).mirrored(Axis::Horizontal), d);
        assert_eq!(d.mirrored(Axis::Vertical).is_diagonal(), d.is_diagonal());
    }
    assert_eq!(CompassDir::iter().len(), 8);
    assert_eq!(CompassDir::iter().iter().filter(|d| d.is_diagonal()).count(), 4);
    assert_eq!(CompassDir::from(HorizontalDir::West), CompassDir::West);
}

#[test]
fn sectors_map_to_directions() {
    assert_eq!(CompassDir::from_sector(0), CompassDir::East);
    assert_eq!(CompassDir::from_sector(15), CompassDir::East);
    assert_eq!(CompassDir::from_sector(2), CompassDir::NorthEast);
    assert_eq!(CompassDir::from_sector(4), CompassDir::North);
    assert_eq!(CompassDir::from_sector(8), CompassDir::West);
    assert_eq!(CompassDir::from_sector(10), CompassDir::SouthWest);
    assert_eq!(CompassDir::from_sector(12), CompassDir::South);
    assert_eq!(CompassDir::from_sector(13), CompassDir::SouthEast);
}

#[test]
fn enemies_die_when_out_of_hit_points() {
    let mut life = HitPointState::new(2);
    assert!(life.handle_message(Some(FireballHit { damage: 1, direction: HorizontalDir::West })));
    assert_eq!(life.hit_points(), 1);
    assert!(!life.handle_message(None));
    assert_eq!(
        life.update(),
        HitPointOutcome { alive: true, notify_spawn_point: false, play_death: false, death_animation_dir: HorizontalDir::West }
    );
    assert!(life.handle_message(Some(FireballHit { damage: 5, direction: HorizontalDir::East })));
    assert_eq!(life.hit_points(), 0);
    assert_eq!(
        life.update(),
        HitPointOutcome { alive: false, notify_spawn_point: true, play_death: true, death_animation_dir: HorizontalDir::East }
    );
    assert!(!life.is_alive());
}

#[test]
fn terminated_enemies_die_quietly() {
    let mut life = HitPointState::new(1);
    life.terminate();
    let outcome = life.update();
    assert!(!outcome.alive);
    assert!(outcome.notify_spawn_point);
    assert!(!outcome.play_death);
    let mut injured = HitPointState::new(3);
    injured.injure(3, HorizontalDir::West);
    assert_eq!(injured.hit_points(), 0);
    assert!(injured.update().play_death);
}

#[test]
fn spawn_point_spawns_one_enemy_at_a_time() {
    let mut sp = SpawnPoint::default();
    assert!(!sp.update());
    sp.did_enter_viewport();
    assert!(sp.update());
    assert!(!sp.update());
    sp.handle_entity_was_spawned(Some(1007));
    sp.did_enter_viewport();
    assert!(!sp.update());
    sp.handle_spawned_entity_did_die(Some(1007));
    assert_eq!(sp.spawned_entity_id(), None);
    sp.did_enter_viewport();
    assert!(sp.update());
}

#[test]
fn ui_digit_shows_one_digit() {
    let mut d = UiDigit::default();
    d.set_property("tracking", "vials");
    d.set_property("digit", "1");
    d.set_property("color", "red");
    d.update(42, 3);
    assert_eq!(d.sprite_cycle(), "4");
    d.set_property("digit", "0");
    d.update(42, 3);
    assert_eq!(d.sprite_cycle(), "2");
    d.set_property("tracking", "lives");
    d.update(42, 3);
    assert_eq!(d.sprite_cycle(), "3");
    d.set_property("digit", "9");
    d.update(2_000_000_000, 3);
    assert_eq!(d.sprite_cycle(), "0");
    d.update(0, 4_000_000_000);
    assert_eq!(d.sprite_cycle(), "4");
    let mut untracked = UiDigit::default();
    untracked.update(7, 7);
    assert_eq!(untracked.sprite_cycle(), "0");
}

#[test]
fn health_dots_find_their_index_and_fill() {
    assert_eq!(determine_index(5, &vec![]), 0);
    assert_eq!(determine_index(5, &vec![4, 3, 9]), 2);
    assert_eq!(determine_index(5, &vec![3]), 0);
    let mut dot = UiHealthDot::default();
    dot.update(1, (1, 2));
    assert!(dot.should_draw());
    assert_eq!(dot.sprite_cycle(), "empty");
    dot.update(7, (2, 2));
    assert_eq!(dot.sprite_cycle(), "full");
    dot.update(7, (1, 1));
    assert!(!dot.should_draw());
}

#[test]
fn character_state_takes_powerups_and_injuries() {
    let mut c = CharacterState::new(3);
    assert_eq!(c.hit_points, HIT_POINTS);
    c.receive_powerup(Type::Heart);
    assert_eq!(c.hit_points, HIT_POINTS);
    c.receive_powerup(Type::Vial);
    assert_eq!(c.num_vials, 1);
    assert!(!c.receive_injury(1, true));
    assert_eq!(c.hit_points, 2);
    assert!(c.receive_injury(1, false));
    assert_eq!(c.hit_points, 1);
    c.receive_powerup(Type::Heart);
    assert_eq!(c.hit_points, 2);
    assert!(!c.receive_injury(5, false));
    assert_eq!(c.hit_points, 0);
    assert!(!c.alive);
    assert!(!c.receive_injury(1, false));
    assert_eq!(c.num_lives, 3);
}

#[test]
fn firebrand_input_follows_keys_and_gamepad() {
    let mut input = FirebrandInputState::new();
    assert_eq!(input.jump(), ButtonState::Up);
    assert!(input.process_keyboard(KEY_W, true));
    assert_eq!(input.jump(), ButtonState::Pressed);
    input.update();
    assert_eq!(input.jump(), ButtonState::Down);
    assert!(!input.process_keyboard(9999, true));
    input.gamepad_input(GamepadEvent::ButtonPressed(GamepadButton::South));
    assert_eq!(input.fire(), ButtonState::Pressed);
    input.gamepad_input(GamepadEvent::ButtonPressed(GamepadButton::DPadLeft));
    assert_eq!(input.move_left(), ButtonState::Pressed);
    input.gamepad_input(GamepadEvent::ButtonReleased(GamepadButton::DPadLeft));
    assert_eq!(input.move_left(), ButtonState::Released);
    input.gamepad_input(GamepadEvent::ButtonPressed(GamepadButton::Other));
    assert!(input.override_user_input(false, true, false, false));
    assert_eq!(input.move_right(), ButtonState::Down);
    assert_eq!(input.jump(), ButtonState::Up);
    assert!(!input.override_user_input(false, false, false, false));
}

#[test]
fn firebrand_keyboard_and_facing() {
    let mut input = FirebrandInputState::new();
    let o = process_keyboard(&mut input, false, KEY_A, true);
    assert!(o.consumed && !o.self_destruct);
    assert_eq!(character_facing(false, Stance::Standing, HorizontalDir::East, &input), HorizontalDir::West);
    assert_eq!(character_facing(true, Stance::Standing, HorizontalDir::East, &input), HorizontalDir::East);
    assert_eq!(
        character_facing(false, Stance::WallHold { wall_to_east: false }, HorizontalDir::West, &input),
        HorizontalDir::East
    );
    let o = process_keyboard(&mut input, false, KEY_DELETE, true);
    assert!(o.consumed && o.self_destruct);
    let o = process_keyboard(&mut input, false, KEY_DELETE, false);
    assert!(!o.consumed);
    let o = process_keyboard(&mut input, true, KEY_SPACE, true);
    assert!(!o.consumed);
    assert_eq!(input.move_right(), ButtonState::Down);
    assert_eq!(input.move_left(), ButtonState::Up);
    assert_eq!(character_facing(false, Stance::Flying, HorizontalDir::West, &input), HorizontalDir::East);
    assert_eq!((KEY_W, KEY_A, KEY_D), (87, 65, 68));
}

#[test]
fn death_animation_cycles() {
    assert_eq!(death_animation::sprite_cycle(Mode::EnemyDeath, 0, CompassDir::East), "death_0");
    assert_eq!(death_animation::sprite_cycle(Mode::EnemyDeath, 3, CompassDir::East), "death_3");
    assert_eq!(death_animation::sprite_cycle(Mode::EnemyDeath, 9, CompassDir::East), "death_4");
    assert_eq!(death_animation::sprite_cycle(Mode::FirebrandDeath, 4, CompassDir::North), "death_1");
    assert_eq!(death_animation::sprite_cycle(Mode::FirebrandDeath, 4, CompassDir::NorthWest), "death_2");
    assert_eq!(death_animation::sprite_cycle(Mode::FirebrandDeath, 5, CompassDir::NorthWest), "death_0");
    assert_eq!(Mode::EnemyDeath.num_animation_frames(), 4);
    assert_eq!(Mode::FirebrandDeath.sprite_name(), "firebrand_death");
}

#[test]
fn power_up_types() {
    assert_eq!(Type::from_str("vial"), Some(Type::Vial));
    assert_eq!(Type::from_str("heart"), Some(Type::Heart));
    assert_eq!(Type::from_str("Heart"), None);
    assert_eq!(Type::Heart.sprite_name(), "heart");
}

#[test]
fn enemy_sprite_cycles() {
    assert_eq!(bat::sprite_cycle(false, 3), "default");
    assert_eq!(bat::sprite_cycle(true, 3), "fly_1");
    assert_eq!(bat::sprite_cycle(true, 4), "fly_0");
    let walk: Vec<&str> = (0..5).map(hoodie::sprite_cycle).collect();
    assert_eq!(walk, vec!["walk_0", "walk_1", "walk_0", "walk_2", "walk_0"]);
    assert_eq!(fire_sprite::sprite_cycle(1), "alt");
    assert_eq!(fireball::sprite_cycle(fireball::Mode::Fireball, 1), "default");
    assert_eq!(fireball::sprite_cycle(fireball::Mode::Firesprite, 1), "alt");
    assert_eq!(fireball::sprite_name(fireball::Mode::Firesprite), "fire_sprite");
    assert_eq!(boss_fish::sprite_cycle(0, 0), "a_0");
    assert_eq!(boss_fish::sprite_cycle(1, 2), "b_2");
    assert_eq!(boss_fish::sprite_cycle(2, 1), "a_1");
    assert_eq!(boss_fish::sprite_cycle(3, 7), "b_0");
}
