use platformer::audio::{Sounds, TrackCommand, TrackState, Tracks};
use platformer::collision::Shape;
use platformer::event_dispatch::Dispatcher;
use platformer::gamestate::visibility_changes;
use platformer::input::{input_accumulator, ButtonState, InputState};

#[test]
fn shape_double_flip_is_identity() {
    for s in [Shape::Empty, Shape::Square, Shape::NorthEast, Shape::SouthEast, Shape::SouthWest, Shape::NorthWest] {
        assert_eq!(s.flipped_horizontally().flipped_horizontally(), s);
        assert_eq!(s.flipped_vertically().flipped_vertically(), s);
        assert_eq!(s.flipped_diagonally().flipped_diagonally(), s);
        assert_eq!(s.flipped_horizontally().flipped_vertically(), s.flipped_vertically().flipped_horizontally());
        assert_eq!(s.flipped_diagonally().flipped_horizontally().flipped_diagonally(), s.flipped_vertically());
    }
    assert_eq!(Shape::NorthEast.flipped_horizontally(), Shape::NorthWest);
    assert_eq!(Shape::NorthEast.flipped_vertically(), Shape::SouthEast);
    assert_eq!(Shape::SouthEast.flipped_diagonally(), Shape::NorthWest);
    assert_eq!(Shape::NorthEast.flipped_diagonally(), Shape::NorthEast);
}

#[test]
fn buttons_step_through_their_states() {
    let mut input = InputState::for_keys(&[1, 2]);
    assert_eq!(input.get_button_state(1), Some(&ButtonState::Up));
    assert_eq!(input.get_button_state(3), None);
    assert!(input.process_keyboard(1, true));
    assert_eq!(input.get_button_state(1), Some(&ButtonState::Pressed));
    assert!(input.get_button_state(1).unwrap().is_active());
    input.update();
    assert_eq!(input.get_button_state(1), Some(&ButtonState::Down));
    input.update();
    assert_eq!(input.get_button_state(1), Some(&ButtonState::Down));
    assert!(input.process_keyboard(1, false));
    assert_eq!(input.get_button_state(1), Some(&ButtonState::Released));
    input.update();
    assert_eq!(input.get_button_state(1), Some(&ButtonState::Up));
    assert_eq!(input.get_button_state(2), Some(&ButtonState::Up));
    assert!(!input.process_keyboard(3, true));
    input.register(3);
    assert!(input.process_keyboard(3, true));
    assert_eq!(ButtonState::default(), ButtonState::Up);
}

#[test]
fn accumulator_combines_two_buttons() {
    assert_eq!(input_accumulator(&ButtonState::Down, &ButtonState::Up), -1);
    assert_eq!(input_accumulator(&ButtonState::Up, &ButtonState::Pressed), 1);
    assert_eq!(input_accumulator(&ButtonState::Released, &ButtonState::Down), 0);
    assert_eq!(input_accumulator(&ButtonState::Up, &ButtonState::Up), 0);
}

#[test]
fn dispatcher_keeps_order_and_drains() {
    let mut d: Dispatcher<&str> = Dispatcher::default();
    d.broadcast("a");
    d.entity_to_global(1, "b");
    d.entity_to_entity(1, 2, "c");
    d.global_to_entity(3, "d");
    let m = d.drain();
    assert_eq!(m.iter().map(|m| m.event).collect::<Vec<_>>(), vec!["a", "b", "c", "d"]);
    assert!(m[0].is_broadcast());
    assert!(!m[1].is_broadcast());
    assert_eq!((m[2].sender_entity_id, m[2].recipient_entity_id), (Some(1), Some(2)));
    assert_eq!((m[3].sender_entity_id, m[3].recipient_entity_id), (None, Some(3)));
    assert!(d.drain().is_empty());
}

#[test]
fn visibility_changes_split_entered_and_exited() {
    let (entered, exited) = visibility_changes(&vec![1, 2, 3], &vec![3, 4, 1, 5]);
    assert_eq!(entered, vec![4, 5]);
    assert_eq!(exited, vec![2]);
    let (entered, exited) = visibility_changes(&vec![], &vec![]);
    assert!(entered.is_empty() && exited.is_empty());
}

#[test]
fn audio_files_and_music_control() {
    assert_eq!(Sounds::Bump.path(), "res/audio/bump.wav");
    assert_eq!(Sounds::FireballShoot.path(), "res/audio/fireball.wav");
    assert_eq!(Tracks::BossFight.path(), "res/audio/boss_fight.ogg");
    assert!(Sounds::PowerUp.should_pause_current_track());
    assert!(Sounds::FirebrandDeath.should_pause_current_track());
    assert!(!Sounds::Bump.should_pause_current_track());
    assert!(Tracks::MainTheme.loops());
    assert!(!Tracks::GameOver.loops());

    let mut t = TrackState::default();
    assert_eq!(t.update(true, false), None);
    t.pause_current_track();
    assert!(!t.current_track_is_paused());
    t.start_track();
    assert_eq!(t.update(false, false), None);
    assert_eq!(t.update(true, false), Some(TrackCommand::Pause));
    assert_eq!(t.update(false, true), Some(TrackCommand::Play));
    t.pause_current_track();
    assert!(t.current_track_is_paused());
    assert_eq!(t.update(false, false), Some(TrackCommand::Pause));
    t.resume_current_track();
    assert!(!t.current_track_is_paused());
    t.stop_current_track();
    assert_eq!(t.update(false, true), None);
}
