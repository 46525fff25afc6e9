use platformer::collision::{Collider, Shape, Space};
use platformer::constants::CONTACT_DAMAGE;
use platformer::entities::boss_fish::{AttackInputs, AttackPhase, AttackState, BossDeath, DeathAction};
use platformer::entities::exit_door::{DoorAction, DoorMessage, DoorMode, DoorState};
use platformer::entities::firebrand::{
    character_cycle, handle_jump, handle_message, process_contacts, CharacterState, FirebrandFlags, FirebrandMessage,
    MessageOutcome, should_draw, DeathReport, JumpEffect, FirebrandInputState, Stance, KEY_A,
};
use platformer::entities::power_up::{PowerUpMessage, PowerUpState, Type};
use platformer::entities::util::{should_reverse_march, HorizontalDir};
use platformer::event_dispatch::Dispatcher;
use platformer::input::ButtonState;

const QUIET: DoorAction = DoorAction { opened: false, passed_through: false };

#[test]
fn firebrand_cycle_follows_stance() {
    let still = FirebrandInputState::new();
    assert_eq!(character_cycle(Stance::Standing, false, false, &still, false, 5), ("walk_0", true));
    assert_eq!(character_cycle(Stance::Standing, false, true, &still, false, 5), ("shoot", false));
    assert_eq!(character_cycle(Stance::Standing, false, false, &still, true, 1), ("walk_1", false));
    assert_eq!(character_cycle(Stance::Standing, false, false, &still, true, 3), ("walk_2", false));
    assert_eq!(character_cycle(Stance::Standing, false, false, &still, true, 6), ("walk_0", false));
    assert_eq!(character_cycle(Stance::InAir, false, false, &still, false, 2), ("jump_2", false));
    assert_eq!(character_cycle(Stance::InAir, false, false, &still, false, 3), ("jump_1", false));
    assert_eq!(character_cycle(Stance::InAir, false, true, &still, false, 0), ("fly_shoot_0", false));
    assert_eq!(character_cycle(Stance::Flying, false, false, &still, false, 4), ("fly_0", false));
    assert_eq!(character_cycle(Stance::Flying, false, false, &still, false, 7), ("fly_1", false));
    assert_eq!(character_cycle(Stance::WallHold { wall_to_east: true }, false, false, &still, false, 0), ("wall", false));
    assert_eq!(character_cycle(Stance::WallHold { wall_to_east: false }, false, true, &still, false, 0), ("wall_shoot", false));
    assert_eq!(character_cycle(Stance::Injury, false, false, &still, false, 0), ("fly_shoot_1", false));
    assert_eq!(character_cycle(Stance::Injury, false, false, &still, false, 1), ("injured", false));
    assert_eq!(character_cycle(Stance::Injury, false, false, &still, false, 2), ("fly_shoot_2", false));
    // in water he walks, even when flying or jumping
    assert_eq!(character_cycle(Stance::Flying, true, false, &still, false, 0), ("walk_0", true));
    assert_eq!(character_cycle(Stance::InAir, true, true, &still, false, 0), ("shoot", false));
    assert_eq!(character_cycle(Stance::Injury, true, false, &still, false, 3), ("injured", false));
}

#[test]
fn firebrand_cycle_walks_when_steered() {
    let mut input = FirebrandInputState::new();
    input.process_keyboard(KEY_A, true);
    assert_eq!(character_cycle(Stance::Standing, false, false, &input, false, 1), ("walk_1", false));
}

#[test]
fn firebrand_blinks_while_invulnerable() {
    assert!(!should_draw(false, false, false, 0));
    assert!(should_draw(true, false, false, 1));
    assert!(should_draw(true, true, true, 1));
    assert!(should_draw(true, true, false, 2));
    assert!(!should_draw(true, true, false, 3));
}

#[test]
fn marching_turns_at_edges_and_obstacles() {
    let ground = Collider::new_static(0, 0, Shape::Square, 1);
    let slope = Collider::new_static(0, 0, Shape::NorthEast, 1);
    let spikes = Collider::new_static(0, 0, Shape::Square, 1 | CONTACT_DAMAGE);
    assert!(!should_reverse_march(false, Some(&ground)));
    assert!(should_reverse_march(true, Some(&ground)));
    assert!(should_reverse_march(false, None));
    assert!(should_reverse_march(false, Some(&slope)));
    assert!(should_reverse_march(false, Some(&spikes)));
}

#[test]
fn west_exit_door_reports_passage_once() {
    let mut door = DoorState::new(HorizontalDir::West);
    assert_eq!(door.mode, DoorMode::Closed);
    assert!(door.should_send_exit_message);
    assert_eq!(door.update(true, true), QUIET);
    door.handle_message(DoorMessage::OpenExitDoor);
    assert_eq!(door.mode, DoorMode::Opening);
    assert_eq!(door.update(false, true), QUIET);
    assert_eq!(door.update(true, false), DoorAction { opened: true, passed_through: false });
    assert_eq!(door.mode, DoorMode::Open);
    assert_eq!(door.update(false, false), QUIET);
    assert_eq!(door.update(false, true), DoorAction { opened: false, passed_through: true });
    assert_eq!(door.update(false, true), QUIET);
    door.handle_message(DoorMessage::Other);
    assert_eq!(door.update(false, true), QUIET);
    door.handle_message(DoorMessage::ResetState);
    assert_eq!(door.mode, DoorMode::Closed);
    door.update(false, false);
    assert!(door.should_send_exit_message);
}

#[test]
fn east_exit_door_never_reports_passage() {
    let mut door = DoorState::new(HorizontalDir::East);
    assert!(!door.should_send_exit_message);
    door.handle_message(DoorMessage::OpenExitDoor);
    assert_eq!(door.update(true, true), DoorAction { opened: true, passed_through: false });
    assert_eq!(door.update(true, true), QUIET);
}

#[test]
fn firebrand_contacts_notify_entities_and_hurt() {
    let mut dispatcher: Dispatcher<u8> = Dispatcher::default();
    let contacts = vec![
        Collider::new_dynamic(12, Shape::Square, 1),
        Collider::new_static(3, 4, Shape::Square, 1),
        Collider::new_dynamic(15, Shape::Square, CONTACT_DAMAGE),
    ];
    assert!(process_contacts(7, &contacts, &mut dispatcher, 42u8));
    let sent = dispatcher.drain();
    assert_eq!(sent.len(), 2);
    assert_eq!((sent[0].sender_entity_id, sent[0].recipient_entity_id, sent[0].event), (Some(7), Some(12), 42));
    assert_eq!((sent[1].sender_entity_id, sent[1].recipient_entity_id, sent[1].event), (Some(7), Some(15), 42));

    let harmless = vec![Collider::new_static(0, 0, Shape::Square, 1)];
    assert!(!process_contacts(7, &harmless, &mut dispatcher, 1u8));
    assert!(dispatcher.drain().is_empty());
    assert!(!process_contacts(7, &Vec::new(), &mut dispatcher, 1u8));
}

#[test]
fn power_up_is_consumed_once_until_reset() {
    let mut space = Space::new(&[Collider::new_static(0, 0, Shape::Square, 1)]);
    let mut power_up = PowerUpState::init(30, Type::Heart, &mut space);
    assert_eq!(power_up.collider_id, Some(1));
    assert!(space.is_collider_activated(1));
    assert_eq!(space.get_collider(1).unwrap().entity_id(), Some(30));

    assert_eq!(power_up.update(&mut space), None);
    power_up.handle_message(PowerUpMessage::FirebrandContact);
    assert_eq!(power_up.update(&mut space), Some(Type::Heart));
    assert!(!space.is_collider_activated(1));
    assert_eq!(power_up.update(&mut space), None);
    power_up.handle_message(PowerUpMessage::FirebrandContact);
    assert_eq!(power_up.update(&mut space), None);

    power_up.handle_message(PowerUpMessage::ResetState);
    assert_eq!(power_up.update(&mut space), None);
    assert!(space.is_collider_activated(1));
    assert!(power_up.is_collider_active);
}

#[test]
fn jump_button_moves_between_stances() {
    assert_eq!(handle_jump(Stance::Standing, ButtonState::Pressed, true, false, true), (Stance::InAir, JumpEffect::Jump));
    assert_eq!(handle_jump(Stance::InAir, ButtonState::Pressed, true, false, true), (Stance::Flying, JumpEffect::Fly));
    assert_eq!(handle_jump(Stance::InAir, ButtonState::Pressed, true, false, false), (Stance::InAir, JumpEffect::Nothing));
    assert_eq!(handle_jump(Stance::InAir, ButtonState::Pressed, true, true, false), (Stance::InAir, JumpEffect::WaterJump));
    assert_eq!(handle_jump(Stance::Flying, ButtonState::Pressed, true, false, true), (Stance::InAir, JumpEffect::Nothing));
    assert_eq!(
        handle_jump(Stance::WallHold { wall_to_east: true }, ButtonState::Pressed, true, false, true),
        (Stance::InAir, JumpEffect::WallJump { push_west: true })
    );
    assert_eq!(
        handle_jump(Stance::WallHold { wall_to_east: false }, ButtonState::Pressed, true, false, true),
        (Stance::InAir, JumpEffect::WallJump { push_west: false })
    );
    assert_eq!(handle_jump(Stance::Injury, ButtonState::Pressed, true, false, true), (Stance::Injury, JumpEffect::Nothing));
    assert_eq!(handle_jump(Stance::Flying, ButtonState::Released, true, false, true), (Stance::Flying, JumpEffect::EndRise));
    assert_eq!(handle_jump(Stance::InAir, ButtonState::Down, true, false, true), (Stance::InAir, JumpEffect::Nothing));
    assert_eq!(handle_jump(Stance::Standing, ButtonState::Pressed, false, false, true), (Stance::Standing, JumpEffect::Nothing));
}

#[test]
fn firebrand_death_is_reported_once() {
    let mut space = Space::new(&[Collider::new_dynamic(1, Shape::Square, 1)]);
    let mut report = DeathReport { collider_id: Some(0), did_send_death_message: false };
    assert!(!report.update(true, &mut space));
    assert!(space.is_collider_activated(0));
    assert!(report.update(false, &mut space));
    assert!(!space.is_collider_activated(0));
    assert_eq!(report, DeathReport { collider_id: None, did_send_death_message: true });
    assert!(!report.update(false, &mut space));
}

#[test]
fn boss_attack_goes_round() {
    let none = AttackInputs {
        submerged_long_enough: false,
        reached_attack_height: false,
        will_shoot: false,
        within_shoot_distance: false,
        done_advancing: false,
        reached_depth: false,
    };
    let mut s = AttackState { phase: AttackPhase::Submerged, should_launch_firesprites: false };
    assert!(!s.step(none));
    assert_eq!(s.phase, AttackPhase::Submerged);
    s.step(AttackInputs { submerged_long_enough: true, ..none });
    assert_eq!(s.phase, AttackPhase::Raising);
    s.step(AttackInputs { reached_attack_height: true, will_shoot: true, ..none });
    assert_eq!(s, AttackState { phase: AttackPhase::Attacking, should_launch_firesprites: true });
    assert!(!s.step(none));
    assert!(s.step(AttackInputs { within_shoot_distance: true, ..none }));
    assert!(!s.step(AttackInputs { within_shoot_distance: true, ..none }));
    s.step(AttackInputs { done_advancing: true, ..none });
    assert_eq!(s.phase, AttackPhase::Submerging);
    s.step(AttackInputs { reached_depth: true, ..none });
    assert_eq!(s.phase, AttackPhase::Submerged);
}

#[test]
fn boss_death_sequence() {
    let mut space = Space::new(&[Collider::new_dynamic(2, Shape::Square, 1)]);
    let mut death = BossDeath { collider_id: Some(0), sent_defeated_message: false, alive: true };
    assert_eq!(death.update(3, true, true, &mut space), DeathAction { defeated: false, died: false });
    assert!(space.is_collider_activated(0));
    assert_eq!(death.update(0, true, false, &mut space), DeathAction { defeated: true, died: false });
    assert!(!space.is_collider_activated(0));
    assert_eq!(death.update(0, true, false, &mut space), DeathAction { defeated: false, died: false });
    assert_eq!(death.update(0, true, true, &mut space), DeathAction { defeated: false, died: true });
    assert!(!death.alive);
    assert_eq!(death.update(0, false, false, &mut space), DeathAction { defeated: false, died: false });
}

#[test]
fn firebrand_answers_messages() {
    let quiet = MessageOutcome { shot: false, injured: false };
    let mut flags = FirebrandFlags { frozen: false, did_pass_through_exit_door: false, walking_on: false };
    let mut c = CharacterState::new(3);
    assert_eq!(handle_message(&mut flags, &mut c, false, FirebrandMessage::Created { checkpoint: 1 }), quiet);
    assert!(!flags.frozen && !flags.walking_on);
    handle_message(&mut flags, &mut c, false, FirebrandMessage::Created { checkpoint: 0 });
    assert!(flags.frozen && flags.walking_on);
    handle_message(&mut flags, &mut c, false, FirebrandMessage::ExitDoorOpened);
    assert!(!flags.frozen);
    handle_message(&mut flags, &mut c, false, FirebrandMessage::RaiseExitFloor);
    assert!(flags.frozen);
    handle_message(&mut flags, &mut c, false, FirebrandMessage::PassedThroughExitDoor);
    assert!(flags.did_pass_through_exit_door);
    assert_eq!(
        handle_message(&mut flags, &mut c, false, FirebrandMessage::DidShootFireball),
        MessageOutcome { shot: true, injured: false }
    );
    assert_eq!(
        handle_message(&mut flags, &mut c, true, FirebrandMessage::HitByFireball { damage: 1 }),
        quiet
    );
    assert_eq!(c.hit_points, 2);
    assert_eq!(
        handle_message(&mut flags, &mut c, false, FirebrandMessage::HitByFireball { damage: 1 }),
        MessageOutcome { shot: false, injured: true }
    );
    assert_eq!(c.hit_points, 1);
    handle_message(&mut flags, &mut c, false, FirebrandMessage::ContactedPowerUp { powerup_type: Type::Heart });
    assert_eq!(c.hit_points, 2);
    handle_message(&mut flags, &mut c, false, FirebrandMessage::ContactedPowerUp { powerup_type: Type::Vial });
    assert_eq!(c.num_vials, 1);
    assert_eq!(handle_message(&mut flags, &mut c, false, FirebrandMessage::HitByFireball { damage: 5 }), quiet);
    assert!(!c.alive);
    assert_eq!(c.hit_points, 0);
}
