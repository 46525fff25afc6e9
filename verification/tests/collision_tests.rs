use platformer::collision::{Collider, Mode, Shape, Space};

const GROUND: u32 = 1 << 1;
const ENEMY: u32 = 1 << 3;

fn level() -> Vec<Collider> {
    vec![
        Collider::new_static(0, 0, Shape::Square, GROUND),
        Collider::new_static(1, 0, Shape::NorthEast, GROUND),
        Collider::new_static(2, 0, Shape::Empty, GROUND),
        Collider::new_dynamic(7, Shape::Square, ENEMY),
    ]
}

#[test]
fn space_new_indexes_static_and_lists_dynamic() {
    let space = Space::new(&level());
    for id in 0..4u32 {
        assert!(space.is_collider_activated(id));
    }
    assert!(!space.is_collider_activated(4));
    assert_eq!(space.dynamic_colliders(), &vec![3usize]);
    assert!(space.dynamic_colliders_need_sort());
    assert_eq!(space.get_collider(3).unwrap().entity_id(), Some(7));
    assert_eq!(space.get_collider(0).unwrap().entity_id(), None);
    assert!(space.get_collider(4).is_none());
}

#[test]
fn static_lookup_matches_mask_and_shape() {
    let space = Space::new(&level());
    assert_eq!(space.get_static_collider_at(0, 0, GROUND), Some(&Collider::new_static(0, 0, Shape::Square, GROUND)));
    assert_eq!(space.get_static_collider_at(1, 0, GROUND | ENEMY), Some(&Collider::new_static(1, 0, Shape::NorthEast, GROUND)));
    // the mask shares no bit
    assert_eq!(space.get_static_collider_at(0, 0, ENEMY), None);
    // an empty shape covers nothing
    assert_eq!(space.get_static_collider_at(2, 0, GROUND), None);
    // nothing indexed there; dynamic colliders are not in the cell index
    assert_eq!(space.get_static_collider_at(5, 5, GROUND), None);
    assert_eq!(space.get_static_collider_at(-1, 0, GROUND), None);
}

#[test]
fn switching_colliders_off_and_on() {
    let mut space = Space::new(&level());
    space.deactivate_collider(0);
    assert!(!space.is_collider_activated(0));
    assert_eq!(space.get_static_collider_at(0, 0, GROUND), None);
    space.activate_collider(0);
    assert!(space.is_collider_activated(0));
    assert!(space.get_static_collider_at(0, 0, GROUND).is_some());

    space.deactivate_collider(3);
    assert!(!space.is_collider_activated(3));
    assert!(space.dynamic_colliders().is_empty());
    space.activate_collider(3);
    assert_eq!(space.dynamic_colliders(), &vec![3usize]);

    // unknown ids change nothing
    space.activate_collider(99);
    assert!(!space.is_collider_activated(99));
    space.deactivate_collider(99);
    assert_eq!(space.dynamic_colliders(), &vec![3usize]);
}

#[test]
fn added_colliders_get_the_next_id() {
    let mut space = Space::new(&level());
    let id = space.add_collider(Collider::new_dynamic(9, Shape::Square, ENEMY));
    assert_eq!(id, 4);
    assert_eq!(space.dynamic_colliders(), &vec![3usize, 4]);
    let id = space.add_collider(Collider::new_static(0, 0, Shape::SouthWest, GROUND));
    assert_eq!(id, 5);
    // the newer static collider takes over the cell
    assert_eq!(space.get_static_collider_at(0, 0, GROUND).unwrap().shape, Shape::SouthWest);
}

#[test]
fn moving_a_static_collider_reindexes_it() {
    let mut space = Space::new(&level());
    space.update_collider_position(0, 4, -3);
    assert_eq!(space.get_static_collider_at(0, 0, GROUND), None);
    let c = space.get_static_collider_at(4, -3, GROUND).unwrap();
    assert_eq!(c.mode, Mode::Static { x: 4, y: -3 });
    assert_eq!(space.get_collider(0).unwrap().mode, Mode::Static { x: 4, y: -3 });
}

#[test]
fn reordering_dynamic_colliders() {
    let mut space = Space::new(&level());
    space.add_collider(Collider::new_dynamic(8, Shape::Square, ENEMY));
    space.add_collider(Collider::new_dynamic(9, Shape::Square, ENEMY));
    assert_eq!(space.dynamic_colliders(), &vec![3usize, 4, 5]);
    // not a permutation of the three positions
    assert!(!space.reorder_dynamic_colliders(&vec![0, 0, 1]));
    assert!(!space.reorder_dynamic_colliders(&vec![0, 1]));
    assert!(!space.reorder_dynamic_colliders(&vec![0, 1, 3]));
    assert!(space.dynamic_colliders_need_sort());
    assert!(space.reorder_dynamic_colliders(&vec![2, 0, 1]));
    assert_eq!(space.dynamic_colliders(), &vec![5usize, 3, 4]);
    assert!(!space.dynamic_colliders_need_sort());
    space.update_collider_position(4, 0, 0);
    assert!(space.dynamic_colliders_need_sort());
}
