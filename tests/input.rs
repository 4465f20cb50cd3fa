use flappy::input::{player_input, Health, PlayerAction, Point};
use flappy::Key;

#[test]
fn no_key_does_nothing() {
    let r = player_input(None, Point { x: 1, y: 1 }, None, &vec![]);
    assert_eq!(r, PlayerAction::Idle);
    assert!(!r.ends_turn());
    let r = player_input(Some(Key::Q), Point { x: 1, y: 1 }, None, &vec![]);
    assert_eq!(r, PlayerAction::Idle);
}

#[test]
fn space_heals_up_to_max() {
    let p = Point { x: 0, y: 0 };
    let r = player_input(Some(Key::Space), p, Some(Health { current: 3, max: 10 }), &vec![]);
    assert_eq!(r, PlayerAction::Rest { health: Some(Health { current: 4, max: 10 }) });
    assert!(r.ends_turn());
    let r = player_input(Some(Key::Space), p, Some(Health { current: 10, max: 10 }), &vec![]);
    assert_eq!(r, PlayerAction::Rest { health: Some(Health { current: 10, max: 10 }) });
    let r = player_input(Some(Key::Space), p, None, &vec![]);
    assert_eq!(r, PlayerAction::Rest { health: None });
}

#[test]
fn movement_keys_move() {
    let p = Point { x: 5, y: 5 };
    let enemies = vec![Point { x: 9, y: 9 }];
    assert_eq!(player_input(Some(Key::A), p, None, &enemies), PlayerAction::Move { destination: Point { x: 4, y: 5 } });
    assert_eq!(player_input(Some(Key::D), p, None, &enemies), PlayerAction::Move { destination: Point { x: 6, y: 5 } });
    assert_eq!(player_input(Some(Key::W), p, None, &enemies), PlayerAction::Move { destination: Point { x: 5, y: 4 } });
    let r = player_input(Some(Key::S), p, None, &enemies);
    assert_eq!(r, PlayerAction::Move { destination: Point { x: 5, y: 6 } });
    assert!(r.ends_turn());
}

#[test]
fn enemy_on_destination_is_attacked() {
    let p = Point { x: 5, y: 5 };
    let enemies = vec![Point { x: 6, y: 5 }, Point { x: 1, y: 1 }, Point { x: 6, y: 5 }];
    let r = player_input(Some(Key::D), p, Some(Health { current: 1, max: 5 }), &enemies);
    assert_eq!(r, PlayerAction::Attack { victims: vec![0, 2] });
    assert!(r.ends_turn());
}
