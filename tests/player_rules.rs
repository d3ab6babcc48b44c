use scene_rules::controls::{key_step, net_step, Key, Step};
use scene_rules::player::{
    handle_is_ground, handle_jump, move_forward, spawn_flags, turn_quarters, ForwardMove,
    HaveDashed, IsOnGround,
};

#[test]
fn flags_start_cleared_and_can_be_set() {
    let (mut on_ground, mut dashed) = spawn_flags();
    assert!(!*on_ground);
    assert!(!*dashed);
    on_ground.set_inner(true);
    dashed.set_inner(true);
    assert!(*on_ground);
    assert!(*dashed);
    on_ground.set_inner(false);
    assert_eq!(on_ground, IsOnGround(false));
}

#[test]
fn forward_key_released_does_nothing() {
    let mut dashed = HaveDashed(false);
    assert_eq!(move_forward(false, &IsOnGround(false), &mut dashed), ForwardMove::Stay);
    assert_eq!(dashed, HaveDashed(false));
}

#[test]
fn forward_on_ground_walks() {
    let mut dashed = HaveDashed(false);
    assert_eq!(move_forward(true, &IsOnGround(true), &mut dashed), ForwardMove::Walk);
    assert_eq!(dashed, HaveDashed(false));
}

#[test]
fn forward_in_air_dashes_once() {
    let mut dashed = HaveDashed(false);
    assert_eq!(move_forward(true, &IsOnGround(false), &mut dashed), ForwardMove::Dash);
    assert_eq!(dashed, HaveDashed(true));
    assert_eq!(move_forward(true, &IsOnGround(false), &mut dashed), ForwardMove::Stay);
    assert_eq!(dashed, HaveDashed(true));
}

#[test]
fn touching_ground_lands_and_restores_dash() {
    let mut on_ground = IsOnGround(false);
    let mut dashed = HaveDashed(true);
    assert!(handle_is_ground(7, &vec![3, 7, 9], &mut on_ground, &mut dashed));
    assert_eq!(on_ground, IsOnGround(true));
    assert_eq!(dashed, HaveDashed(false));
}

#[test]
fn touching_something_else_keeps_flags() {
    let mut on_ground = IsOnGround(false);
    let mut dashed = HaveDashed(true);
    assert!(!handle_is_ground(7, &vec![3, 9], &mut on_ground, &mut dashed));
    assert!(!handle_is_ground(7, &Vec::new(), &mut on_ground, &mut dashed));
    assert_eq!(on_ground, IsOnGround(false));
    assert_eq!(dashed, HaveDashed(true));
}

#[test]
fn already_grounded_player_is_left_alone() {
    let mut on_ground = IsOnGround(true);
    let mut dashed = HaveDashed(true);
    assert!(!handle_is_ground(7, &vec![7], &mut on_ground, &mut dashed));
    assert_eq!(on_ground, IsOnGround(true));
    assert_eq!(dashed, HaveDashed(true));
}

#[test]
fn jumping_needs_ground() {
    assert!(handle_jump(true, &IsOnGround(true)));
    assert!(!handle_jump(true, &IsOnGround(false)));
    assert!(!handle_jump(false, &IsOnGround(true)));
}

#[test]
fn turning_keys_add_up() {
    assert_eq!(turn_quarters(false, false, false), 0);
    assert_eq!(turn_quarters(true, false, false), -1);
    assert_eq!(turn_quarters(false, true, false), 1);
    assert_eq!(turn_quarters(false, false, true), 2);
    assert_eq!(turn_quarters(true, true, false), 0);
    assert_eq!(turn_quarters(true, false, true), 1);
    assert_eq!(turn_quarters(true, true, true), 2);
}

#[test]
fn each_key_steps_along_its_axis() {
    assert_eq!(key_step(Key::W), Step { x: 1, y: 0 });
    assert_eq!(key_step(Key::S), Step { x: -1, y: 0 });
    assert_eq!(key_step(Key::A), Step { x: 0, y: -1 });
    assert_eq!(key_step(Key::D), Step { x: 0, y: 1 });
    assert_eq!(key_step(Key::Other), Step { x: 0, y: 0 });
}

#[test]
fn key_events_of_a_frame_sum_up() {
    assert_eq!(net_step(&Vec::new()), Step { x: 0, y: 0 });
    let keys = vec![Key::W, Key::W, Key::D, Key::Other, Key::S, Key::A, Key::A, Key::W];
    assert_eq!(net_step(&keys), Step { x: 2, y: -1 });
}

#[test]
fn losing_contact_leaves_the_ground() {
    let mut on_ground = IsOnGround(true);
    let mut dashed = HaveDashed(false);
    assert!(!handle_is_ground(7, &vec![3, 9], &mut on_ground, &mut dashed));
    assert_eq!(on_ground, IsOnGround(false));
    assert_eq!(dashed, HaveDashed(false));
    assert!(!handle_jump(true, &on_ground));
    assert!(!*on_ground);
}
