use olsen::input::{input_event_receiver, Key, State};
use olsen::player::{Facing, PlayerAction, PlayerStateEvent};

fn run(direction: Facing) -> PlayerStateEvent {
    PlayerStateEvent { state: PlayerAction::Run, direction: Some(direction) }
}

fn idle() -> PlayerStateEvent {
    PlayerStateEvent { state: PlayerAction::Idle, direction: None }
}

fn frame(state: &mut State, pressed: Vec<Key>, released: Vec<Key>) -> Vec<PlayerStateEvent> {
    let mut queue = Vec::new();
    input_event_receiver(&pressed, &released, &mut queue, state);
    queue
}

#[test]
fn tap_sends_run_then_idle() {
    let mut state = State::new();
    let mut queue = Vec::new();
    input_event_receiver(&vec![Key::W], &vec![], &mut queue, &mut state);
    assert_eq!(queue, vec![run(Facing::Up)]);
    assert!(state.is_held(Key::W));
    input_event_receiver(&vec![], &vec![Key::W], &mut queue, &mut state);
    assert_eq!(queue, vec![run(Facing::Up), idle()]);
    assert_eq!(state, State::new());
}

#[test]
fn tap_within_one_frame_sends_run_then_idle() {
    let mut state = State::new();
    assert_eq!(frame(&mut state, vec![Key::D], vec![Key::D]), vec![run(Facing::Right), idle()]);
    assert!(state.is_still());
}

#[test]
fn every_movement_key_has_its_direction() {
    assert_eq!(Key::W.direction(), Some(Facing::Up));
    assert_eq!(Key::A.direction(), Some(Facing::Left));
    assert_eq!(Key::S.direction(), Some(Facing::Down));
    assert_eq!(Key::D.direction(), Some(Facing::Right));
    assert_eq!(Key::Space.direction(), None);
    assert_eq!(Key::Other.direction(), None);
}

#[test]
fn presses_send_runs_in_the_order_given() {
    let mut state = State::new();
    let sent = frame(&mut state, vec![Key::S, Key::A, Key::W, Key::D], vec![]);
    assert_eq!(
        sent,
        vec![run(Facing::Down), run(Facing::Left), run(Facing::Up), run(Facing::Right)]
    );
    assert!(state.is_held(Key::W));
    assert!(state.is_held(Key::A));
    assert!(state.is_held(Key::S));
    assert!(state.is_held(Key::D));
    assert!(!state.is_still());
}

#[test]
fn release_while_another_key_is_held_sends_nothing() {
    let mut state = State::new();
    let mut sent = frame(&mut state, vec![Key::W], vec![]);
    sent.extend(frame(&mut state, vec![Key::A], vec![]));
    sent.extend(frame(&mut state, vec![], vec![Key::W]));
    assert_eq!(sent, vec![run(Facing::Up), run(Facing::Left)]);
    assert!(!state.is_held(Key::W));
    assert!(state.is_held(Key::A));
}

#[test]
fn idle_comes_after_the_last_release() {
    for (first, second) in [(Key::W, Key::A), (Key::A, Key::W)] {
        let mut state = State::new();
        assert_eq!(frame(&mut state, vec![Key::W, Key::A], vec![]).len(), 2);
        assert_eq!(frame(&mut state, vec![], vec![first]), vec![]);
        assert_eq!(frame(&mut state, vec![], vec![second]), vec![idle()]);
        assert!(state.is_still());
    }
}

#[test]
fn releasing_both_keys_in_one_frame_sends_one_idle() {
    let mut state = State::new();
    frame(&mut state, vec![Key::S, Key::D], vec![]);
    assert_eq!(frame(&mut state, vec![], vec![Key::D, Key::S]), vec![idle()]);
}

#[test]
fn space_sends_idle_on_release_whatever_is_held() {
    let mut state = State::new();
    assert_eq!(frame(&mut state, vec![Key::Space], vec![]), vec![]);
    assert_eq!(frame(&mut state, vec![], vec![Key::Space]), vec![idle()]);
    frame(&mut state, vec![Key::W], vec![]);
    assert_eq!(frame(&mut state, vec![], vec![Key::Space]), vec![idle()]);
    assert!(state.is_held(Key::W));
    assert!(!state.is_held(Key::Space));
}

#[test]
fn other_keys_send_nothing() {
    let mut state = State::new();
    assert_eq!(frame(&mut state, vec![Key::Other], vec![Key::Other]), vec![]);
    assert_eq!(state, State::default());
}

#[test]
fn releasing_a_key_that_was_not_held() {
    let mut state = State::new();
    assert_eq!(frame(&mut state, vec![], vec![Key::W]), vec![idle()]);
    frame(&mut state, vec![Key::A], vec![]);
    assert_eq!(frame(&mut state, vec![], vec![Key::W]), vec![]);
    assert!(state.is_held(Key::A));
}

#[test]
fn pressing_a_held_key_again_sends_another_run() {
    let mut state = State::new();
    frame(&mut state, vec![Key::W], vec![]);
    assert_eq!(frame(&mut state, vec![Key::W], vec![]), vec![run(Facing::Up)]);
    assert_eq!(frame(&mut state, vec![], vec![Key::W]), vec![idle()]);
}

#[test]
fn events_are_appended_to_the_queue() {
    let mut state = State::new();
    let mut queue = vec![idle()];
    input_event_receiver(&vec![Key::A], &vec![Key::A], &mut queue, &mut state);
    assert_eq!(queue, vec![idle(), run(Facing::Left), idle()]);
}

#[test]
fn single_key_steps() {
    let mut state = State::new();
    let mut queue = Vec::new();
    state.press(Key::S, &mut queue);
    assert_eq!(queue, vec![run(Facing::Down)]);
    state.press(Key::Other, &mut queue);
    assert_eq!(queue.len(), 1);
    state.release(Key::S, &mut queue);
    assert_eq!(queue, vec![run(Facing::Down), idle()]);
    assert!(state.is_still());
}
