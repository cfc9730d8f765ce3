use olsen::animation::{
    load_animation, start_animation, AnimationParams, AnimationPlayer, AssetHandle,
};
use olsen::player::{
    player_startup, player_state_event_receiver, Facing, PlayerAction, PlayerAnimations,
    PlayerState, PlayerStateEvent,
};

const MS: u128 = 1_000_000;
const ACTIONS: [PlayerAction; 2] = [PlayerAction::Idle, PlayerAction::Run];
const FACINGS: [Facing; 4] = [Facing::Up, Facing::Down, Facing::Left, Facing::Right];

fn event(state: PlayerAction, direction: Option<Facing>) -> PlayerStateEvent {
    PlayerStateEvent { state, direction }
}

fn handle_of(action: PlayerAction, facing: Facing) -> AssetHandle {
    let row = ACTIONS.iter().position(|a| *a == action).unwrap() as u64;
    let column = FACINGS.iter().position(|f| *f == facing).unwrap() as u64;
    AssetHandle(100 + 4 * row + column)
}

fn loaded_table() -> PlayerAnimations {
    let mut table = player_startup();
    for action in ACTIONS {
        for facing in FACINGS {
            assert!(table.load(action, facing, handle_of(action, facing)));
        }
    }
    table
}

fn clip_of(table: &PlayerAnimations, action: PlayerAction, facing: Facing) -> AnimationParams {
    table.get(action, facing).unwrap().clone()
}

fn fresh(table: &PlayerAnimations, action: PlayerAction, facing: Facing) -> AnimationPlayer {
    start_animation(&clip_of(table, action, facing)).unwrap()
}

#[test]
fn player_starts_idle_and_facing_down() {
    let state = PlayerState::default();
    assert_eq!(state.action(), PlayerAction::Idle);
    assert_eq!(state.facing(), Facing::Down);
}

#[test]
fn player_startup_builds_the_whole_table() {
    let table = player_startup();
    let expected = [
        (PlayerAction::Idle, Facing::Up, "texture/player/back/idle_sprite_sheet.png", 293, 337, 5, false),
        (PlayerAction::Idle, Facing::Down, "texture/player/front/idle_sprite_sheet.png", 280, 339, 5, false),
        (PlayerAction::Idle, Facing::Left, "texture/player/left/idle_sprite_sheet.png", 267, 338, 5, false),
        (PlayerAction::Idle, Facing::Right, "texture/player/left/idle_sprite_sheet.png", 267, 338, 5, true),
        (PlayerAction::Run, Facing::Up, "texture/player/back/run_sprite_sheet.png", 286, 341, 4, false),
        (PlayerAction::Run, Facing::Down, "texture/player/front/run_sprite_sheet.png", 286, 341, 4, false),
        (PlayerAction::Run, Facing::Left, "texture/player/left/run_sprite_sheet.png", 269, 341, 4, false),
        (PlayerAction::Run, Facing::Right, "texture/player/left/run_sprite_sheet.png", 269, 341, 4, true),
    ];
    for (action, facing, sheet_file, cell_width, cell_height, grid, flip_x) in expected {
        let clip = table.get(action, facing).unwrap();
        assert_eq!(
            *clip,
            AnimationParams::new(sheet_file, cell_width, cell_height, grid, grid, flip_x, false, 25)
        );
        assert_eq!(clip.atlas_handle(), None);
        assert_eq!(clip.frame_count(), grid * grid);
    }
    assert!(!table.is_loaded());
}

#[test]
fn table_is_loaded_once_every_clip_has_its_sheet() {
    let mut table = player_startup();
    let mut count = 0;
    for action in ACTIONS {
        for facing in FACINGS {
            assert!(!table.is_loaded());
            assert!(table.load(action, facing, AssetHandle(count)));
            assert_eq!(table.get(action, facing).unwrap().atlas_handle(), Some(AssetHandle(count)));
            count += 1;
        }
    }
    assert!(table.is_loaded());
}

#[test]
fn empty_table_has_no_clips() {
    let mut table = PlayerAnimations::new();
    for action in ACTIONS {
        for facing in FACINGS {
            assert_eq!(table.get(action, facing), None);
        }
    }
    assert!(table.is_loaded());
    assert!(!table.load(PlayerAction::Run, Facing::Up, AssetHandle(1)));
    assert_eq!(table.get(PlayerAction::Run, Facing::Up), None);
}

#[test]
fn insert_sets_one_clip() {
    let mut table = PlayerAnimations::new();
    let first = AnimationParams::new("first.png", 1, 2, 3, 4, false, true, 5);
    let second = AnimationParams::new("second.png", 6, 7, 8, 9, true, false, 10);
    table.insert(PlayerAction::Run, Facing::Left, first.clone());
    assert_eq!(table.get(PlayerAction::Run, Facing::Left), Some(&first));
    for action in ACTIONS {
        for facing in FACINGS {
            if (action, facing) != (PlayerAction::Run, Facing::Left) {
                assert_eq!(table.get(action, facing), None);
            }
        }
    }
    table.insert(PlayerAction::Run, Facing::Left, second.clone());
    assert_eq!(table.get(PlayerAction::Run, Facing::Left), Some(&second));
    table.insert(PlayerAction::Idle, Facing::Left, first.clone());
    assert_eq!(table.get(PlayerAction::Idle, Facing::Left), Some(&first));
    assert_eq!(table.get(PlayerAction::Run, Facing::Left), Some(&second));
}

#[test]
fn facing_is_retained_when_movement_stops() {
    let table = loaded_table();
    let mut state = PlayerState::default();
    let mut playing = None;
    let missing = player_state_event_receiver(
        &mut playing,
        &table,
        &mut state,
        &vec![event(PlayerAction::Run, Some(Facing::Left))],
    );
    assert!(missing.is_empty());
    assert_eq!((state.action(), state.facing()), (PlayerAction::Run, Facing::Left));
    assert_eq!(playing, Some(fresh(&table, PlayerAction::Run, Facing::Left)));
    let missing = player_state_event_receiver(
        &mut playing,
        &table,
        &mut state,
        &vec![event(PlayerAction::Idle, None)],
    );
    assert!(missing.is_empty());
    assert_eq!((state.action(), state.facing()), (PlayerAction::Idle, Facing::Left));
    assert_eq!(playing, Some(fresh(&table, PlayerAction::Idle, Facing::Left)));
    assert_eq!(playing.unwrap().atlas(), handle_of(PlayerAction::Idle, Facing::Left));
    assert_ne!(playing, Some(fresh(&table, PlayerAction::Idle, Facing::Down)));
}

#[test]
fn first_idle_event_plays_the_clip_facing_down() {
    let table = loaded_table();
    let mut state = PlayerState::default();
    let mut playing = None;
    player_state_event_receiver(&mut playing, &table, &mut state, &vec![event(PlayerAction::Idle, None)]);
    assert_eq!(playing, Some(fresh(&table, PlayerAction::Idle, Facing::Down)));
    let player = playing.unwrap();
    assert_eq!((player.index(), player.frames()), (0, 25));
    assert_eq!(player.timer().interval(), 25 * MS);
}

#[test]
fn right_facing_clips_are_mirrored() {
    let table = loaded_table();
    let mut state = PlayerState::default();
    let mut playing = None;
    player_state_event_receiver(
        &mut playing,
        &table,
        &mut state,
        &vec![event(PlayerAction::Run, Some(Facing::Right))],
    );
    let player = playing.unwrap();
    assert!(player.flip_x());
    assert!(!player.flip_y());
    assert_eq!(player.frames(), 16);
}

#[test]
fn same_clip_does_not_start_over() {
    let table = loaded_table();
    let mut state = PlayerState::default();
    let mut playing = None;
    let run_up = event(PlayerAction::Run, Some(Facing::Up));
    player_state_event_receiver(&mut playing, &table, &mut state, &vec![run_up]);
    let mut player = playing.unwrap();
    for _ in 0..3 {
        player.tick(25 * MS, true);
    }
    player.tick(7 * MS, true);
    let mut playing = Some(player);
    let missing = player_state_event_receiver(&mut playing, &table, &mut state, &vec![run_up, run_up]);
    assert!(missing.is_empty());
    assert_eq!(playing, Some(player));
    assert_eq!(playing.unwrap().index(), 3);
    assert_eq!(playing.unwrap().timer().elapsed(), 7 * MS);
    assert_eq!((state.action(), state.facing()), (PlayerAction::Run, Facing::Up));
    player_state_event_receiver(&mut playing, &table, &mut state, &vec![event(PlayerAction::Run, None)]);
    assert_eq!(playing, Some(player));
}

#[test]
fn missing_entry_turns_the_player_and_nothing_else() {
    let mut table = PlayerAnimations::new();
    let mut run_up = AnimationParams::new("up.png", 10, 10, 4, 4, false, false, 25);
    load_animation(&mut run_up, AssetHandle(1));
    table.insert(PlayerAction::Run, Facing::Up, run_up.clone());
    let mut state = PlayerState::default();
    let mut playing = None;
    player_state_event_receiver(
        &mut playing,
        &table,
        &mut state,
        &vec![event(PlayerAction::Run, Some(Facing::Up))],
    );
    let mut player = playing.unwrap();
    player.tick(25 * MS, true);
    player.tick(5 * MS, true);
    let mut playing = Some(player);
    let missing = player_state_event_receiver(
        &mut playing,
        &table,
        &mut state,
        &vec![event(PlayerAction::Idle, Some(Facing::Left))],
    );
    assert_eq!(missing, vec![(PlayerAction::Idle, Facing::Left)]);
    assert_eq!((state.action(), state.facing()), (PlayerAction::Run, Facing::Left));
    assert_eq!(playing, Some(player));
    assert_eq!(playing.unwrap().index(), 1);
    assert_eq!(playing.unwrap().timer().elapsed(), 5 * MS);
    let missing = player_state_event_receiver(
        &mut playing,
        &table,
        &mut state,
        &vec![event(PlayerAction::Idle, None)],
    );
    assert_eq!(missing, vec![(PlayerAction::Idle, Facing::Left)]);
    assert_eq!((state.action(), state.facing()), (PlayerAction::Run, Facing::Left));
    assert_eq!(playing, Some(player));
}

#[test]
fn clip_that_still_plays_goes_on_after_a_missing_entry() {
    let mut table = PlayerAnimations::new();
    let mut run_up = AnimationParams::new("up.png", 10, 10, 4, 4, false, false, 25);
    load_animation(&mut run_up, AssetHandle(1));
    table.insert(PlayerAction::Run, Facing::Up, run_up);
    let mut state = PlayerState::default();
    let mut playing = None;
    let run_up = event(PlayerAction::Run, Some(Facing::Up));
    player_state_event_receiver(&mut playing, &table, &mut state, &vec![run_up]);
    let mut player = playing.unwrap();
    player.tick(25 * MS, true);
    let mut playing = Some(player);
    let missing = player_state_event_receiver(
        &mut playing,
        &table,
        &mut state,
        &vec![event(PlayerAction::Run, Some(Facing::Left)), run_up],
    );
    assert_eq!(missing, vec![(PlayerAction::Run, Facing::Left)]);
    assert_eq!(playing, Some(player));
    assert_eq!((state.action(), state.facing()), (PlayerAction::Run, Facing::Up));
}

#[test]
fn events_are_handled_in_the_order_given() {
    let table = loaded_table();
    let mut state = PlayerState::default();
    let mut playing = None;
    let missing = player_state_event_receiver(
        &mut playing,
        &table,
        &mut state,
        &vec![
            event(PlayerAction::Run, Some(Facing::Up)),
            event(PlayerAction::Run, Some(Facing::Right)),
            event(PlayerAction::Idle, None),
        ],
    );
    assert!(missing.is_empty());
    assert_eq!((state.action(), state.facing()), (PlayerAction::Idle, Facing::Right));
    assert_eq!(playing, Some(fresh(&table, PlayerAction::Idle, Facing::Right)));
}

#[test]
fn no_events_change_nothing() {
    let table = loaded_table();
    let mut state = PlayerState::default();
    let mut playing = None;
    let missing = player_state_event_receiver(&mut playing, &table, &mut state, &vec![]);
    assert!(missing.is_empty());
    assert_eq!(state, PlayerState::default());
    assert_eq!(playing, None);
}

#[test]
fn clip_that_is_not_loaded_is_found_but_does_not_start() {
    let table = player_startup();
    let mut state = PlayerState::default();
    let mut playing = None;
    let missing = player_state_event_receiver(
        &mut playing,
        &table,
        &mut state,
        &vec![event(PlayerAction::Run, Some(Facing::Up))],
    );
    assert!(missing.is_empty());
    assert_eq!((state.action(), state.facing()), (PlayerAction::Run, Facing::Up));
    assert_eq!(playing, None);
}

#[test]
fn single_event_steps() {
    let table = loaded_table();
    let mut state = PlayerState::default();
    let mut playing = None;
    let mut missing = Vec::new();
    assert!(state.apply(event(PlayerAction::Run, Some(Facing::Down)), &table, &mut playing, &mut missing));
    assert_eq!(playing, Some(fresh(&table, PlayerAction::Run, Facing::Down)));
    let empty = PlayerAnimations::new();
    assert!(!state.apply(event(PlayerAction::Idle, None), &empty, &mut playing, &mut missing));
    assert_eq!(missing, vec![(PlayerAction::Idle, Facing::Down)]);
    assert_eq!(state.action(), PlayerAction::Run);
}
