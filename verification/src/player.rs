use crate::animation::{
    lemma_ticks_keep_clip, load_animation, playback_of, switch, switch_animation,
    AnimationParams, AnimationPlayer, AssetHandle, Clip, Playback,
};
use vstd::prelude::*;

verus! {

/// The direction the player character faces.
#[derive(Clone, Copy, Debug, PartialEq, Eq, Hash, Structural)]
pub enum Facing {
    Up,
    Down,
    Left,
    Right,
}

/// What the player character is doing.
#[derive(Clone, Copy, Debug, PartialEq, Eq, Hash, Structural)]
pub enum PlayerAction {
    Idle,
    Run,
}

/// A request to change the player's action, optionally turning the character.
#[derive(Clone, Copy, Debug, PartialEq, Eq, Structural)]
pub struct PlayerStateEvent {
    pub state: PlayerAction,
    pub direction: Option<Facing>,
}

/// The place of an action and a direction in the table of clips.
spec fn slot_of(action: PlayerAction, facing: Facing) -> int {
    let row: int = match action {
        PlayerAction::Idle => 0,
        PlayerAction::Run => 4,
    };
    let column: int = match facing {
        Facing::Up => 0,
        Facing::Down => 1,
        Facing::Left => 2,
        Facing::Right => 3,
    };
    row + column
}

/// The action and the direction that have their place at `slot`.
spec fn key_of(slot: int) -> (PlayerAction, Facing) {
    let action = if slot < 4 {
        PlayerAction::Idle
    } else {
        PlayerAction::Run
    };
    let facing = if slot % 4 == 0 {
        Facing::Up
    } else if slot % 4 == 1 {
        Facing::Down
    } else if slot % 4 == 2 {
        Facing::Left
    } else {
        Facing::Right
    };
    (action, facing)
}

/// The clips of the player character, by action and direction.
#[derive(Debug)]
pub struct PlayerAnimations {
    slots: [Option<AnimationParams>; 8],
}

impl View for PlayerAnimations {
    type V = Map<(PlayerAction, Facing), Clip>;

    closed spec fn view(&self) -> Map<(PlayerAction, Facing), Clip> {
        Map::new(
            |key: (PlayerAction, Facing)| self.slots@[slot_of(key.0, key.1)] is Some,
            |key: (PlayerAction, Facing)| self.slots@[slot_of(key.0, key.1)]->0@,
        )
    }
}

/// Every clip of the table is well formed.
pub open spec fn clips_wf(clips: Map<(PlayerAction, Facing), Clip>) -> bool {
    forall|key: (PlayerAction, Facing)| #[trigger] clips.contains_key(key) ==> clips[key].wf()
}

/// Every clip of the table has its sprite sheet.
pub open spec fn clips_loaded(clips: Map<(PlayerAction, Facing), Clip>) -> bool {
    forall|key: (PlayerAction, Facing)| #[trigger]
        clips.contains_key(key) ==> clips[key].atlas_handle is Some
}

impl PlayerAnimations {
    /// The place of an action and a direction in the table.
    fn slot(action: PlayerAction, facing: Facing) -> (slot: usize)
        ensures
            slot == slot_of(action, facing),
            slot < 8,
    {
        let row: usize = match action {
            PlayerAction::Idle => 0,
            PlayerAction::Run => 4,
        };
        let column: usize = match facing {
            Facing::Up => 0,
            Facing::Down => 1,
            Facing::Left => 2,
            Facing::Right => 3,
        };
        row + column
    }

    /// A table without clips.
    pub fn new() -> (anims: PlayerAnimations)
        ensures
            anims@ == Map::<(PlayerAction, Facing), Clip>::empty(),
    {
        PlayerAnimations { slots: [None, None, None, None, None, None, None, None] }
    }

    /// Sets the clip for `action` and `facing`, in place of an earlier one.
    pub fn insert(&mut self, action: PlayerAction, facing: Facing, params: AnimationParams)
        ensures
            final(self)@ == old(self)@.insert((action, facing), params@),
    {
        let slot = Self::slot(action, facing);
        self.slots[slot] = Some(params);
    }

    /// The clip for `action` and `facing`, if the table has one. Every
    /// clip of a table is well formed.
    pub fn get(&self, action: PlayerAction, facing: Facing) -> (found: Option<&AnimationParams>)
        ensures
            match found {
                Some(params) => self@.contains_key((action, facing)) && params@ == self@[(
                    action,
                    facing,
                )] && params@.wf(),
                None => !self@.contains_key((action, facing)),
            },
    {
        let slot = Self::slot(action, facing);
        match &self.slots[slot] {
            Some(params) => {
                proof {
                    use_type_invariant(params);
                }
                Some(params)
            },
            None => None,
        }
    }

    /// Records the sprite sheet that was loaded for the clip of `action` and
    /// `facing`, and says whether the table has such a clip.
    pub fn load(&mut self, action: PlayerAction, facing: Facing, handle: AssetHandle) -> (found:
        bool)
        ensures
            found == old(self)@.contains_key((action, facing)),
            found ==> final(self)@ == old(self)@.insert(
                (action, facing),
                old(self)@[(action, facing)].loaded(handle),
            ),
            !found ==> final(self)@ == old(self)@,
    {
        let loaded = match self.get(action, facing) {
            Some(params) => {
                let mut copy = params.clone();
                load_animation(&mut copy, handle);
                Some(copy)
            },
            None => None,
        };
        match loaded {
            Some(params) => {
                self.insert(action, facing, params);
                true
            },
            None => false,
        }
    }

    /// Whether every clip of the table has its sprite sheet.
    pub fn is_loaded(&self) -> (loaded: bool)
        ensures
            loaded == clips_loaded(self@),
    {
        let mut i: usize = 0;
        while i < 8
            invariant
                i <= 8,
                forall|j: int|
                    0 <= j < i ==> ((#[trigger] self.slots@[j]) matches Some(params)
                        ==> params@.atlas_handle is Some),
            decreases 8 - i,
        {
            let missing = match &self.slots[i] {
                Some(params) => params.atlas_handle().is_none(),
                None => false,
            };
            if missing {
                proof {
                    let key = key_of(i as int);
                    assert(self@.contains_key(key));
                }
                return false;
            }
            i += 1;
        }
        true
    }
}

/// The facing and the action of the player character.
#[derive(Clone, Copy, Debug, PartialEq, Eq)]
pub struct PlayerState {
    direction: Facing,
    action: PlayerAction,
}

impl View for PlayerState {
    type V = (PlayerAction, Facing);

    closed spec fn view(&self) -> (PlayerAction, Facing) {
        (self.action, self.direction)
    }
}

impl Default for PlayerState {
    /// The player starts idle and facing down.
    fn default() -> (state: PlayerState)
        ensures
            state@ == (PlayerAction::Idle, Facing::Down),
    {
        PlayerState { direction: Facing::Down, action: PlayerAction::Idle }
    }
}

impl PlayerState {
    /// The direction the player faces.
    pub fn facing(&self) -> (facing: Facing)
        ensures
            facing == self@.1,
    {
        self.direction
    }

    /// What the player does.
    pub fn action(&self) -> (action: PlayerAction)
        ensures
            action == self@.0,
    {
        self.action
    }
}

/// The state machine of the player as a mathematical value: the action and
/// the facing of the player, the animation that runs on the player entity,
/// and the lookups that found no clip, oldest first.
#[verifier::ext_equal]
pub struct Machine {
    pub state: (PlayerAction, Facing),
    pub playing: Option<Playback>,
    pub missing: Seq<(PlayerAction, Facing)>,
}

impl Machine {
    /// The clip an event asks for: its action, in its direction if it has
    /// one, else in the direction the player faces.
    pub open spec fn target(self, event: PlayerStateEvent) -> (PlayerAction, Facing) {
        match event.direction {
            Some(direction) => (event.state, direction),
            None => (event.state, self.state.1),
        }
    }

    /// One event. The player turns first. Then, if the table has the clip
    /// asked for, the player takes the action and the entity is told to
    /// play the clip. If it has none, the action and the animation stay
    /// and the lookup is recorded as missing.
    pub open spec fn step(
        self,
        clips: Map<(PlayerAction, Facing), Clip>,
        event: PlayerStateEvent,
    ) -> Machine {
        let target = self.target(event);
        if clips.contains_key(target) {
            Machine {
                state: target,
                playing: switch(self.playing, clips[target]),
                missing: self.missing,
            }
        } else {
            Machine {
                state: (self.state.0, target.1),
                playing: self.playing,
                missing: self.missing.push(target),
            }
        }
    }

    /// The events of `events`, one after the other.
    pub open spec fn run(
        self,
        clips: Map<(PlayerAction, Facing), Clip>,
        events: Seq<PlayerStateEvent>,
    ) -> Machine
        decreases events.len(),
    {
        if events.len() == 0 {
            self
        } else {
            self.run(clips, events.drop_last()).step(clips, events.last())
        }
    }
}

/// An event that names no direction asks for the clip in the direction
/// that the last event with a direction named, whether or not the table had
/// a clip for that event.
pub proof fn lemma_facing_is_retained(
    machine: Machine,
    clips: Map<(PlayerAction, Facing), Clip>,
    turn: PlayerStateEvent,
    action: PlayerAction,
)
    requires
        turn.direction is Some,
    ensures
        ({
            let turned = machine.step(clips, turn);
            let event = PlayerStateEvent { state: action, direction: None };
            &&& turned.state.1 == turn.direction->0
            &&& turned.target(event) == (action, turn.direction->0)
            &&& clips.contains_key((action, turn.direction->0)) ==> {
                &&& turned.step(clips, event).state == (action, turn.direction->0)
                &&& turned.step(clips, event).playing == switch(
                    turned.playing,
                    clips[(action, turn.direction->0)],
                )
            }
        }),
{
}

/// An event that asks for the clip the entity already plays leaves the
/// animation as it is: neither the frame nor the clock starts over.
pub proof fn lemma_same_clip_keeps_frame(
    machine: Machine,
    clips: Map<(PlayerAction, Facing), Clip>,
    event: PlayerStateEvent,
)
    requires
        clips.contains_key(machine.target(event)),
        machine.playing matches Some(playback) && playback.plays(clips[machine.target(event)]),
    ensures
        machine.step(clips, event).playing == machine.playing,
        machine.step(clips, event).missing == machine.missing,
{
}

/// After an event has started a clip, the same event sent again, however
/// many ticks later, changes neither the state nor the animation.
pub proof fn lemma_repeated_event_keeps_frame(
    machine: Machine,
    clips: Map<(PlayerAction, Facing), Clip>,
    event: PlayerStateEvent,
    delta: nat,
    ready: bool,
    n: nat,
)
    requires
        clips.contains_key(machine.target(event)),
        clips[machine.target(event)].atlas_handle is Some,
    ensures
        ({
            let first = machine.step(clips, event);
            let later = Machine {
                playing: Some(first.playing->0.ticks(delta, ready, n)),
                ..first
            };
            &&& first.playing is Some
            &&& later.step(clips, event) == later
        }),
{
    let first = machine.step(clips, event);
    lemma_ticks_keep_clip(first.playing->0, clips[machine.target(event)], delta, ready, n);
}

/// An event that asks for a clip the table does not have turns the player
/// if it names a direction, and changes nothing else: the action and the
/// animation stay, and exactly one lookup is recorded as missing.
pub proof fn lemma_missing_entry(
    machine: Machine,
    clips: Map<(PlayerAction, Facing), Clip>,
    event: PlayerStateEvent,
)
    requires
        !clips.contains_key(machine.target(event)),
    ensures
        machine.step(clips, event) == (Machine {
            state: (
                machine.state.0,
                match event.direction {
                    Some(direction) => direction,
                    None => machine.state.1,
                },
            ),
            playing: machine.playing,
            missing: machine.missing.push(machine.target(event)),
        }),
{
}

/// Whatever the events, the frame of the animation stays among the frames
/// of its clip, as long as the clips of the table are well formed.
pub proof fn lemma_run_keeps_frame_in_range(
    machine: Machine,
    clips: Map<(PlayerAction, Facing), Clip>,
    events: Seq<PlayerStateEvent>,
)
    requires
        clips_wf(clips),
        machine.playing matches Some(playback) ==> playback.wf(),
    ensures
        machine.run(clips, events).playing matches Some(playback) ==> playback.wf(),
    decreases events.len(),
{
    if events.len() > 0 {
        lemma_run_keeps_frame_in_range(machine, clips, events.drop_last());
    }
}

impl PlayerState {
    /// Handles one event, and says whether the table had the clip it asks
    /// for. A lookup that finds none is appended to `missing`.
    pub fn apply(
        &mut self,
        event: PlayerStateEvent,
        player_anims: &PlayerAnimations,
        playing: &mut Option<AnimationPlayer>,
        missing: &mut Vec<(PlayerAction, Facing)>,
    ) -> (found: bool)
        ensures
            (Machine {
                state: final(self)@,
                playing: playback_of(*final(playing)),
                missing: final(missing)@,
            }) == (Machine {
                state: old(self)@,
                playing: playback_of(*old(playing)),
                missing: old(missing)@,
            }).step(player_anims@, event),
            found == player_anims@.contains_key((event.state, final(self)@.1)),
    {
        if let Some(new_direction) = event.direction {
            self.direction = new_direction;
        }
        match player_anims.get(event.state, self.direction) {
            Some(animation_params) => {
                self.action = event.state;
                switch_animation(playing, animation_params);
                true
            },
            None => {
                missing.push((event.state, self.direction));
                false
            },
        }
    }
}

/// Handles the events of one frame in the order in which they arrived, and
/// returns the lookups that found no clip, oldest first.
pub fn player_state_event_receiver(
    playing: &mut Option<AnimationPlayer>,
    player_anims: &PlayerAnimations,
    state: &mut PlayerState,
    events: &Vec<PlayerStateEvent>,
) -> (missing: Vec<(PlayerAction, Facing)>)
    ensures
        (Machine {
            state: final(state)@,
            playing: playback_of(*final(playing)),
            missing: missing@,
        }) == (Machine {
            state: old(state)@,
            playing: playback_of(*old(playing)),
            missing: Seq::empty(),
        }).run(player_anims@, events@),
{
    let ghost start = Machine {
        state: state@,
        playing: playback_of(*playing),
        missing: Seq::empty(),
    };
    let mut missing: Vec<(PlayerAction, Facing)> = Vec::new();
    let mut i: usize = 0;
    while i < events.len()
        invariant
            i <= events.len(),
            (Machine { state: state@, playing: playback_of(*playing), missing: missing@ })
                == start.run(player_anims@, events@.take(i as int)),
        decreases events.len() - i,
    {
        assert(events@.take(i + 1).drop_last() =~= events@.take(i as int));
        state.apply(events[i], player_anims, playing, &mut missing);
        i += 1;
    }
    assert(events@.take(i as int) =~= events@);
    missing
}

/// The clip of the player character for `action` and `facing`, before its
/// sprite sheet is loaded.
pub open spec fn player_clip(action: PlayerAction, facing: Facing) -> Clip {
    let (sheet_file, cell_width, cell_height, grid, flip_x): (Seq<char>, nat, nat, nat, bool) =
        match (action, facing) {
        (PlayerAction::Idle, Facing::Up) => (
            "texture/player/back/idle_sprite_sheet.png"@,
            293,
            337,
            5,
            false,
        ),
        (PlayerAction::Idle, Facing::Down) => (
            "texture/player/front/idle_sprite_sheet.png"@,
            280,
            339,
            5,
            false,
        ),
        (PlayerAction::Idle, Facing::Left) => (
            "texture/player/left/idle_sprite_sheet.png"@,
            267,
            338,
            5,
            false,
        ),
        (PlayerAction::Idle, Facing::Right) => (
            "texture/player/left/idle_sprite_sheet.png"@,
            267,
            338,
            5,
            true,
        ),
        (PlayerAction::Run, Facing::Up) => (
            "texture/player/back/run_sprite_sheet.png"@,
            286,
            341,
            4,
            false,
        ),
        (PlayerAction::Run, Facing::Down) => (
            "texture/player/front/run_sprite_sheet.png"@,
            286,
            341,
            4,
            false,
        ),
        (PlayerAction::Run, Facing::Left) => (
            "texture/player/left/run_sprite_sheet.png"@,
            269,
            341,
            4,
            false,
        ),
        (PlayerAction::Run, Facing::Right) => (
            "texture/player/left/run_sprite_sheet.png"@,
            269,
            341,
            4,
            true,
        ),
    };
    Clip {
        sheet_file,
        cell_width,
        cell_height,
        grid_width: grid,
        grid_height: grid,
        flip_x,
        flip_y: false,
        tick_rate_ms: 25,
        atlas_handle: None,
    }
}

/// The table of the player character: a clip for every action and facing.
pub open spec fn player_clips() -> Map<(PlayerAction, Facing), Clip> {
    Map::new(
        |key: (PlayerAction, Facing)| true,
        |key: (PlayerAction, Facing)| player_clip(key.0, key.1),
    )
}

/// Builds the table of the player character. Its sprite sheets are still
/// to be loaded.
pub fn player_startup() -> (player_anims: PlayerAnimations)
    ensures
        player_anims@ == player_clips(),
        clips_wf(player_anims@),
{
    let mut x = PlayerAnimations::new();
    x.insert(
        PlayerAction::Idle,
        Facing::Up,
        AnimationParams::new("texture/player/back/idle_sprite_sheet.png", 293, 337, 5, 5, false, false, 25),
    );
    x.insert(
        PlayerAction::Idle,
        Facing::Down,
        AnimationParams::new("texture/player/front/idle_sprite_sheet.png", 280, 339, 5, 5, false, false, 25),
    );
    x.insert(
        PlayerAction::Idle,
        Facing::Left,
        AnimationParams::new("texture/player/left/idle_sprite_sheet.png", 267, 338, 5, 5, false, false, 25),
    );
    x.insert(
        PlayerAction::Idle,
        Facing::Right,
        AnimationParams::new("texture/player/left/idle_sprite_sheet.png", 267, 338, 5, 5, true, false, 25),
    );
    x.insert(
        PlayerAction::Run,
        Facing::Up,
        AnimationParams::new("texture/player/back/run_sprite_sheet.png", 286, 341, 4, 4, false, false, 25),
    );
    x.insert(
        PlayerAction::Run,
        Facing::Down,
        AnimationParams::new("texture/player/front/run_sprite_sheet.png", 286, 341, 4, 4, false, false, 25),
    );
    x.insert(
        PlayerAction::Run,
        Facing::Left,
        AnimationParams::new("texture/player/left/run_sprite_sheet.png", 269, 341, 4, 4, false, false, 25),
    );
    x.insert(
        PlayerAction::Run,
        Facing::Right,
        AnimationParams::new("texture/player/left/run_sprite_sheet.png", 269, 341, 4, 4, true, false, 25),
    );
    x
}

} // verus!
