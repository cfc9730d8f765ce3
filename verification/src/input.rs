use crate::player::{Facing, PlayerAction, PlayerStateEvent};
use vstd::prelude::*;

verus! {

/// A keyboard key, as far as the input handler tells keys apart.
#[derive(Clone, Copy, Debug, PartialEq, Eq, Hash, Structural)]
pub enum Key {
    W,
    A,
    S,
    D,
    Space,
    Other,
}

impl Key {
    /// The direction a movement key stands for; `None` for every other key.
    pub open spec fn facing(self) -> Option<Facing> {
        match self {
            Key::W => Some(Facing::Up),
            Key::A => Some(Facing::Left),
            Key::S => Some(Facing::Down),
            Key::D => Some(Facing::Right),
            Key::Space | Key::Other => None,
        }
    }

    /// Whether the key is one of the four movement keys.
    pub open spec fn is_movement(self) -> bool {
        self.facing() is Some
    }

    /// The direction a movement key stands for; `None` for every other key.
    pub fn direction(self) -> (d: Option<Facing>)
        ensures
            d == self.facing(),
    {
        match self {
            Key::W => Some(Facing::Up),
            Key::A => Some(Facing::Left),
            Key::S => Some(Facing::Down),
            Key::D => Some(Facing::Right),
            Key::Space | Key::Other => None,
        }
    }
}

/// The four movement keys.
pub open spec fn movement_keys() -> Set<Key> {
    Set::new(|k: Key| k.is_movement())
}

/// The event sent when a movement key goes down.
pub open spec fn run_event(d: Facing) -> PlayerStateEvent {
    PlayerStateEvent { state: PlayerAction::Run, direction: Some(d) }
}

/// The event sent when movement stops.
pub open spec fn idle_event() -> PlayerStateEvent {
    PlayerStateEvent { state: PlayerAction::Idle, direction: None }
}

/// The debouncer as a mathematical value: the keys it holds as pressed and
/// the queue of events it has sent, oldest first.
#[verifier::ext_equal]
pub struct Debounce {
    pub held: Set<Key>,
    pub sent: Seq<PlayerStateEvent>,
}

impl Debounce {
    /// A key goes down. A movement key is recorded and sends one run event
    /// in its direction; any other key changes nothing.
    pub open spec fn press(self, key: Key) -> Debounce {
        match key.facing() {
            Some(d) => Debounce { held: self.held.insert(key), sent: self.sent.push(run_event(d)) },
            None => self,
        }
    }

    /// A key goes up. A movement key is forgotten, and one idle event is
    /// sent if no movement key is held any more. The space key sends one
    /// idle event whatever is held. Any other key changes nothing.
    pub open spec fn release(self, key: Key) -> Debounce {
        if key.is_movement() {
            let held = self.held.remove(key);
            if held.disjoint(movement_keys()) {
                Debounce { held, sent: self.sent.push(idle_event()) }
            } else {
                Debounce { held, sent: self.sent }
            }
        } else if key == Key::Space {
            Debounce { held: self.held, sent: self.sent.push(idle_event()) }
        } else {
            self
        }
    }

    /// The keys of `keys` go down one after the other.
    pub open spec fn press_all(self, keys: Seq<Key>) -> Debounce
        decreases keys.len(),
    {
        if keys.len() == 0 {
            self
        } else {
            self.press_all(keys.drop_last()).press(keys.last())
        }
    }

    /// The keys of `keys` go up one after the other.
    pub open spec fn release_all(self, keys: Seq<Key>) -> Debounce
        decreases keys.len(),
    {
        if keys.len() == 0 {
            self
        } else {
            self.release_all(keys.drop_last()).release(keys.last())
        }
    }

    /// One frame of input: every key that went down, then every key that
    /// went up.
    pub open spec fn frame(self, pressed: Seq<Key>, released: Seq<Key>) -> Debounce {
        self.press_all(pressed).release_all(released)
    }
}

/// Frames of one or two keys, as the steps they are made of.
pub proof fn lemma_short_frames(d: Debounce, first: Key, second: Key)
    ensures
        d.frame(seq![first], seq![]) == d.press(first),
        d.frame(seq![], seq![first]) == d.release(first),
        d.frame(seq![first], seq![first]) == d.press(first).release(first),
        d.frame(seq![first, second], seq![]) == d.press(first).press(second),
        d.frame(seq![], seq![first, second]) == d.release(first).release(second),
{
    reveal_with_fuel(Debounce::press_all, 3);
    reveal_with_fuel(Debounce::release_all, 3);
}

/// A movement key that goes down and up again while no other movement key
/// is held sends exactly two events, a run in its direction and then an
/// idle, and is not held afterwards. This holds whether the two edges come
/// in one frame or in two.
pub proof fn lemma_tap_runs_then_idles(d: Debounce, key: Key)
    requires
        key.is_movement(),
        d.held.remove(key).disjoint(movement_keys()),
    ensures
        d.press(key).release(key) == (Debounce {
            held: d.held.remove(key),
            sent: d.sent.push(run_event(key.facing()->0)).push(idle_event()),
        }),
        d.frame(seq![key], seq![]).frame(seq![], seq![key]) == d.press(key).release(key),
        d.frame(seq![key], seq![key]) == d.press(key).release(key),
{
    lemma_short_frames(d, key, key);
    lemma_short_frames(d.press(key), key, key);
}

/// When a second movement key goes down and the first goes up, the two
/// presses send their run events and the release sends nothing: the second
/// key is still held. This holds whether the three edges come one by one or
/// a frame each.
pub proof fn lemma_release_while_other_held(d: Debounce, first: Key, second: Key)
    requires
        first.is_movement(),
        second.is_movement(),
        first != second,
    ensures
        d.press(first).press(second).release(first).sent == d.sent.push(
            run_event(first.facing()->0),
        ).push(run_event(second.facing()->0)),
        d.press(first).press(second).release(first).held.contains(second),
        d.frame(seq![first], seq![]).frame(seq![second], seq![]).frame(seq![], seq![first])
            == d.press(first).press(second).release(first),
{
    lemma_short_frames(d, first, first);
    lemma_short_frames(d.press(first), second, second);
    lemma_short_frames(d.press(first).press(second), first, first);
}

/// When two movement keys go down while no other is held and both go up,
/// in either order, the first release sends nothing and the second sends
/// the one idle event; neither key is held afterwards. Both releases in one
/// frame send that one idle event as well.
pub proof fn lemma_idle_after_last_release(d: Debounce, first: Key, second: Key)
    requires
        first.is_movement(),
        second.is_movement(),
        first != second,
        d.held.remove(first).remove(second).disjoint(movement_keys()),
    ensures
        ({
            let down = d.press(first).press(second);
            let up = Debounce {
                held: d.held.remove(first).remove(second),
                sent: down.sent.push(idle_event()),
            };
            &&& down == d.frame(seq![first, second], seq![])
            &&& down.sent == d.sent.push(run_event(first.facing()->0)).push(
                run_event(second.facing()->0),
            )
            &&& down.release(first).sent == down.sent
            &&& down.release(second).sent == down.sent
            &&& down.release(first).release(second) == up
            &&& down.release(second).release(first) == up
            &&& down.frame(seq![], seq![first, second]) == up
            &&& down.frame(seq![], seq![second, first]) == up
        }),
{
    let down = d.press(first).press(second);
    let rest = d.held.remove(first).remove(second);
    assert(down.held.remove(first).remove(second) =~= rest);
    assert(down.held.remove(second).remove(first) =~= rest);
    lemma_short_frames(d, first, second);
    lemma_short_frames(down, first, second);
    lemma_short_frames(down, second, first);
}

/// The movement keys that are currently held down.
#[derive(Clone, Copy, Debug, PartialEq, Eq)]
pub struct State {
    up: bool,
    left: bool,
    down: bool,
    right: bool,
}

impl View for State {
    type V = Set<Key>;

    closed spec fn view(&self) -> Set<Key> {
        Set::new(
            |k: Key|
                match k {
                    Key::W => self.up,
                    Key::A => self.left,
                    Key::S => self.down,
                    Key::D => self.right,
                    Key::Space | Key::Other => false,
                },
        )
    }
}

impl Default for State {
    /// A state in which no key is held.
    fn default() -> (state: State)
        ensures
            state@ == Set::<Key>::empty(),
    {
        State::new()
    }
}

impl State {
    /// A state in which no key is held.
    pub fn new() -> (state: State)
        ensures
            state@ == Set::<Key>::empty(),
    {
        State { up: false, left: false, down: false, right: false }
    }

    /// Only movement keys are ever held.
    pub proof fn lemma_holds_movement_keys(&self)
        ensures
            self@.subset_of(movement_keys()),
            self@.finite(),
    {
        let four = set![Key::W, Key::A, Key::S, Key::D];
        assert(self@.subset_of(four));
        vstd::set_lib::lemma_len_subset(self@, four);
    }

    /// Whether `key` is held.
    pub fn is_held(&self, key: Key) -> (held: bool)
        ensures
            held == self@.contains(key),
    {
        match key {
            Key::W => self.up,
            Key::A => self.left,
            Key::S => self.down,
            Key::D => self.right,
            Key::Space | Key::Other => false,
        }
    }

    /// Whether no movement key is held.
    pub fn is_still(&self) -> (still: bool)
        ensures
            still == self@.disjoint(movement_keys()),
            still == (self@ == Set::<Key>::empty()),
    {
        let still = !self.up && !self.left && !self.down && !self.right;
        proof {
            if still {
                assert(self@ =~= Set::<Key>::empty());
            } else {
                let k = if self.up {
                    Key::W
                } else if self.left {
                    Key::A
                } else if self.down {
                    Key::S
                } else {
                    Key::D
                };
                assert(self@.contains(k) && movement_keys().contains(k));
            }
        }
        still
    }

    /// Handles one key going down: sends what `Debounce::press` sends.
    pub fn press(&mut self, key: Key, event_writer: &mut Vec<PlayerStateEvent>)
        ensures
            (Debounce { held: final(self)@, sent: final(event_writer)@ }) == (Debounce {
                held: old(self)@,
                sent: old(event_writer)@,
            }).press(key),
    {
        match key {
            Key::W => {
                self.up = true;
            },
            Key::A => {
                self.left = true;
            },
            Key::S => {
                self.down = true;
            },
            Key::D => {
                self.right = true;
            },
            Key::Space | Key::Other => {},
        }
        if let Some(direction) = key.direction() {
            event_writer.push(
                PlayerStateEvent { state: PlayerAction::Run, direction: Some(direction) },
            );
        }
    }

    /// Handles one key going up: sends what `Debounce::release` sends.
    pub fn release(&mut self, key: Key, event_writer: &mut Vec<PlayerStateEvent>)
        ensures
            (Debounce { held: final(self)@, sent: final(event_writer)@ }) == (Debounce {
                held: old(self)@,
                sent: old(event_writer)@,
            }).release(key),
    {
        let stopped = match key {
            Key::W => {
                self.up = false;
                self.is_still()
            },
            Key::A => {
                self.left = false;
                self.is_still()
            },
            Key::S => {
                self.down = false;
                self.is_still()
            },
            Key::D => {
                self.right = false;
                self.is_still()
            },
            Key::Space => true,
            Key::Other => false,
        };
        if stopped {
            event_writer.push(PlayerStateEvent { state: PlayerAction::Idle, direction: None });
        }
    }
}

/// Turns one frame of keyboard input into player events: every key of
/// `just_pressed` is handled in order, then every key of `just_released`.
/// The events are appended to `event_writer`, oldest first.
pub fn input_event_receiver(
    just_pressed: &Vec<Key>,
    just_released: &Vec<Key>,
    event_writer: &mut Vec<PlayerStateEvent>,
    state: &mut State,
)
    ensures
        (Debounce { held: final(state)@, sent: final(event_writer)@ }) == (Debounce {
            held: old(state)@,
            sent: old(event_writer)@,
        }).frame(just_pressed@, just_released@),
{
    let ghost start = Debounce { held: state@, sent: event_writer@ };
    let mut i: usize = 0;
    while i < just_pressed.len()
        invariant
            i <= just_pressed.len(),
            (Debounce { held: state@, sent: event_writer@ }) == start.press_all(
                just_pressed@.take(i as int),
            ),
        decreases just_pressed.len() - i,
    {
        assert(just_pressed@.take(i + 1).drop_last() =~= just_pressed@.take(i as int));
        state.press(just_pressed[i], event_writer);
        i += 1;
    }
    assert(just_pressed@.take(i as int) =~= just_pressed@);
    let ghost down = start.press_all(just_pressed@);
    let mut j: usize = 0;
    while j < just_released.len()
        invariant
            j <= just_released.len(),
            (Debounce { held: state@, sent: event_writer@ }) == down.release_all(
                just_released@.take(j as int),
            ),
        decreases just_released.len() - j,
    {
        assert(just_released@.take(j + 1).drop_last() =~= just_released@.take(j as int));
        state.release(just_released[j], event_writer);
        j += 1;
    }
    assert(just_released@.take(j as int) =~= just_released@);
}

} // verus!
