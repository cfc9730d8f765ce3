use vstd::prelude::*;

verus! {

/// Nanoseconds in one millisecond.
pub const NANOS_PER_MILLI: u128 = 1_000_000;

/// An opaque reference to a loaded sprite sheet.
#[derive(Clone, Copy, Debug, PartialEq, Eq, Hash, Structural)]
pub struct AssetHandle(pub u64);

/// A spritesheet animation as a mathematical value.
pub struct Clip {
    pub sheet_file: Seq<char>,
    pub cell_width: nat,
    pub cell_height: nat,
    pub grid_width: nat,
    pub grid_height: nat,
    pub flip_x: bool,
    pub flip_y: bool,
    pub tick_rate_ms: nat,
    pub atlas_handle: Option<AssetHandle>,
}

impl Clip {
    /// The number of frames: one per cell of the grid.
    pub open spec fn frames(self) -> nat {
        self.grid_width * self.grid_height
    }

    /// The time one frame is shown, in nanoseconds.
    pub open spec fn interval(self) -> nat {
        self.tick_rate_ms * NANOS_PER_MILLI as nat
    }

    /// A clip has cells of a positive size and at least one frame, and its
    /// frames can be counted in a `usize`.
    pub open spec fn wf(self) -> bool {
        &&& self.cell_width > 0
        &&& self.cell_height > 0
        &&& 1 <= self.frames() <= usize::MAX
    }

    /// The same clip with `handle` as its loaded sprite sheet.
    pub open spec fn loaded(self, handle: AssetHandle) -> Clip {
        Clip { atlas_handle: Some(handle), ..self }
    }
}

/// All the parameters of a spritesheet animation.
#[derive(Debug, PartialEq, Eq, Hash)]
pub struct AnimationParams {
    sheet_file: String,
    cell_width: usize,
    cell_height: usize,
    grid_width: usize,
    grid_height: usize,
    flip_x: bool,
    flip_y: bool,
    tick_rate_ms: u64,
    atlas_handle: Option<AssetHandle>,
}

impl View for AnimationParams {
    type V = Clip;

    closed spec fn view(&self) -> Clip {
        Clip {
            sheet_file: self.sheet_file@,
            cell_width: self.cell_width as nat,
            cell_height: self.cell_height as nat,
            grid_width: self.grid_width as nat,
            grid_height: self.grid_height as nat,
            flip_x: self.flip_x,
            flip_y: self.flip_y,
            tick_rate_ms: self.tick_rate_ms as nat,
            atlas_handle: self.atlas_handle,
        }
    }
}

impl Clone for AnimationParams {
    fn clone(&self) -> (copy: AnimationParams)
        ensures
            copy@ == self@,
    {
        proof {
            use_type_invariant(self);
        }
        AnimationParams {
            sheet_file: self.sheet_file.clone(),
            cell_width: self.cell_width,
            cell_height: self.cell_height,
            grid_width: self.grid_width,
            grid_height: self.grid_height,
            flip_x: self.flip_x,
            flip_y: self.flip_y,
            tick_rate_ms: self.tick_rate_ms,
            atlas_handle: self.atlas_handle,
        }
    }
}

impl AnimationParams {
    /// Every value of this type is a well-formed clip.
    #[verifier::type_invariant]
    pub open spec fn inv(&self) -> bool {
        self@.wf()
    }

    /// A clip that is not loaded yet. Its cells have a positive size and
    /// its grid holds at least one frame.
    pub fn new(
        sheet_file: &str,
        cell_width: usize,
        cell_height: usize,
        grid_width: usize,
        grid_height: usize,
        flip_x: bool,
        flip_y: bool,
        tick_rate_ms: u64,
    ) -> (params: AnimationParams)
        requires
            cell_width > 0,
            cell_height > 0,
            1 <= grid_width * grid_height <= usize::MAX,
        ensures
            params@ == (Clip {
                sheet_file: sheet_file@,
                cell_width: cell_width as nat,
                cell_height: cell_height as nat,
                grid_width: grid_width as nat,
                grid_height: grid_height as nat,
                flip_x,
                flip_y,
                tick_rate_ms: tick_rate_ms as nat,
                atlas_handle: None,
            }),
            params@.wf(),
    {
        AnimationParams {
            sheet_file: sheet_file.to_owned(),
            atlas_handle: None,
            cell_width,
            cell_height,
            grid_width,
            grid_height,
            flip_x,
            flip_y,
            tick_rate_ms,
        }
    }

    /// The path of the image that holds the frames.
    pub fn sheet_file(&self) -> (path: &str)
        ensures
            path@ == self@.sheet_file,
    {
        self.sheet_file.as_str()
    }

    /// The width of one frame, in pixels.
    pub fn cell_width(&self) -> (width: usize)
        ensures
            width == self@.cell_width,
            width > 0,
    {
        proof {
            use_type_invariant(self);
        }
        self.cell_width
    }

    /// The height of one frame, in pixels.
    pub fn cell_height(&self) -> (height: usize)
        ensures
            height == self@.cell_height,
            height > 0,
    {
        proof {
            use_type_invariant(self);
        }
        self.cell_height
    }

    /// The number of frames in one row of the image.
    pub fn grid_width(&self) -> (columns: usize)
        ensures
            columns == self@.grid_width,
    {
        self.grid_width
    }

    /// The number of rows of frames in the image.
    pub fn grid_height(&self) -> (rows: usize)
        ensures
            rows == self@.grid_height,
    {
        self.grid_height
    }

    /// Whether the frames are mirrored left to right.
    pub fn flip_x(&self) -> (flip: bool)
        ensures
            flip == self@.flip_x,
    {
        self.flip_x
    }

    /// Whether the frames are mirrored top to bottom.
    pub fn flip_y(&self) -> (flip: bool)
        ensures
            flip == self@.flip_y,
    {
        self.flip_y
    }

    /// The time one frame is shown, in milliseconds.
    pub fn tick_rate_ms(&self) -> (millis: u64)
        ensures
            millis == self@.tick_rate_ms,
    {
        self.tick_rate_ms
    }

    /// The sprite sheet that was loaded for the clip, if any.
    pub fn atlas_handle(&self) -> (handle: Option<AssetHandle>)
        ensures
            handle == self@.atlas_handle,
    {
        self.atlas_handle
    }

    /// The number of frames of the clip. Every clip is well formed, so
    /// there is at least one.
    pub fn frame_count(&self) -> (frames: usize)
        ensures
            frames == self@.frames(),
            self@.wf(),
    {
        proof {
            use_type_invariant(self);
        }
        self.grid_width * self.grid_height
    }

    /// The time one frame is shown, in nanoseconds.
    pub fn interval(&self) -> (nanos: u128)
        ensures
            nanos == self@.interval(),
    {
        self.tick_rate_ms as u128 * NANOS_PER_MILLI
    }
}

/// Records on `params` the sprite sheet that was loaded for it.
pub fn load_animation(params: &mut AnimationParams, handle: AssetHandle)
    ensures
        final(params)@ == old(params)@.loaded(handle),
{
    proof {
        use_type_invariant(&*params);
    }
    params.atlas_handle = Some(handle);
}

/// An animation timer as a mathematical value: the time gathered since the
/// last frame change and the time one frame is shown, in nanoseconds.
pub struct Clock {
    pub elapsed: nat,
    pub interval: nat,
}

impl Clock {
    /// A clock that has gathered no time.
    pub open spec fn start(interval: nat) -> Clock {
        Clock { elapsed: 0, interval }
    }

    /// Whether `delta` more nanoseconds complete the interval.
    pub open spec fn fires(self, delta: nat) -> bool {
        self.elapsed + delta >= self.interval
    }

    /// The clock after `delta` more nanoseconds: it starts over when the
    /// interval is complete, and keeps no remainder.
    pub open spec fn tick(self, delta: nat) -> Clock {
        if self.fires(delta) {
            Clock { elapsed: 0, ..self }
        } else {
            Clock { elapsed: self.elapsed + delta, ..self }
        }
    }

    /// The gathered time is below the interval. A clock whose interval is
    /// zero fires on every tick and gathers nothing.
    pub open spec fn settled(self) -> bool {
        self.elapsed < self.interval || (self.interval == 0 && self.elapsed == 0)
    }
}

/// The timer of an entity that runs an animation.
#[derive(Clone, Copy, Debug, PartialEq, Eq)]
pub struct AnimationTimer {
    elapsed: u128,
    interval: u128,
}

impl View for AnimationTimer {
    type V = Clock;

    closed spec fn view(&self) -> Clock {
        Clock { elapsed: self.elapsed as nat, interval: self.interval as nat }
    }
}

impl AnimationTimer {
    /// A timer that fires every `tick_rate_ms` milliseconds.
    pub fn new(tick_rate_ms: u64) -> (timer: AnimationTimer)
        ensures
            timer@ == Clock::start(tick_rate_ms as nat * NANOS_PER_MILLI as nat),
    {
        AnimationTimer { elapsed: 0, interval: tick_rate_ms as u128 * NANOS_PER_MILLI }
    }

    /// Adds `delta` nanoseconds and says whether the interval was completed.
    /// After a tick the timer is settled.
    pub fn tick(&mut self, delta: u128) -> (finished: bool)
        ensures
            finished == old(self)@.fires(delta as nat),
            final(self)@ == old(self)@.tick(delta as nat),
            final(self)@.settled(),
    {
        let finished = match self.elapsed.checked_add(delta) {
            Some(total) => total >= self.interval,
            None => true,
        };
        if finished {
            self.elapsed = 0;
        } else {
            self.elapsed = self.elapsed + delta;
        }
        finished
    }

    /// The time gathered since the timer last fired, in nanoseconds.
    pub fn elapsed(&self) -> (nanos: u128)
        ensures
            nanos == self@.elapsed,
    {
        self.elapsed
    }

    /// The time between two firings, in nanoseconds.
    pub fn interval(&self) -> (nanos: u128)
        ensures
            nanos == self@.interval,
    {
        self.interval
    }
}

/// What one tick did to an animated entity.
#[derive(Clone, Copy, Debug, PartialEq, Eq, Structural)]
pub enum TickOutcome {
    /// The interval is not complete; the frame stays.
    Waiting,
    /// The interval was completed and the next frame is shown.
    Advanced,
    /// The interval was completed, but the sprite sheet is not loaded: the
    /// frame stays.
    NotReady,
}

/// A running animation as a mathematical value.
pub struct Playback {
    pub clock: Clock,
    pub atlas: AssetHandle,
    pub index: nat,
    pub frames: nat,
    pub flip_x: bool,
    pub flip_y: bool,
}

impl Playback {
    /// The frame shown is one of the frames.
    pub open spec fn wf(self) -> bool {
        self.index < self.frames <= usize::MAX
    }

    /// The animation of a loaded clip at its start: first frame, no time
    /// gathered.
    pub open spec fn start(clip: Clip) -> Playback
        recommends
            clip.atlas_handle is Some,
    {
        Playback {
            clock: Clock::start(clip.interval()),
            atlas: clip.atlas_handle->0,
            index: 0,
            frames: clip.frames(),
            flip_x: clip.flip_x,
            flip_y: clip.flip_y,
        }
    }

    /// Whether this is an animation of `clip`, at whatever frame and time.
    pub open spec fn plays(self, clip: Clip) -> bool {
        &&& clip.atlas_handle == Some(self.atlas)
        &&& self.frames == clip.frames()
        &&& self.clock.interval == clip.interval()
        &&& self.flip_x == clip.flip_x
        &&& self.flip_y == clip.flip_y
    }

    /// The frame that follows the one shown; after the last comes the first.
    pub open spec fn next_index(self) -> nat {
        (self.index + 1) % self.frames
    }

    /// The animation after `delta` more nanoseconds. The clock always
    /// ticks; the frame changes when the clock fires and the sprite sheet is
    /// ready.
    pub open spec fn tick(self, delta: nat, ready: bool) -> Playback {
        if self.clock.fires(delta) && ready {
            Playback { clock: self.clock.tick(delta), index: self.next_index(), ..self }
        } else {
            Playback { clock: self.clock.tick(delta), ..self }
        }
    }

    /// What a tick of `delta` nanoseconds reports.
    pub open spec fn outcome(self, delta: nat, ready: bool) -> TickOutcome {
        if !self.clock.fires(delta) {
            TickOutcome::Waiting
        } else if ready {
            TickOutcome::Advanced
        } else {
            TickOutcome::NotReady
        }
    }

    /// The animation after `n` ticks of `delta` nanoseconds each.
    pub open spec fn ticks(self, delta: nat, ready: bool, n: nat) -> Playback
        decreases n,
    {
        if n == 0 {
            self
        } else {
            self.ticks(delta, ready, (n - 1) as nat).tick(delta, ready)
        }
    }
}

/// A tick keeps the frame among the frames of the clip and leaves the clock
/// settled: the time gathered is below the interval.
pub proof fn lemma_tick_keeps_frame_in_range(playback: Playback, delta: nat, ready: bool)
    requires
        playback.wf(),
    ensures
        playback.tick(delta, ready).wf(),
        playback.tick(delta, ready).clock.settled(),
        playback.tick(delta, ready).frames == playback.frames,
{
}

/// A tick moves the frame by one step at most, and only when the clock
/// fires and the sprite sheet is ready.
pub proof fn lemma_tick_moves_one_frame(playback: Playback, delta: nat, ready: bool)
    requires
        playback.wf(),
    ensures
        playback.tick(delta, ready).index == if playback.clock.fires(delta) && ready {
            if playback.index + 1 == playback.frames {
                0
            } else {
                playback.index + 1
            }
        } else {
            playback.index
        },
{
    if playback.index + 1 == playback.frames {
        vstd::arithmetic::div_mod::lemma_mod_self_0(playback.frames as int);
    } else {
        vstd::arithmetic::div_mod::lemma_small_mod(playback.index + 1, playback.frames);
    }
}

/// Ticks never change which clip an animation plays.
pub proof fn lemma_ticks_keep_clip(playback: Playback, clip: Clip, delta: nat, ready: bool, n: nat)
    requires
        playback.plays(clip),
    ensures
        playback.ticks(delta, ready, n).plays(clip),
    decreases n,
{
    if n > 0 {
        lemma_ticks_keep_clip(playback, clip, delta, ready, (n - 1) as nat);
    }
}

/// Ticks that each complete the interval exactly, on an animation whose
/// clock starts at zero and whose sheet is ready, step through the frames in
/// order and begin again at the first: after `n` such ticks the frame has
/// moved `n` steps round the clip, and the clock is at zero again.
pub proof fn lemma_exact_ticks_wrap(playback: Playback, n: nat)
    requires
        playback.wf(),
        playback.clock.elapsed == 0,
    ensures
        playback.ticks(playback.clock.interval, true, n) == (Playback {
            index: (playback.index + n) % playback.frames,
            ..playback
        }),
    decreases n,
{
    if n == 0 {
        vstd::arithmetic::div_mod::lemma_small_mod(playback.index, playback.frames);
    } else {
        lemma_exact_ticks_wrap(playback, (n - 1) as nat);
        vstd::arithmetic::div_mod::lemma_add_mod_noop_right(
            1,
            (playback.index + n - 1) as int,
            playback.frames as int,
        );
    }
}

/// After as many exact ticks as the clip has frames, the animation shows
/// the frame it started from.
pub proof fn lemma_exact_ticks_come_round(playback: Playback)
    requires
        playback.wf(),
        playback.clock.elapsed == 0,
    ensures
        playback.ticks(playback.clock.interval, true, playback.frames) == playback,
{
    lemma_exact_ticks_wrap(playback, playback.frames);
    vstd::arithmetic::div_mod::lemma_mod_add_multiples_vanish(
        playback.index as int,
        playback.frames as int,
    );
    vstd::arithmetic::div_mod::lemma_small_mod(playback.index, playback.frames);
}

/// The animation that runs on one entity: its timer, its sprite sheet and
/// the frame it shows.
#[derive(Clone, Copy, Debug, PartialEq, Eq)]
pub struct AnimationPlayer {
    timer: AnimationTimer,
    atlas: AssetHandle,
    index: usize,
    frames: usize,
    flip_x: bool,
    flip_y: bool,
}

impl View for AnimationPlayer {
    type V = Playback;

    closed spec fn view(&self) -> Playback {
        Playback {
            clock: self.timer@,
            atlas: self.atlas,
            index: self.index as nat,
            frames: self.frames as nat,
            flip_x: self.flip_x,
            flip_y: self.flip_y,
        }
    }
}

impl AnimationPlayer {
    /// Every value of this type shows one of the frames of its clip.
    #[verifier::type_invariant]
    pub open spec fn inv(&self) -> bool {
        self@.wf()
    }

    /// Whether this is an animation of `params`, at whatever frame and time.
    pub fn plays(&self, params: &AnimationParams) -> (same: bool)
        ensures
            same == self@.plays(params@),
    {
        let by_handle = match params.atlas_handle {
            Some(handle) => handle == self.atlas,
            None => false,
        };
        by_handle && self.frames == params.frame_count() && self.timer.interval()
            == params.interval() && self.flip_x == params.flip_x && self.flip_y == params.flip_y
    }

    /// Lets `delta` nanoseconds pass. `ready` says whether the sprite sheet
    /// is loaded.
    pub fn tick(&mut self, delta: u128, ready: bool) -> (outcome: TickOutcome)
        ensures
            final(self)@ == old(self)@.tick(delta as nat, ready),
            outcome == old(self)@.outcome(delta as nat, ready),
            final(self)@.wf(),
            final(self)@.clock.settled(),
    {
        proof {
            use_type_invariant(&*self);
        }
        let mut timer = self.timer;
        let finished = timer.tick(delta);
        if !finished {
            self.timer = timer;
            TickOutcome::Waiting
        } else if ready {
            let next = (self.index + 1) % self.frames;
            self.timer = timer;
            self.index = next;
            TickOutcome::Advanced
        } else {
            self.timer = timer;
            TickOutcome::NotReady
        }
    }

    /// The frame shown, counted from zero.
    pub fn index(&self) -> (index: usize)
        ensures
            index == self@.index,
            self@.wf(),
    {
        proof {
            use_type_invariant(self);
        }
        self.index
    }

    /// The number of frames of the clip that runs.
    pub fn frames(&self) -> (frames: usize)
        ensures
            frames == self@.frames,
    {
        self.frames
    }

    /// The sprite sheet of the clip that runs.
    pub fn atlas(&self) -> (atlas: AssetHandle)
        ensures
            atlas == self@.atlas,
    {
        self.atlas
    }

    /// Whether the frames are mirrored left to right.
    pub fn flip_x(&self) -> (flip: bool)
        ensures
            flip == self@.flip_x,
    {
        self.flip_x
    }

    /// Whether the frames are mirrored top to bottom.
    pub fn flip_y(&self) -> (flip: bool)
        ensures
            flip == self@.flip_y,
    {
        self.flip_y
    }

    /// The timer of the animation.
    pub fn timer(&self) -> (timer: AnimationTimer)
        ensures
            timer@ == self@.clock,
    {
        self.timer
    }
}

/// Starts the animation of `params`: the first frame, no time gathered.
/// A clip that is not loaded cannot be started.
pub fn start_animation(params: &AnimationParams) -> (started: Option<AnimationPlayer>)
    ensures
        match params@.atlas_handle {
            Some(_) => started matches Some(player) && player@ == Playback::start(params@)
                && player@.wf(),
            None => started is None,
        },
{
    match params.atlas_handle {
        Some(atlas) => Some(
            AnimationPlayer {
                timer: AnimationTimer::new(params.tick_rate_ms),
                atlas,
                index: 0,
                frames: params.frame_count(),
                flip_x: params.flip_x,
                flip_y: params.flip_y,
            },
        ),
        None => None,
    }
}

/// The running animation of an entity that may have none, as a
/// mathematical value.
pub open spec fn playback_of(playing: Option<AnimationPlayer>) -> Option<Playback> {
    match playing {
        Some(player) => Some(player@),
        None => None,
    }
}

/// What an entity plays after it was told to play `clip`. An animation of
/// that very clip goes on undisturbed; otherwise the clip starts from its
/// first frame, if it is loaded; a clip that is not loaded changes nothing.
pub open spec fn switch(playing: Option<Playback>, clip: Clip) -> Option<Playback> {
    if playing is Some && playing->0.plays(clip) {
        playing
    } else if clip.atlas_handle is Some {
        Some(Playback::start(clip))
    } else {
        playing
    }
}

/// Tells an entity to play `params`, and says whether that changed what it
/// plays.
pub fn switch_animation(playing: &mut Option<AnimationPlayer>, params: &AnimationParams) -> (changed:
    bool)
    ensures
        playback_of(*final(playing)) == switch(playback_of(*old(playing)), params@),
        changed == (playback_of(*final(playing)) != playback_of(*old(playing))),
{
    let same = match playing {
        Some(player) => player.plays(params),
        None => false,
    };
    if same {
        false
    } else {
        match start_animation(params) {
            Some(player) => {
                *playing = Some(player);
                true
            },
            None => false,
        }
    }
}

/// Whether `handle` is one of `loaded`.
fn contains_handle(loaded: &Vec<AssetHandle>, handle: AssetHandle) -> (found: bool)
    ensures
        found == loaded@.contains(handle),
{
    let mut i: usize = 0;
    while i < loaded.len()
        invariant
            i <= loaded.len(),
            forall|j: int| 0 <= j < i ==> loaded@[j] != handle,
        decreases loaded.len() - i,
    {
        if loaded[i] == handle {
            return true;
        }
        i += 1;
    }
    false
}

/// Lets `delta` nanoseconds pass for every animated entity. `loaded` lists
/// the sprite sheets that are ready; an animation whose sheet is not among
/// them keeps its frame. Each entity is ticked on its own, and the outcomes
/// come in the order of `players`.
pub fn sprite_animator(
    delta: u128,
    loaded: &Vec<AssetHandle>,
    players: &mut Vec<AnimationPlayer>,
) -> (outcomes: Vec<TickOutcome>)
    ensures
        final(players)@.len() == old(players)@.len(),
        outcomes@.len() == old(players)@.len(),
        forall|i: int|
            #![trigger final(players)@[i]]
            #![trigger outcomes@[i]]
            0 <= i < old(players)@.len() ==> {
                let before = old(players)@[i]@;
                let ready = loaded@.contains(before.atlas);
                &&& final(players)@[i]@ == before.tick(delta as nat, ready)
                &&& outcomes@[i] == before.outcome(delta as nat, ready)
            },
{
    let ghost before = players@;
    let mut outcomes: Vec<TickOutcome> = Vec::new();
    let mut i: usize = 0;
    while i < players.len()
        invariant
            i <= players.len(),
            players@.len() == before.len(),
            outcomes@.len() == i,
            forall|j: int| i <= j < before.len() ==> players@[j] == before[j],
            forall|j: int|
                #![trigger players@[j]]
                #![trigger outcomes@[j]]
                0 <= j < i ==> {
                    let ready = loaded@.contains(before[j]@.atlas);
                    &&& players@[j]@ == before[j]@.tick(delta as nat, ready)
                    &&& outcomes@[j] == before[j]@.outcome(delta as nat, ready)
                },
        decreases players.len() - i,
    {
        let mut player = players[i];
        let ready = contains_handle(loaded, player.atlas());
        let outcome = player.tick(delta, ready);
        players.set(i, player);
        outcomes.push(outcome);
        i += 1;
    }
    outcomes
}

} // verus!
