//! The frame driver's decisions: how a key or button moves through its
//! states, how long a frame may wait, and which scene a window event goes to.

use vstd::prelude::*;

verus! {

/// State of one key or mouse button within a frame.
#[derive(Debug, Clone, Copy, PartialEq, Eq, Structural)]
pub enum MKBState {
    /// Not held, and nothing happened this frame.
    Idle,
    /// Went down this frame.
    Pressed,
    /// Held since an earlier frame.
    Down,
    /// Went up this frame.
    Released,
}

/// Window settings at launch.
#[derive(Debug)]
pub struct WinitConfig {
    pub size: (u32, u32),
    pub min_size: (u32, u32),
    pub max_fps: Option<u32>,
    pub title: String,
    pub icon: Option<String>,
    pub debug: bool,
    pub resizable: bool,
}

/// What the event loop does with a window after an event.
#[derive(Debug, Clone, Copy, PartialEq, Eq, Structural)]
pub enum WindowAction {
    /// Leave the window open.
    Keep,
    /// Close this window and go on with the others.
    CloseWindow,
    /// Leave the event loop.
    ExitLoop,
}

/// Microseconds in a second.
pub const MICROS_PER_SECOND: u32 = 1_000_000;

impl MKBState {
    /// The state after a press or release event. A press that is a key
    /// repeat changes nothing.
    pub open spec fn spec_on_event(self, pressed: bool, repeat: bool) -> MKBState {
        if pressed {
            if repeat {
                self
            } else {
                MKBState::Pressed
            }
        } else {
            MKBState::Released
        }
    }

    /// The state carried into the next frame: a press becomes a hold, a
    /// release becomes idle.
    pub open spec fn spec_end_frame(self) -> MKBState {
        match self {
            MKBState::Pressed => MKBState::Down,
            MKBState::Released => MKBState::Idle,
            s => s,
        }
    }

    /// True while the key or button is physically down.
    pub open spec fn spec_is_held(self) -> bool {
        self == MKBState::Pressed || self == MKBState::Down
    }

    /// The state after a press or release event.
    pub fn on_event(self, pressed: bool, repeat: bool) -> (s: MKBState)
        ensures
            s == self.spec_on_event(pressed, repeat),
    {
        if pressed {
            if repeat {
                self
            } else {
                MKBState::Pressed
            }
        } else {
            MKBState::Released
        }
    }

    /// The state carried into the next frame.
    pub fn end_frame(self) -> (s: MKBState)
        ensures
            s == self.spec_end_frame(),
    {
        match self {
            MKBState::Pressed => MKBState::Down,
            MKBState::Released => MKBState::Idle,
            s => s,
        }
    }

    /// Whether the key or button is physically down.
    pub fn is_held(self) -> (held: bool)
        ensures
            held == self.spec_is_held(),
    {
        match self {
            MKBState::Pressed => true,
            MKBState::Down => true,
            _ => false,
        }
    }
}

/// A state reported as just pressed or just released lasts one frame: after
/// the frame ends it has settled, and a settled state survives any number of
/// further frame ends.
pub proof fn lemma_edges_last_one_frame(s: MKBState)
    ensures
        s.spec_end_frame() == MKBState::Idle || s.spec_end_frame() == MKBState::Down,
        s.spec_end_frame().spec_end_frame() == s.spec_end_frame(),
        s.spec_end_frame().spec_is_held() == s.spec_is_held(),
{
}

/// The keys that are down or changed this frame, each with its state, in the
/// order in which they first appeared. A key that is not listed is idle.
#[derive(Debug)]
pub struct KeyCache {
    pub keys: Vec<u32>,
    pub states: Vec<MKBState>,
}

/// In a sequence without repeats, a value stands where it is found.
pub proof fn lemma_index_of_unique(s: Seq<u32>, i: int)
    requires
        s.no_duplicates(),
        0 <= i < s.len(),
    ensures
        s.index_of(s[i]) == i,
        s.contains(s[i]),
{
    let j = s.index_of(s[i]);
    assert(0 <= j < s.len() && s[j] == s[i]);
}

impl KeyCache {
    /// Every key is listed once, with one state.
    pub open spec fn wf(self) -> bool {
        &&& self.keys@.len() == self.states@.len()
        &&& self.keys@.no_duplicates()
    }

    /// The cache as a map from key to state.
    pub open spec fn view(self) -> Map<u32, MKBState> {
        Map::new(
            |k: u32| self.keys@.contains(k),
            |k: u32| self.states@[self.keys@.index_of(k)],
        )
    }

    /// The state of a key: what the cache lists for it, idle otherwise.
    pub open spec fn spec_state(self, key: u32) -> MKBState {
        if self@.contains_key(key) {
            self@[key]
        } else {
            MKBState::Idle
        }
    }

    /// The cache after a frame has ended: released keys are gone, pressed
    /// keys are held.
    pub open spec fn spec_end_frame(self) -> Map<u32, MKBState> {
        Map::new(
            |k: u32| self@.contains_key(k) && self@[k] != MKBState::Released,
            |k: u32| self@[k].spec_end_frame(),
        )
    }

    /// The cache with every key idle.
    pub fn new() -> (cache: Self)
        ensures
            cache.wf(),
            cache@ == Map::<u32, MKBState>::empty(),
    {
        let cache = KeyCache { keys: Vec::new(), states: Vec::new() };
        assert(cache@ =~= Map::<u32, MKBState>::empty());
        cache
    }

    /// Where a key is listed, if it is.
    pub fn find(&self, key: u32) -> (at: Option<usize>)
        requires
            self.wf(),
        ensures
            at.is_some() == self.keys@.contains(key),
            at.is_some() ==> at.unwrap() < self.keys@.len() && self.keys@[at.unwrap() as int] == key
                && self.keys@.index_of(key) == at.unwrap(),
    {
        let mut i: usize = 0;
        while i < self.keys.len()
            invariant
                self.wf(),
                i <= self.keys@.len(),
                forall|j: int| 0 <= j < i ==> self.keys@[j] != key,
            decreases self.keys@.len() - i,
        {
            if self.keys[i] == key {
                proof {
                    lemma_index_of_unique(self.keys@, i as int);
                }
                return Some(i);
            }
            i += 1;
        }
        None
    }

    /// The state of a key.
    pub fn state(&self, key: u32) -> (s: MKBState)
        requires
            self.wf(),
        ensures
            s == self.spec_state(key),
    {
        match self.find(key) {
            Some(i) => self.states[i],
            None => MKBState::Idle,
        }
    }

    /// Records a key event. A press marks the key pressed, a release marks
    /// it released, and a press that is a key repeat changes nothing.
    pub fn on_key(&mut self, key: u32, pressed: bool, repeat: bool)
        requires
            old(self).wf(),
        ensures
            final(self).wf(),
            final(self)@ == if pressed && repeat {
                old(self)@
            } else {
                old(self)@.insert(
                    key,
                    if pressed {
                        MKBState::Pressed
                    } else {
                        MKBState::Released
                    },
                )
            },
    {
        if pressed && repeat {
            return ;
        }
        let state = if pressed {
            MKBState::Pressed
        } else {
            MKBState::Released
        };
        match self.find(key) {
            Some(i) => {
                self.states.set(i, state);
                proof {
                    assert forall|k: u32| self.keys@.contains(k) implies #[trigger] self@[k] == old(
                        self,
                    )@.insert(key, state)[k] by {
                        let j = self.keys@.index_of(k);
                        assert(self.keys@[j] == k);
                    }
                    assert(self@ =~= old(self)@.insert(key, state));
                }
            },
            None => {
                self.keys.push(key);
                self.states.push(state);
                proof {
                    let n = old(self).keys@.len() as int;
                    assert(self.keys@.no_duplicates());
                    assert forall|k: u32| #[trigger]
                        self.keys@.contains(k) == (old(self).keys@.contains(k) || k == key) by {
                        if old(self).keys@.contains(k) {
                            let j = old(self).keys@.index_of(k);
                            assert(self.keys@[j] == k);
                        }
                        if k == key {
                            assert(self.keys@[n] == k);
                        }
                    }
                    assert forall|k: u32| self.keys@.contains(k) implies #[trigger] self@[k] == old(
                        self,
                    )@.insert(key, state)[k] by {
                        let j = self.keys@.index_of(k);
                        assert(self.keys@[j] == k);
                        if k != key {
                            assert(j < n);
                            lemma_index_of_unique(old(self).keys@, j);
                        } else {
                            lemma_index_of_unique(self.keys@, n);
                        }
                    }
                    assert(self@ =~= old(self)@.insert(key, state));
                }
            },
        }
    }

    /// Ends the frame: keys released during it are dropped, keys pressed
    /// during it count as held from now on.
    pub fn end_frame(&mut self)
        requires
            old(self).wf(),
        ensures
            final(self).wf(),
            final(self)@ == old(self).spec_end_frame(),
    {
        let mut keys: Vec<u32> = Vec::new();
        let mut states: Vec<MKBState> = Vec::new();
        let ghost mut from: Seq<int> = Seq::empty();
        let mut i: usize = 0;
        while i < self.keys.len()
            invariant
                self.wf(),
                i <= self.keys@.len(),
                keys@.len() == states@.len(),
                keys@.len() == from.len(),
                forall|j: int| 0 <= j < from.len() ==> 0 <= #[trigger] from[j] < i,
                forall|j: int, l: int| 0 <= j < l < from.len() ==> from[j] < from[l],
                forall|j: int|
                    0 <= j < from.len() ==> {
                        &&& keys@[j] == self.keys@[#[trigger] from[j]]
                        &&& self.states@[from[j]] != MKBState::Released
                        &&& states@[j] == self.states@[from[j]].spec_end_frame()
                    },
                forall|m: int|
                    0 <= m < i && self.states@[m] != MKBState::Released ==> keys@.contains(
                        #[trigger] self.keys@[m],
                    ),
            decreases self.keys@.len() - i,
        {
            let s = self.states[i];
            if s != MKBState::Released {
                let ghost before = keys@;
                keys.push(self.keys[i]);
                states.push(s.end_frame());
                proof {
                    from = from.push(i as int);
                    assert forall|m: int|
                        0 <= m < i + 1 && self.states@[m] != MKBState::Released
                        implies keys@.contains(#[trigger] self.keys@[m]) by {
                        if m < i {
                            let j = before.index_of(self.keys@[m]);
                            assert(keys@[j] == self.keys@[m]);
                        } else {
                            assert(keys@[before.len() as int] == self.keys@[m]);
                        }
                    }
                }
            }
            i += 1;
        }
        proof {
            assert forall|j: int, l: int| 0 <= j < keys@.len() && 0 <= l < keys@.len() && j != l
                implies keys@[j] != keys@[l] by {
                assert(from[j] != from[l]);
            }
            let old_map = self@;
            let fresh = KeyCache { keys, states };
            assert forall|k: u32| #[trigger]
                fresh@.contains_key(k) == (old_map.contains_key(k) && old_map[k]
                    != MKBState::Released) by {
                if keys@.contains(k) {
                    let j = keys@.index_of(k);
                    lemma_index_of_unique(self.keys@, from[j]);
                }
                if self.keys@.contains(k) {
                    let m = self.keys@.index_of(k);
                    assert(self.keys@[m] == k);
                }
            }
            assert forall|k: u32| fresh@.contains_key(k) implies #[trigger] fresh@[k]
                == old_map[k].spec_end_frame() by {
                let j = keys@.index_of(k);
                lemma_index_of_unique(self.keys@, from[j]);
            }
            assert(fresh@ =~= self.spec_end_frame());
        }
        self.keys = keys;
        self.states = states;
    }
}

impl WinitConfig {
    /// The settings of a window that asks for nothing special: 800 by 600,
    /// no smaller than 400 by 300, no frame cap, titled "Blueprint", no icon,
    /// resizable.
    pub open spec fn is_default(self) -> bool {
        &&& self.size == (800u32, 600u32)
        &&& self.min_size == (400u32, 300u32)
        &&& self.max_fps.is_none()
        &&& self.title@ == "Blueprint"@
        &&& self.icon.is_none()
        &&& !self.debug
        &&& self.resizable
    }
}

impl Clone for WinitConfig {
    fn clone(&self) -> (config: Self)
        ensures
            config.size == self.size,
            config.min_size == self.min_size,
            config.max_fps == self.max_fps,
            config.title@ == self.title@,
            config.icon.is_some() == self.icon.is_some(),
            config.icon.is_some() ==> config.icon.unwrap()@ == self.icon.unwrap()@,
            config.debug == self.debug,
            config.resizable == self.resizable,
    {
        let icon = match &self.icon {
            Some(path) => Some(path.clone()),
            None => None,
        };
        WinitConfig {
            size: self.size,
            min_size: self.min_size,
            max_fps: self.max_fps,
            title: self.title.clone(),
            icon,
            debug: self.debug,
            resizable: self.resizable,
        }
    }
}

impl Default for WinitConfig {
    fn default() -> (config: Self)
        ensures
            config.is_default(),
    {
        WinitConfig {
            size: (800, 600),
            min_size: (400, 300),
            max_fps: None,
            title: "Blueprint".to_owned(),
            icon: None,
            debug: false,
            resizable: true,
        }
    }
}

/// Shortest time between two frames, in microseconds: none without a frame
/// cap, else a second divided by the cap.
pub open spec fn spec_frame_wait(max_fps: Option<u32>) -> int {
    match max_fps {
        Some(n) => MICROS_PER_SECOND as int / n as int,
        None => 0,
    }
}

/// Shortest time between two frames, in microseconds. A cap of zero frames
/// per second has no meaning.
pub fn frame_wait(max_fps: Option<u32>) -> (micros: u32)
    requires
        max_fps != Some(0u32),
    ensures
        micros == spec_frame_wait(max_fps),
{
    match max_fps {
        Some(n) => MICROS_PER_SECOND / n,
        None => 0,
    }
}

/// Whether enough time has passed since the last frame to draw the next.
pub fn frame_due(since_last_micros: u64, wait_micros: u32) -> (due: bool)
    ensures
        due == (since_last_micros > wait_micros),
{
    since_last_micros > wait_micros as u64
}

/// The scene a window shows, where it shows one: its scene number is not
/// negative and names one of the `scene_count` scenes.
pub open spec fn spec_scene_index(active_scene: i32, scene_count: usize) -> Option<usize> {
    if 0 <= active_scene < scene_count {
        Some(active_scene as usize)
    } else {
        None
    }
}

/// The scene that a window's events go to, if any.
pub fn scene_index(active_scene: i32, scene_count: usize) -> (index: Option<usize>)
    ensures
        index == spec_scene_index(active_scene, scene_count),
{
    if active_scene < 0 {
        None
    } else {
        let index = active_scene as usize;
        if index < scene_count {
            Some(index)
        } else {
            None
        }
    }
}

/// What becomes of a window that was asked to close, or whose scene asked to
/// exit: the primary window takes the whole loop down with it, any other
/// window closes alone, and closing the last window ends the loop too.
pub open spec fn spec_close_action(close_all_on_exit: bool, open_windows: usize) -> WindowAction {
    if close_all_on_exit || open_windows <= 1 {
        WindowAction::ExitLoop
    } else {
        WindowAction::CloseWindow
    }
}

/// What becomes of a window that was asked to close. `open_windows` counts
/// the windows open before the request, this one included.
pub fn close_action(close_all_on_exit: bool, open_windows: usize) -> (action: WindowAction)
    ensures
        action == spec_close_action(close_all_on_exit, open_windows),
{
    if close_all_on_exit || open_windows <= 1 {
        WindowAction::ExitLoop
    } else {
        WindowAction::CloseWindow
    }
}

/// What becomes of a window after its scene was updated: nothing unless the
/// scene asked to exit, in which case the primary window ends the loop and
/// any other window closes alone.
pub fn after_update_action(exit_requested: bool, close_all_on_exit: bool) -> (action: WindowAction)
    ensures
        action == if !exit_requested {
            WindowAction::Keep
        } else if close_all_on_exit {
            WindowAction::ExitLoop
        } else {
            WindowAction::CloseWindow
        },
{
    if !exit_requested {
        WindowAction::Keep
    } else if close_all_on_exit {
        WindowAction::ExitLoop
    } else {
        WindowAction::CloseWindow
    }
}

/// The scene that a newly requested window opens with, if one was requested:
/// a request is any scene number that is not negative.
pub fn requested_window(new_window: i32) -> (scene: Option<i32>)
    ensures
        scene == if new_window > -1 {
            Some(new_window)
        } else {
            None
        },
{
    if new_window > -1 {
        Some(new_window)
    } else {
        None
    }
}

} // verus!
