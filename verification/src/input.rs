//! Logical input state: which game keys are held down and which were
//! freshly pressed this tick.
//!
//! The mapping from physical key codes to `GameKey` is the embedding
//! application's concern; this module only keeps the per-tick edge and
//! level state that the modes read.

use vstd::prelude::*;

verus! {

/// Number of logical game keys.
pub const NUM_KEYS: usize = 7;

/// A logical game key.
#[derive(Clone, Copy, Debug, PartialEq, Eq, Structural)]
pub enum GameKey {
    DebugMenu,
    Up,
    Down,
    Left,
    Right,
    Confirm,
    Cancel,
}

/// The slot a key occupies in the state vectors.
pub open spec fn spec_key_index(key: GameKey) -> int {
    match key {
        GameKey::DebugMenu => 0,
        GameKey::Up => 1,
        GameKey::Down => 2,
        GameKey::Left => 3,
        GameKey::Right => 4,
        GameKey::Confirm => 5,
        GameKey::Cancel => 6,
    }
}

impl GameKey {
    /// The slot this key occupies in the state vectors.
    pub fn index(self) -> (r: usize)
        ensures
            r == spec_key_index(self),
            r < NUM_KEYS,
    {
        match self {
            GameKey::DebugMenu => 0,
            GameKey::Up => 1,
            GameKey::Down => 2,
            GameKey::Left => 3,
            GameKey::Right => 4,
            GameKey::Confirm => 5,
            GameKey::Cancel => 6,
        }
    }
}

/// Distinct keys occupy distinct slots.
pub proof fn lemma_key_index_injective(k1: GameKey, k2: GameKey)
    requires
        spec_key_index(k1) == spec_key_index(k2),
    ensures
        k1 == k2,
{
}

/// Per-tick input state.
pub struct Input {
    keys_down: Vec<bool>,
    keys_pressed: Vec<bool>,
    debug_enabled: bool,
}

/// A vector of one cleared flag per key.
fn cleared_flags() -> (v: Vec<bool>)
    ensures
        v.len() == NUM_KEYS,
        forall|i: int| 0 <= i < NUM_KEYS ==> !v@[i],
{
    let mut v: Vec<bool> = Vec::new();
    let mut i: usize = 0;
    while i < NUM_KEYS
        invariant
            v.len() == i <= NUM_KEYS,
            forall|k: int| 0 <= k < i ==> !v@[k],
        decreases NUM_KEYS - i,
    {
        v.push(false);
        i = i + 1;
    }
    v
}

impl Input {
    /// Both state vectors hold one flag per key.
    pub closed spec fn wf(self) -> bool {
        &&& self.keys_down.len() == NUM_KEYS
        &&& self.keys_pressed.len() == NUM_KEYS
    }

    /// Whether the key is currently held down.
    pub closed spec fn spec_is_down(self, key: GameKey) -> bool {
        self.keys_down@[spec_key_index(key)]
    }

    /// Whether the key was pressed since the last reset.
    pub closed spec fn spec_is_pressed(self, key: GameKey) -> bool {
        self.keys_pressed@[spec_key_index(key)]
    }

    /// Fresh input state with every key released.  The debug-menu key is
    /// only recognised when `debug_enabled` is set.
    pub fn new(debug_enabled: bool) -> (r: Input)
        ensures
            r.wf(),
            forall|k: GameKey| !r.spec_is_down(k) && !r.spec_is_pressed(k),
            r.spec_debug_enabled() == debug_enabled,
    {
        Input { keys_down: cleared_flags(), keys_pressed: cleared_flags(), debug_enabled }
    }

    /// Whether the debug-menu key is recognised.
    pub closed spec fn spec_debug_enabled(self) -> bool {
        self.debug_enabled
    }

    /// Record a key going down: it becomes held and freshly pressed.  The
    /// debug-menu key is ignored unless debug input is enabled.
    pub fn handle_key_down_event(&mut self, key: GameKey)
        requires
            old(self).wf(),
        ensures
            final(self).wf(),
            final(self).spec_debug_enabled() == old(self).spec_debug_enabled(),
            (key == GameKey::DebugMenu && !old(self).spec_debug_enabled()) ==> *final(self)
                == *old(self),
            !(key == GameKey::DebugMenu && !old(self).spec_debug_enabled()) ==> {
                &&& final(self).spec_is_down(key)
                &&& final(self).spec_is_pressed(key)
                &&& forall|k: GameKey|
                    k != key ==> final(self).spec_is_down(k) == old(self).spec_is_down(k)
                        && final(self).spec_is_pressed(k) == old(self).spec_is_pressed(k)
            },
    {
        if self.debug_enabled || !matches!(key, GameKey::DebugMenu) {
            let i = key.index();
            self.keys_down[i] = true;
            self.keys_pressed[i] = true;
            proof {
                assert forall|k: GameKey| k != key implies self.spec_is_down(k) == old(
                    self,
                ).spec_is_down(k) && self.spec_is_pressed(k) == old(self).spec_is_pressed(k) by {
                    if spec_key_index(k) == spec_key_index(key) {
                        lemma_key_index_injective(k, key);
                    }
                }
            }
        }
    }

    /// Record a key going up: it is no longer held.
    pub fn handle_key_up_event(&mut self, key: GameKey)
        requires
            old(self).wf(),
        ensures
            final(self).wf(),
            final(self).spec_debug_enabled() == old(self).spec_debug_enabled(),
            !final(self).spec_is_down(key),
            forall|k: GameKey| k != key ==> final(self).spec_is_down(k) == old(self).spec_is_down(k),
            forall|k: GameKey| final(self).spec_is_pressed(k) == old(self).spec_is_pressed(k),
    {
        let i = key.index();
        self.keys_down[i] = false;
        proof {
            assert forall|k: GameKey| k != key implies self.spec_is_down(k) == old(
                self,
            ).spec_is_down(k) by {
                if spec_key_index(k) == spec_key_index(key) {
                    lemma_key_index_injective(k, key);
                }
            }
        }
    }

    /// Whether the key is currently held down.
    pub fn is_key_down(&self, key: GameKey) -> (r: bool)
        requires
            self.wf(),
        ensures
            r == self.spec_is_down(key),
    {
        self.keys_down[key.index()]
    }

    /// Whether the key was pressed since the last reset.
    pub fn is_key_pressed(&self, key: GameKey) -> (r: bool)
        requires
            self.wf(),
        ensures
            r == self.spec_is_pressed(key),
    {
        self.keys_pressed[key.index()]
    }

    /// Release every held key.
    pub fn reset_keys_down(&mut self)
        requires
            old(self).wf(),
        ensures
            final(self).wf(),
            final(self).spec_debug_enabled() == old(self).spec_debug_enabled(),
            forall|k: GameKey| !final(self).spec_is_down(k),
            forall|k: GameKey| final(self).spec_is_pressed(k) == old(self).spec_is_pressed(k),
    {
        self.keys_down = cleared_flags();
    }

    /// Clear every freshly-pressed flag; done by the driver between ticks.
    pub fn reset_keys_pressed(&mut self)
        requires
            old(self).wf(),
        ensures
            final(self).wf(),
            final(self).spec_debug_enabled() == old(self).spec_debug_enabled(),
            forall|k: GameKey| !final(self).spec_is_pressed(k),
            forall|k: GameKey| final(self).spec_is_down(k) == old(self).spec_is_down(k),
    {
        self.keys_pressed = cleared_flags();
    }
}

} // verus!
