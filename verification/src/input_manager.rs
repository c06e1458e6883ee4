//! Logical keyboard state: one sampled "down" bit per key code, with the
//! previous frame's bit kept beside it so that presses and releases are
//! edge-detected by comparing the two.
//!
//! Key codes are plain integers; the event source that maps physical keys
//! to codes and delivers the per-event "down" bit lives outside this crate.

use crate::sparse_map::SparseMap;
use vstd::prelude::*;

verus! {

/// The sampled state of one key: this frame's bit and last frame's bit.
#[derive(Clone, Copy, PartialEq, Eq, Structural, Debug)]
pub struct KeyState {
    pub this_frame: bool,
    pub last_frame: bool,
}

pub struct InputManager {
    key_states: SparseMap<KeyState>,
}

impl InputManager {
    /// The tracked keys and their sampled states.
    pub closed spec fn states(&self) -> Map<u32, KeyState> {
        self.key_states@
    }

    /// The store underneath is always consistent.
    pub closed spec fn wf(&self) -> bool {
        self.key_states.wf()
    }

    pub fn new() -> (im: InputManager)
        ensures
            im.wf(),
            im.states() == Map::<u32, KeyState>::empty(),
    {
        InputManager { key_states: SparseMap::new() }
    }

    /// Start a new frame: every tracked key's last-frame bit becomes this
    /// frame's bit, so no key reads as pressed or released until a new
    /// event arrives.
    pub fn update_input(&mut self)
        requires
            old(self).wf(),
        ensures
            final(self).wf(),
            final(self).states().dom() == old(self).states().dom(),
            forall|k: u32|
                old(self).states().dom().contains(k) ==> final(self).states()[k] == (KeyState {
                    this_frame: old(self).states()[k].this_frame,
                    last_frame: old(self).states()[k].this_frame,
                }),
    {
        let ghost old_map = self.key_states;
        let n: usize = self.key_states.len();
        let mut i: usize = 0;
        while i < n
            invariant
                self.key_states.wf(),
                n == old_map.items().len(),
                self.key_states.items().len() == n,
                i <= n,
                forall|j: int|
                    0 <= j < i ==> #[trigger] self.key_states.items()[j] == (
                    old_map.items()[j].0,
                    KeyState {
                        this_frame: old_map.items()[j].1.this_frame,
                        last_frame: old_map.items()[j].1.this_frame,
                    },
                    ),
                forall|j: int|
                    i <= j < n ==> #[trigger] self.key_states.items()[j] == old_map.items()[j],
            decreases n - i,
        {
            let state = self.key_states.all_iter_mut(i);
            let sampled = state.this_frame;
            state.last_frame = sampled;
            i += 1;
        }
        proof {
            old_map.lemma_model();
            self.key_states.lemma_model();
            assert forall|k: u32| #[trigger]
                old_map@.contains_key(k) implies self.key_states@.contains_key(k)
                && self.key_states@[k] == (KeyState {
                this_frame: old_map@[k].this_frame,
                last_frame: old_map@[k].this_frame,
            }) by {
                let j = old_map.dense_index_of(k);
                assert(old_map.items()[j] == (k, old_map@[k]));
                assert(self.key_states.items()[j].0 == k);
            }
            assert forall|k: u32| #[trigger]
                self.key_states@.contains_key(k) implies old_map@.contains_key(k) by {
                let j = self.key_states.dense_index_of(k);
                assert(self.key_states.items()[j].0 == k);
                assert(old_map.items()[j].0 == k);
            }
            assert(self.key_states@.dom() =~= old_map@.dom());
        }
    }

    /// Record a key event: a key not yet tracked starts fresh, then this
    /// frame's bit is set to whether the event reports the key as held.
    pub fn update_event(&mut self, key: u32, down: bool)
        requires
            old(self).wf(),
        ensures
            final(self).wf(),
            final(self).states() == old(self).states().insert(
                key,
                KeyState {
                    this_frame: down,
                    last_frame: if old(self).states().contains_key(key) {
                        old(self).states()[key].last_frame
                    } else {
                        false
                    },
                },
            ),
    {
        if !self.key_states.contains_key(key) {
            self.key_states.insert(key, KeyState { this_frame: false, last_frame: false });
        }
        let state = self.key_states.get_mut(key);
        state.this_frame = down;
    }

    /// A key reads as pressed the frame its down bit first appears.
    pub fn is_key_pressed(&self, key: u32) -> (pressed: bool)
        requires
            self.wf(),
        ensures
            pressed == (self.states().contains_key(key) && self.states()[key].this_frame
                && !self.states()[key].last_frame),
    {
        if self.key_states.contains_key(key) {
            let state = self.key_states.get(key);
            state.this_frame && (state.this_frame != state.last_frame)
        } else {
            false
        }
    }

    /// A key reads as down while its sampled bit is set.
    pub fn is_key_down(&self, key: u32) -> (down: bool)
        requires
            self.wf(),
        ensures
            down == (self.states().contains_key(key) && self.states()[key].this_frame),
    {
        if self.key_states.contains_key(key) {
            let state = self.key_states.get(key);
            state.this_frame
        } else {
            false
        }
    }

    /// A key reads as released the frame its down bit first disappears.
    pub fn is_key_released(&self, key: u32) -> (released: bool)
        requires
            self.wf(),
        ensures
            released == (self.states().contains_key(key) && !self.states()[key].this_frame
                && self.states()[key].last_frame),
    {
        if self.key_states.contains_key(key) {
            let state = self.key_states.get(key);
            (!state.this_frame) && (state.this_frame != state.last_frame)
        } else {
            false
        }
    }
}

} // verus!
