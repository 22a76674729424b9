//! Per-frame state of the keyboard and of the mouse.
//!
//! Keys and buttons are named by integer codes. `down` holds what is held at
//! the moment; `pressed` and `released` hold what went down or up since the
//! frame began.

use std::collections::HashSet;
use vstd::prelude::*;

verus! {

broadcast use vstd::std_specs::hash::group_hash_axioms;

/// The keys that are held, and those that went down or up in this frame.
#[derive(Debug)]
pub struct KeyState {
    pub down: HashSet<u32>,
    pub pressed: HashSet<u32>,
    pub released: HashSet<u32>,
}

impl KeyState {
    /// No key held, none pressed, none released.
    pub fn new() -> (state: Self)
        ensures
            state.down@ == Set::<u32>::empty(),
            state.pressed@ == Set::<u32>::empty(),
            state.released@ == Set::<u32>::empty(),
    {
        KeyState { down: HashSet::new(), pressed: HashSet::new(), released: HashSet::new() }
    }

    /// The state at the start of the next frame: what is held stays held,
    /// the presses and releases of the last frame are forgotten.
    pub fn from_last_frame(old: KeyState) -> (state: Self)
        ensures
            state.down@ == old.down@,
            state.pressed@ == Set::<u32>::empty(),
            state.released@ == Set::<u32>::empty(),
    {
        let mut old = old;
        old.pressed.clear();
        old.released.clear();

        old
    }

    /// Records that the key `vk` went down.
    pub fn pressed(&mut self, vk: u32)
        ensures
            final(self).down@ == old(self).down@.insert(vk),
            final(self).pressed@ == old(self).pressed@.insert(vk),
            final(self).released@ == old(self).released@,
    {
        self.down.insert(vk);
        self.pressed.insert(vk);
    }

    /// Records that the key `vk` went up.
    pub fn released(&mut self, vk: u32)
        ensures
            final(self).down@ == old(self).down@.remove(vk),
            final(self).pressed@ == old(self).pressed@,
            final(self).released@ == old(self).released@.insert(vk),
    {
        self.down.remove(&vk);
        self.released.insert(vk);
    }
}

/// The motion and the scrolling of the mouse in this frame, the buttons that
/// are held, and those that went down or up in this frame.
#[derive(Debug)]
pub struct MouseState {
    pub position: (i32, i32),
    pub mouse_wheel_delta: i32,
    pub down: HashSet<u32>,
    pub pressed: HashSet<u32>,
    pub released: HashSet<u32>,
}

impl MouseState {
    /// No motion, no scrolling, no button held, pressed or released.
    pub fn new() -> (state: Self)
        ensures
            state.position == (0i32, 0i32),
            state.mouse_wheel_delta == 0,
            state.down@ == Set::<u32>::empty(),
            state.pressed@ == Set::<u32>::empty(),
            state.released@ == Set::<u32>::empty(),
    {
        MouseState {
            position: (0, 0),
            mouse_wheel_delta: 0,
            down: HashSet::new(),
            pressed: HashSet::new(),
            released: HashSet::new(),
        }
    }

    /// The state at the start of the next frame: the buttons that are held
    /// stay held; motion, scrolling, presses and releases of the last frame
    /// are forgotten.
    pub fn from_last_frame(old: MouseState) -> (state: Self)
        ensures
            state.position == (0i32, 0i32),
            state.mouse_wheel_delta == 0,
            state.down@ == old.down@,
            state.pressed@ == Set::<u32>::empty(),
            state.released@ == Set::<u32>::empty(),
    {
        let mut old = old;
        old.position = (0, 0);
        old.mouse_wheel_delta = 0;
        old.pressed.clear();
        old.released.clear();

        old
    }

    /// Records that the button `vk` went down.
    pub fn pressed(&mut self, vk: u32)
        ensures
            final(self).down@ == old(self).down@.insert(vk),
            final(self).pressed@ == old(self).pressed@.insert(vk),
            final(self).released@ == old(self).released@,
            final(self).position == old(self).position,
            final(self).mouse_wheel_delta == old(self).mouse_wheel_delta,
    {
        self.down.insert(vk);
        self.pressed.insert(vk);
    }

    /// Records that the button `vk` went up.
    pub fn released(&mut self, vk: u32)
        ensures
            final(self).down@ == old(self).down@.remove(vk),
            final(self).pressed@ == old(self).pressed@,
            final(self).released@ == old(self).released@.insert(vk),
            final(self).position == old(self).position,
            final(self).mouse_wheel_delta == old(self).mouse_wheel_delta,
    {
        self.down.remove(&vk);
        self.released.insert(vk);
    }
}

} // verus!
