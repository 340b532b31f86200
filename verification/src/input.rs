//! Per-frame state of keys and mouse buttons.
//!
//! Keys and buttons are identified by a number that the windowing layer
//! assigns. Pointer position, motion and scrolling belong to that layer too.
use vstd::prelude::*;
use std::collections::HashSet;

verus! {

broadcast use vstd::std_specs::hash::group_hash_axioms;

/// Which buttons are down, and which went down or up this frame.
pub struct ButtonState {
    held: HashSet<u32>,
    just_pressed: HashSet<u32>,
    just_released: HashSet<u32>,
}

/// Mathematical model of a `ButtonState`.
pub struct ButtonModel {
    pub held: Set<u32>,
    pub just_pressed: Set<u32>,
    pub just_released: Set<u32>,
}

impl View for ButtonState {
    type V = ButtonModel;

    closed spec fn view(&self) -> ButtonModel {
        ButtonModel {
            held: self.held@,
            just_pressed: self.just_pressed@,
            just_released: self.just_released@,
        }
    }
}

/// The buttons after button `b` went down (`pressed`) or up: a button that
/// goes down while it is not held was just pressed; one that goes up was
/// just released.
pub open spec fn after_event(m: ButtonModel, b: u32, pressed: bool) -> ButtonModel {
    if pressed {
        ButtonModel {
            held: m.held.insert(b),
            just_pressed: if m.held.contains(b) {
                m.just_pressed
            } else {
                m.just_pressed.insert(b)
            },
            just_released: m.just_released,
        }
    } else {
        ButtonModel { held: m.held.remove(b), just_pressed: m.just_pressed, just_released: m.just_released.insert(b) }
    }
}

/// The buttons at the start of the next frame: the held ones stay held.
pub open spec fn next_frame(m: ButtonModel) -> ButtonModel {
    ButtonModel { held: m.held, just_pressed: Set::empty(), just_released: Set::empty() }
}

impl ButtonState {
    pub fn new() -> (r: ButtonState)
        ensures
            r@.held == Set::<u32>::empty(),
            r@.just_pressed == Set::<u32>::empty(),
            r@.just_released == Set::<u32>::empty(),
    {
        ButtonState { held: HashSet::new(), just_pressed: HashSet::new(), just_released: HashSet::new() }
    }

    /// Records that button `b` went down (`pressed`) or up.
    pub fn on_event(&mut self, b: u32, pressed: bool)
        ensures
            final(self)@ == after_event(old(self)@, b, pressed),
    {
        if pressed {
            if !self.held.contains(&b) {
                self.just_pressed.insert(b);
            }
            self.held.insert(b);
        } else {
            self.held.remove(&b);
            self.just_released.insert(b);
        }
    }

    pub fn held(&self, b: u32) -> (r: bool)
        ensures
            r == self@.held.contains(b),
    {
        self.held.contains(&b)
    }

    pub fn just_pressed(&self, b: u32) -> (r: bool)
        ensures
            r == self@.just_pressed.contains(b),
    {
        self.just_pressed.contains(&b)
    }

    pub fn just_released(&self, b: u32) -> (r: bool)
        ensures
            r == self@.just_released.contains(b),
    {
        self.just_released.contains(&b)
    }

    /// Forgets what went down or up this frame.
    pub fn end_frame(&mut self)
        ensures
            final(self)@ == next_frame(old(self)@),
    {
        self.just_pressed.clear();
        self.just_released.clear();
    }
}

/// Keyboard and mouse buttons for one frame. Call `end_frame` at the end of
/// every frame.
pub struct Input {
    pub keys: ButtonState,
    pub mouse: ButtonState,
}

impl Input {
    pub fn new() -> (r: Input)
        ensures
            r.keys@.held == Set::<u32>::empty(),
            r.keys@.just_pressed == Set::<u32>::empty(),
            r.keys@.just_released == Set::<u32>::empty(),
            r.mouse@.held == Set::<u32>::empty(),
            r.mouse@.just_pressed == Set::<u32>::empty(),
            r.mouse@.just_released == Set::<u32>::empty(),
    {
        Input { keys: ButtonState::new(), mouse: ButtonState::new() }
    }

    /// Records that key `code` went down (`pressed`) or up.
    pub fn on_key(&mut self, code: u32, pressed: bool)
        ensures
            final(self).keys@ == after_event(old(self).keys@, code, pressed),
            final(self).mouse@ == old(self).mouse@,
    {
        self.keys.on_event(code, pressed);
    }

    /// True in the frame in which the key went down.
    pub fn key_just_pressed(&self, code: u32) -> (r: bool)
        ensures
            r == self.keys@.just_pressed.contains(code),
    {
        self.keys.just_pressed(code)
    }

    pub fn key_held(&self, code: u32) -> (r: bool)
        ensures
            r == self.keys@.held.contains(code),
    {
        self.keys.held(code)
    }

    /// True in the frame in which the key went up.
    pub fn key_just_released(&self, code: u32) -> (r: bool)
        ensures
            r == self.keys@.just_released.contains(code),
    {
        self.keys.just_released(code)
    }

    /// Records that mouse button `button` went down (`pressed`) or up.
    pub fn on_mouse_button(&mut self, button: u32, pressed: bool)
        ensures
            final(self).mouse@ == after_event(old(self).mouse@, button, pressed),
            final(self).keys@ == old(self).keys@,
    {
        self.mouse.on_event(button, pressed);
    }

    pub fn mouse_just_pressed(&self, button: u32) -> (r: bool)
        ensures
            r == self.mouse@.just_pressed.contains(button),
    {
        self.mouse.just_pressed(button)
    }

    pub fn mouse_held(&self, button: u32) -> (r: bool)
        ensures
            r == self.mouse@.held.contains(button),
    {
        self.mouse.held(button)
    }

    pub fn mouse_just_released(&self, button: u32) -> (r: bool)
        ensures
            r == self.mouse@.just_released.contains(button),
    {
        self.mouse.just_released(button)
    }

    /// Forgets which keys and buttons went down or up this frame.
    pub fn end_frame(&mut self)
        ensures
            final(self).keys@ == next_frame(old(self).keys@),
            final(self).mouse@ == next_frame(old(self).mouse@),
    {
        self.keys.end_frame();
        self.mouse.end_frame();
    }
}

/// A key pressed while not held is held and just pressed; holding it down
/// longer (key repeat) does not make it just pressed again in a later frame.
pub proof fn law_press(m: ButtonModel, b: u32)
    ensures
        after_event(m, b, true).held.contains(b),
        !m.held.contains(b) ==> after_event(m, b, true).just_pressed.contains(b),
        !after_event(next_frame(after_event(m, b, true)), b, true).just_pressed.contains(b),
{
}

/// Pressing and then releasing a key leaves it not held and just released,
/// whatever other keys do.
pub proof fn law_press_release(m: ButtonModel, b: u32)
    ensures
        !after_event(after_event(m, b, true), b, false).held.contains(b),
        after_event(after_event(m, b, true), b, false).just_released.contains(b),
        forall|c: u32| c != b ==> (after_event(after_event(m, b, true), b, false).held.contains(c)
            == m.held.contains(c)),
{
}

/// A new frame keeps the held keys and forgets the rest.
pub proof fn law_end_frame(m: ButtonModel, b: u32)
    ensures
        next_frame(m).held == m.held,
        !next_frame(m).just_pressed.contains(b),
        !next_frame(m).just_released.contains(b),
{
}

} // verus!
