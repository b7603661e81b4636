//! Keys, what they are bound to, and a frame's snapshot of the keyboard.

use vstd::prelude::*;

verus! {

/// A key the game listens to.
#[derive(Clone, Copy, Debug, PartialEq, Eq, Structural)]
pub enum Key {
    Left,
    Right,
    Up,
    A,
    D,
    W,
    Space,
    Escape,
}

/// What a key asks for.
#[derive(Clone, Copy, Debug, PartialEq, Eq, Structural)]
pub enum Action {
    SteerLeft,
    SteerRight,
    Jump,
    Exit,
}

/// The key bindings: the left arrow and A steer left, the right arrow and D
/// steer right, space, the up arrow and W jump, escape leaves the game.
pub open spec fn binding(key: Key) -> Action {
    match key {
        Key::Left | Key::A => Action::SteerLeft,
        Key::Right | Key::D => Action::SteerRight,
        Key::Space | Key::Up | Key::W => Action::Jump,
        Key::Escape => Action::Exit,
    }
}

/// Whether some key of `keys` is bound to `action`.
pub open spec fn any_bound(keys: Seq<Key>, action: Action) -> bool {
    exists|i: int| 0 <= i < keys.len() && binding(#[trigger] keys[i]) == action
}

/// The action that `key` is bound to.
pub fn action_of(key: Key) -> (action: Action)
    ensures
        action == binding(key),
{
    match key {
        Key::Left | Key::A => Action::SteerLeft,
        Key::Right | Key::D => Action::SteerRight,
        Key::Space | Key::Up | Key::W => Action::Jump,
        Key::Escape => Action::Exit,
    }
}

/// Searches `keys` for one bound to `action`.
fn holds_bound(keys: &Vec<Key>, action: Action) -> (found: bool)
    ensures
        found == any_bound(keys@, action),
{
    let mut i: usize = 0;
    while i < keys.len()
        invariant
            i <= keys.len(),
            forall|j: int| 0 <= j < i ==> binding(#[trigger] keys@[j]) != action,
        decreases keys.len() - i,
    {
        if action_of(keys[i]) == action {
            return true;
        }
        i = i + 1;
    }
    false
}

/// The steering and jump inputs of one frame.
#[derive(Clone, Copy, Debug, PartialEq, Eq, Structural)]
pub struct Controls {
    /// A left-steer key is held.
    pub steer_left: bool,
    /// A right-steer key is held.
    pub steer_right: bool,
    /// A jump key went down in this frame.
    pub jump: bool,
}

impl Controls {
    /// Whether any steering key is held.
    pub open spec fn steering(self) -> bool {
        self.steer_left || self.steer_right
    }
}

/// One frame's view of the keyboard: the keys that are down, and those that
/// went down since the frame before.
#[derive(Debug)]
pub struct Keyboard {
    /// Keys that are held in this frame.
    pub pressed: Vec<Key>,
    /// Keys that went down since the frame before.
    pub just_pressed: Vec<Key>,
}

impl Keyboard {
    /// Whether a key bound to `action` is held.
    pub open spec fn held(&self, action: Action) -> bool {
        any_bound(self.pressed@, action)
    }

    /// Whether a key bound to `action` went down in this frame.
    pub open spec fn struck(&self, action: Action) -> bool {
        any_bound(self.just_pressed@, action)
    }

    /// Whether this snapshot can come after `before`: every key that it
    /// reports as having gone down is down now and was up in `before`.
    pub open spec fn follows(&self, before: &Keyboard) -> bool {
        forall|key: Key| #[trigger]
            self.just_pressed@.contains(key) ==> self.pressed@.contains(key)
                && !before.pressed@.contains(key)
    }

    /// The controls that this keyboard gives: steering follows held keys,
    /// the jump follows a fresh press alone.
    pub open spec fn controls_spec(&self) -> Controls {
        Controls {
            steer_left: self.held(Action::SteerLeft),
            steer_right: self.held(Action::SteerRight),
            jump: self.struck(Action::Jump),
        }
    }

    /// Whether a key bound to `action` is held.
    pub fn any_pressed(&self, action: Action) -> (found: bool)
        ensures
            found == self.held(action),
    {
        holds_bound(&self.pressed, action)
    }

    /// Whether a key bound to `action` went down in this frame.
    pub fn any_just_pressed(&self, action: Action) -> (found: bool)
        ensures
            found == self.struck(action),
    {
        holds_bound(&self.just_pressed, action)
    }

    /// Reads the frame's steering and jump inputs.
    #[verifier::when_used_as_spec(controls_spec)]
    pub fn controls(&self) -> (c: Controls)
        ensures
            c == self.controls_spec(),
    {
        Controls {
            steer_left: self.any_pressed(Action::SteerLeft),
            steer_right: self.any_pressed(Action::SteerRight),
            jump: self.any_just_pressed(Action::Jump),
        }
    }
}

/// Whether the player asked to leave: true exactly when the escape key went
/// down in this frame.
pub fn exit_on_esc(keyboard: &Keyboard) -> (exit: bool)
    ensures
        exit == keyboard.struck(Action::Exit),
        exit == keyboard.just_pressed@.contains(Key::Escape),
{
    let exit = keyboard.any_just_pressed(Action::Exit);
    proof {
        if exit {
            let i = choose|i: int|
                0 <= i < keyboard.just_pressed@.len() && binding(
                    #[trigger] keyboard.just_pressed@[i],
                ) == Action::Exit;
            assert(keyboard.just_pressed@[i] == Key::Escape);
        }
    }
    exit
}

} // verus!
