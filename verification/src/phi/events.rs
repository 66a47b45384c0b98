//! Double-buffered keyboard state with edge detection.

use vstd::prelude::*;

verus! {

/// The keys the game listens to.
#[derive(Clone, Copy, Debug, PartialEq, Eq, Structural)]
pub enum Key {
    Escape,
    Up,
    Down,
    Left,
    Right,
    Space,
}

/// One event of the input backend that the game listens to.
#[derive(Clone, Copy, Debug, PartialEq, Eq, Structural)]
pub enum RawEvent {
    /// A tracked key went down.
    KeyDown(Key),
    /// A tracked key went up.
    KeyUp(Key),
    /// The user asked to close the program.
    Quit,
}

/// What the input backend reports at one instant: which tracked keys are
/// down, and whether the user asked to close the program.
#[derive(Clone, Copy, Debug, PartialEq, Eq, Structural)]
pub struct KeyState {
    pub key_escape: bool,
    pub key_up: bool,
    pub key_down: bool,
    pub key_left: bool,
    pub key_right: bool,
    pub key_space: bool,
    pub quit: bool,
}

impl KeyState {
    /// Whether `key` is down in this snapshot.
    pub open spec fn spec_down(self, key: Key) -> bool {
        match key {
            Key::Escape => self.key_escape,
            Key::Up => self.key_up,
            Key::Down => self.key_down,
            Key::Left => self.key_left,
            Key::Right => self.key_right,
            Key::Space => self.key_space,
        }
    }

    /// The snapshot with every key up and no request to close.
    pub open spec fn idle() -> KeyState {
        KeyState {
            key_escape: false,
            key_up: false,
            key_down: false,
            key_left: false,
            key_right: false,
            key_space: false,
            quit: false,
        }
    }

    /// The snapshot with `key` down or up as `down` says, and all else as it is.
    pub open spec fn spec_with(self, key: Key, down: bool) -> KeyState {
        match key {
            Key::Escape => KeyState { key_escape: down, ..self },
            Key::Up => KeyState { key_up: down, ..self },
            Key::Down => KeyState { key_down: down, ..self },
            Key::Left => KeyState { key_left: down, ..self },
            Key::Right => KeyState { key_right: down, ..self },
            Key::Space => KeyState { key_space: down, ..self },
        }
    }

    /// The snapshot after `event`.
    pub open spec fn spec_apply(self, event: RawEvent) -> KeyState {
        match event {
            RawEvent::KeyDown(key) => self.spec_with(key, true),
            RawEvent::KeyUp(key) => self.spec_with(key, false),
            RawEvent::Quit => KeyState { quit: true, ..self },
        }
    }

    /// The snapshot after `events`, the first of them first.
    pub open spec fn spec_apply_all(self, events: Seq<RawEvent>) -> KeyState
        decreases events.len(),
    {
        if events.len() == 0 {
            self
        } else {
            self.spec_apply_all(events.drop_last()).spec_apply(events.last())
        }
    }

    /// A snapshot with every key up and no request to close.
    pub fn new() -> (state: KeyState)
        ensures
            state == KeyState::idle(),
    {
        KeyState {
            key_escape: false,
            key_up: false,
            key_down: false,
            key_left: false,
            key_right: false,
            key_space: false,
            quit: false,
        }
    }

    /// Whether `key` is down in this snapshot.
    pub fn down(&self, key: Key) -> (is_down: bool)
        ensures
            is_down == self.spec_down(key),
    {
        match key {
            Key::Escape => self.key_escape,
            Key::Up => self.key_up,
            Key::Down => self.key_down,
            Key::Left => self.key_left,
            Key::Right => self.key_right,
            Key::Space => self.key_space,
        }
    }
}

impl KeyState {
    /// Takes note of `event`.
    pub fn apply(&mut self, event: RawEvent)
        ensures
            *final(self) == old(self).spec_apply(event),
    {
        match event {
            RawEvent::KeyDown(key) => self.set(key, true),
            RawEvent::KeyUp(key) => self.set(key, false),
            RawEvent::Quit => {
                self.quit = true;
            },
        }
    }

    /// Records that `key` is down, or up.
    pub fn set(&mut self, key: Key, down: bool)
        ensures
            *final(self) == old(self).spec_with(key, down),
    {
        match key {
            Key::Escape => {
                self.key_escape = down;
            },
            Key::Up => {
                self.key_up = down;
            },
            Key::Down => {
                self.key_down = down;
            },
            Key::Left => {
                self.key_left = down;
            },
            Key::Right => {
                self.key_right = down;
            },
            Key::Space => {
                self.key_space = down;
            },
        }
    }
}

/// The last two snapshots of the input backend. Nothing older is kept.
#[derive(Clone, Copy, Debug, PartialEq, Eq, Structural)]
pub struct Events {
    pub previous: KeyState,
    pub current: KeyState,
}

impl Events {
    /// `key` is down now.
    pub open spec fn spec_held(self, key: Key) -> bool {
        self.current.spec_down(key)
    }

    /// `key` is down now and was up one tick ago.
    pub open spec fn spec_pressed(self, key: Key) -> bool {
        self.current.spec_down(key) && !self.previous.spec_down(key)
    }

    /// The backend asked to terminate, or escape is down or has just changed.
    pub open spec fn spec_quit(self) -> bool {
        ||| self.current.quit
        ||| self.current.key_escape
        ||| self.current.key_escape != self.previous.key_escape
    }

    /// Input before the first poll: nothing is or was down.
    pub fn new() -> (events: Events)
        ensures
            events.previous == KeyState::idle(),
            events.current == KeyState::idle(),
    {
        Events { previous: KeyState::new(), current: KeyState::new() }
    }

    /// Takes this tick's snapshot; the one before it becomes the previous one.
    pub fn pump(&mut self, snapshot: KeyState)
        ensures
            final(self).previous == old(self).current,
            final(self).current == snapshot,
    {
        self.previous = self.current;
        self.current = snapshot;
    }

    /// Takes this tick's snapshot from the events that came in since the
    /// last one: the keys are as they were, but for those that an event
    /// moved, and a request to close counts for this tick only.
    pub fn pump_raw(&mut self, raw: &Vec<RawEvent>)
        ensures
            final(self).previous == old(self).current,
            final(self).current == (KeyState { quit: false, ..old(self).current }).spec_apply_all(
                raw@,
            ),
    {
        let mut snapshot = KeyState { quit: false, ..self.current };
        let ghost start = snapshot;
        let mut i: usize = 0;
        while i < raw.len()
            invariant
                i <= raw.len(),
                snapshot == start.spec_apply_all(raw@.take(i as int)),
            decreases raw.len() - i,
        {
            assert(raw@.take(i + 1).drop_last() =~= raw@.take(i as int));
            snapshot.apply(raw[i]);
            i += 1;
        }
        assert(raw@.take(i as int) =~= raw@);
        self.pump(snapshot);
    }

    /// Whether `key` is down now.
    pub fn held(&self, key: Key) -> (is_held: bool)
        ensures
            is_held == self.spec_held(key),
    {
        self.current.down(key)
    }

    /// Whether `key` went down on this tick.
    pub fn pressed(&self, key: Key) -> (is_pressed: bool)
        ensures
            is_pressed == self.spec_pressed(key),
    {
        self.current.down(key) && !self.previous.down(key)
    }

    /// Whether the program must terminate on this tick.
    pub fn quit(&self) -> (must_quit: bool)
        ensures
            must_quit == self.spec_quit(),
    {
        self.current.quit || self.current.key_escape || self.previous.key_escape
    }
}

} // verus!
