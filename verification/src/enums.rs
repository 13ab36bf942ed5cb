//! Enumerations shared with the rest of the compositor.

use vstd::prelude::*;

verus! {

/// Kind of an input device.
#[derive(Clone, Copy, PartialEq, Eq, Hash, Structural)]
pub enum DeviceKind {
    Keyboard,
    Mouse,
    Touchpad,
    Unknown,
}

impl DeviceKind {
    /// The name under which the kind is logged.
    pub open spec fn spec_name(self) -> Seq<char> {
        match self {
            DeviceKind::Keyboard => "keyboard"@,
            DeviceKind::Mouse => "mouse"@,
            DeviceKind::Touchpad => "touchpad"@,
            DeviceKind::Unknown => "unknown device"@,
        }
    }

    /// The name under which the kind is logged.
    pub fn name(self) -> (name: &'static str)
        ensures
            name@ == self.spec_name(),
    {
        match self {
            DeviceKind::Keyboard => "keyboard",
            DeviceKind::Mouse => "mouse",
            DeviceKind::Touchpad => "touchpad",
            DeviceKind::Unknown => "unknown device",
        }
    }
}

/// State of a key.
#[derive(Clone, Copy, Debug, PartialEq, Eq, Structural)]
pub enum KeyState {
    Released,
    Pressed,
}

impl KeyState {
    /// The value input events carry for the state: 0 for released, 1 for
    /// pressed.
    pub fn value(self) -> (value: i32)
        ensures
            value == (match self {
                KeyState::Released => 0i32,
                KeyState::Pressed => 1i32,
            }),
    {
        match self {
            KeyState::Released => 0,
            KeyState::Pressed => 1,
        }
    }
}

/// What a command does.
#[derive(Clone, Copy, Debug, PartialEq, Eq, Structural)]
pub enum Action {
    /// Dummy; do/parametrize nothing.
    Nothing,
    /// Anchorize; de-anchorize.
    Anchor,
    /// Change configuration.
    Configure,
    /// Change focus.
    Focus,
    /// Swap.
    Swap,
    /// Change position.
    Move,
    /// Change placement by jumping over.
    Jump,
    /// Change placement by diving in.
    Dive,
    /// Change size.
    Resize,
}

/// Directions on screen, in time and between frames.
#[derive(Clone, Copy, Debug, PartialEq, Eq, Structural)]
pub enum Direction {
    /// Dummy; point nowhere.
    Nowhere,
    /// North; up; above.
    North,
    /// East; right.
    East,
    /// South; down; below.
    South,
    /// West; left.
    West,
    /// Back in time; most recently used.
    Backward,
    /// Forward in time; the oldest used.
    Forward,
    /// Begin; start; head.
    Begin,
    /// End; finish; tail.
    End,
    /// Trunk; parent; up in frame hierarchy.
    Up,
    /// Workspace.
    Workspace,
}

impl Direction {
    /// The direction `reversed` turns this one into.
    pub open spec fn spec_reversed(self) -> Self {
        match self {
            Direction::Nowhere => Direction::Nowhere,
            Direction::North => Direction::South,
            Direction::East => Direction::West,
            Direction::South => Direction::North,
            Direction::West => Direction::South,
            Direction::Backward => Direction::Forward,
            Direction::Forward => Direction::Backward,
            Direction::Begin => Direction::End,
            Direction::End => Direction::Begin,
            Direction::Up => Direction::Up,
            Direction::Workspace => Direction::Workspace,
        }
    }

    /// Reverses the direction. West turns south; directions without an
    /// opposite stay as they are.
    #[verifier::when_used_as_spec(spec_reversed)]
    pub fn reversed(self) -> (reversed: Self)
        ensures
            reversed == self.spec_reversed(),
    {
        match self {
            Direction::Nowhere => Direction::Nowhere,
            Direction::North => Direction::South,
            Direction::East => Direction::West,
            Direction::South => Direction::North,
            Direction::West => Direction::South,
            Direction::Backward => Direction::Forward,
            Direction::Forward => Direction::Backward,
            Direction::Begin => Direction::End,
            Direction::End => Direction::Begin,
            Direction::Up => Direction::Up,
            Direction::Workspace => Direction::Workspace,
        }
    }

    /// Whether the direction lies in the plane of the screen.
    pub fn is_planar(self) -> (planar: bool)
        ensures
            planar == (self == Direction::North || self == Direction::East || self
                == Direction::South || self == Direction::West),
    {
        self == Direction::North || self == Direction::East || self == Direction::South || self
            == Direction::West
    }
}

/// The modes in which a user may interact with the compositor.
#[derive(Clone, Copy, Debug, PartialEq, Eq, Structural)]
pub enum InteractionMode {
    Normal,
    Insert,
    Visual,
}

/// A change of a client's state.
#[derive(Clone, Copy, Debug)]
pub enum ClientChange {
    /// A client connected; `fd` is the file descriptor of the connection.
    Connected { fd: i32 },
    /// A client disconnected; `id` is the event handler of that connection.
    Disconnected { id: u64 },
}

} // verus!
