//! Identifiers and small value types shared by the whole session layer.

use vstd::prelude::*;
use crate::collections::Keyed;

verus! {

/// Handle of a protocol object, scoped to one client. Zero is the null object.
#[derive(Clone, Copy, Debug, PartialEq, Eq, Structural)]
pub struct ObjectId {
    pub value: u32,
}

impl ObjectId {
    pub fn new(value: u32) -> (oid: Self)
        ensures
            oid.value == value,
    {
        ObjectId { value }
    }

    /// The numerical value of the handle.
    pub fn get_value(self) -> (value: u32)
        ensures
            value == self.value,
    {
        self.value
    }

    /// Whether this handle is the null object.
    pub open spec fn spec_is_null(self) -> bool {
        self.value == 0
    }

    /// Whether this handle is the null object, which in an attach request
    /// means "detach".
    #[verifier::when_used_as_spec(spec_is_null)]
    pub fn is_null(self) -> (null: bool)
        ensures
            null == self.spec_is_null(),
    {
        raw_is_null(self.value)
    }
}

/// Calls `skylane::server::ObjectId::is_null` on the handle with the given
/// value. The claim, read off the method's one-line body, is that exactly the
/// value zero is null.
#[verifier::external_body]
fn raw_is_null(value: u32) -> (null: bool)
    ensures
        null == (value == 0),
{
    skylane::server::ObjectId::new(value).is_null()
}

/// Value of `skylane::server::DISPLAY_ID`, the well-known root object of every
/// connection. The constant is defined as the handle with value one.
#[verifier::external_body]
fn raw_display_id() -> (value: u32)
    ensures
        value == 1,
{
    skylane::server::DISPLAY_ID.get_value()
}

/// The well-known root object of a connection.
pub fn display_id() -> (oid: ObjectId)
    ensures
        oid.value == 1,
{
    ObjectId { value: raw_display_id() }
}

/// Identifier of a surface in the compositor's domain, independent of any one
/// client. Zero is the invalid surface.
#[derive(Clone, Copy, Debug, PartialEq, Eq, Structural)]
pub struct SurfaceId {
    pub value: u64,
}

impl SurfaceId {
    pub fn new(value: u64) -> (sid: Self)
        ensures
            sid.value == value,
    {
        SurfaceId { value }
    }

    /// The identifier that names no surface.
    pub fn invalid() -> (sid: Self)
        ensures
            sid.value == 0,
            !sid.is_valid(),
    {
        SurfaceId { value: 0 }
    }

    pub open spec fn spec_is_valid(self) -> bool {
        self.value != 0
    }

    /// Whether the identifier names a surface.
    #[verifier::when_used_as_spec(spec_is_valid)]
    pub fn is_valid(self) -> (valid: bool)
        ensures
            valid == self.spec_is_valid(),
    {
        self.value != 0
    }
}

/// Identifier of a memory pool in the domain.
#[derive(Clone, Copy, Debug, PartialEq, Eq, Structural)]
pub struct MemoryPoolId {
    pub value: u64,
}

/// Identifier of a view into a memory pool.
#[derive(Clone, Copy, Debug, PartialEq, Eq, Structural)]
pub struct MemoryViewId {
    pub value: u64,
}

/// Identifier of a hardware image.
#[derive(Clone, Copy, Debug, PartialEq, Eq, Structural)]
pub struct EglImageId {
    pub value: u64,
}

/// Identifier of an imported buffer.
#[derive(Clone, Copy, Debug, PartialEq, Eq, Structural)]
pub struct DmabufId {
    pub value: u64,
}

/// Identity of the client a session belongs to.
#[derive(Clone, Copy, Debug, PartialEq, Eq, Structural)]
pub struct ClientId {
    pub value: u64,
}

/// A point, or a displacement, in screen coordinates.
#[derive(Clone, Copy, Debug, PartialEq, Eq, Structural)]
pub struct Position {
    pub x: isize,
    pub y: isize,
}

impl Position {
    pub fn new(x: isize, y: isize) -> (position: Self)
        ensures
            position == (Position { x, y }),
    {
        Position { x, y }
    }
}

impl Default for Position {
    fn default() -> (position: Self)
        ensures
            position == (Position { x: 0, y: 0 }),
    {
        Position { x: 0, y: 0 }
    }
}

pub type Vector = Position;

/// Width and height.
#[derive(Clone, Copy, Debug, PartialEq, Eq, Structural)]
pub struct Size {
    pub width: usize,
    pub height: usize,
}

/// A rectangle: where it starts and how large it is.
#[derive(Clone, Copy, Debug, PartialEq, Eq, Structural)]
pub struct Area {
    pub pos: Position,
    pub size: Size,
}

/// A point in time, in milliseconds.
#[derive(Clone, Copy, Debug, PartialEq, Eq, Structural)]
pub struct Milliseconds {
    pub value: u64,
}

/// A key event.
#[derive(Clone, Copy, Debug, PartialEq, Eq, Structural)]
pub struct Key {
    pub code: u16,
    pub value: i32,
    pub time: Milliseconds,
}

/// A pointer button event.
#[derive(Clone, Copy, Debug, PartialEq, Eq, Structural)]
pub struct Button {
    pub code: u16,
    pub value: i32,
    pub time: Milliseconds,
}

/// A scroll event. The discrete part counts steps. Of the continuous part the
/// session reads only whether each component is non-zero; the magnitudes stay
/// with the caller, who sends them with the sign of the vertical one inverted.
#[derive(Clone, Copy, Debug, PartialEq, Eq, Structural)]
pub struct Axis {
    pub discrete: Vector,
    pub continuous_x: bool,
    pub continuous_y: bool,
    pub time: Milliseconds,
}

/// Snapshot of the keyboard modifiers.
#[derive(Clone, Copy, Debug, PartialEq, Eq, Structural)]
pub struct KeyMods {
    pub depressed: u32,
    pub latched: u32,
    pub locked: u32,
    pub effective: u32,
}

/// Why a surface is shown or hidden.
#[derive(Clone, Copy, Debug, PartialEq, Eq, Structural)]
pub struct ShowReason {
    pub bits: u32,
}

/// The state flags of a surface that the session reads.
#[derive(Clone, Copy, Debug, PartialEq, Eq, Structural)]
pub struct SurfaceState {
    pub maximized: bool,
}

/// What the domain knows of a surface's window.
#[derive(Clone, Copy, Debug, PartialEq, Eq, Structural)]
pub struct SurfaceContext {
    pub desired_size: Size,
    pub state_flags: SurfaceState,
}

/// The shell object bound to a surface, by shell protocol.
#[derive(Clone, Copy, Debug, PartialEq, Eq, Structural)]
pub enum ShellSurfaceOid {
    /// Legacy shell: the shell surface object.
    Shell(ObjectId),
    /// Current shell: the shell surface object and its toplevel object.
    ZxdgToplevelV6(ObjectId, ObjectId),
}

/// Placement rules for a popup.
#[derive(Clone, Copy, Debug, PartialEq, Eq, Structural)]
pub struct PositionerInfo {
    pub offset: Vector,
    pub size: Size,
    pub anchor: Area,
}

/// The data types a client offers for transfer.
#[derive(Clone, Debug)]
pub struct Transfer {
    pub mime_types: Vec<String>,
}

impl Transfer {
    pub fn new(mime_types: Vec<String>) -> (transfer: Self)
        ensures
            transfer.mime_types == mime_types,
    {
        Transfer { mime_types }
    }

    /// How many data types are offered.
    pub fn count(&self) -> (n: usize)
        ensures
            n == self.mime_types@.len(),
    {
        self.mime_types.len()
    }
}

/// Client memory taken back from the domain to receive a screen capture. The
/// bytes stay with the caller; the session keeps their size.
#[derive(Clone, Copy, Debug, PartialEq, Eq, Structural)]
pub struct Memory {
    pub size: usize,
}

impl Keyed for ObjectId {
    open spec fn key(self) -> u64 {
        self.value as u64
    }

    fn to_key(self) -> (key: u64) {
        self.value as u64
    }

    proof fn lemma_key_injective(a: Self, b: Self) {
    }
}

impl Keyed for SurfaceId {
    open spec fn key(self) -> u64 {
        self.value
    }

    fn to_key(self) -> (key: u64) {
        self.value
    }

    proof fn lemma_key_injective(a: Self, b: Self) {
    }
}

impl Keyed for MemoryPoolId {
    open spec fn key(self) -> u64 {
        self.value
    }

    fn to_key(self) -> (key: u64) {
        self.value
    }

    proof fn lemma_key_injective(a: Self, b: Self) {
    }
}

} // verus!
