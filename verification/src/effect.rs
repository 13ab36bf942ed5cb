//! What a session asks the surrounding program to do.
//!
//! The session itself touches neither the domain nor the wire. Each of its
//! operations returns a list of effects, to be carried out in the order given:
//! requests to the domain coordinator, requests to the process-wide mediator,
//! messages for the client, and reports of local failures.

use vstd::prelude::*;
use crate::defs::{ClientId, DmabufId, EglImageId, KeyMods, MemoryPoolId, MemoryViewId};
use crate::defs::{Milliseconds, ObjectId, Position, ShowReason, Size, SurfaceId, Vector};

verus! {

/// Direction of a scroll.
#[derive(Clone, Copy, Debug, PartialEq, Eq, Structural)]
pub enum ScrollAxis {
    Vertical,
    Horizontal,
}

/// State of a pointer button as the client is told it.
#[derive(Clone, Copy, Debug, PartialEq, Eq, Structural)]
pub enum ButtonState {
    Released,
    Pressed,
}

/// A local failure. It is reported and the session goes on.
#[allow(inconsistent_fields)]
#[derive(Clone, Copy, Debug, PartialEq, Eq, Structural)]
pub enum Diagnostic {
    /// A request named a buffer object that was never created.
    UnknownBuffer { buffer: ObjectId },
    /// A request named a surface object that was never created.
    UnknownSurface { surface: ObjectId },
    /// The data source to select was never registered.
    UnknownTransfer { data_source: ObjectId },
    /// A capture was requested while another is in progress.
    ScreenshotPending,
    /// No memory could be taken back for the capture.
    ScreenshotMemoryMissing,
    /// The output named in a capture request is unknown.
    ScreenshotOutputUnknown,
    /// The capture finished but there is nothing to copy, or nowhere to copy to.
    ScreenshotCopySkipped,
    /// A surface without a shell object was to be reconfigured.
    NotInShell { surface: SurfaceId },
}

/// One thing for the surrounding program to do.
#[allow(inconsistent_fields)]
#[derive(Clone, Copy, Debug, PartialEq, Eq, Structural)]
pub enum Effect {
    // Requests to the domain coordinator.
    DestroyMemoryPool { pool: MemoryPoolId },
    ReclaimMemoryPool { pool: MemoryPoolId },
    DestroySurface { surface: SurfaceId },
    AttachShm { view: MemoryViewId, surface: SurfaceId },
    AttachEglImage { image: EglImageId, surface: SurfaceId },
    AttachDmabuf { buffer: DmabufId, surface: SurfaceId },
    DetachSurface { surface: SurfaceId },
    UnrelateSurface { surface: SurfaceId },
    RelateSurfaces { surface: SurfaceId, parent: SurfaceId },
    ShowSurface { surface: SurfaceId, reason: ShowReason },
    HideSurface { surface: SurfaceId, reason: ShowReason },
    SetSurfaceOffset { surface: SurfaceId, offset: Vector },
    SetSurfaceRequestedSize { surface: SurfaceId, size: Size },
    SetSurfaceRelativePosition { surface: SurfaceId, position: Position },
    SetSurfaceAsCursor { surface: SurfaceId },
    TakeScreenshot { output: i32 },
    CopyScreenshot,
    SetTransfer { data_source: ObjectId },
    // Requests to the mediator.
    ForgetSurface { surface: SurfaceId },
    RelateSurfaceToClient { surface: SurfaceId, client: ClientId },
    RegisterTransferOfferer { client: Option<ClientId> },
    RegisterScreenshoter { client: Option<ClientId> },
    // Messages for the client. Unless a serial is given, a message that
    // carries one takes the connection's next serial when it is sent.
    KeyboardKey { keyboard: ObjectId, time: Milliseconds, code: u16, value: i32 },
    KeyboardModifiers { keyboard: ObjectId, mods: KeyMods },
    KeyboardLeave { keyboard: ObjectId, surface: ObjectId },
    KeyboardEnter { keyboard: ObjectId, surface: ObjectId },
    PointerLeave { pointer: ObjectId, surface: ObjectId },
    PointerEnter { pointer: ObjectId, surface: ObjectId, position: Position },
    PointerMotion { pointer: ObjectId, time: Milliseconds, position: Position },
    PointerButton { pointer: ObjectId, serial: u32, time: Milliseconds, code: u16, state: ButtonState },
    PointerAxisDiscrete { pointer: ObjectId, axis: ScrollAxis, value: isize },
    PointerAxis { pointer: ObjectId, time: Milliseconds, axis: ScrollAxis },
    PointerAxisStop { pointer: ObjectId, time: Milliseconds, axis: ScrollAxis },
    PointerFrame { pointer: ObjectId },
    CallbackDone { callback: ObjectId, time: Milliseconds },
    DeleteId { display: ObjectId, id: u32 },
    BufferRelease { buffer: ObjectId },
    ShellSurfaceConfigure { shell_surface: ObjectId, size: Size },
    ToplevelConfigure { toplevel: ObjectId, size: Size, maximized: bool, activated: bool },
    XdgSurfaceConfigure { shell_surface: ObjectId },
    DataOfferCreate { data_device: ObjectId },
    DataOfferType { data_device: ObjectId, index: usize },
    DataOfferSelect { data_device: ObjectId },
    DataSourceSend { data_source: ObjectId },
    ScreenshooterDone { screenshooter: ObjectId },
    // A local failure to report.
    Report { diagnostic: Diagnostic },
}

} // verus!
