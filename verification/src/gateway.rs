//! What the compositor tells a session, and what the session tells its
//! client in turn.
//!
//! Each callback resolves a domain event against the session's tables and
//! returns the messages for the client, in the order in which they are to be
//! sent. A callback for something the session no longer knows returns
//! nothing.

use vstd::prelude::*;
use crate::collections::OrderedSet;
use crate::defs::{display_id, Axis, Button, Key, KeyMods, Milliseconds, ObjectId, Position};
use crate::defs::{ShellSurfaceOid, Size, SurfaceContext, SurfaceId, SurfaceState};
use crate::effect::{ButtonState, Diagnostic, Effect, ScrollAxis};
use crate::global::Capability;
use crate::proxy::{Proxy, ProxyView};
use crate::screenshot::{finished, ScreenshotState};
use crate::surface::SurfaceInfo;

verus! {

/// What every bound object of one kind is told about one event.
pub enum Notice {
    /// A key event, with the modifiers if they came along.
    Key { key: Key, mods: Option<KeyMods> },
    /// The pointer left a surface.
    PointerLeave { surface: ObjectId },
    /// The pointer entered a surface at a position.
    PointerEnter { surface: ObjectId, position: Position },
    /// The pointer moved.
    PointerMotion { position: Position, time: Milliseconds },
    /// A pointer button changed; all objects are told under one serial.
    PointerButton { button: Button, serial: u32 },
    /// The pointer scrolled.
    PointerAxis { axis: Axis },
    /// The keyboard left a surface; `then` follows each leave.
    KeyboardLeave { surface: ObjectId, then: Seq<Effect> },
    /// The keyboard entered a surface.
    KeyboardEnter { surface: ObjectId },
    /// An offer of `types` data types.
    DataOffer { types: nat },
}

/// The state the client is told for a button value: zero is released, any
/// other value pressed.
pub open spec fn button_state(value: i32) -> ButtonState {
    if value == 0 {
        ButtonState::Released
    } else {
        ButtonState::Pressed
    }
}

/// The messages for a scroll along one axis: a discrete step if there is
/// one, then the continuous motion, or a stop where there is none.
pub open spec fn scroll(
    pointer: ObjectId,
    axis: ScrollAxis,
    discrete: int,
    continuous: bool,
    time: Milliseconds,
) -> Seq<Effect> {
    (if discrete != 0 {
        seq![Effect::PointerAxisDiscrete { pointer, axis, value: discrete as isize }]
    } else {
        Seq::empty()
    }) + seq![
        if continuous {
            Effect::PointerAxis { pointer, time, axis }
        } else {
            Effect::PointerAxisStop { pointer, time, axis }
        },
    ]
}

/// The data types of an offer, announced by their index, in order.
pub open spec fn offered_types(data_device: ObjectId, types: nat) -> Seq<Effect> {
    Seq::new(types, |i: int| Effect::DataOfferType { data_device, index: i as usize })
}

/// What one bound object is told. A scroll is told with the vertical step
/// negated, vertical before horizontal, and closes with a frame marker.
pub open spec fn told(target: ObjectId, notice: Notice) -> Seq<Effect> {
    match notice {
        Notice::Key { key, mods } => seq![
            Effect::KeyboardKey { keyboard: target, time: key.time, code: key.code, value: key.value },
        ] + (match mods {
            Some(mods) => seq![Effect::KeyboardModifiers { keyboard: target, mods }],
            None => Seq::empty(),
        }),
        Notice::PointerLeave { surface } => seq![Effect::PointerLeave { pointer: target, surface }],
        Notice::PointerEnter { surface, position } => seq![
            Effect::PointerEnter { pointer: target, surface, position },
        ],
        Notice::PointerMotion { position, time } => seq![
            Effect::PointerMotion { pointer: target, time, position },
        ],
        Notice::PointerButton { button, serial } => seq![
            Effect::PointerButton {
                pointer: target,
                serial,
                time: button.time,
                code: button.code,
                state: button_state(button.value),
            },
        ],
        Notice::PointerAxis { axis } => scroll(
            target,
            ScrollAxis::Vertical,
            -axis.discrete.y,
            axis.continuous_y,
            axis.time,
        ) + scroll(target, ScrollAxis::Horizontal, axis.discrete.x as int, axis.continuous_x, axis.time)
            + seq![Effect::PointerFrame { pointer: target }],
        Notice::KeyboardLeave { surface, then } => seq![
            Effect::KeyboardLeave { keyboard: target, surface },
        ] + then,
        Notice::KeyboardEnter { surface } => seq![
            Effect::KeyboardEnter { keyboard: target, surface },
        ],
        Notice::DataOffer { types } => seq![Effect::DataOfferCreate { data_device: target }]
            + offered_types(target, types) + seq![Effect::DataOfferSelect { data_device: target }],
    }
}

/// What all of `targets` are told, one after the other in their order.
pub open spec fn fan_out(targets: Seq<ObjectId>, notice: Notice) -> Seq<Effect>
    decreases targets.len(),
{
    if targets.len() == 0 {
        Seq::empty()
    } else {
        fan_out(targets.drop_last(), notice) + told(targets.last(), notice)
    }
}

/// Telling one more target appends what that target is told.
pub proof fn lemma_fan_out_step(targets: Seq<ObjectId>, notice: Notice, k: int)
    requires
        0 <= k < targets.len(),
    ensures
        fan_out(targets.take(k + 1), notice) == fan_out(targets.take(k), notice) + told(
            targets[k],
            notice,
        ),
{
    assert(targets.take(k + 1).drop_last() =~= targets.take(k));
}

/// The surface object that focus messages name for `sid`: none for the
/// invalid surface, for a surface without a record, or for a record without
/// a surface object.
pub open spec fn focus_object(infos: Map<SurfaceId, SurfaceInfo>, sid: SurfaceId) -> Option<
    ObjectId,
> {
    if sid.is_valid() && infos.contains_key(sid) {
        infos[sid].surface_oid
    } else {
        None
    }
}

/// The messages that tell a surface's shell object its size and state. The
/// activation flag is derived here, by comparing the surface with the one
/// that has the keyboard focus. A surface with a record but without a shell
/// object is reported; one without a record is passed over.
pub open spec fn reconfiguration(
    infos: Map<SurfaceId, SurfaceInfo>,
    sid: SurfaceId,
    size: Size,
    state_flags: SurfaceState,
    focused: SurfaceId,
) -> Seq<Effect> {
    if !infos.contains_key(sid) {
        Seq::empty()
    } else {
        match infos[sid].shell_surface_oid {
            None => seq![Effect::Report { diagnostic: Diagnostic::NotInShell { surface: sid } }],
            Some(ShellSurfaceOid::Shell(shell_surface)) => seq![
                Effect::ShellSurfaceConfigure { shell_surface, size },
            ],
            Some(ShellSurfaceOid::ZxdgToplevelV6(shell_surface, toplevel)) => seq![
                Effect::ToplevelConfigure {
                    toplevel,
                    size,
                    maximized: state_flags.maximized,
                    activated: sid == focused,
                },
                Effect::XdgSurfaceConfigure { shell_surface },
            ],
        }
    }
}

/// The reconfiguration that follows a focus message, where the domain knows
/// the surface's window.
pub open spec fn refreshed(
    infos: Map<SurfaceId, SurfaceInfo>,
    sid: SurfaceId,
    context: Option<SurfaceContext>,
    focused: SurfaceId,
) -> Seq<Effect> {
    match context {
        Some(context) => reconfiguration(
            infos,
            sid,
            context.desired_size,
            context.state_flags,
            focused,
        ),
        None => Seq::empty(),
    }
}

/// The leaves of a pointer focus change: one for every pointer, if the old
/// surface has a surface object.
pub open spec fn pointer_leaves(
    pointers: Seq<ObjectId>,
    infos: Map<SurfaceId, SurfaceInfo>,
    old_sid: SurfaceId,
) -> Seq<Effect> {
    match focus_object(infos, old_sid) {
        Some(surface) => fan_out(pointers, Notice::PointerLeave { surface }),
        None => Seq::empty(),
    }
}

/// The enters of a pointer focus change: one for every pointer, if the new
/// surface has a surface object.
pub open spec fn pointer_enters(
    pointers: Seq<ObjectId>,
    infos: Map<SurfaceId, SurfaceInfo>,
    new_sid: SurfaceId,
    position: Position,
) -> Seq<Effect> {
    match focus_object(infos, new_sid) {
        Some(surface) => fan_out(pointers, Notice::PointerEnter { surface, position }),
        None => Seq::empty(),
    }
}

/// The leaves of a keyboard focus change, each followed by the
/// reconfiguration of the surface that loses the focus.
pub open spec fn keyboard_leaves(
    keyboards: Seq<ObjectId>,
    infos: Map<SurfaceId, SurfaceInfo>,
    old_sid: SurfaceId,
    context: Option<SurfaceContext>,
    focused: SurfaceId,
) -> Seq<Effect> {
    match focus_object(infos, old_sid) {
        Some(surface) => fan_out(
            keyboards,
            Notice::KeyboardLeave { surface, then: refreshed(infos, old_sid, context, focused) },
        ),
        None => Seq::empty(),
    }
}

/// The enters of a keyboard focus change: one for every keyboard, if the
/// new surface has a surface object. The surface that gains the focus is not
/// reconfigured here.
pub open spec fn keyboard_enters(
    keyboards: Seq<ObjectId>,
    infos: Map<SurfaceId, SurfaceInfo>,
    new_sid: SurfaceId,
) -> Seq<Effect> {
    match focus_object(infos, new_sid) {
        Some(surface) => fan_out(keyboards, Notice::KeyboardEnter { surface }),
        None => Seq::empty(),
    }
}

/// What a drawn frame releases: the pending callback is answered and its id
/// deleted on the root object, then the pending buffer is released.
pub open spec fn frame_effects(info: SurfaceInfo, time: Milliseconds) -> Seq<Effect> {
    (match info.frame_oid {
        Some(callback) => seq![
            Effect::CallbackDone { callback, time },
            Effect::DeleteId { display: ObjectId { value: 1 }, id: callback.value },
        ],
        None => Seq::empty(),
    }) + (match info.buffer_oid {
        Some(buffer) => seq![Effect::BufferRelease { buffer }],
        None => Seq::empty(),
    })
}

/// A record after a frame was drawn: nothing is pending any more.
pub open spec fn after_frame(info: SurfaceInfo) -> SurfaceInfo {
    SurfaceInfo { frame_oid: None, buffer_oid: None, ..info }
}

/// A notice in the form in which a callback hands it to the fan-out.
pub(crate) enum Telling {
    Key { key: Key, mods: Option<KeyMods> },
    PointerLeave { surface: ObjectId },
    PointerEnter { surface: ObjectId, position: Position },
    PointerMotion { position: Position, time: Milliseconds },
    PointerButton { button: Button, serial: u32 },
    PointerAxis { axis: Axis },
    KeyboardLeave { surface: ObjectId, then: Vec<Effect> },
    KeyboardEnter { surface: ObjectId },
    DataOffer { types: usize },
}

impl Telling {
    /// The notice that is handed over.
    pub(crate) open spec fn notice(&self) -> Notice {
        match *self {
            Telling::Key { key, mods } => Notice::Key { key, mods },
            Telling::PointerLeave { surface } => Notice::PointerLeave { surface },
            Telling::PointerEnter { surface, position } => Notice::PointerEnter { surface, position },
            Telling::PointerMotion { position, time } => Notice::PointerMotion { position, time },
            Telling::PointerButton { button, serial } => Notice::PointerButton { button, serial },
            Telling::PointerAxis { axis } => Notice::PointerAxis { axis },
            Telling::KeyboardLeave { surface, then } => Notice::KeyboardLeave { surface, then: then@ },
            Telling::KeyboardEnter { surface } => Notice::KeyboardEnter { surface },
            Telling::DataOffer { types } => Notice::DataOffer { types: types as nat },
        }
    }
}

/// Whether the vertical step of a scroll can be negated.
pub open spec fn invertible(notice: Notice) -> bool {
    notice is PointerAxis ==> notice->PointerAxis_axis.discrete.y > isize::MIN
}

fn append(effects: &mut Vec<Effect>, more: &Vec<Effect>)
    ensures
        final(effects)@ == old(effects)@ + more@,
{
    let mut i: usize = 0;
    while i < more.len()
        invariant
            i <= more@.len(),
            effects@ == old(effects)@ + more@.take(i as int),
        decreases more@.len() - i,
    {
        effects.push(more[i]);
        i += 1;
        assert(effects@ =~= old(effects)@ + more@.take(i as int));
    }
    assert(more@.take(i as int) =~= more@);
}

fn push_scroll(
    effects: &mut Vec<Effect>,
    pointer: ObjectId,
    axis: ScrollAxis,
    discrete: isize,
    continuous: bool,
    time: Milliseconds,
)
    ensures
        final(effects)@ == old(effects)@ + scroll(pointer, axis, discrete as int, continuous, time),
{
    if discrete != 0 {
        effects.push(Effect::PointerAxisDiscrete { pointer, axis, value: discrete });
    }
    if continuous {
        effects.push(Effect::PointerAxis { pointer, time, axis });
    } else {
        effects.push(Effect::PointerAxisStop { pointer, time, axis });
    }
    assert(effects@ =~= old(effects)@ + scroll(pointer, axis, discrete as int, continuous, time));
}

fn push_offered_types(effects: &mut Vec<Effect>, data_device: ObjectId, types: usize)
    ensures
        final(effects)@ == old(effects)@ + offered_types(data_device, types as nat),
{
    let mut index: usize = 0;
    while index < types
        invariant
            index <= types,
            effects@ == old(effects)@ + offered_types(data_device, index as nat),
        decreases types - index,
    {
        effects.push(Effect::DataOfferType { data_device, index });
        index += 1;
        assert(effects@ =~= old(effects)@ + offered_types(data_device, index as nat));
    }
}

/// Tells one bound object.
fn tell(target: ObjectId, telling: &Telling, effects: &mut Vec<Effect>)
    requires
        invertible(telling.notice()),
    ensures
        final(effects)@ == old(effects)@ + told(target, telling.notice()),
{
    match telling {
        Telling::Key { key, mods } => {
            effects.push(
                Effect::KeyboardKey {
                    keyboard: target,
                    time: key.time,
                    code: key.code,
                    value: key.value,
                },
            );
            if let Some(mods) = mods {
                effects.push(Effect::KeyboardModifiers { keyboard: target, mods: *mods });
            }
        },
        Telling::PointerLeave { surface } => {
            effects.push(Effect::PointerLeave { pointer: target, surface: *surface });
        },
        Telling::PointerEnter { surface, position } => {
            effects.push(
                Effect::PointerEnter { pointer: target, surface: *surface, position: *position },
            );
        },
        Telling::PointerMotion { position, time } => {
            effects.push(Effect::PointerMotion { pointer: target, time: *time, position: *position });
        },
        Telling::PointerButton { button, serial } => {
            let state = if button.value == 0 {
                ButtonState::Released
            } else {
                ButtonState::Pressed
            };
            effects.push(
                Effect::PointerButton {
                    pointer: target,
                    serial: *serial,
                    time: button.time,
                    code: button.code,
                    state,
                },
            );
        },
        Telling::PointerAxis { axis } => {
            let vertical: isize = -axis.discrete.y;
            push_scroll(effects, target, ScrollAxis::Vertical, vertical, axis.continuous_y, axis.time);
            push_scroll(
                effects,
                target,
                ScrollAxis::Horizontal,
                axis.discrete.x,
                axis.continuous_x,
                axis.time,
            );
            effects.push(Effect::PointerFrame { pointer: target });
        },
        Telling::KeyboardLeave { surface, then } => {
            effects.push(Effect::KeyboardLeave { keyboard: target, surface: *surface });
            append(effects, then);
        },
        Telling::KeyboardEnter { surface } => {
            effects.push(Effect::KeyboardEnter { keyboard: target, surface: *surface });
        },
        Telling::DataOffer { types } => {
            effects.push(Effect::DataOfferCreate { data_device: target });
            push_offered_types(effects, target, *types);
            effects.push(Effect::DataOfferSelect { data_device: target });
        },
    }
    assert(effects@ =~= old(effects)@ + told(target, telling.notice()));
}

/// Tells every object of `targets`, in their order.
pub(crate) fn tell_all(targets: &OrderedSet<ObjectId>, telling: &Telling, effects: &mut Vec<Effect>)
    requires
        invertible(telling.notice()),
    ensures
        final(effects)@ == old(effects)@ + fan_out(targets.items(), telling.notice()),
{
    let mut i: usize = 0;
    while i < targets.len()
        invariant
            i <= targets.items().len(),
            invertible(telling.notice()),
            effects@ == old(effects)@ + fan_out(targets.items().take(i as int), telling.notice()),
        decreases targets.items().len() - i,
    {
        let ghost before = effects@;
        tell(targets.at(i), telling, effects);
        proof {
            lemma_fan_out_step(targets.items(), telling.notice(), i as int);
            assert(effects@ =~= old(effects)@ + fan_out(targets.items().take(i + 1), telling.notice()));
        }
        i += 1;
    }
    assert(targets.items().take(i as int) =~= targets.items());
}

impl Proxy {
    /// An output was found. The session has nothing to do.
    pub fn on_output_found(&mut self)
        ensures
            *final(self) == *old(self),
    {
    }

    /// A display was created: its capability becomes a global.
    pub fn on_display_created(&mut self, capability: Capability) -> (name: u32)
        requires
            old(self).wf(),
            old(self)@.globals.len() < u32::MAX,
        ensures
            final(self).wf(),
            name == old(self)@.globals.len() + 1,
            final(self)@ == (ProxyView {
                globals: old(self)@.globals.push(capability),
                ..old(self)@
            }),
    {
        self.register_global(capability)
    }

    /// A key event: every keyboard object gets the key, and then the
    /// modifiers if they came along.
    pub fn on_keyboard_input(&mut self, key: Key, mods: Option<KeyMods>) -> (effects: Vec<Effect>)
        ensures
            *final(self) == *old(self),
            effects@ == fan_out(old(self)@.keyboards, Notice::Key { key, mods }),
    {
        let mut effects: Vec<Effect> = Vec::new();
        tell_all(&self.keyboard_oids, &Telling::Key { key, mods }, &mut effects);
        effects
    }

    /// A frame of a surface was drawn: the pending frame callback is answered
    /// and the pending buffer released, each once, and both slots are
    /// cleared. The record itself stays.
    pub fn on_surface_frame(&mut self, sid: SurfaceId, milliseconds: Milliseconds) -> (effects: Vec<
        Effect,
    >)
        requires
            old(self).wf(),
        ensures
            final(self).wf(),
            old(self)@.surface_infos.contains_key(sid) ==> {
                &&& effects@ == frame_effects(old(self)@.surface_infos[sid], milliseconds)
                &&& final(self)@ == (ProxyView {
                    surface_infos: old(self)@.surface_infos.insert(
                        sid,
                        after_frame(old(self)@.surface_infos[sid]),
                    ),
                    ..old(self)@
                })
            },
            !old(self)@.surface_infos.contains_key(sid) ==> {
                &&& effects@ == Seq::<Effect>::empty()
                &&& final(self)@ == old(self)@
            },
    {
        let mut effects: Vec<Effect> = Vec::new();
        if let Some(info) = self.sid_to_surface_info_dict.get(sid) {
            if let Some(frame_oid) = info.frame_oid {
                effects.push(Effect::CallbackDone { callback: frame_oid, time: milliseconds });
                effects.push(Effect::DeleteId { display: display_id(), id: frame_oid.get_value() });
            }
            if let Some(buffer_oid) = info.buffer_oid {
                effects.push(Effect::BufferRelease { buffer: buffer_oid });
            }
            let mut info = info;
            info.frame_oid = None;
            info.buffer_oid = None;
            proof {
                self.sid_to_surface_info_dict.lemma_order();
            }
            self.sid_to_surface_info_dict.insert(sid, info);
            assert(effects@ =~= frame_effects(old(self)@.surface_infos[sid], milliseconds));
        }
        effects
    }

    /// The surface object to name in focus messages about `sid`.
    fn focus_target(&self, sid: SurfaceId) -> (surface: Option<ObjectId>)
        requires
            self.wf(),
        ensures
            surface == focus_object(self@.surface_infos, sid),
    {
        if sid.is_valid() {
            match self.sid_to_surface_info_dict.get(sid) {
                Some(info) => info.surface_oid,
                None => None,
            }
        } else {
            None
        }
    }

    /// The pointer focus moved from one surface to another: every pointer
    /// object leaves the old surface, then every pointer object enters the
    /// new one. A surface that is invalid or unknown here has no part in it.
    pub fn on_pointer_focus_changed(
        &self,
        old_sid: SurfaceId,
        new_sid: SurfaceId,
        position: Position,
    ) -> (effects: Vec<Effect>)
        requires
            self.wf(),
        ensures
            effects@ == pointer_leaves(self@.pointers, self@.surface_infos, old_sid)
                + pointer_enters(self@.pointers, self@.surface_infos, new_sid, position),
    {
        let mut effects: Vec<Effect> = Vec::new();
        if let Some(surface) = self.focus_target(old_sid) {
            tell_all(&self.pointer_oids, &Telling::PointerLeave { surface }, &mut effects);
        }
        let ghost leaves = effects@;
        assert(leaves =~= pointer_leaves(self@.pointers, self@.surface_infos, old_sid));
        if let Some(surface) = self.focus_target(new_sid) {
            tell_all(&self.pointer_oids, &Telling::PointerEnter { surface, position }, &mut effects);
        }
        assert(effects@ =~= leaves + pointer_enters(
            self@.pointers,
            self@.surface_infos,
            new_sid,
            position,
        ));
        effects
    }

    /// The pointer moved: every pointer object is told.
    pub fn on_pointer_relative_motion(
        &self,
        _sid: SurfaceId,
        position: Position,
        milliseconds: Milliseconds,
    ) -> (effects: Vec<Effect>)
        ensures
            effects@ == fan_out(
                self@.pointers,
                Notice::PointerMotion { position, time: milliseconds },
            ),
    {
        let mut effects: Vec<Effect> = Vec::new();
        tell_all(
            &self.pointer_oids,
            &Telling::PointerMotion { position, time: milliseconds },
            &mut effects,
        );
        effects
    }

    /// A pointer button changed: every pointer object is told, all under the
    /// serial `serial`, which the caller takes from the connection once.
    pub fn on_pointer_button(&self, btn: Button, serial: u32) -> (effects: Vec<Effect>)
        ensures
            effects@ == fan_out(self@.pointers, Notice::PointerButton { button: btn, serial }),
    {
        let mut effects: Vec<Effect> = Vec::new();
        tell_all(&self.pointer_oids, &Telling::PointerButton { button: btn, serial }, &mut effects);
        effects
    }

    /// The pointer scrolled. The vertical step is negated, since screens
    /// count downwards and scrolling counts upwards. Every pointer object is
    /// told, for the vertical and then the horizontal axis, a discrete step
    /// if there is one and then the continuous motion or a stop; a frame
    /// marker closes what each object is told.
    pub fn on_pointer_axis(&self, axis: Axis) -> (effects: Vec<Effect>)
        requires
            axis.discrete.y > isize::MIN,
        ensures
            effects@ == fan_out(self@.pointers, Notice::PointerAxis { axis }),
    {
        let mut effects: Vec<Effect> = Vec::new();
        tell_all(&self.pointer_oids, &Telling::PointerAxis { axis }, &mut effects);
        effects
    }

    /// The keyboard focus moved from one surface to another: every keyboard
    /// object leaves the old surface, then every keyboard object enters the
    /// new one. Behind each leave the surface that loses the focus is
    /// reconfigured, so that its shell learns that it is no longer active.
    /// `old_context` is what the domain knows of that surface, `focused` the
    /// surface that has the keyboard focus now.
    pub fn on_keyboard_focus_changed(
        &mut self,
        old_sid: SurfaceId,
        new_sid: SurfaceId,
        old_context: Option<SurfaceContext>,
        focused: SurfaceId,
    ) -> (effects: Vec<Effect>)
        requires
            old(self).wf(),
        ensures
            *final(self) == *old(self),
            effects@ == keyboard_leaves(
                old(self)@.keyboards,
                old(self)@.surface_infos,
                old_sid,
                old_context,
                focused,
            ) + keyboard_enters(old(self)@.keyboards, old(self)@.surface_infos, new_sid),
    {
        let mut effects: Vec<Effect> = Vec::new();
        if let Some(surface) = self.focus_target(old_sid) {
            let then = self.refresh(old_sid, old_context, focused);
            tell_all(&self.keyboard_oids, &Telling::KeyboardLeave { surface, then }, &mut effects);
        }
        let ghost leaves = effects@;
        assert(leaves =~= keyboard_leaves(
            self@.keyboards,
            self@.surface_infos,
            old_sid,
            old_context,
            focused,
        ));
        if let Some(surface) = self.focus_target(new_sid) {
            tell_all(&self.keyboard_oids, &Telling::KeyboardEnter { surface }, &mut effects);
        }
        assert(effects@ =~= leaves + keyboard_enters(
            self@.keyboards,
            self@.surface_infos,
            new_sid,
        ));
        effects
    }

    fn refresh(&self, sid: SurfaceId, context: Option<SurfaceContext>, focused: SurfaceId) -> (effects:
        Vec<Effect>)
        requires
            self.wf(),
        ensures
            effects@ == refreshed(self@.surface_infos, sid, context, focused),
    {
        match context {
            Some(context) => self.on_surface_reconfigured(
                sid,
                context.desired_size,
                context.state_flags,
                focused,
            ),
            None => Vec::new(),
        }
    }

    /// The offered transfer changed. The session has nothing to do.
    pub fn on_transfer_offered(&mut self)
        ensures
            *final(self) == *old(self),
    {
    }

    /// Another client asked for the data of the selected transfer: the
    /// selected data source, if there is one, is told to send it.
    pub fn on_transfer_requested(&mut self) -> (effects: Vec<Effect>)
        ensures
            *final(self) == *old(self),
            effects@ == (match old(self)@.data_source {
                Some(data_source) => seq![Effect::DataSourceSend { data_source }],
                None => Seq::empty(),
            }),
    {
        let mut effects: Vec<Effect> = Vec::new();
        if let Some(data_source) = self.data_source_oid {
            effects.push(Effect::DataSourceSend { data_source });
        }
        assert(effects@ =~= (match self@.data_source {
            Some(data_source) => seq![Effect::DataSourceSend { data_source }],
            None => Seq::empty(),
        }));
        effects
    }

    /// A surface got a new size or state: its shell object is told.
    /// `focused` is the surface that has the keyboard focus now.
    pub fn on_surface_reconfigured(
        &self,
        sid: SurfaceId,
        size: Size,
        state_flags: SurfaceState,
        focused: SurfaceId,
    ) -> (effects: Vec<Effect>)
        requires
            self.wf(),
        ensures
            effects@ == reconfiguration(self@.surface_infos, sid, size, state_flags, focused),
    {
        let mut effects: Vec<Effect> = Vec::new();
        if let Some(info) = self.sid_to_surface_info_dict.get(sid) {
            match info.shell_surface_oid {
                Some(ShellSurfaceOid::Shell(shell_surface)) => {
                    effects.push(Effect::ShellSurfaceConfigure { shell_surface, size });
                },
                Some(ShellSurfaceOid::ZxdgToplevelV6(shell_surface, toplevel)) => {
                    effects.push(
                        Effect::ToplevelConfigure {
                            toplevel,
                            size,
                            maximized: state_flags.maximized,
                            activated: sid == focused,
                        },
                    );
                    effects.push(Effect::XdgSurfaceConfigure { shell_surface });
                },
                None => {
                    effects.push(
                        Effect::Report { diagnostic: Diagnostic::NotInShell { surface: sid } },
                    );
                },
            }
        }
        assert(effects@ =~= reconfiguration(self@.surface_infos, sid, size, state_flags, focused));
        effects
    }

    /// Whether the session awaits the end of a capture.
    pub fn awaits_capture(&self) -> (awaiting: bool)
        ensures
            awaiting == (self@.screenshot.state is AwaitingCapture),
    {
        match self.screenshot.state {
            ScreenshotState::AwaitingCapture { requester: _ } => true,
            _ => false,
        }
    }

    /// The capture is done; `captured` says whether the domain has pixels to
    /// copy. While a capture is awaited, the pixels are copied into the
    /// memory held, the requester is told, and the mediator's requester slot
    /// is cleared, whether or not the copy could be made. Otherwise nothing
    /// happens.
    pub fn on_screenshot_done(&mut self, captured: bool) -> (effects: Vec<Effect>)
        requires
            old(self).wf(),
        ensures
            final(self).wf(),
            effects@ == finished(old(self)@.screenshot, captured).1,
            final(self)@ == (ProxyView {
                screenshot: finished(old(self)@.screenshot, captured).0,
                ..old(self)@
            }),
    {
        self.screenshot.finish(captured)
    }
}

} // verus!
