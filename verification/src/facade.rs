//! What a client's requests do to its session.
//!
//! Each operation updates the session's tables and returns what the domain
//! and the mediator are to be asked, in order. Where the domain has to
//! allocate something first, the caller asks it and passes the answer in.

use vstd::prelude::*;
use crate::buffer::BufferInfo;
use crate::collections::{with_item, without_item};
use crate::defs::{Area, DmabufId, EglImageId, Memory, MemoryPoolId, MemoryViewId, ObjectId};
use crate::defs::{Position, PositionerInfo, ShellSurfaceOid, ShowReason, SurfaceId, Transfer};
use crate::effect::{Diagnostic, Effect};
use crate::gateway::{fan_out, tell_all, Notice, Telling};
use crate::proxy::{related_info, Proxy, ProxyView, Relation};
use crate::screenshot::{reclaimed, requested};
use crate::surface::SurfaceInfo;

verus! {

broadcast use vstd::std_specs::hash::group_hash_axioms;

/// What is on file under the value of an object.
pub open spec fn lookup<V>(table: Map<u32, V>, oid: ObjectId) -> Option<V> {
    if table.contains_key(oid.value) {
        Some(table[oid.value])
    } else {
        None
    }
}

/// The domain surface behind a surface object.
pub open spec fn surface_of(surfaces: Map<ObjectId, SurfaceId>, oid: ObjectId) -> Option<SurfaceId> {
    if surfaces.contains_key(oid) {
        Some(surfaces[oid])
    } else {
        None
    }
}

/// The report of a request that named an unknown surface object.
pub open spec fn unknown_surface(surface_oid: ObjectId) -> Seq<Effect> {
    seq![Effect::Report { diagnostic: Diagnostic::UnknownSurface { surface: surface_oid } }]
}

/// The request that attaches a buffer of the given backend to a surface.
pub open spec fn attachment(info: BufferInfo, sid: SurfaceId) -> Effect {
    match info {
        BufferInfo::Shm { mpid, mvid } => Effect::AttachShm { view: mvid, surface: sid },
        BufferInfo::EglImage { eiid } => Effect::AttachEglImage { image: eiid, surface: sid },
        BufferInfo::Dmabuf { dbid } => Effect::AttachDmabuf { buffer: dbid, surface: sid },
    }
}

/// What attaching `buffer_oid` to `sid` asks for. The null object detaches:
/// the surface is unrelated and detached, whatever the buffer table holds.
/// A known buffer is attached by its recorded backend; an unknown one is
/// reported.
pub open spec fn attach_effects(view: ProxyView, buffer_oid: ObjectId, sid: SurfaceId) -> Seq<
    Effect,
> {
    if buffer_oid.is_null() {
        seq![Effect::UnrelateSurface { surface: sid }, Effect::DetachSurface { surface: sid }]
    } else {
        match lookup(view.buffers, buffer_oid) {
            Some(info) => seq![attachment(info, sid)],
            None => seq![Effect::Report { diagnostic: Diagnostic::UnknownBuffer { buffer: buffer_oid } }],
        }
    }
}

/// The session after `relation` was entered into the record of `sid`.
pub open spec fn with_relation(view: ProxyView, sid: SurfaceId, relation: Relation) -> ProxyView {
    ProxyView {
        related_surfaces: with_item(view.related_surfaces, sid),
        surface_infos: view.surface_infos.insert(
            sid,
            related_info(view.surface_infos, sid, relation),
        ),
        ..view
    }
}

/// The session after attaching `buffer_oid` to `sid`: a known buffer becomes
/// the surface's pending buffer, in place of any other, and the rest of the
/// surface's record is as before; detaching and an unknown buffer change
/// nothing.
pub open spec fn attached(view: ProxyView, buffer_oid: ObjectId, sid: SurfaceId) -> ProxyView {
    if !buffer_oid.is_null() && view.buffers.contains_key(buffer_oid.value) {
        with_relation(view, sid, Relation::Buffer(buffer_oid))
    } else {
        view
    }
}

/// The session after the shell object of `sid` was cleared, if `sid` has a
/// record.
pub open spec fn without_shell(view: ProxyView, sid: SurfaceId) -> ProxyView {
    if view.surface_infos.contains_key(sid) {
        ProxyView {
            surface_infos: view.surface_infos.insert(
                sid,
                SurfaceInfo { shell_surface_oid: None, ..view.surface_infos[sid] },
            ),
            ..view
        }
    } else {
        view
    }
}

/// The memory pool behind a buffer, where the buffer is a view into one.
pub open spec fn pool_of(buffers: Map<u32, BufferInfo>, buffer_oid: ObjectId) -> Option<
    MemoryPoolId,
> {
    match lookup(buffers, buffer_oid) {
        Some(BufferInfo::Shm { mpid, mvid }) => Some(mpid),
        _ => None,
    }
}

/// Whether a record's shell object is the current shell's surface `parent`.
pub open spec fn is_shell_of(info: SurfaceInfo, parent: ObjectId) -> bool {
    match info.shell_surface_oid {
        Some(ShellSurfaceOid::ZxdgToplevelV6(shell_surface, _)) => shell_surface == parent,
        _ => false,
    }
}

/// The position in `order` of the first surface whose shell object is
/// `parent`.
pub open spec fn first_shell_match(
    order: Seq<SurfaceId>,
    infos: Map<SurfaceId, SurfaceInfo>,
    parent: ObjectId,
) -> Option<int>
    decreases order.len(),
{
    if order.len() == 0 {
        None
    } else {
        match first_shell_match(order.drop_last(), infos, parent) {
            Some(i) => Some(i),
            None => if is_shell_of(infos[order.last()], parent) {
                Some(order.len() - 1)
            } else {
                None
            },
        }
    }
}

/// A first match in a prefix is the first match in the whole.
pub proof fn lemma_first_shell_match_extends(
    order: Seq<SurfaceId>,
    infos: Map<SurfaceId, SurfaceInfo>,
    parent: ObjectId,
    k: int,
)
    requires
        0 <= k <= order.len(),
        first_shell_match(order.take(k), infos, parent) is Some,
    ensures
        first_shell_match(order, infos, parent) == first_shell_match(order.take(k), infos, parent),
    decreases order.len() - k,
{
    if k < order.len() {
        assert(order.take(k + 1).drop_last() =~= order.take(k));
        lemma_first_shell_match_extends(order, infos, parent, k + 1);
    } else {
        assert(order.take(k) =~= order);
    }
}

impl Proxy {
    /// Takes note of a memory pool that the domain made for this client.
    pub fn create_memory_pool(&mut self, mpid: MemoryPoolId) -> (id: MemoryPoolId)
        requires
            old(self).wf(),
        ensures
            final(self).wf(),
            id == mpid,
            final(self)@ == (ProxyView { pools: with_item(old(self)@.pools, mpid), ..old(self)@ }),
    {
        self.memory_pools.insert(mpid);
        mpid
    }

    /// Gives up a memory pool that the session owns: the pool leaves the
    /// session and the domain is asked to destroy it. For a pool the session
    /// does not own, such as one given up before, nothing happens.
    pub fn destroy_memory_pool(&mut self, mpid: MemoryPoolId) -> (effects: Vec<Effect>)
        requires
            old(self).wf(),
        ensures
            final(self).wf(),
            effects@ == (if old(self)@.pools.contains(mpid) {
                seq![Effect::DestroyMemoryPool { pool: mpid }]
            } else {
                Seq::empty()
            }),
            final(self)@ == (ProxyView { pools: without_item(old(self)@.pools, mpid), ..old(self)@ }),
    {
        let mut effects: Vec<Effect> = Vec::new();
        if self.memory_pools.remove(mpid) {
            effects.push(Effect::DestroyMemoryPool { pool: mpid });
            assert(effects@ =~= seq![Effect::DestroyMemoryPool { pool: mpid }]);
        }
        effects
    }

    /// Records the memory view that the domain made for `buffer_oid`, if it
    /// made one. Where the domain refused, nothing is recorded.
    pub fn create_memory_view(
        &mut self,
        mpid: MemoryPoolId,
        buffer_oid: ObjectId,
        created: Option<MemoryViewId>,
    ) -> (result: Option<MemoryViewId>)
        requires
            old(self).wf(),
        ensures
            final(self).wf(),
            result == created,
            final(self)@ == (match created {
                Some(mvid) => ProxyView {
                    buffers: old(self)@.buffers.insert(
                        buffer_oid.value,
                        BufferInfo::Shm { mpid, mvid },
                    ),
                    ..old(self)@
                },
                None => old(self)@,
            }),
    {
        if let Some(mvid) = created {
            let info = BufferInfo::new_shm(mpid, mvid);
            self.buffer_oid_to_info_dict.insert(buffer_oid.value, info);
        }
        created
    }

    /// Records the hardware image that the domain made for `buffer_oid`, if
    /// it made one. Where the domain refused, nothing is recorded.
    pub fn create_egl_image(&mut self, buffer_oid: ObjectId, created: Option<EglImageId>) -> (result:
        Option<EglImageId>)
        requires
            old(self).wf(),
        ensures
            final(self).wf(),
            result == created,
            final(self)@ == (match created {
                Some(eiid) => ProxyView {
                    buffers: old(self)@.buffers.insert(
                        buffer_oid.value,
                        BufferInfo::EglImage { eiid },
                    ),
                    ..old(self)@
                },
                None => old(self)@,
            }),
    {
        if let Some(eiid) = created {
            let info = BufferInfo::new_egl_image(eiid);
            self.buffer_oid_to_info_dict.insert(buffer_oid.value, info);
        }
        created
    }

    /// Records the buffer that the domain imported for `buffer_oid`, if it
    /// imported one. Where the domain refused, nothing is recorded.
    pub fn import_dmabuf(&mut self, buffer_oid: ObjectId, imported: Option<DmabufId>) -> (result:
        Option<DmabufId>)
        requires
            old(self).wf(),
        ensures
            final(self).wf(),
            result == imported,
            final(self)@ == (match imported {
                Some(dbid) => ProxyView {
                    buffers: old(self)@.buffers.insert(buffer_oid.value, BufferInfo::Dmabuf { dbid }),
                    ..old(self)@
                },
                None => old(self)@,
            }),
    {
        if let Some(dbid) = imported {
            let info = BufferInfo::new_dmabuf(dbid);
            self.buffer_oid_to_info_dict.insert(buffer_oid.value, info);
        }
        imported
    }

    /// The backend recorded for a buffer object.
    pub fn get_buffer_info(&self, buffer_oid: ObjectId) -> (info: Option<BufferInfo>)
        ensures
            info == lookup(self@.buffers, buffer_oid),
    {
        match self.buffer_oid_to_info_dict.get(&buffer_oid.value) {
            Some(info) => Some(*info),
            None => None,
        }
    }

    /// The record of a domain surface.
    pub fn get_surface_info(&self, sid: SurfaceId) -> (info: Option<SurfaceInfo>)
        requires
            self.wf(),
        ensures
            info == (if self@.surface_infos.contains_key(sid) {
                Some(self@.surface_infos[sid])
            } else {
                None
            }),
    {
        self.sid_to_surface_info_dict.get(sid)
    }

    pub fn define_region(&mut self, region_oid: ObjectId, region: Area)
        requires
            old(self).wf(),
        ensures
            final(self).wf(),
            final(self)@ == (ProxyView {
                regions: old(self)@.regions.insert(region_oid.value, region),
                ..old(self)@
            }),
    {
        self.regions.insert(region_oid.value, region);
    }

    pub fn undefine_region(&mut self, region_oid: ObjectId)
        requires
            old(self).wf(),
        ensures
            final(self).wf(),
            final(self)@ == (ProxyView {
                regions: old(self)@.regions.remove(region_oid.value),
                ..old(self)@
            }),
    {
        self.regions.remove(&region_oid.value);
    }

    pub fn add_pointer_oid(&mut self, pointer_oid: ObjectId)
        requires
            old(self).wf(),
        ensures
            final(self).wf(),
            final(self)@ == (ProxyView {
                pointers: with_item(old(self)@.pointers, pointer_oid),
                ..old(self)@
            }),
    {
        self.pointer_oids.insert(pointer_oid);
    }

    pub fn remove_pointer_oid(&mut self, pointer_oid: ObjectId)
        requires
            old(self).wf(),
        ensures
            final(self).wf(),
            final(self)@ == (ProxyView {
                pointers: without_item(old(self)@.pointers, pointer_oid),
                ..old(self)@
            }),
    {
        let _ = self.pointer_oids.remove(pointer_oid);
    }

    pub fn add_keyboard_oid(&mut self, keyboard_oid: ObjectId)
        requires
            old(self).wf(),
        ensures
            final(self).wf(),
            final(self)@ == (ProxyView {
                keyboards: with_item(old(self)@.keyboards, keyboard_oid),
                ..old(self)@
            }),
    {
        self.keyboard_oids.insert(keyboard_oid);
    }

    pub fn remove_keyboard_oid(&mut self, keyboard_oid: ObjectId)
        requires
            old(self).wf(),
        ensures
            final(self).wf(),
            final(self)@ == (ProxyView {
                keyboards: without_item(old(self)@.keyboards, keyboard_oid),
                ..old(self)@
            }),
    {
        let _ = self.keyboard_oids.remove(keyboard_oid);
    }

    pub fn add_data_device_oid(&mut self, data_device_oid: ObjectId)
        requires
            old(self).wf(),
        ensures
            final(self).wf(),
            final(self)@ == (ProxyView {
                data_devices: with_item(old(self)@.data_devices, data_device_oid),
                ..old(self)@
            }),
    {
        self.data_device_oids.insert(data_device_oid);
    }

    pub fn remove_data_device_oid(&mut self, data_device_oid: ObjectId)
        requires
            old(self).wf(),
        ensures
            final(self).wf(),
            final(self)@ == (ProxyView {
                data_devices: without_item(old(self)@.data_devices, data_device_oid),
                ..old(self)@
            }),
    {
        let _ = self.data_device_oids.remove(data_device_oid);
    }

    pub fn set_positioner(&mut self, oid: ObjectId, positioner: PositionerInfo)
        requires
            old(self).wf(),
        ensures
            final(self).wf(),
            final(self)@ == (ProxyView {
                positioners: old(self)@.positioners.insert(oid.value, positioner),
                ..old(self)@
            }),
    {
        self.positioners.insert(oid.value, positioner);
    }

    pub fn get_positioner(&mut self, oid: ObjectId) -> (positioner: Option<PositionerInfo>)
        ensures
            *final(self) == *old(self),
            positioner == lookup(old(self)@.positioners, oid),
    {
        if let Some(positioner) = self.positioners.get(&oid.value) {
            Some(*positioner)
        } else {
            None
        }
    }

    pub fn remove_positioner(&mut self, oid: ObjectId)
        requires
            old(self).wf(),
        ensures
            final(self).wf(),
            final(self)@ == (ProxyView {
                positioners: old(self)@.positioners.remove(oid.value),
                ..old(self)@
            }),
    {
        self.positioners.remove(&oid.value);
    }

    /// Registers the data types that a data source offers, in place of what
    /// was registered for it before.
    pub fn set_transfer(&mut self, oid: ObjectId, transfer: Transfer)
        requires
            old(self).wf(),
        ensures
            final(self).wf(),
            final(self)@ == (ProxyView {
                transfers: old(self)@.transfers.insert(oid.value, transfer),
                ..old(self)@
            }),
    {
        self.transfers.insert(oid.value, transfer);
    }

    /// The transfer registered for a data source.
    pub fn get_transfer(&self, oid: ObjectId) -> (transfer: Option<&Transfer>)
        ensures
            match transfer {
                Some(transfer) => lookup(self@.transfers, oid) == Some(*transfer),
                None => lookup(self@.transfers, oid) is None,
            },
    {
        self.transfers.get(&oid.value)
    }

    /// Makes the transfer of a registered data source the active one: the
    /// mediator learns that this client offers, and the domain gets the
    /// transfer in place of any other. For a data source that was never
    /// registered this is reported and nothing changes.
    pub fn select_transfer(&mut self, data_source_oid: ObjectId) -> (effects: Vec<Effect>)
        requires
            old(self).wf(),
        ensures
            final(self).wf(),
            old(self)@.transfers.contains_key(data_source_oid.value) ==> {
                &&& final(self)@ == (ProxyView {
                    data_source: Some(data_source_oid),
                    ..old(self)@
                })
                &&& effects@ == seq![
                    Effect::RegisterTransferOfferer { client: Some(old(self)@.client) },
                    Effect::SetTransfer { data_source: data_source_oid },
                ]
            },
            !old(self)@.transfers.contains_key(data_source_oid.value) ==> {
                &&& final(self)@ == old(self)@
                &&& effects@ == seq![
                    Effect::Report {
                        diagnostic: Diagnostic::UnknownTransfer { data_source: data_source_oid },
                    },
                ]
            },
    {
        let mut effects: Vec<Effect> = Vec::new();
        if self.transfers.contains_key(&data_source_oid.value) {
            self.data_source_oid = Some(data_source_oid);
            effects.push(Effect::RegisterTransferOfferer { client: Some(self.client_id) });
            effects.push(Effect::SetTransfer { data_source: data_source_oid });
            assert(effects@ =~= seq![
                Effect::RegisterTransferOfferer { client: Some(old(self)@.client) },
                Effect::SetTransfer { data_source: data_source_oid },
            ]);
        } else {
            effects.push(
                Effect::Report {
                    diagnostic: Diagnostic::UnknownTransfer { data_source: data_source_oid },
                },
            );
            assert(effects@ =~= seq![
                Effect::Report {
                    diagnostic: Diagnostic::UnknownTransfer { data_source: data_source_oid },
                },
            ]);
        }
        effects
    }

    /// Removes the registration of a data source. If its transfer was the
    /// active one, it stays so until another is selected.
    pub fn remove_transfer(&mut self, oid: ObjectId)
        requires
            old(self).wf(),
        ensures
            final(self).wf(),
            final(self)@ == (ProxyView {
                transfers: old(self)@.transfers.remove(oid.value),
                ..old(self)@
            }),
    {
        self.transfers.remove(&oid.value);
    }

    /// Makes a defined region the input region of a surface. An undefined
    /// region does nothing.
    pub fn set_input_region(&self, sid: SurfaceId, region_oid: ObjectId) -> (effects: Vec<Effect>)
        ensures
            effects@ == (match lookup(self@.regions, region_oid) {
                Some(region) => seq![
                    Effect::SetSurfaceOffset { surface: sid, offset: region.pos },
                    Effect::SetSurfaceRequestedSize { surface: sid, size: region.size },
                ],
                None => Seq::empty(),
            }),
    {
        let mut effects: Vec<Effect> = Vec::new();
        if let Some(region) = self.regions.get(&region_oid.value) {
            effects.push(Effect::SetSurfaceOffset { surface: sid, offset: region.pos });
            effects.push(Effect::SetSurfaceRequestedSize { surface: sid, size: region.size });
            assert(effects@ =~= seq![
                Effect::SetSurfaceOffset { surface: sid, offset: region.pos },
                Effect::SetSurfaceRequestedSize { surface: sid, size: region.size },
            ]);
        }
        effects
    }

    /// Binds the surface object `oid` to the surface that the domain
    /// allocated for it, and has the mediator relate that surface to this
    /// client. Where the domain refused, nothing is bound and nothing asked.
    pub fn create_surface(&mut self, oid: ObjectId, allocated: Option<SurfaceId>) -> (result: (
        Option<SurfaceId>,
        Vec<Effect>,
    ))
        requires
            old(self).wf(),
        ensures
            final(self).wf(),
            result.0 == allocated,
            match allocated {
                Some(sid) => {
                    &&& final(self)@ == (ProxyView {
                        surface_objects: with_item(old(self)@.surface_objects, oid),
                        surfaces: old(self)@.surfaces.insert(oid, sid),
                        ..with_relation(old(self)@, sid, Relation::Surface(oid))
                    })
                    &&& result.1@ == seq![
                        Effect::RelateSurfaceToClient { surface: sid, client: old(self)@.client },
                    ]
                },
                None => final(self)@ == old(self)@ && result.1@ == Seq::<Effect>::empty(),
            },
    {
        match allocated {
            Some(sid) => {
                self.surface_oid_to_sid_dict.insert(oid, sid);
                self.relate_sid_with(sid, Relation::Surface(oid));
                let mut effects: Vec<Effect> = Vec::new();
                effects.push(Effect::RelateSurfaceToClient { surface: sid, client: self.client_id });
                assert(effects@ =~= seq![
                    Effect::RelateSurfaceToClient { surface: sid, client: old(self)@.client },
                ]);
                (allocated, effects)
            },
            None => (allocated, Vec::new()),
        }
    }

    /// The domain surface behind a surface object.
    pub fn get_surface_id(&self, surface_oid: ObjectId) -> (sid: Option<SurfaceId>)
        requires
            self.wf(),
        ensures
            sid == surface_of(self@.surfaces, surface_oid),
    {
        self.surface_oid_to_sid_dict.get(surface_oid)
    }

    /// Attaches a buffer to a surface, or with the null object detaches
    /// whatever is attached.
    pub fn attach(&mut self, buffer_oid: ObjectId, sid: SurfaceId, _x: i32, _y: i32) -> (effects:
        Vec<Effect>)
        requires
            old(self).wf(),
        ensures
            final(self).wf(),
            effects@ == attach_effects(old(self)@, buffer_oid, sid),
            final(self)@ == attached(old(self)@, buffer_oid, sid),
    {
        if buffer_oid.is_null() {
            let mut effects: Vec<Effect> = Vec::new();
            effects.push(Effect::UnrelateSurface { surface: sid });
            effects.push(Effect::DetachSurface { surface: sid });
            assert(effects@ =~= attach_effects(old(self)@, buffer_oid, sid));
            effects
        } else if let Some(info) = self.get_buffer_info(buffer_oid) {
            self.relate_sid_with(sid, Relation::Buffer(buffer_oid));
            let mut effects: Vec<Effect> = Vec::new();
            match info {
                BufferInfo::Shm { mpid, mvid } => {
                    effects.push(Effect::AttachShm { view: mvid, surface: sid });
                },
                BufferInfo::EglImage { eiid } => {
                    effects.push(Effect::AttachEglImage { image: eiid, surface: sid });
                },
                BufferInfo::Dmabuf { dbid } => {
                    effects.push(Effect::AttachDmabuf { buffer: dbid, surface: sid });
                },
            }
            assert(effects@ =~= attach_effects(old(self)@, buffer_oid, sid));
            effects
        } else {
            let mut effects: Vec<Effect> = Vec::new();
            effects.push(
                Effect::Report { diagnostic: Diagnostic::UnknownBuffer { buffer: buffer_oid } },
            );
            assert(effects@ =~= attach_effects(old(self)@, buffer_oid, sid));
            effects
        }
    }

    /// Notes the frame callback to answer when the surface is next drawn, in
    /// place of one that is still pending.
    pub fn set_frame(&mut self, sid: SurfaceId, frame_oid: ObjectId)
        requires
            old(self).wf(),
        ensures
            final(self).wf(),
            final(self)@ == with_relation(old(self)@, sid, Relation::Frame(frame_oid)),
    {
        self.relate_sid_with(sid, Relation::Frame(frame_oid));
    }

    /// Binds a shell object to the surface of `surface_oid` and has the
    /// domain show the surface for `reason`. An unknown surface object is
    /// reported and nothing changes.
    pub fn show(
        &mut self,
        surface_oid: ObjectId,
        shell_surface_oid: ShellSurfaceOid,
        reason: ShowReason,
    ) -> (effects: Vec<Effect>)
        requires
            old(self).wf(),
        ensures
            final(self).wf(),
            match surface_of(old(self)@.surfaces, surface_oid) {
                Some(sid) => {
                    &&& final(self)@ == with_relation(
                        old(self)@,
                        sid,
                        Relation::Shell(shell_surface_oid),
                    )
                    &&& effects@ == seq![Effect::ShowSurface { surface: sid, reason }]
                },
                None => {
                    &&& final(self)@ == old(self)@
                    &&& effects@ == unknown_surface(surface_oid)
                },
            },
    {
        if let Some(sid) = self.surface_oid_to_sid_dict.get(surface_oid) {
            self.relate_sid_with(sid, Relation::Shell(shell_surface_oid));
            let mut effects: Vec<Effect> = Vec::new();
            effects.push(Effect::ShowSurface { surface: sid, reason });
            assert(effects@ =~= seq![Effect::ShowSurface { surface: sid, reason }]);
            effects
        } else {
            let mut effects: Vec<Effect> = Vec::new();
            effects.push(
                Effect::Report { diagnostic: Diagnostic::UnknownSurface { surface: surface_oid } },
            );
            assert(effects@ =~= seq![
                Effect::Report { diagnostic: Diagnostic::UnknownSurface { surface: surface_oid } },
            ]);
            effects
        }
    }

    /// Has the domain hide the surface of `surface_oid` for `reason` and
    /// clears the shell object in its record. An unknown surface object is
    /// reported and nothing changes.
    pub fn hide_surface(&mut self, surface_oid: ObjectId, reason: ShowReason) -> (effects: Vec<Effect>)
        requires
            old(self).wf(),
        ensures
            final(self).wf(),
            match surface_of(old(self)@.surfaces, surface_oid) {
                Some(sid) => {
                    &&& final(self)@ == without_shell(old(self)@, sid)
                    &&& effects@ == seq![Effect::HideSurface { surface: sid, reason }]
                },
                None => {
                    &&& final(self)@ == old(self)@
                    &&& effects@ == unknown_surface(surface_oid)
                },
            },
    {
        let mut effects: Vec<Effect> = Vec::new();
        if let Some(sid) = self.surface_oid_to_sid_dict.get(surface_oid) {
            effects.push(Effect::HideSurface { surface: sid, reason });
            if let Some(info) = self.sid_to_surface_info_dict.get(sid) {
                let mut info = info;
                info.shell_surface_oid = None;
                proof {
                    self.sid_to_surface_info_dict.lemma_order();
                }
                self.sid_to_surface_info_dict.insert(sid, info);
            }
            assert(effects@ =~= seq![Effect::HideSurface { surface: sid, reason }]);
        } else {
            effects.push(
                Effect::Report { diagnostic: Diagnostic::UnknownSurface { surface: surface_oid } },
            );
            assert(effects@ =~= seq![
                Effect::Report { diagnostic: Diagnostic::UnknownSurface { surface: surface_oid } },
            ]);
        }
        effects
    }

    /// Places the surface of `surface_oid` relative to its parent. An
    /// unknown surface object is reported.
    pub fn set_relative_position(&self, surface_oid: ObjectId, x: isize, y: isize) -> (effects: Vec<
        Effect,
    >)
        requires
            self.wf(),
        ensures
            effects@ == (match surface_of(self@.surfaces, surface_oid) {
                Some(sid) => seq![
                    Effect::SetSurfaceRelativePosition { surface: sid, position: Position { x, y } },
                ],
                None => unknown_surface(surface_oid),
            }),
    {
        let mut effects: Vec<Effect> = Vec::new();
        if let Some(sid) = self.surface_oid_to_sid_dict.get(surface_oid) {
            let position = Position::new(x, y);
            effects.push(Effect::SetSurfaceRelativePosition { surface: sid, position });
            assert(effects@ =~= seq![
                Effect::SetSurfaceRelativePosition { surface: sid, position: Position { x, y } },
            ]);
        } else {
            self.report_unknown_surface(&mut effects, surface_oid);
        }
        effects
    }

    fn report_unknown_surface(&self, effects: &mut Vec<Effect>, surface_oid: ObjectId)
        requires
            old(effects)@.len() == 0,
        ensures
            final(effects)@ == unknown_surface(surface_oid),
    {
        effects.push(
            Effect::Report { diagnostic: Diagnostic::UnknownSurface { surface: surface_oid } },
        );
        assert(effects@ =~= unknown_surface(surface_oid));
    }

    /// Makes the surface of `parent_surface_oid` the parent of the surface of
    /// `surface_oid`, and puts the child at the parent's origin. With an
    /// unknown parent only the position is set; an unknown child is
    /// reported.
    pub fn relate(&self, surface_oid: ObjectId, parent_surface_oid: ObjectId) -> (effects: Vec<Effect>)
        requires
            self.wf(),
        ensures
            effects@ == (match surface_of(self@.surfaces, surface_oid) {
                Some(sid) => (match surface_of(self@.surfaces, parent_surface_oid) {
                    Some(parent) => seq![Effect::RelateSurfaces { surface: sid, parent }],
                    None => Seq::empty(),
                }) + seq![
                    Effect::SetSurfaceRelativePosition {
                        surface: sid,
                        position: Position { x: 0, y: 0 },
                    },
                ],
                None => unknown_surface(surface_oid),
            }),
    {
        let mut effects: Vec<Effect> = Vec::new();
        if let Some(sid) = self.surface_oid_to_sid_dict.get(surface_oid) {
            if let Some(parent) = self.surface_oid_to_sid_dict.get(parent_surface_oid) {
                effects.push(Effect::RelateSurfaces { surface: sid, parent });
            }
            effects.push(
                Effect::SetSurfaceRelativePosition { surface: sid, position: Position::default() },
            );
            assert(effects@ =~= (match surface_of(self@.surfaces, parent_surface_oid) {
                Some(parent) => seq![Effect::RelateSurfaces { surface: sid, parent }],
                None => Seq::empty(),
            }) + seq![
                Effect::SetSurfaceRelativePosition { surface: sid, position: Position { x: 0, y: 0 } },
            ]);
        } else {
            self.report_unknown_surface(&mut effects, surface_oid);
        }
        effects
    }

    /// Takes the surface of `surface_oid` from its parent. An unknown
    /// surface object is reported.
    pub fn unrelate(&self, surface_oid: ObjectId) -> (effects: Vec<Effect>)
        requires
            self.wf(),
        ensures
            effects@ == (match surface_of(self@.surfaces, surface_oid) {
                Some(sid) => seq![Effect::UnrelateSurface { surface: sid }],
                None => unknown_surface(surface_oid),
            }),
    {
        let mut effects: Vec<Effect> = Vec::new();
        if let Some(sid) = self.surface_oid_to_sid_dict.get(surface_oid) {
            effects.push(Effect::UnrelateSurface { surface: sid });
            assert(effects@ =~= seq![Effect::UnrelateSurface { surface: sid }]);
        } else {
            self.report_unknown_surface(&mut effects, surface_oid);
        }
        effects
    }

    /// Makes the surface of `surface_oid` the cursor: its offset becomes the
    /// hotspot negated, and the domain takes it as the cursor surface in
    /// place of any other. An unknown surface object is reported.
    pub fn set_as_cursor(&self, surface_oid: ObjectId, hotspot_x: isize, hotspot_y: isize) -> (effects:
        Vec<Effect>)
        requires
            self.wf(),
            hotspot_x > isize::MIN,
            hotspot_y > isize::MIN,
        ensures
            effects@ == (match surface_of(self@.surfaces, surface_oid) {
                Some(sid) => seq![
                    Effect::SetSurfaceOffset {
                        surface: sid,
                        offset: Position { x: (-hotspot_x) as isize, y: (-hotspot_y) as isize },
                    },
                    Effect::SetSurfaceAsCursor { surface: sid },
                ],
                None => unknown_surface(surface_oid),
            }),
    {
        let mut effects: Vec<Effect> = Vec::new();
        if let Some(sid) = self.surface_oid_to_sid_dict.get(surface_oid) {
            let position = Position::new(-hotspot_x, -hotspot_y);
            effects.push(Effect::SetSurfaceOffset { surface: sid, offset: position });
            effects.push(Effect::SetSurfaceAsCursor { surface: sid });
            assert(effects@ =~= seq![
                Effect::SetSurfaceOffset {
                    surface: sid,
                    offset: Position { x: (-hotspot_x) as isize, y: (-hotspot_y) as isize },
                },
                Effect::SetSurfaceAsCursor { surface: sid },
            ]);
        } else {
            self.report_unknown_surface(&mut effects, surface_oid);
        }
        effects
    }

    /// Notes which output of the domain an output object stands for.
    pub fn relate_output_oid_with_id(&mut self, oid: ObjectId, id: i32)
        requires
            old(self).wf(),
        ensures
            final(self).wf(),
            final(self)@ == (ProxyView {
                outputs: old(self)@.outputs.insert(oid.value, id),
                ..old(self)@
            }),
    {
        self.output_oid_to_id.insert(oid.value, id);
    }

    /// Takes a request to capture the output of `output_oid` into the buffer
    /// `buffer_oid`, to be answered to `screenshooter_oid`. While another
    /// request is outstanding it is turned down with one report. Otherwise
    /// the pool behind the buffer is asked back from the domain, and the
    /// handshake goes on when `on_memory_reclaimed` brings the memory; for a
    /// buffer without a pool it goes on at once with the memory already
    /// held.
    pub fn take_screenshot(
        &mut self,
        screenshooter_oid: ObjectId,
        output_oid: ObjectId,
        buffer_oid: ObjectId,
    ) -> (effects: Vec<Effect>)
        requires
            old(self).wf(),
        ensures
            final(self).wf(),
            effects@ == requested(
                old(self)@.screenshot,
                old(self)@.client,
                screenshooter_oid,
                lookup(old(self)@.outputs, output_oid),
                pool_of(old(self)@.buffers, buffer_oid),
            ).1,
            final(self)@ == (ProxyView {
                screenshot: requested(
                    old(self)@.screenshot,
                    old(self)@.client,
                    screenshooter_oid,
                    lookup(old(self)@.outputs, output_oid),
                    pool_of(old(self)@.buffers, buffer_oid),
                ).0,
                ..old(self)@
            }),
    {
        let pool = match self.buffer_oid_to_info_dict.get(&buffer_oid.value) {
            Some(BufferInfo::Shm { mpid, mvid }) => Some(*mpid),
            _ => None,
        };
        let output = match self.output_oid_to_id.get(&output_oid.value) {
            Some(output_id) => Some(*output_id),
            None => None,
        };
        self.screenshot.request(self.client_id, screenshooter_oid, output, pool)
    }

    /// Takes the memory that the domain handed back for the pool of a
    /// capture request, or its word that there was none. With memory and a
    /// known output the capture starts; otherwise the failure is reported and
    /// a new request can be made.
    pub fn on_memory_reclaimed(&mut self, memory: Option<Memory>) -> (effects: Vec<Effect>)
        requires
            old(self).wf(),
        ensures
            final(self).wf(),
            effects@ == reclaimed(old(self)@.screenshot, old(self)@.client, memory).1,
            final(self)@ == (ProxyView {
                screenshot: reclaimed(old(self)@.screenshot, old(self)@.client, memory).0,
                ..old(self)@
            }),
    {
        self.screenshot.reclaim(self.client_id, memory)
    }

    /// The surface object of the first surface, in the order of first
    /// relation, whose shell object is the shell surface
    /// `parent_shell_surface_oid` of the current shell.
    pub fn get_surface_oid_for_shell(&self, parent_shell_surface_oid: ObjectId) -> (surface: Option<
        ObjectId,
    >)
        requires
            self.wf(),
        ensures
            surface == (match first_shell_match(
                self@.related_surfaces,
                self@.surface_infos,
                parent_shell_surface_oid,
            ) {
                Some(i) => self@.surface_infos[self@.related_surfaces[i]].surface_oid,
                None => None,
            }),
    {
        let mut i: usize = 0;
        while i < self.sid_to_surface_info_dict.len()
            invariant
                self.wf(),
                i <= self@.related_surfaces.len(),
                first_shell_match(
                    self@.related_surfaces.take(i as int),
                    self@.surface_infos,
                    parent_shell_surface_oid,
                ) is None,
            decreases self@.related_surfaces.len() - i,
        {
            let info = self.sid_to_surface_info_dict.value_at(i);
            proof {
                let order = self@.related_surfaces;
                assert(order.take(i + 1).drop_last() =~= order.take(i as int));
            }
            if let Some(ShellSurfaceOid::ZxdgToplevelV6(shell_surface_oid, _)) = info.shell_surface_oid {
                if shell_surface_oid == parent_shell_surface_oid {
                    proof {
                        lemma_first_shell_match_extends(
                            self@.related_surfaces,
                            self@.surface_infos,
                            parent_shell_surface_oid,
                            i + 1,
                        );
                    }
                    return info.surface_oid;
                }
            }
            i += 1;
        }
        assert(self@.related_surfaces.take(i as int) =~= self@.related_surfaces);
        None
    }

    /// Offers the domain's current transfer, of `types` data types, to every
    /// data device object: a new offer is made, its data types are announced
    /// in order, and the offer is made the selection. Without a current
    /// transfer nothing is offered.
    pub fn make_data_offer(&self, types: Option<usize>) -> (effects: Vec<Effect>)
        ensures
            effects@ == (match types {
                Some(types) => fan_out(self@.data_devices, Notice::DataOffer { types: types as nat }),
                None => Seq::empty(),
            }),
    {
        let mut effects: Vec<Effect> = Vec::new();
        if let Some(types) = types {
            tell_all(&self.data_device_oids, &Telling::DataOffer { types }, &mut effects);
        }
        effects
    }
}

} // verus!
