//! The state of one client's session.

use vstd::prelude::*;
use std::collections::HashMap;
use crate::buffer::BufferInfo;
use crate::collections::{with_item, OrderedSet, Table};
use crate::defs::{Area, ClientId, MemoryPoolId, ObjectId, PositionerInfo, ShellSurfaceOid};
use crate::defs::{SurfaceId, Transfer};
use crate::effect::Effect;
use crate::global::{advertised, Capability, Global, GlobalRegistry};
use crate::screenshot::{Handshake, ScreenshotState};
use crate::surface::SurfaceInfo;

verus! {

broadcast use vstd::std_specs::hash::group_hash_axioms;

/// `Proxy` holds what the handlers of one client share: which protocol
/// objects the client has made and what they stand for in the domain.
pub struct Proxy {
    pub(crate) client_id: ClientId,
    pub(crate) globals: GlobalRegistry,
    pub(crate) regions: HashMap<u32, Area>,
    pub(crate) positioners: HashMap<u32, PositionerInfo>,
    pub(crate) transfers: HashMap<u32, Transfer>,
    pub(crate) pointer_oids: OrderedSet<ObjectId>,
    pub(crate) keyboard_oids: OrderedSet<ObjectId>,
    pub(crate) data_device_oids: OrderedSet<ObjectId>,
    pub(crate) data_source_oid: Option<ObjectId>,
    pub(crate) memory_pools: OrderedSet<MemoryPoolId>,
    pub(crate) surface_oid_to_sid_dict: Table<ObjectId, SurfaceId>,
    pub(crate) sid_to_surface_info_dict: Table<SurfaceId, SurfaceInfo>,
    pub(crate) buffer_oid_to_info_dict: HashMap<u32, BufferInfo>,
    pub(crate) output_oid_to_id: HashMap<u32, i32>,
    pub(crate) screenshot: Handshake,
}

/// What a session holds, as plain mathematics. Tables of objects that the
/// session only looks up are keyed by the object's value.
pub struct ProxyView {
    /// The client this session belongs to.
    pub client: ClientId,
    /// The registered capabilities, in the order of registration.
    pub globals: Seq<Capability>,
    /// Regions, by region object.
    pub regions: Map<u32, Area>,
    /// Positioners, by positioner object.
    pub positioners: Map<u32, PositionerInfo>,
    /// Registered transfers, by data source object.
    pub transfers: Map<u32, Transfer>,
    /// The data source whose transfer was selected last.
    pub data_source: Option<ObjectId>,
    /// The bound pointer objects, in binding order.
    pub pointers: Seq<ObjectId>,
    /// The bound keyboard objects, in binding order.
    pub keyboards: Seq<ObjectId>,
    /// The bound data device objects, in binding order.
    pub data_devices: Seq<ObjectId>,
    /// The memory pools this session owns, in creation order.
    pub pools: Seq<MemoryPoolId>,
    /// The surface objects of this session, in creation order.
    pub surface_objects: Seq<ObjectId>,
    /// The domain surface behind each surface object.
    pub surfaces: Map<ObjectId, SurfaceId>,
    /// The domain surfaces that have a record, in the order of their first
    /// relation.
    pub related_surfaces: Seq<SurfaceId>,
    /// The client objects related to each domain surface.
    pub surface_infos: Map<SurfaceId, SurfaceInfo>,
    /// The backend of each buffer, by buffer object.
    pub buffers: Map<u32, BufferInfo>,
    /// The domain output behind each output object.
    pub outputs: Map<u32, i32>,
    /// The capture handshake.
    pub screenshot: Handshake,
}

/// A client object to be entered into its slot of a surface's record.
#[derive(Clone, Copy, Debug, PartialEq, Eq, Structural)]
pub enum Relation {
    Surface(ObjectId),
    Shell(ShellSurfaceOid),
    Buffer(ObjectId),
    Frame(ObjectId),
}

impl Relation {
    /// `info` with this object in its slot, in place of what was there.
    pub open spec fn put_into(self, info: SurfaceInfo) -> SurfaceInfo {
        match self {
            Relation::Surface(oid) => SurfaceInfo { surface_oid: Some(oid), ..info },
            Relation::Shell(oid) => SurfaceInfo { shell_surface_oid: Some(oid), ..info },
            Relation::Buffer(oid) => SurfaceInfo { buffer_oid: Some(oid), ..info },
            Relation::Frame(oid) => SurfaceInfo { frame_oid: Some(oid), ..info },
        }
    }
}

/// The record of `sid` once `relation` was entered: the object stands in its
/// slot and the other slots are as before, all empty where the surface had
/// no record yet.
pub open spec fn related_info(
    infos: Map<SurfaceId, SurfaceInfo>,
    sid: SurfaceId,
    relation: Relation,
) -> SurfaceInfo {
    if infos.contains_key(sid) {
        relation.put_into(infos[sid])
    } else {
        relation.put_into(SurfaceInfo::empty())
    }
}

/// The destruction of every pool in `pools`, in order.
pub open spec fn pool_farewells(pools: Seq<MemoryPoolId>) -> Seq<Effect> {
    Seq::new(pools.len(), |i: int| Effect::DestroyMemoryPool { pool: pools[i] })
}

/// For every surface object in `objects`, in order: its surface is forgotten
/// by the mediator and then destroyed.
pub open spec fn surface_farewells(
    objects: Seq<ObjectId>,
    surfaces: Map<ObjectId, SurfaceId>,
) -> Seq<Effect>
    decreases objects.len(),
{
    if objects.len() == 0 {
        Seq::empty()
    } else {
        surface_farewells(objects.drop_last(), surfaces) + seq![
            Effect::ForgetSurface { surface: surfaces[objects.last()] },
            Effect::DestroySurface { surface: surfaces[objects.last()] },
        ]
    }
}

/// What the end of a session asks for: every pool it owns is destroyed, then
/// every surface it made is forgotten by the mediator and destroyed.
pub open spec fn termination(
    pools: Seq<MemoryPoolId>,
    objects: Seq<ObjectId>,
    surfaces: Map<ObjectId, SurfaceId>,
) -> Seq<Effect> {
    pool_farewells(pools) + surface_farewells(objects, surfaces)
}

impl View for Proxy {
    type V = ProxyView;

    open(crate) spec fn view(&self) -> ProxyView {
        ProxyView {
            client: self.client_id,
            globals: self.globals@,
            regions: self.regions@,
            positioners: self.positioners@,
            transfers: self.transfers@,
            data_source: self.data_source_oid,
            pointers: self.pointer_oids.items(),
            keyboards: self.keyboard_oids.items(),
            data_devices: self.data_device_oids.items(),
            pools: self.memory_pools.items(),
            surface_objects: self.surface_oid_to_sid_dict.order(),
            surfaces: self.surface_oid_to_sid_dict.map(),
            related_surfaces: self.sid_to_surface_info_dict.order(),
            surface_infos: self.sid_to_surface_info_dict.map(),
            buffers: self.buffer_oid_to_info_dict@,
            outputs: self.output_oid_to_id@,
            screenshot: self.screenshot,
        }
    }
}

impl Proxy {
    /// The collections keep their invariants: no object is bound twice, no
    /// surface has two records, and global names run from 1 without a gap.
    pub open(crate) spec fn wf(&self) -> bool {
        &&& self.globals.wf()
        &&& self.pointer_oids.wf()
        &&& self.keyboard_oids.wf()
        &&& self.data_device_oids.wf()
        &&& self.memory_pools.wf()
        &&& self.surface_oid_to_sid_dict.wf()
        &&& self.sid_to_surface_info_dict.wf()
    }

    /// The order of the surface objects lists exactly the objects that have a
    /// surface, and the order of the related surfaces exactly the surfaces
    /// that have a record.
    pub proof fn lemma_orders(&self)
        requires
            self.wf(),
        ensures
            self@.pointers.no_duplicates(),
            self@.keyboards.no_duplicates(),
            self@.data_devices.no_duplicates(),
            self@.pools.no_duplicates(),
            self@.surface_objects.no_duplicates(),
            self@.related_surfaces.no_duplicates(),
            forall|oid: ObjectId|
                self@.surface_objects.contains(oid) <==> #[trigger] self@.surfaces.contains_key(oid),
            forall|sid: SurfaceId|
                self@.related_surfaces.contains(sid) <==> #[trigger] self@.surface_infos.contains_key(
                    sid,
                ),
    {
        self.surface_oid_to_sid_dict.lemma_order();
        self.sid_to_surface_info_dict.lemma_order();
    }

    /// Creates the session of the client `client_id`, with nothing in it.
    pub fn new(client_id: ClientId) -> (proxy: Self)
        ensures
            proxy.wf(),
            proxy@ == (ProxyView {
                client: client_id,
                globals: Seq::empty(),
                regions: Map::empty(),
                positioners: Map::empty(),
                transfers: Map::empty(),
                data_source: None,
                pointers: Seq::empty(),
                keyboards: Seq::empty(),
                data_devices: Seq::empty(),
                pools: Seq::empty(),
                surface_objects: Seq::empty(),
                surfaces: Map::empty(),
                related_surfaces: Seq::empty(),
                surface_infos: Map::empty(),
                buffers: Map::empty(),
                outputs: Map::empty(),
                screenshot: Handshake { state: ScreenshotState::Idle, memory: None },
            }),
    {
        Proxy {
            client_id,
            globals: GlobalRegistry::new(),
            regions: HashMap::new(),
            positioners: HashMap::new(),
            transfers: HashMap::new(),
            pointer_oids: OrderedSet::new(),
            keyboard_oids: OrderedSet::new(),
            data_device_oids: OrderedSet::new(),
            data_source_oid: None,
            memory_pools: OrderedSet::new(),
            surface_oid_to_sid_dict: Table::new(),
            sid_to_surface_info_dict: Table::new(),
            buffer_oid_to_info_dict: HashMap::new(),
            output_oid_to_id: HashMap::new(),
            screenshot: Handshake::new(),
        }
    }

    /// The client this session belongs to.
    pub fn get_client_id(&self) -> (client: ClientId)
        ensures
            client == self@.client,
    {
        self.client_id
    }

    /// The globals to advertise, by rising name: the order of registration.
    pub fn get_globals(&self) -> (globals: Vec<Global>)
        requires
            self.wf(),
        ensures
            globals@ == advertised(self@.globals),
    {
        self.globals.enumerate()
    }

    /// Registers a capability as a new global and returns its name, which is
    /// one more than the number of globals registered before.
    pub fn register_global(&mut self, capability: Capability) -> (name: u32)
        requires
            old(self).wf(),
            old(self)@.globals.len() < u32::MAX,
        ensures
            final(self).wf(),
            name == old(self)@.globals.len() + 1,
            final(self)@ == (ProxyView {
                globals: old(self)@.globals.push(capability),
                ..old(self)@
            }),
    {
        self.globals.register(capability)
    }

    /// Enters a client object into the record of a surface, in place of the
    /// object its slot held.
    pub(crate) fn relate_sid_with(&mut self, sid: SurfaceId, relation: Relation)
        requires
            old(self).wf(),
        ensures
            final(self).wf(),
            final(self)@ == (ProxyView {
                related_surfaces: with_item(old(self)@.related_surfaces, sid),
                surface_infos: old(self)@.surface_infos.insert(
                    sid,
                    related_info(old(self)@.surface_infos, sid, relation),
                ),
                ..old(self)@
            }),
    {
        let mut info = match self.sid_to_surface_info_dict.get(sid) {
            Some(info) => info,
            None => SurfaceInfo::new(),
        };
        match relation {
            Relation::Surface(oid) => {
                info.surface_oid = Some(oid);
            },
            Relation::Shell(oid) => {
                info.shell_surface_oid = Some(oid);
            },
            Relation::Buffer(oid) => {
                info.buffer_oid = Some(oid);
            },
            Relation::Frame(oid) => {
                info.frame_oid = Some(oid);
            },
        }
        self.sid_to_surface_info_dict.insert(sid, info);
    }

    /// Handles the end of the client by giving up what it owned. The pools
    /// and surfaces given up leave the session, so that ending it again asks
    /// for nothing.
    pub fn terminate(&mut self) -> (effects: Vec<Effect>)
        requires
            old(self).wf(),
        ensures
            final(self).wf(),
            effects@ == termination(old(self)@.pools, old(self)@.surface_objects, old(self)@.surfaces),
            final(self)@ == (ProxyView {
                pools: Seq::empty(),
                surface_objects: Seq::empty(),
                surfaces: Map::empty(),
                ..old(self)@
            }),
    {
        let mut effects: Vec<Effect> = Vec::new();
        let mut i: usize = 0;
        while i < self.memory_pools.len()
            invariant
                *self == *old(self),
                i <= self@.pools.len(),
                effects@ == Seq::new(
                    i as nat,
                    |j: int| Effect::DestroyMemoryPool { pool: self@.pools[j] },
                ),
            decreases self@.pools.len() - i,
        {
            effects.push(Effect::DestroyMemoryPool { pool: self.memory_pools.at(i) });
            i += 1;
            assert(effects@ =~= Seq::new(
                i as nat,
                |j: int| Effect::DestroyMemoryPool { pool: self@.pools[j] },
            ));
        }
        let ghost first = effects@;
        let mut k: usize = 0;
        while k < self.surface_oid_to_sid_dict.len()
            invariant
                self.wf(),
                *self == *old(self),
                k <= self@.surface_objects.len(),
                effects@ == first + surface_farewells(
                    self@.surface_objects.take(k as int),
                    self@.surfaces,
                ),
            decreases self@.surface_objects.len() - k,
        {
            let sid = self.surface_oid_to_sid_dict.value_at(k);
            effects.push(Effect::ForgetSurface { surface: sid });
            effects.push(Effect::DestroySurface { surface: sid });
            k += 1;
            proof {
                let objects = self@.surface_objects;
                assert(objects.take(k as int).drop_last() =~= objects.take(k - 1));
                assert(effects@ =~= first + surface_farewells(objects.take(k as int), self@.surfaces));
            }
        }
        assert(self@.surface_objects.take(k as int) =~= self@.surface_objects);
        assert(effects@ =~= termination(self@.pools, self@.surface_objects, self@.surfaces));
        self.memory_pools = OrderedSet::new();
        self.surface_oid_to_sid_dict = Table::new();
        effects
    }
}

} // verus!
