//! The capabilities a session advertises to its client.

use vstd::prelude::*;
use std::collections::BTreeMap;

verus! {

broadcast use {vstd::std_specs::btree::group_btree_axioms, vstd::laws_cmp::group_laws_cmp};

/// Something a client can bind: a protocol interface in some version, or one
/// output of the domain.
#[derive(Clone, Copy, Debug, PartialEq, Eq, Structural)]
pub enum Capability {
    Interface { interface: u32, version: u32 },
    Output { output: i32 },
}

/// A capability under the name by which the client binds it.
#[derive(Clone, Copy, Debug, PartialEq, Eq, Structural)]
pub struct Global {
    pub name: u32,
    pub capability: Capability,
}

/// The globals of one session. Names are given out in rising order from 1
/// and never given twice. Some clients take the order of advertisement for
/// an order of dependency, so enumeration always follows the names.
pub struct GlobalRegistry {
    globals: BTreeMap<u32, Global>,
    last_global_id: u32,
}

/// The globals that registering `capabilities` one after the other yields,
/// in the order of advertisement.
pub open spec fn advertised(capabilities: Seq<Capability>) -> Seq<Global> {
    Seq::new(
        capabilities.len(),
        |i: int| (Global { name: (i + 1) as u32, capability: capabilities[i] }),
    )
}

impl GlobalRegistry {
    /// The names on file are exactly 1 up to the last one given out, each
    /// with the global of that name.
    pub closed spec fn wf(&self) -> bool {
        &&& forall|name: u32|
            self.globals@.contains_key(name) <==> 1 <= name <= self.last_global_id
        &&& forall|name: u32|
            self.globals@.contains_key(name) ==> (#[trigger] self.globals@[name]).name == name
    }

    /// The registered capabilities, in the order of registration.
    pub closed spec fn view(&self) -> Seq<Capability> {
        Seq::new(
            self.last_global_id as nat,
            |i: int| self.globals@[(i + 1) as u32].capability,
        )
    }

    pub fn new() -> (registry: Self)
        ensures
            registry.wf(),
            registry@ == Seq::<Capability>::empty(),
    {
        let registry = GlobalRegistry { globals: BTreeMap::new(), last_global_id: 0 };
        assert(registry@ =~= Seq::<Capability>::empty());
        registry
    }

    /// How many globals are registered.
    pub fn len(&self) -> (n: u32)
        ensures
            n == self@.len(),
    {
        self.last_global_id
    }

    /// Registers a capability under the next free name and returns that name.
    pub fn register(&mut self, capability: Capability) -> (name: u32)
        requires
            old(self).wf(),
            old(self)@.len() < u32::MAX,
        ensures
            final(self).wf(),
            final(self)@ == old(self)@.push(capability),
            name == old(self)@.len() + 1,
    {
        self.last_global_id += 1;
        let name = self.last_global_id;
        self.globals.insert(name, Global { name, capability });
        proof {
            assert(self@ =~= old(self)@.push(capability));
        }
        name
    }

    /// The global of a name, if that name was given out.
    pub fn get(&self, name: u32) -> (global: Option<Global>)
        requires
            self.wf(),
        ensures
            global == (if 1 <= name <= self@.len() {
                Some(advertised(self@)[name - 1])
            } else {
                None
            }),
    {
        match self.globals.get(&name) {
            Some(global) => Some(*global),
            None => None,
        }
    }

    /// All globals by rising name, which is the order of registration.
    pub fn enumerate(&self) -> (globals: Vec<Global>)
        requires
            self.wf(),
        ensures
            globals@ == advertised(self@),
    {
        let mut globals: Vec<Global> = Vec::new();
        let mut name: u32 = 0;
        while name < self.last_global_id
            invariant
                self.wf(),
                name <= self.last_global_id,
                globals@ == advertised(self@).take(name as int),
            decreases self.last_global_id - name,
        {
            name += 1;
            let found = self.get(name);
            match found {
                Some(global) => {
                    globals.push(global);
                },
                None => {},
            }
            assert(globals@ =~= advertised(self@).take(name as int));
        }
        assert(globals@ =~= advertised(self@));
        globals
    }
}

} // verus!
