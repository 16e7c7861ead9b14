//! Ownership of the native objects behind the handles.
//!
//! Handles come from a counter and are never reused, so a stale handle is
//! seen as absent instead of naming some later object. Releasing a handle
//! drops its object and its entry: the owner holds live objects only.
use vstd::prelude::*;
use std::collections::HashMap;
use wasmtime::Instance;
use crate::wasm::{WasmEngine, WasmLinker, WasmModule, WasmStore};

verus! {

broadcast use vstd::std_specs::hash::group_hash_axioms;

/// The four kinds of native object.
#[derive(PartialEq, Eq, Structural, Clone, Copy, Debug)]
pub enum Kind {
    Engine,
    Module,
    Linker,
    Instance,
}

/// What a handle names, as the contracts see it: the object's kind and the
/// id of the engine it belongs to (an engine's own id for an engine).
pub type Rec = (Kind, u64);

/// The model of `Objects`: the record of each live handle, and the handle
/// that the next insert gives out.
pub struct Model {
    pub recs: Map<u64, Rec>,
    pub next: u64,
}

/// Every live handle was given out before `next`, and 0 never is.
pub open spec fn wf_model(v: Model) -> bool {
    &&& v.next >= 1
    &&& forall|h: u64| #[trigger] v.recs.contains_key(h) ==> 1 <= h < v.next
}

/// A native object.
pub enum Object {
    Engine(WasmEngine),
    Module(WasmModule),
    Linker(WasmLinker),
    /// An instance owns the store it lives in.
    Instance(Instance, WasmStore),
}

impl Object {
    pub open spec fn rec(&self) -> Rec {
        match self {
            Object::Engine(e) => (Kind::Engine, e.spec_id()),
            Object::Module(m) => (Kind::Module, m.engine_id()),
            Object::Linker(l) => (Kind::Linker, l.engine_id()),
            Object::Instance(_, st) => (Kind::Instance, st.engine_id()),
        }
    }
}

/// The record behind handle `h`, if `h` names a live object.
pub open spec fn rec_at(v: Model, h: u64) -> Option<Rec> {
    if v.recs.contains_key(h) { Some(v.recs[h]) } else { None }
}

/// Whether `h` names a live object of kind `k`.
pub open spec fn is_kind(v: Model, h: u64, k: Kind) -> bool {
    rec_at(v, h) matches Some(r) && r.0 == k
}

/// The handles that name live objects.
pub open spec fn live(v: Model) -> Set<u64> {
    v.recs.dom()
}

/// The model after inserting an object with record `r`.
pub open spec fn insert_rec(v: Model, r: Rec) -> Model {
    Model { recs: v.recs.insert(v.next, r), next: (v.next + 1) as u64 }
}

/// The model after releasing handle `h` if it names a live object of kind `k`.
pub open spec fn release_rec(v: Model, h: u64, k: Kind) -> Model {
    if is_kind(v, h, k) { Model { recs: v.recs.remove(h), next: v.next } } else { v }
}

/// The owner of every native object that the host holds a handle to.
pub struct Objects {
    map: HashMap<u64, Object>,
    next: u64,
}

impl View for Objects {
    type V = Model;

    closed spec fn view(&self) -> Model {
        Model {
            recs: Map::new(|h: u64| self.map@.contains_key(h), |h: u64| self.map@[h].rec()),
            next: self.next,
        }
    }
}

impl Objects {
    /// Well-formedness: every live handle was given out before `next`.
    pub open spec fn wf(&self) -> bool {
        wf_model(self@)
    }

    /// Room for one more handle.
    pub open spec fn has_room(&self) -> bool {
        self@.next < u64::MAX
    }

    pub fn new() -> (r: Objects)
        ensures
            r@.recs == Map::<u64, Rec>::empty(),
            r@.next == 1,
            r.wf(),
    {
        let r = Objects { map: HashMap::new(), next: 1 };
        proof {
            assert(r@.recs =~= Map::<u64, Rec>::empty());
        }
        r
    }

    /// Whether one more object can be given a handle.
    pub fn can_insert(&self) -> (r: bool)
        ensures
            r == self.has_room(),
    {
        self.next < u64::MAX
    }

    /// The handle that the next insert returns.
    pub fn next_handle(&self) -> (h: u64)
        ensures
            h == self@.next,
    {
        self.next
    }

    /// Takes ownership of `o` and returns its handle.
    pub fn insert(&mut self, o: Object) -> (h: u64)
        requires
            old(self).wf(),
            old(self).has_room(),
        ensures
            h == old(self)@.next,
            final(self)@ == insert_rec(old(self)@, o.rec()),
            final(self).wf(),
    {
        let h = self.next;
        let ghost r = o.rec();
        self.map.insert(h, o);
        self.next = h + 1;
        proof {
            assert(self@.recs =~= old(self)@.recs.insert(h, r));
        }
        h
    }

    /// Whether `h` names a live object.
    pub fn is_live(&self, h: u64) -> (r: bool)
        ensures
            r == live(self@).contains(h),
    {
        self.map.contains_key(&h)
    }

    /// The number of live objects.
    pub fn live_count(&self) -> (n: usize)
        ensures
            n == live(self@).len(),
    {
        proof {
            assert(live(self@) =~= self.map@.dom());
        }
        self.map.len()
    }

    /// The engine behind `h`, if `h` names a live engine.
    pub fn engine(&self, h: u64) -> (r: Option<&WasmEngine>)
        ensures
            r is Some <==> is_kind(self@, h, Kind::Engine),
            r matches Some(e) ==> rec_at(self@, h) == Some((Kind::Engine, e.spec_id())),
    {
        match self.map.get(&h) {
            Some(Object::Engine(e)) => Some(e),
            _ => None,
        }
    }

    /// The module behind `h`, if `h` names a live module.
    pub fn module(&self, h: u64) -> (r: Option<&WasmModule>)
        ensures
            r is Some <==> is_kind(self@, h, Kind::Module),
            r matches Some(m) ==> rec_at(self@, h) == Some((Kind::Module, m.engine_id())),
    {
        match self.map.get(&h) {
            Some(Object::Module(m)) => Some(m),
            _ => None,
        }
    }

    /// The linker behind `h`, if `h` names a live linker.
    pub fn linker(&self, h: u64) -> (r: Option<&WasmLinker>)
        ensures
            r is Some <==> is_kind(self@, h, Kind::Linker),
            r matches Some(l) ==> rec_at(self@, h) == Some((Kind::Linker, l.engine_id())),
    {
        match self.map.get(&h) {
            Some(Object::Linker(l)) => Some(l),
            _ => None,
        }
    }

    /// Drops the object behind `h` if it is a live object of kind `k`;
    /// anything else is left as it is.
    pub fn release(&mut self, h: u64, k: Kind)
        requires
            old(self).wf(),
        ensures
            final(self)@ == release_rec(old(self)@, h, k),
            final(self).wf(),
    {
        let found = match self.map.get(&h) {
            Some(o) => kind_of(o) == k,
            None => false,
        };
        if found {
            self.map.remove(&h);
            proof {
                assert(self@.recs =~= old(self)@.recs.remove(h));
            }
        }
    }
}

fn kind_of(o: &Object) -> (k: Kind)
    ensures
        k == o.rec().0,
{
    match o {
        Object::Engine(_) => Kind::Engine,
        Object::Module(..) => Kind::Module,
        Object::Linker(..) => Kind::Linker,
        Object::Instance(..) => Kind::Instance,
    }
}

} // verus!
