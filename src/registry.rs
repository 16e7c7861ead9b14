//! The create/destroy operations that the host calls, and the routine that
//! publishes them as a namespace table.
//!
//! Each operation reads its arguments from the call frame, does at most one
//! native step, and pushes one result (creates) or none (destroys); it
//! returns the number of results pushed. Every failure of a create pushes
//! nil, with nothing else changed.
use vstd::prelude::*;
use vstd::string::StringSliceAdditionalSpecFns;
use crate::lua::{has_key, Entries, LuaState, Val};
use crate::objects::{insert_rec, is_kind, rec_at, release_rec, Kind, Model, Object, Objects, Rec};
use crate::wasm::{compile_module, default_engine, empty_wasm_module, instantiate, new_linker, wasm_compiles};

verus! {

/// The native operations that the namespace table publishes.
#[derive(PartialEq, Eq, Structural, Clone, Copy, Debug)]
pub enum NativeFn {
    CreateEngine,
    DestroyEngine,
    CreateModule,
    DestroyModule,
    CreateLinker,
    DestroyLinker,
    CreateInstance,
    DestroyInstance,
}

impl NativeFn {
    /// The name under which the operation is published.
    pub open spec fn spec_name(self) -> Seq<u8> {
        match self {
            NativeFn::CreateEngine => "create_engine".spec_bytes(),
            NativeFn::DestroyEngine => "destroy_engine".spec_bytes(),
            NativeFn::CreateModule => "create_module".spec_bytes(),
            NativeFn::DestroyModule => "destroy_module".spec_bytes(),
            NativeFn::CreateLinker => "create_linker".spec_bytes(),
            NativeFn::DestroyLinker => "destroy_linker".spec_bytes(),
            NativeFn::CreateInstance => "create_instance".spec_bytes(),
            NativeFn::DestroyInstance => "destroy_instance".spec_bytes(),
        }
    }

    pub open spec fn name_str(self) -> &'static str {
        match self {
            NativeFn::CreateEngine => "create_engine",
            NativeFn::DestroyEngine => "destroy_engine",
            NativeFn::CreateModule => "create_module",
            NativeFn::DestroyModule => "destroy_module",
            NativeFn::CreateLinker => "create_linker",
            NativeFn::DestroyLinker => "destroy_linker",
            NativeFn::CreateInstance => "create_instance",
            NativeFn::DestroyInstance => "destroy_instance",
        }
    }

    pub fn name(self) -> (r: &'static str)
        ensures
            r.spec_bytes() == self.spec_name(),
    {
        match self {
            NativeFn::CreateEngine => "create_engine",
            NativeFn::DestroyEngine => "destroy_engine",
            NativeFn::CreateModule => "create_module",
            NativeFn::DestroyModule => "destroy_module",
            NativeFn::CreateLinker => "create_linker",
            NativeFn::DestroyLinker => "destroy_linker",
            NativeFn::CreateInstance => "create_instance",
            NativeFn::DestroyInstance => "destroy_instance",
        }
    }
}

/// The published names are pairwise distinct.
pub proof fn lemma_names_distinct(f: NativeFn, g: NativeFn)
    requires
        f != g,
    ensures
        f.spec_name() != g.spec_name(),
{
    broadcast use vstd::string::is_ascii_spec_bytes;
    reveal_strlit("create_engine");
    reveal_strlit("destroy_engine");
    reveal_strlit("create_module");
    reveal_strlit("destroy_module");
    reveal_strlit("create_linker");
    reveal_strlit("destroy_linker");
    reveal_strlit("create_instance");
    reveal_strlit("destroy_instance");
    let a = f.spec_name();
    let b = g.spec_name();
    assert(vstd::string::is_ascii(f.name_str()));
    assert(vstd::string::is_ascii(g.name_str()));
    assert(a.len() != b.len() || a[7] != b[7] || a[8] != b[8]);
}

/// The table entries that bind each of `fs` to its name, in order.
pub open spec fn entries_of(fs: Seq<NativeFn>) -> Entries {
    fs.map_values(|f: NativeFn| (Val::Str(f.spec_name()), Val::Function(f)))
}

proof fn lemma_fresh_key(fs: Seq<NativeFn>, f: NativeFn)
    requires
        !fs.contains(f),
    ensures
        !has_key(entries_of(fs), Val::Str(f.spec_name())),
        entries_of(fs.push(f)) == entries_of(fs).push((Val::Str(f.spec_name()), Val::Function(f))),
{
    if has_key(entries_of(fs), Val::Str(f.spec_name())) {
        let i = choose|i: int| 0 <= i < entries_of(fs).len() && entries_of(fs)[i].0 == Val::Str(f.spec_name());
        assert(fs[i] != f);
        lemma_names_distinct(fs[i], f);
    }
    assert(entries_of(fs.push(f)) =~= entries_of(fs).push((Val::Str(f.spec_name()), Val::Function(f))));
}

proof fn lemma_prefix(k: int)
    requires
        0 <= k < 8,
    ensures
        !all_fns().take(k).contains(all_fns()[k]),
        all_fns().take(k).push(all_fns()[k]) == all_fns().take(k + 1),
{
    assert(all_fns().take(k).push(all_fns()[k]) =~= all_fns().take(k + 1));
    if all_fns().take(k).contains(all_fns()[k]) {
        let i = choose|i: int| 0 <= i < k && all_fns().take(k)[i] == all_fns()[k];
        assert(all_fns()[i] == all_fns()[k]);
    }
}

/// Registers `f` under its name in the table on top of the stack, which
/// holds the entries of `fs`.
fn register(state: &mut LuaState, f: NativeFn, Ghost(fs): Ghost<Seq<NativeFn>>)
    requires
        old(state).stack().len() >= 1,
        old(state).stack().last() matches Val::Table(t) && t < old(state).tables().len()
            && old(state).tables()[t as int] == entries_of(fs),
        !fs.contains(f),
    ensures
        final(state).stack() == old(state).stack(),
        final(state).tables() == old(state).tables().update(
            old(state).stack().last()->Table_0 as int,
            entries_of(fs.push(f)),
        ),
{
    proof {
        lemma_fresh_key(fs, f);
    }
    let ghost s0 = state.stack();
    state.pushstring(f.name());
    state.pushcfunction(f);
    assert(state.stack().take(s0.len() as int) =~= s0);
    assert(state.stack()[state.stack().len() - 3] == s0.last());
    state.rawset(-3);
}

/// Builds the namespace table that maps each published name to its
/// operation, and leaves it on top of the stack.
pub fn init_wasm_core(state: &mut LuaState) -> (n: i32)
    ensures
        n == 1,
        final(state).stack() == old(state).stack().push(Val::Table(old(state).tables().len() as usize)),
        final(state).tables() == old(state).tables().push(registration()),
        old(state).tables().len() <= usize::MAX,
{
    state.newtable();
    proof {
        assert(entries_of(all_fns().take(0)) =~= Seq::empty());
        lemma_prefix(0);
    }
    register(state, NativeFn::CreateEngine, Ghost(all_fns().take(0)));
    proof {
        lemma_prefix(1);
    }
    register(state, NativeFn::DestroyEngine, Ghost(all_fns().take(1)));
    proof {
        lemma_prefix(2);
    }
    register(state, NativeFn::CreateModule, Ghost(all_fns().take(2)));
    proof {
        lemma_prefix(3);
    }
    register(state, NativeFn::DestroyModule, Ghost(all_fns().take(3)));
    proof {
        lemma_prefix(4);
    }
    register(state, NativeFn::CreateLinker, Ghost(all_fns().take(4)));
    proof {
        lemma_prefix(5);
    }
    register(state, NativeFn::DestroyLinker, Ghost(all_fns().take(5)));
    proof {
        lemma_prefix(6);
    }
    register(state, NativeFn::CreateInstance, Ghost(all_fns().take(6)));
    proof {
        lemma_prefix(7);
    }
    register(state, NativeFn::DestroyInstance, Ghost(all_fns().take(7)));
    proof {
        assert(all_fns().take(8) =~= all_fns());
        assert(final(state).tables() =~= old(state).tables().push(registration()));
    }
    1
}

/// The entries of the namespace table, in the order they are registered.
pub open spec fn registration() -> Entries {
    entries_of(all_fns())
}

/// Every published operation, in the order of registration.
pub open spec fn all_fns() -> Seq<NativeFn> {
    seq![
        NativeFn::CreateEngine,
        NativeFn::DestroyEngine,
        NativeFn::CreateModule,
        NativeFn::DestroyModule,
        NativeFn::CreateLinker,
        NativeFn::DestroyLinker,
        NativeFn::CreateInstance,
        NativeFn::DestroyInstance,
    ]
}

/// A create that succeeded: the object is recorded under the next handle,
/// which is pushed.
pub open spec fn created(s0: Seq<Val>, s1: Seq<Val>, o0: Model, o1: Model, r: Rec) -> bool {
    &&& o1 == insert_rec(o0, r)
    &&& s1 == s0.push(Val::LightUserdata(o0.next))
}

/// A create that failed: nil is pushed and no object is made.
pub open spec fn failed(s0: Seq<Val>, s1: Seq<Val>, o0: Model, o1: Model) -> bool {
    &&& o1 == o0
    &&& s1 == s0.push(Val::Nil)
}

/// Whether the three handle arguments of create-instance name a live engine,
/// and a live linker and a live module made on that engine.
pub open spec fn instance_inputs(s: LuaState, o: Model) -> bool {
    let e = s.address_at(1);
    &&& is_kind(o, e, Kind::Engine)
    &&& rec_at(o, s.address_at(2)) == Some((Kind::Linker, engine_id(o, e)))
    &&& rec_at(o, s.address_at(3)) == Some((Kind::Module, engine_id(o, e)))
}

/// The id of the engine behind handle `h` (meaningful when `h` names one).
pub open spec fn engine_id(o: Model, h: u64) -> u64 {
    rec_at(o, h)->Some_0.1
}

/// What create-module leaves: a new module when argument 1 is a live engine
/// and argument 2 holds bytes that compile (the empty module always does),
/// nil otherwise.
pub open spec fn module_outcome(s0: LuaState, s1: Seq<Val>, o0: Model, o1: Model) -> bool {
    let e = s0.address_at(1);
    let b = s0.bytes_at(2)->Some_0;
    if is_kind(o0, e, Kind::Engine) && s0.bytes_at(2) is Some
        && (wasm_compiles(b) || b == empty_wasm_module()) {
        created(s0.stack(), s1, o0, o1, (Kind::Module, engine_id(o0, e)))
    } else {
        failed(s0.stack(), s1, o0, o1)
    }
}

/// What create-linker leaves: a new linker when argument 1 is a live engine,
/// nil otherwise.
pub open spec fn linker_outcome(s0: LuaState, s1: Seq<Val>, o0: Model, o1: Model) -> bool {
    let e = s0.address_at(1);
    if is_kind(o0, e, Kind::Engine) {
        created(s0.stack(), s1, o0, o1, (Kind::Linker, engine_id(o0, e)))
    } else {
        failed(s0.stack(), s1, o0, o1)
    }
}

/// What create-instance leaves: nil when its inputs are not valid; with valid
/// inputs, a new instance or nil, as instantiation succeeds or fails.
pub open spec fn instance_outcome(s0: LuaState, s1: Seq<Val>, o0: Model, o1: Model) -> bool {
    if instance_inputs(s0, o0) {
        failed(s0.stack(), s1, o0, o1)
            || created(s0.stack(), s1, o0, o1, (Kind::Instance, engine_id(o0, s0.address_at(1))))
    } else {
        failed(s0.stack(), s1, o0, o1)
    }
}

/// Pushes the outcome of a create: the handle of `made`, now owned by
/// `objs`, or nil when nothing was made.
pub fn push_created(state: &mut LuaState, objs: &mut Objects, made: Option<Object>) -> (n: i32)
    requires
        old(objs).wf(),
        old(objs).has_room(),
    ensures
        final(objs).wf(),
        n == 1,
        final(state).tables() == old(state).tables(),
        match made {
            Some(o) => created(old(state).stack(), final(state).stack(), old(objs)@, final(objs)@, o.rec()),
            None => failed(old(state).stack(), final(state).stack(), old(objs)@, final(objs)@),
        },
{
    match made {
        Some(o) => {
            let h = objs.insert(o);
            state.pushlightuserdata(h);
        },
        None => {
            state.pushnil();
        },
    }
    1
}

/// Creates an engine with the default configuration.
pub fn meth_create_engine(state: &mut LuaState, objs: &mut Objects) -> (n: i32)
    requires
        old(objs).wf(),
        old(objs).has_room(),
    ensures
        final(objs).wf(),
        n == 1,
        final(state).tables() == old(state).tables(),
        created(
            old(state).stack(),
            final(state).stack(),
            old(objs)@,
            final(objs)@,
            (Kind::Engine, old(objs)@.next),
        ),
{
    let engine = default_engine(objs.next_handle());
    push_created(state, objs, Some(Object::Engine(engine)))
}

/// Releases the engine named by argument 1; no-op for nil or anything that
/// is not a live engine.
pub fn meth_destroy_engine(state: &mut LuaState, objs: &mut Objects) -> (n: i32)
    requires
        old(objs).wf(),
    ensures
        final(objs).wf(),
        n == 0,
        *final(state) == *old(state),
        final(objs)@ == release_rec(old(objs)@, old(state).address_at(1), Kind::Engine),
{
    let h = state.touserdata(1);
    objs.release(h, Kind::Engine);
    0
}

/// Compiles the bytes of argument 2 on the engine named by argument 1.
pub fn meth_create_module(state: &mut LuaState, objs: &mut Objects) -> (n: i32)
    requires
        old(objs).wf(),
        old(objs).has_room(),
    ensures
        final(objs).wf(),
        n == 1,
        final(state).tables() == old(state).tables(),
        module_outcome(*old(state), final(state).stack(), old(objs)@, final(objs)@),
{
    let e = state.touserdata(1);
    let made = match objs.engine(e) {
        None => None,
        Some(engine) => match state.tobytes(2) {
            None => None,
            Some(bytes) => match compile_module(engine, bytes) {
                Some(m) => Some(Object::Module(m)),
                None => None,
            },
        },
    };
    push_created(state, objs, made)
}

/// Releases the module named by argument 1; no-op for nil or anything that
/// is not a live module.
pub fn meth_destroy_module(state: &mut LuaState, objs: &mut Objects) -> (n: i32)
    requires
        old(objs).wf(),
    ensures
        final(objs).wf(),
        n == 0,
        *final(state) == *old(state),
        final(objs)@ == release_rec(old(objs)@, old(state).address_at(1), Kind::Module),
{
    let h = state.touserdata(1);
    objs.release(h, Kind::Module);
    0
}

/// Creates an empty linker on the engine named by argument 1.
pub fn meth_create_linker(state: &mut LuaState, objs: &mut Objects) -> (n: i32)
    requires
        old(objs).wf(),
        old(objs).has_room(),
    ensures
        final(objs).wf(),
        n == 1,
        final(state).tables() == old(state).tables(),
        linker_outcome(*old(state), final(state).stack(), old(objs)@, final(objs)@),
{
    let e = state.touserdata(1);
    let made = match objs.engine(e) {
        None => None,
        Some(engine) => Some(Object::Linker(new_linker(engine))),
    };
    push_created(state, objs, made)
}

/// Releases the linker named by argument 1; no-op for nil or anything that
/// is not a live linker.
pub fn meth_destroy_linker(state: &mut LuaState, objs: &mut Objects) -> (n: i32)
    requires
        old(objs).wf(),
    ensures
        final(objs).wf(),
        n == 0,
        *final(state) == *old(state),
        final(objs)@ == release_rec(old(objs)@, old(state).address_at(1), Kind::Linker),
{
    let h = state.touserdata(1);
    objs.release(h, Kind::Linker);
    0
}

/// Instantiates the module named by argument 3 in a fresh store on the
/// engine named by argument 1, resolving imports through the linker named
/// by argument 2. The instance owns its store.
pub fn meth_create_instance(state: &mut LuaState, objs: &mut Objects) -> (n: i32)
    requires
        old(objs).wf(),
        old(objs).has_room(),
    ensures
        final(objs).wf(),
        n == 1,
        final(state).tables() == old(state).tables(),
        instance_outcome(*old(state), final(state).stack(), old(objs)@, final(objs)@),
{
    let e = state.touserdata(1);
    let l = state.touserdata(2);
    let m = state.touserdata(3);
    let made = match (objs.engine(e), objs.linker(l), objs.module(m)) {
        (Some(engine), Some(linker), Some(module)) => {
            let id = engine.id();
            if linker.engine() == id && module.engine() == id {
                match instantiate(linker, module) {
                    Some((i, store)) => Some(Object::Instance(i, store)),
                    None => None,
                }
            } else {
                None
            }
        },
        _ => None,
    };
    push_created(state, objs, made)
}

/// Releases the instance named by argument 1, and with it its store; no-op
/// for nil or anything that is not a live instance.
pub fn meth_destroy_instance(state: &mut LuaState, objs: &mut Objects) -> (n: i32)
    requires
        old(objs).wf(),
    ensures
        final(objs).wf(),
        n == 0,
        *final(state) == *old(state),
        final(objs)@ == release_rec(old(objs)@, old(state).address_at(1), Kind::Instance),
{
    let h = state.touserdata(1);
    objs.release(h, Kind::Instance);
    0
}

impl NativeFn {
    /// Whether the operation creates an object.
    pub open spec fn spec_creates(self) -> bool {
        match self {
            NativeFn::CreateEngine | NativeFn::CreateModule | NativeFn::CreateLinker
            | NativeFn::CreateInstance => true,
            _ => false,
        }
    }

    pub fn creates(self) -> (r: bool)
        ensures
            r == self.spec_creates(),
    {
        match self {
            NativeFn::CreateEngine | NativeFn::CreateModule | NativeFn::CreateLinker
            | NativeFn::CreateInstance => true,
            _ => false,
        }
    }

    /// The kind of object that a destroy operation releases.
    pub open spec fn released_kind(self) -> Kind {
        match self {
            NativeFn::DestroyModule => Kind::Module,
            NativeFn::DestroyLinker => Kind::Linker,
            NativeFn::DestroyInstance => Kind::Instance,
            _ => Kind::Engine,
        }
    }
}

/// Runs the operation `f` on the call frame `state`.
pub fn call(f: NativeFn, state: &mut LuaState, objs: &mut Objects) -> (n: i32)
    requires
        old(objs).wf(),
        f.spec_creates() ==> old(objs).has_room(),
    ensures
        final(objs).wf(),
        f.spec_creates() ==> n == 1 && final(state).tables() == old(state).tables(),
        !f.spec_creates() ==> n == 0 && *final(state) == *old(state)
            && final(objs)@ == release_rec(old(objs)@, old(state).address_at(1), f.released_kind()),
        f == NativeFn::CreateEngine ==> created(
            old(state).stack(),
            final(state).stack(),
            old(objs)@,
            final(objs)@,
            (Kind::Engine, old(objs)@.next),
        ),
        f == NativeFn::CreateModule ==> module_outcome(*old(state), final(state).stack(), old(objs)@, final(objs)@),
        f == NativeFn::CreateLinker ==> linker_outcome(*old(state), final(state).stack(), old(objs)@, final(objs)@),
        f == NativeFn::CreateInstance ==> instance_outcome(*old(state), final(state).stack(), old(objs)@, final(objs)@),
{
    match f {
        NativeFn::CreateEngine => meth_create_engine(state, objs),
        NativeFn::DestroyEngine => meth_destroy_engine(state, objs),
        NativeFn::CreateModule => meth_create_module(state, objs),
        NativeFn::DestroyModule => meth_destroy_module(state, objs),
        NativeFn::CreateLinker => meth_create_linker(state, objs),
        NativeFn::DestroyLinker => meth_destroy_linker(state, objs),
        NativeFn::CreateInstance => meth_create_instance(state, objs),
        NativeFn::DestroyInstance => meth_destroy_instance(state, objs),
    }
}

/// The host's module-load entry point: pushes the namespace table.
pub fn luaopen_wasm_core(state: &mut LuaState) -> (n: i32)
    ensures
        n == 1,
        final(state).stack() == old(state).stack().push(Val::Table(old(state).tables().len() as usize)),
        final(state).tables() == old(state).tables().push(registration()),
        old(state).tables().len() <= usize::MAX,
{
    init_wasm_core(state)
}

} // verus!
