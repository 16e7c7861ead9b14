//! The wasmtime calls that the operations make.
//!
//! wasmtime's objects are opaque here. Each one is held in a small struct of
//! the library that also records the id of the engine it was made on, so
//! that the contracts can say when objects belong together. These structs
//! are only built by the functions below; an engine is only ever built with
//! the default configuration.
use vstd::prelude::*;
use wasmtime::{Engine, Instance, Linker, Module, Store};

verus! {

#[verifier::external_type_specification]
#[verifier::external_body]
pub struct ExEngine(wasmtime::Engine);

#[verifier::external_type_specification]
#[verifier::external_body]
pub struct ExModule(wasmtime::Module);

#[verifier::external_type_specification]
#[verifier::external_body]
pub struct ExInstance(wasmtime::Instance);

#[verifier::external_type_specification]
#[verifier::external_body]
#[verifier::reject_recursive_types(T)]
pub struct ExLinker<T>(wasmtime::Linker<T>);

#[verifier::external_type_specification]
#[verifier::external_body]
#[verifier::reject_recursive_types(T)]
pub struct ExStore<T: 'static>(wasmtime::Store<T>);

/// Whether wasmtime, with the default configuration, compiles these bytes
/// as a binary WebAssembly module.
pub uninterp spec fn wasm_compiles(b: Seq<u8>) -> bool;

/// Whether the bytes begin with the binary module header `\0asm`.
pub open spec fn has_wasm_magic(b: Seq<u8>) -> bool {
    b.len() >= 4 && b[0] == 0x00u8 && b[1] == 0x61u8 && b[2] == 0x73u8 && b[3] == 0x6du8
}

/// The smallest binary module: the header and version 1, with no sections.
pub open spec fn empty_wasm_module() -> Seq<u8> {
    seq![0x00u8, 0x61u8, 0x73u8, 0x6du8, 0x01u8, 0x00u8, 0x00u8, 0x00u8]
}

/// A compilation engine with the default configuration, and its id.
pub struct WasmEngine {
    engine: Engine,
    id: u64,
}

/// A compiled module, and the id of the engine it was compiled on.
pub struct WasmModule {
    module: Module,
    engine: u64,
}

/// An import linker, and the id of the engine it was made on. Linkers are
/// only made empty, and nothing defines items in them.
pub struct WasmLinker {
    linker: Linker<u32>,
    engine: u64,
}

/// An execution store, and the id of the engine of the linker it was made
/// for.
pub struct WasmStore {
    store: Store<u32>,
    engine: u64,
}

impl WasmEngine {
    pub closed spec fn spec_id(&self) -> u64 {
        self.id
    }

    pub fn id(&self) -> (r: u64)
        ensures
            r == self.spec_id(),
    {
        self.id
    }
}

impl WasmModule {
    pub closed spec fn engine_id(&self) -> u64 {
        self.engine
    }

    pub fn engine(&self) -> (r: u64)
        ensures
            r == self.engine_id(),
    {
        self.engine
    }
}

impl WasmLinker {
    pub closed spec fn engine_id(&self) -> u64 {
        self.engine
    }

    pub fn engine(&self) -> (r: u64)
        ensures
            r == self.engine_id(),
    {
        self.engine
    }
}

impl WasmStore {
    pub closed spec fn engine_id(&self) -> u64 {
        self.engine
    }
}

/// Relies on `Engine::default`: a compilation engine with the default
/// configuration, given the id `id`.
#[verifier::external_body]
pub(crate) fn default_engine(id: u64) -> (r: WasmEngine)
    ensures
        r.spec_id() == id,
{
    WasmEngine { engine: Engine::default(), id }
}

/// Relies on `Module::new` (built without text-format support): compiles
/// `bytes` as a binary module on `engine`; `None` where wasmtime reports an
/// error, which it does for bytes without the binary header, and never
/// does for the empty module.
#[verifier::external_body]
pub(crate) fn compile_module(engine: &WasmEngine, bytes: &[u8]) -> (r: Option<WasmModule>)
    ensures
        r is Some <==> wasm_compiles(bytes@),
        !has_wasm_magic(bytes@) ==> r is None,
        bytes@ == empty_wasm_module() ==> r is Some,
        r matches Some(m) ==> m.engine_id() == engine.spec_id(),
{
    Module::new(&engine.engine, bytes).ok().map(|module| WasmModule { module, engine: engine.id })
}

/// Relies on `Linker::new`: an empty linker on `engine` whose stores carry a
/// `u32`.
#[verifier::external_body]
pub(crate) fn new_linker(engine: &WasmEngine) -> (r: WasmLinker)
    ensures
        r.engine_id() == engine.spec_id(),
{
    WasmLinker { linker: Linker::new(&engine.engine), engine: engine.id }
}

/// Relies on `Linker::instantiate`, with `Linker::engine` and `Store::new`:
/// makes a fresh store (host state 0) on the linker's own engine, resolves
/// the imports of `module` through `linker`, and instantiates it in that
/// store; `None` where wasmtime reports an error. wasmtime panics only when
/// the store's engine is not the linker's, which the store made here rules
/// out, or when the linker holds items of another store, and a `WasmLinker`
/// holds none. A module of another engine is reported as an error.
#[verifier::external_body]
pub(crate) fn instantiate(linker: &WasmLinker, module: &WasmModule) -> (r: Option<(Instance, WasmStore)>)
    ensures
        r matches Some(p) ==> p.1.engine_id() == linker.engine_id(),
{
    let mut store = Store::new(linker.linker.engine(), 0);
    let engine = linker.engine;
    linker.linker.instantiate(&mut store, &module.module).ok().map(|i| (i, WasmStore { store, engine }))
}

} // verus!
