use wasm_core::lua::{LuaState, Value};
use wasm_core::objects::Objects;
use wasm_core::registry::{
    init_wasm_core, luaopen_wasm_core, meth_create_engine, meth_create_instance, meth_create_linker,
    meth_create_module, meth_destroy_engine, meth_destroy_instance, meth_destroy_linker,
    meth_destroy_module, push_created, call, NativeFn,
};

const EMPTY_MODULE: [u8; 8] = [0x00, 0x61, 0x73, 0x6d, 0x01, 0x00, 0x00, 0x00];

fn handle_on_top(state: &LuaState) -> u64 {
    match state.get(-1) {
        Some(Value::LightUserdata(h)) => *h,
        other => panic!("expected a handle on top, found {:?}", other),
    }
}

fn nil_on_top(state: &LuaState) -> bool {
    matches!(state.get(-1), Some(Value::Nil))
}

fn ud(h: u64) -> Value {
    Value::LightUserdata(h)
}

fn new_engine(objs: &mut Objects) -> u64 {
    let mut s = LuaState::new(vec![]);
    assert_eq!(meth_create_engine(&mut s, objs), 1);
    handle_on_top(&s)
}

fn new_module(objs: &mut Objects, engine: u64, bytes: &[u8]) -> LuaState {
    let mut s = LuaState::new(vec![ud(engine), Value::Str(bytes.to_vec())]);
    assert_eq!(meth_create_module(&mut s, objs), 1);
    s
}

fn new_linker(objs: &mut Objects, engine: u64) -> u64 {
    let mut s = LuaState::new(vec![ud(engine)]);
    assert_eq!(meth_create_linker(&mut s, objs), 1);
    handle_on_top(&s)
}

fn destroy(f: fn(&mut LuaState, &mut Objects) -> i32, objs: &mut Objects, h: u64) {
    let mut s = LuaState::new(vec![ud(h)]);
    assert_eq!(f(&mut s, objs), 0);
    assert_eq!(s.top(), 1);
}

#[test]
fn engine_create_then_destroy_leaves_nothing() {
    let mut objs = Objects::new();
    let e = new_engine(&mut objs);
    assert_eq!(e, 1);
    assert_eq!(objs.live_count(), 1);
    destroy(meth_destroy_engine, &mut objs, e);
    assert_eq!(objs.live_count(), 0);
    assert!(!objs.is_live(e));
}

#[test]
fn module_create_then_destroy_leaves_nothing() {
    let mut objs = Objects::new();
    let e = new_engine(&mut objs);
    let s = new_module(&mut objs, e, &EMPTY_MODULE);
    let m = handle_on_top(&s);
    assert_eq!(objs.live_count(), 2);
    destroy(meth_destroy_module, &mut objs, m);
    assert_eq!(objs.live_count(), 1);
    assert!(objs.is_live(e));
}

#[test]
fn linker_create_then_destroy_leaves_nothing() {
    let mut objs = Objects::new();
    let e = new_engine(&mut objs);
    let l = new_linker(&mut objs, e);
    assert_eq!(objs.live_count(), 2);
    destroy(meth_destroy_linker, &mut objs, l);
    assert_eq!(objs.live_count(), 1);
}

#[test]
fn instance_create_then_destroy_leaves_nothing() {
    let mut objs = Objects::new();
    let e = new_engine(&mut objs);
    let m = handle_on_top(&new_module(&mut objs, e, &EMPTY_MODULE));
    let l = new_linker(&mut objs, e);
    let mut s = LuaState::new(vec![ud(e), ud(l), ud(m)]);
    assert_eq!(meth_create_instance(&mut s, &mut objs), 1);
    let i = handle_on_top(&s);
    assert_eq!(objs.live_count(), 4);
    destroy(meth_destroy_instance, &mut objs, i);
    assert_eq!(objs.live_count(), 3);
}

#[test]
fn invalid_module_bytes_give_nil() {
    let mut objs = Objects::new();
    let e = new_engine(&mut objs);
    let s = new_module(&mut objs, e, b"not a wasm module");
    assert!(nil_on_top(&s));
    assert_eq!(s.top(), 3);
    assert_eq!(objs.live_count(), 1);
}

#[test]
fn empty_module_gives_handle() {
    let mut objs = Objects::new();
    let e = new_engine(&mut objs);
    let s = new_module(&mut objs, e, &EMPTY_MODULE);
    assert_eq!(handle_on_top(&s), 2);
}

#[test]
fn module_without_engine_gives_nil() {
    let mut objs = Objects::new();
    let s = new_module(&mut objs, 0, &EMPTY_MODULE);
    assert!(nil_on_top(&s));
    assert_eq!(objs.live_count(), 0);
}

#[test]
fn module_with_non_string_payload_gives_nil() {
    let mut objs = Objects::new();
    let e = new_engine(&mut objs);
    let mut s = LuaState::new(vec![ud(e), Value::Nil]);
    assert_eq!(meth_create_module(&mut s, &mut objs), 1);
    assert!(nil_on_top(&s));
    let mut s = LuaState::new(vec![ud(e)]);
    assert_eq!(meth_create_module(&mut s, &mut objs), 1);
    assert!(nil_on_top(&s));
    assert_eq!(objs.live_count(), 1);
}

#[test]
fn linker_without_engine_gives_nil() {
    let mut objs = Objects::new();
    let mut s = LuaState::new(vec![Value::Nil]);
    assert_eq!(meth_create_linker(&mut s, &mut objs), 1);
    assert!(nil_on_top(&s));
    assert_eq!(objs.live_count(), 0);
}

fn instance_with(args: [u64; 3]) -> (LuaState, Objects) {
    let mut objs = Objects::new();
    let e = new_engine(&mut objs);
    let m = handle_on_top(&new_module(&mut objs, e, &EMPTY_MODULE));
    let l = new_linker(&mut objs, e);
    let real = [e, l, m];
    let pick = |i: usize| if args[i] == 0 { 0 } else { real[i] };
    let mut s = LuaState::new(vec![ud(pick(0)), ud(pick(1)), ud(pick(2))]);
    assert_eq!(meth_create_instance(&mut s, &mut objs), 1);
    (s, objs)
}

#[test]
fn instance_with_null_engine_gives_nil() {
    let (s, objs) = instance_with([0, 1, 1]);
    assert!(nil_on_top(&s));
    assert_eq!(objs.live_count(), 3);
}

#[test]
fn instance_with_null_linker_gives_nil() {
    let (s, objs) = instance_with([1, 0, 1]);
    assert!(nil_on_top(&s));
    assert_eq!(objs.live_count(), 3);
}

#[test]
fn instance_with_null_module_gives_nil() {
    let (s, objs) = instance_with([1, 1, 0]);
    assert!(nil_on_top(&s));
    assert_eq!(objs.live_count(), 3);
}

#[test]
fn instance_with_objects_of_another_engine_gives_nil() {
    let mut objs = Objects::new();
    let e1 = new_engine(&mut objs);
    let e2 = new_engine(&mut objs);
    let m = handle_on_top(&new_module(&mut objs, e1, &EMPTY_MODULE));
    let l = new_linker(&mut objs, e2);
    let mut s = LuaState::new(vec![ud(e1), ud(l), ud(m)]);
    assert_eq!(meth_create_instance(&mut s, &mut objs), 1);
    assert!(nil_on_top(&s));
    assert_eq!(objs.live_count(), 4);
}

#[test]
fn repeated_creates_give_independent_handles() {
    let mut objs = Objects::new();
    let engines: Vec<u64> = (0..3).map(|_| new_engine(&mut objs)).collect();
    assert_eq!(engines, vec![1, 2, 3]);
    let linkers: Vec<u64> = (0..3).map(|_| new_linker(&mut objs, engines[0])).collect();
    assert_eq!(linkers, vec![4, 5, 6]);
    destroy(meth_destroy_linker, &mut objs, linkers[1]);
    destroy(meth_destroy_engine, &mut objs, engines[1]);
    assert!(objs.is_live(linkers[0]) && objs.is_live(linkers[2]));
    assert!(objs.is_live(engines[0]) && objs.is_live(engines[2]));
    assert_eq!(objs.live_count(), 4);
}

#[test]
fn destroy_with_null_is_a_no_op() {
    let mut objs = Objects::new();
    let e = new_engine(&mut objs);
    for f in [meth_destroy_engine, meth_destroy_module, meth_destroy_linker, meth_destroy_instance] {
        let mut s = LuaState::new(vec![Value::Nil]);
        assert_eq!(f(&mut s, &mut objs), 0);
        assert_eq!(s.top(), 1);
        let mut s = LuaState::new(vec![]);
        assert_eq!(f(&mut s, &mut objs), 0);
        assert_eq!(s.top(), 0);
        destroy(f, &mut objs, 0);
    }
    assert!(objs.is_live(e));
}

#[test]
fn destroy_with_wrong_kind_or_stale_handle_is_a_no_op() {
    let mut objs = Objects::new();
    let e = new_engine(&mut objs);
    destroy(meth_destroy_module, &mut objs, e);
    assert!(objs.is_live(e));
    destroy(meth_destroy_engine, &mut objs, e);
    destroy(meth_destroy_engine, &mut objs, e);
    destroy(meth_destroy_engine, &mut objs, 99);
    assert_eq!(objs.live_count(), 0);
}

#[test]
fn end_to_end_create_and_destroy() {
    let mut objs = Objects::new();
    let e = new_engine(&mut objs);
    let m = handle_on_top(&new_module(&mut objs, e, &EMPTY_MODULE));
    let l = new_linker(&mut objs, e);
    let mut s = LuaState::new(vec![ud(e), ud(l), ud(m)]);
    assert_eq!(meth_create_instance(&mut s, &mut objs), 1);
    let i = handle_on_top(&s);
    assert_eq!([e, m, l, i], [1, 2, 3, 4]);
    destroy(meth_destroy_module, &mut objs, m);
    destroy(meth_destroy_instance, &mut objs, i);
    destroy(meth_destroy_linker, &mut objs, l);
    destroy(meth_destroy_engine, &mut objs, e);
    assert_eq!(objs.live_count(), 0);
}

const NAMES: [(&str, NativeFn); 8] = [
    ("create_engine", NativeFn::CreateEngine),
    ("destroy_engine", NativeFn::DestroyEngine),
    ("create_module", NativeFn::CreateModule),
    ("destroy_module", NativeFn::DestroyModule),
    ("create_linker", NativeFn::CreateLinker),
    ("destroy_linker", NativeFn::DestroyLinker),
    ("create_instance", NativeFn::CreateInstance),
    ("destroy_instance", NativeFn::DestroyInstance),
];

#[test]
fn registration_table_has_the_eight_operations() {
    let mut s = LuaState::new(vec![]);
    assert_eq!(init_wasm_core(&mut s), 1);
    assert_eq!(s.top(), 1);
    assert_eq!(s.get(-1), Some(&Value::Table(0)));
    let entries = s.table(0).unwrap();
    assert_eq!(entries.len(), 8);
    for (i, (name, f)) in NAMES.iter().enumerate() {
        assert_eq!(entries[i].0, Value::Str(name.as_bytes().to_vec()));
        assert_eq!(entries[i].1, Value::Function(*f));
        assert_eq!(f.name(), *name);
    }
}

#[test]
fn module_entry_point_pushes_the_table() {
    let mut s = LuaState::new(vec![Value::Nil]);
    assert_eq!(luaopen_wasm_core(&mut s), 1);
    assert_eq!(s.top(), 2);
    assert_eq!(s.get(2), Some(&Value::Table(0)));
    assert_eq!(s.table(0).unwrap().len(), 8);
    assert!(s.table(1).is_none());
}

#[test]
fn stack_indices_count_from_both_ends() {
    let s = LuaState::new(vec![Value::Str(b"ab".to_vec()), ud(7), Value::Nil]);
    assert_eq!(s.tobytes(1), Some(&b"ab"[..]));
    assert_eq!(s.tobytes(-3), Some(&b"ab"[..]));
    assert_eq!(s.tobytes(2), None);
    assert_eq!(s.tobytes(4), None);
    assert_eq!(s.tobytes(0), None);
    assert_eq!(s.touserdata(2), 7);
    assert_eq!(s.touserdata(-2), 7);
    assert_eq!(s.touserdata(1), 0);
    assert_eq!(s.touserdata(-4), 0);
}

#[test]
fn pushes_land_on_top() {
    let mut s = LuaState::new(vec![]);
    s.pushstring("héllo");
    assert_eq!(s.tobytes(-1), Some("héllo".as_bytes()));
    s.pushlightuserdata(42);
    assert_eq!(s.touserdata(-1), 42);
    s.pushnil();
    assert_eq!(s.get(-1), Some(&Value::Nil));
    s.pushcfunction(NativeFn::DestroyLinker);
    assert_eq!(s.get(-1), Some(&Value::Function(NativeFn::DestroyLinker)));
    s.newtable();
    assert_eq!(s.get(-1), Some(&Value::Table(0)));
    assert_eq!(s.top(), 5);
}

#[test]
fn rawset_replaces_an_existing_key() {
    let mut s = LuaState::new(vec![]);
    s.newtable();
    s.pushstring("k");
    s.pushlightuserdata(1);
    s.rawset(-3);
    s.pushstring("j");
    s.pushnil();
    s.rawset(1);
    s.pushstring("k");
    s.pushlightuserdata(2);
    s.rawset(-3);
    assert_eq!(s.top(), 1);
    let entries = s.table(0).unwrap();
    assert_eq!(entries.len(), 2);
    assert_eq!(entries[0], (Value::Str(b"k".to_vec()), ud(2)));
    assert_eq!(entries[1], (Value::Str(b"j".to_vec()), Value::Nil));
}

#[test]
fn rawset_accepts_keys_that_are_not_strings() {
    let mut s = LuaState::new(vec![]);
    s.newtable();
    s.pushlightuserdata(5);
    s.pushstring("five");
    s.rawset(-3);
    s.pushcfunction(NativeFn::CreateEngine);
    s.pushlightuserdata(9);
    s.rawset(-3);
    s.pushlightuserdata(5);
    s.pushnil();
    s.rawset(-3);
    s.pushstring("5");
    s.pushnil();
    s.rawset(-3);
    let entries = s.table(0).unwrap();
    assert_eq!(entries.len(), 3);
    assert_eq!(entries[0], (ud(5), Value::Nil));
    assert_eq!(entries[1], (Value::Function(NativeFn::CreateEngine), ud(9)));
    assert_eq!(entries[2], (Value::Str(b"5".to_vec()), Value::Nil));
}

#[test]
fn module_bytes_without_header_give_nil() {
    let mut objs = Objects::new();
    let e = new_engine(&mut objs);
    let s = new_module(&mut objs, e, &[0x01, 0x02, 0x03]);
    assert!(nil_on_top(&s));
    let s = new_module(&mut objs, e, &[]);
    assert!(nil_on_top(&s));
    assert_eq!(objs.live_count(), 1);
}

#[test]
fn push_created_without_an_object_pushes_nil() {
    let mut objs = Objects::new();
    let mut s = LuaState::new(vec![]);
    assert_eq!(push_created(&mut s, &mut objs, None), 1);
    assert!(nil_on_top(&s));
    assert_eq!(objs.live_count(), 0);
}

#[test]
fn table_entries_run_their_operations() {
    let mut s = LuaState::new(vec![]);
    init_wasm_core(&mut s);
    let fns: Vec<NativeFn> = s
        .table(0)
        .unwrap()
        .iter()
        .map(|(_, v)| match v {
            Value::Function(f) => *f,
            other => panic!("not a function: {:?}", other),
        })
        .collect();
    let mut objs = Objects::new();
    let mut frame = LuaState::new(vec![]);
    assert!(fns[0].creates());
    assert_eq!(call(fns[0], &mut frame, &mut objs), 1);
    let e = handle_on_top(&frame);
    let mut frame = LuaState::new(vec![ud(e)]);
    assert_eq!(call(fns[4], &mut frame, &mut objs), 1);
    let l = handle_on_top(&frame);
    assert_eq!(objs.live_count(), 2);
    let mut frame = LuaState::new(vec![ud(l)]);
    assert!(!fns[5].creates());
    assert_eq!(call(fns[5], &mut frame, &mut objs), 0);
    let mut frame = LuaState::new(vec![ud(e)]);
    assert_eq!(call(fns[1], &mut frame, &mut objs), 0);
    assert_eq!(objs.live_count(), 0);
}
