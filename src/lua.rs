use vstd::prelude::*;
use vstd::string::StringSliceAdditionalSpecFns;
use crate::registry::NativeFn;

verus! {

/// A value on the host's stack or in one of its tables.
#[derive(Debug, PartialEq, Eq)]
pub enum Value {
    Nil,
    /// A byte string (the host's strings carry arbitrary bytes).
    Str(Vec<u8>),
    /// A bare native address; 0 is the null address.
    LightUserdata(u64),
    /// A callable that wraps one of the native operations.
    Function(NativeFn),
    /// A reference to the table with this index in the frame's table store.
    Table(usize),
}

/// The mathematical model of a `Value`.
pub enum Val {
    Nil,
    Str(Seq<u8>),
    LightUserdata(u64),
    Function(NativeFn),
    Table(usize),
}

impl View for Value {
    type V = Val;

    open spec fn view(&self) -> Val {
        match self {
            Value::Nil => Val::Nil,
            Value::Str(b) => Val::Str(b@),
            Value::LightUserdata(p) => Val::LightUserdata(*p),
            Value::Function(f) => Val::Function(*f),
            Value::Table(t) => Val::Table(*t),
        }
    }
}

/// A table's entries in insertion order, as (key, value) pairs.
pub type Entries = Seq<(Val, Val)>;

pub open spec fn entries_view(e: Seq<(Value, Value)>) -> Entries {
    e.map_values(|p: (Value, Value)| (p.0@, p.1@))
}

/// Position of the first entry with key `k` (meaningful when one exists).
pub open spec fn first_index(e: Entries, k: Val) -> int {
    choose|i: int| 0 <= i < e.len() && e[i].0 == k && forall|j: int| 0 <= j < i ==> e[j].0 != k
}

pub open spec fn has_key(e: Entries, k: Val) -> bool {
    exists|i: int| 0 <= i < e.len() && e[i].0 == k
}

/// The entries after a raw assignment of `v` to key `k`: the first entry with
/// that key is replaced, or the pair is appended.
pub open spec fn set_entry(e: Entries, k: Val, v: Val) -> Entries {
    if has_key(e, k) {
        e.update(first_index(e, k), (k, v))
    } else {
        e.push((k, v))
    }
}

/// The 0-based stack slot that a host index names: positive indices count
/// from the bottom (1 is the first), negative ones from the top (-1 is the
/// last). `None` for 0 and for positions outside the stack.
pub open spec fn slot_of(len: nat, idx: i32) -> Option<int> {
    let p: int = if idx > 0 { idx - 1 } else { len + idx };
    if idx != 0 && 0 <= p < len { Some(p) } else { None }
}

/// One call frame of the host: its value stack and the tables it can reach.
pub struct LuaState {
    stack: Vec<Value>,
    tables: Vec<Vec<(Value, Value)>>,
}

impl LuaState {
    pub closed spec fn stack(&self) -> Seq<Val> {
        self.stack@.map_values(|v: Value| v@)
    }

    pub closed spec fn tables(&self) -> Seq<Entries> {
        self.tables@.map_values(|t: Vec<(Value, Value)>| entries_view(t@))
    }

    /// The value at host index `idx`, if the index names a stack slot.
    pub open spec fn at(&self, idx: i32) -> Option<Val> {
        match slot_of(self.stack().len(), idx) {
            Some(p) => Some(self.stack()[p]),
            None => None,
        }
    }

    /// What reading index `idx` as bytes gives.
    pub open spec fn bytes_at(&self, idx: i32) -> Option<Seq<u8>> {
        match self.at(idx) {
            Some(Val::Str(b)) => Some(b),
            _ => None,
        }
    }

    /// What reading index `idx` as a native address gives (0 when absent).
    pub open spec fn address_at(&self, idx: i32) -> u64 {
        match self.at(idx) {
            Some(Val::LightUserdata(p)) => p,
            _ => 0,
        }
    }

    /// A frame whose stack holds the call's arguments, bottom first.
    pub fn new(args: Vec<Value>) -> (r: LuaState)
        ensures
            r.stack() == args@.map_values(|v: Value| v@),
            r.tables() == Seq::<Entries>::empty(),
    {
        let r = LuaState { stack: args, tables: Vec::new() };
        proof {
            assert(r.tables() =~= Seq::<Entries>::empty());
        }
        r
    }

    fn push(&mut self, v: Value)
        ensures
            final(self).stack() == old(self).stack().push(v@),
            final(self).tables() == old(self).tables(),
    {
        self.stack.push(v);
        proof {
            assert(final(self).stack() =~= old(self).stack().push(v@));
        }
    }

    /// Pushes a new empty table.
    pub fn newtable(&mut self)
        ensures
            final(self).stack() == old(self).stack().push(Val::Table(old(self).tables().len() as usize)),
            final(self).tables() == old(self).tables().push(Seq::empty()),
            old(self).tables().len() <= usize::MAX,
    {
        let t = self.tables.len();
        self.tables.push(Vec::new());
        proof {
            assert(entries_view(self.tables@[t as int]@) =~= Seq::empty());
            assert(self.tables() =~= old(self).tables().push(Seq::empty()));
        }
        self.push(Value::Table(t));
    }

    /// Pushes a callable wrapping the native operation `f`.
    pub fn pushcfunction(&mut self, f: NativeFn)
        ensures
            final(self).stack() == old(self).stack().push(Val::Function(f)),
            final(self).tables() == old(self).tables(),
    {
        self.push(Value::Function(f));
    }

    /// Pushes the native address `p`, opaque to the host.
    pub fn pushlightuserdata(&mut self, p: u64)
        ensures
            final(self).stack() == old(self).stack().push(Val::LightUserdata(p)),
            final(self).tables() == old(self).tables(),
    {
        self.push(Value::LightUserdata(p));
    }

    /// Pushes the absent value.
    pub fn pushnil(&mut self)
        ensures
            final(self).stack() == old(self).stack().push(Val::Nil),
            final(self).tables() == old(self).tables(),
    {
        self.push(Value::Nil);
    }

    /// Pushes the bytes of `s` as a string.
    pub fn pushstring(&mut self, s: &str)
        ensures
            final(self).stack() == old(self).stack().push(Val::Str(s.spec_bytes())),
            final(self).tables() == old(self).tables(),
    {
        let b = vstd::slice::slice_to_vec(s.as_bytes());
        self.push(Value::Str(b));
    }
    /// The stack slot that host index `idx` names, if any.
    fn slot(&self, idx: i32) -> (r: Option<usize>)
        ensures
            match r {
                Some(p) => slot_of(self.stack().len(), idx) == Some(p as int),
                None => slot_of(self.stack().len(), idx) is None,
            },
    {
        let len = self.stack.len();
        if idx > 0 {
            let p = idx as usize;
            if p <= len { Some(p - 1) } else { None }
        } else if idx < 0 {
            let m = (-(idx as i64)) as usize;
            if m <= len { Some(len - m) } else { None }
        } else {
            None
        }
    }

    /// The number of values on the stack.
    pub fn top(&self) -> (n: usize)
        ensures
            n == self.stack().len(),
    {
        self.stack.len()
    }

    /// The value at host index `idx`, if the index names a stack slot.
    pub fn get(&self, idx: i32) -> (r: Option<&Value>)
        ensures
            match r {
                Some(v) => self.at(idx) == Some(v@),
                None => self.at(idx) is None,
            },
    {
        match self.slot(idx) {
            Some(p) => Some(&self.stack[p]),
            None => None,
        }
    }

    /// The entries of table `t`, in insertion order.
    pub fn table(&self, t: usize) -> (r: Option<&Vec<(Value, Value)>>)
        ensures
            match r {
                Some(e) => t < self.tables().len() && entries_view(e@) == self.tables()[t as int],
                None => t >= self.tables().len(),
            },
    {
        if t < self.tables.len() {
            Some(&self.tables[t])
        } else {
            None
        }
    }

    /// Reads the value at index `idx` as bytes; `None` where it is absent or
    /// not a string.
    pub fn tobytes(&self, idx: i32) -> (r: Option<&[u8]>)
        ensures
            match r {
                Some(b) => self.bytes_at(idx) == Some(b@),
                None => self.bytes_at(idx) is None,
            },
    {
        match self.slot(idx) {
            Some(p) => match &self.stack[p] {
                Value::Str(b) => Some(b.as_slice()),
                _ => None,
            },
            None => None,
        }
    }

    /// Reads the value at index `idx` as a native address; 0 where it is
    /// absent or not an address.
    pub fn touserdata(&self, idx: i32) -> (p: u64)
        ensures
            p == self.address_at(idx),
    {
        match self.slot(idx) {
            Some(i) => match &self.stack[i] {
                Value::LightUserdata(p) => *p,
                _ => 0,
            },
            None => 0,
        }
    }

    /// Pops a key (below) and a value (on top) and assigns the value to that
    /// key in the table at index `idx`, which is resolved before the pops.
    /// The key must not be nil.
    pub fn rawset(&mut self, idx: i32)
        requires
            old(self).stack().len() >= 2,
            old(self).at(idx) matches Some(Val::Table(t)) && t < old(self).tables().len(),
            !(old(self).stack()[old(self).stack().len() - 2] is Nil),
        ensures
            ({
                let n = old(self).stack().len();
                let t = old(self).at(idx)->Some_0->Table_0;
                let k = old(self).stack()[n - 2];
                let v = old(self).stack()[n - 1];
                &&& final(self).stack() == old(self).stack().take(n - 2)
                &&& final(self).tables() == old(self).tables().update(
                    t as int,
                    set_entry(old(self).tables()[t as int], k, v),
                )
            }),
    {
        let t = match self.slot(idx) {
            Some(p) => match &self.stack[p] {
                Value::Table(t) => *t,
                _ => {
                    proof { assert(false); }
                    return;
                },
            },
            None => {
                proof { assert(false); }
                return;
            },
        };
        let ghost n = self.stack().len();
        let v = match self.stack.pop() {
            Some(v) => v,
            None => {
                proof { assert(false); }
                return;
            },
        };
        let k = match self.stack.pop() {
            Some(k) => k,
            None => {
                proof { assert(false); }
                return;
            },
        };
        proof {
            assert(self.stack() =~= old(self).stack().take(n - 2));
        }
        let ghost kv = k@;
        let ghost vv = v@;
        set_in(&mut self.tables[t], k, v);
        proof {
            assert(self.tables() =~= old(self).tables().update(
                t as int,
                set_entry(old(self).tables()[t as int], kv, vv),
            ));
        }
    }
}

/// Whether two byte strings are equal.
fn bytes_eq(a: &[u8], b: &[u8]) -> (r: bool)
    ensures
        r == (a@ == b@),
{
    if a.len() != b.len() {
        return false;
    }
    let mut i: usize = 0;
    while i < a.len()
        invariant
            a@.len() == b@.len(),
            i <= a@.len(),
            forall|j: int| 0 <= j < i ==> a@[j] == b@[j],
        decreases a.len() - i,
    {
        if a[i] != b[i] {
            return false;
        }
        i = i + 1;
    }
    proof {
        assert(a@ =~= b@);
    }
    true
}

/// Whether two values are the same key: equal bytes for strings, the same
/// address, operation or table otherwise.
fn same_key(a: &Value, b: &Value) -> (r: bool)
    ensures
        r == (a@ == b@),
{
    match (a, b) {
        (Value::Nil, Value::Nil) => true,
        (Value::Str(x), Value::Str(y)) => bytes_eq(x.as_slice(), y.as_slice()),
        (Value::LightUserdata(p), Value::LightUserdata(q)) => *p == *q,
        (Value::Function(f), Value::Function(g)) => *f == *g,
        (Value::Table(s), Value::Table(t)) => *s == *t,
        _ => false,
    }
}

/// Assigns `v` to key `k` in the entries `e`.
fn set_in(e: &mut Vec<(Value, Value)>, k: Value, v: Value)
    ensures
        entries_view(final(e)@) == set_entry(entries_view(old(e)@), k@, v@),
{
    let ghost ev = entries_view(e@);
    let mut i: usize = 0;
    while i < e.len()
        invariant
            e@ == old(e)@,
            ev == entries_view(e@),
            i <= e@.len(),
            forall|j: int| 0 <= j < i ==> ev[j].0 != k@,
        decreases e.len() - i,
    {
        if same_key(&e[i].0, &k) {
            proof {
                assert(ev[i as int].0 == k@);
                assert(has_key(ev, k@));
                let c = first_index(ev, k@);
                assert(c == i as int);
            }
            let ghost kv = k@;
            let ghost vv = v@;
            e.set(i, (k, v));
            proof {
                assert(entries_view(e@) =~= ev.update(i as int, (kv, vv)));
            }
            return;
        }
        i = i + 1;
    }
    proof {
        assert(!has_key(ev, k@));
    }
    let ghost kv = k@;
    let ghost vv = v@;
    e.push((k, v));
    proof {
        assert(entries_view(e@) =~= ev.push((kv, vv)));
    }
}

} // verus!
