//! Properties of the handle protocol that hold over every run.
use vstd::prelude::*;
use crate::lua::LuaState;
use crate::objects::{insert_rec, live, rec_at, release_rec, wf_model, Kind, Model, Rec};
use crate::registry::{all_fns, instance_inputs, lemma_names_distinct, registration, NativeFn};

verus! {

/// Creating an object and then destroying its handle leaves exactly the
/// objects that were live before: nothing is leaked.
pub proof fn lemma_create_then_destroy(o: Model, r: Rec)
    requires
        wf_model(o),
        o.next < u64::MAX,
    ensures
        ({
            let after = release_rec(insert_rec(o, r), o.next, r.0);
            &&& after.recs == o.recs
            &&& live(after) == live(o)
        }),
{
    let after = release_rec(insert_rec(o, r), o.next, r.0);
    assert(!o.recs.contains_key(o.next));
    assert(after.recs =~= o.recs);
}

/// The model after `rs.len()` successive creates.
pub open spec fn after_creates(o: Model, rs: Seq<Rec>) -> Model
    decreases rs.len(),
{
    if rs.len() == 0 {
        o
    } else {
        insert_rec(after_creates(o, rs.drop_last()), rs.last())
    }
}

/// Successive creates give distinct handles, each naming its own object,
/// leave every object that was live before unchanged, and destroying any one
/// of the new handles leaves every other one live and unchanged.
pub proof fn lemma_independent_handles(o: Model, rs: Seq<Rec>)
    requires
        wf_model(o),
        o.next + rs.len() < u64::MAX,
    ensures
        after_creates(o, rs).next == o.next + rs.len(),
        wf_model(after_creates(o, rs)),
        forall|h: u64| #[trigger] o.recs.contains_key(h) ==> rec_at(after_creates(o, rs), h) == rec_at(o, h),
        forall|i: int| 0 <= i < rs.len()
            ==> #[trigger] rec_at(after_creates(o, rs), (o.next + i) as u64) == Some(rs[i]),
        forall|i: int, j: int| 0 <= i < rs.len() && 0 <= j < rs.len() && i != j
            ==> (o.next + i) as u64 != (o.next + j) as u64
            && #[trigger] rec_at(
                release_rec(after_creates(o, rs), (o.next + i) as u64, rs[i].0),
                (o.next + j) as u64,
            ) == Some(rs[j]),
    decreases rs.len(),
{
    if rs.len() > 0 {
        let rs0 = rs.drop_last();
        lemma_independent_handles(o, rs0);
        let a0 = after_creates(o, rs0);
        let a = after_creates(o, rs);
        assert(a == insert_rec(a0, rs.last()));
        assert forall|i: int| 0 <= i < rs.len()
            implies #[trigger] rec_at(a, (o.next + i) as u64) == Some(rs[i]) by {
            if i < rs.len() - 1 {
                assert(rs0[i] == rs[i]);
                assert(rec_at(a0, (o.next + i) as u64) == Some(rs0[i]));
            }
        }
        assert forall|h: u64| #[trigger] o.recs.contains_key(h) implies rec_at(a, h) == rec_at(o, h) by {
            assert(rec_at(a0, h) == rec_at(o, h));
        }
        assert forall|i: int, j: int| 0 <= i < rs.len() && 0 <= j < rs.len() && i != j
            implies (o.next + i) as u64 != (o.next + j) as u64
            && #[trigger] rec_at(
                release_rec(a, (o.next + i) as u64, rs[i].0),
                (o.next + j) as u64,
            ) == Some(rs[j]) by {
            assert(rec_at(a, (o.next + i) as u64) == Some(rs[i]));
            assert(rec_at(a, (o.next + j) as u64) == Some(rs[j]));
        }
    }
}

/// Destroying with the null handle changes nothing, for every kind.
pub proof fn lemma_null_destroy(o: Model, k: Kind)
    requires
        wf_model(o),
    ensures
        release_rec(o, 0, k) == o,
{
}

/// create-instance has no valid inputs when any of its three handles is null.
pub proof fn lemma_null_instance_inputs(s: LuaState, o: Model)
    requires
        wf_model(o),
        s.address_at(1) == 0 || s.address_at(2) == 0 || s.address_at(3) == 0,
    ensures
        !instance_inputs(s, o),
{
}

/// The namespace table holds exactly the eight published operations: one
/// entry for each, under its own name, with pairwise distinct names and
/// pairwise distinct callables.
pub proof fn lemma_registration()
    ensures
        registration().len() == 8,
        forall|i: int| 0 <= i < 8 ==> #[trigger] registration()[i] == (crate::lua::Val::Str(all_fns()[i].spec_name()), crate::lua::Val::Function(all_fns()[i])),
        forall|i: int, j: int| 0 <= i < 8 && 0 <= j < 8 && i != j
            ==> #[trigger] registration()[i].0 != #[trigger] registration()[j].0
            && registration()[i].1 != registration()[j].1,
        forall|f: NativeFn| #[trigger] all_fns().contains(f),
{
    assert forall|i: int, j: int| 0 <= i < 8 && 0 <= j < 8 && i != j
        implies #[trigger] registration()[i].0 != #[trigger] registration()[j].0
            && registration()[i].1 != registration()[j].1 by {
        assert(all_fns()[i] != all_fns()[j]);
        lemma_names_distinct(all_fns()[i], all_fns()[j]);
    }
    assert forall|f: NativeFn| #[trigger] all_fns().contains(f) by {
        let i: int = match f {
            NativeFn::CreateEngine => 0,
            NativeFn::DestroyEngine => 1,
            NativeFn::CreateModule => 2,
            NativeFn::DestroyModule => 3,
            NativeFn::CreateLinker => 4,
            NativeFn::DestroyLinker => 5,
            NativeFn::CreateInstance => 6,
            NativeFn::DestroyInstance => 7,
        };
        assert(all_fns()[i] == f);
    }
}

} // verus!
