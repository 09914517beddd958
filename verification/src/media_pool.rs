//! Logical media pool: registered [`MediaAssetId`] values only.
//!
//! Paths and media records live outside this crate.

use std::collections::BTreeSet;
use vstd::prelude::*;
use vstd::std_specs::cmp::OrdSpec;
use vstd::std_specs::iter::IteratorSpec;

use crate::error::EditorError;
use crate::ids::MediaAssetId;

verus! {

broadcast use {
    MediaAssetId::lemma_view_injective,
    MediaAssetId::lemma_from_value_view,
    MediaAssetId::lemma_view_from_value,
};

/// `s` is strictly ascending by primitive identity value.
pub open spec fn ascending_ids(s: Seq<MediaAssetId>) -> bool {
    forall|i: int, j: int| 0 <= i < j < s.len() ==> (#[trigger] s[i])@ < (#[trigger] s[j])@
}

/// The identities whose primitive values make up `values`.
pub closed spec fn ids_of(values: Set<u64>) -> Set<MediaAssetId> {
    values.map(|v: u64| MediaAssetId::from_value(v))
}

/// An identity belongs to `ids_of(values)` exactly when its value is in `values`.
pub broadcast proof fn lemma_ids_of_contains(values: Set<u64>, id: MediaAssetId)
    ensures
        #[trigger] ids_of(values).contains(id) <==> values.contains(id@),
{
    if values.contains(id@) {
        assert(values.map(|v: u64| MediaAssetId::from_value(v)).contains(
            MediaAssetId::from_value(id@),
        ));
    }
}

/// Distinct values give distinct identities, so `ids_of` keeps the size.
proof fn lemma_ids_of_len(values: Set<u64>)
    requires
        values.finite(),
    ensures
        ids_of(values).finite(),
        ids_of(values).len() == values.len(),
{
    let f = |v: u64| MediaAssetId::from_value(v);
    assert(vstd::relations::injective_on(f, values)) by {
        assert forall|a: u64, b: u64|
            values.contains(a) && values.contains(b) && #[trigger] f(a) == #[trigger] f(b) implies a
            == b by {
            assert(f(a)@ == a && f(b)@ == b);
        }
    }
    assert(values.map(f) =~= ids_of(values)) by {
        assert forall|id: MediaAssetId| #[trigger] values.map(f).contains(id) <==> ids_of(
            values,
        ).contains(id) by {
            if values.contains(id@) {
                assert(values.map(f).contains(f(id@)));
            }
        }
    }
    vstd::set_lib::lemma_map_size(values, ids_of(values), f);
}

/// A `BTreeSet` holds the values its iterator yields, so finitely many.
proof fn lemma_values_finite(values: &BTreeSet<u64>)
    ensures
        values@.finite(),
{
    broadcast use vstd::seq_lib::seq_to_set_is_finite;

    let keys = vstd::std_specs::btree::spec_btree_keys_iter(values).remaining();
    assert(keys.unref().to_set() == values@);
}

/// Ordered set of media asset identities known to the project, kept by
/// primitive identity value.
#[derive(Debug, PartialEq, Eq)]
pub struct MediaPool {
    assets: BTreeSet<u64>,
}

impl View for MediaPool {
    type V = Set<MediaAssetId>;

    closed spec fn view(&self) -> Set<MediaAssetId> {
        ids_of(self.assets@)
    }
}

impl Clone for MediaPool {
    fn clone(&self) -> (r: Self)
        ensures
            r@ == self@,
    {
        proof {
            use_type_invariant(self);
        }
        MediaPool { assets: self.assets.clone() }
    }
}

impl MediaPool {
    /// Identity values are never zero.
    #[verifier::type_invariant]
    spec fn well_formed(self) -> bool {
        forall|v: u64| #[trigger] self.assets@.contains(v) ==> v != 0
    }

    /// A pool holds finitely many identities, one per stored value, so its
    /// size changes by one with each registration or removal.
    pub proof fn lemma_finite(&self)
        ensures
            self@.finite(),
    {
        lemma_values_finite(&self.assets);
        lemma_ids_of_len(self.assets@);
    }

    /// Creates an empty media pool.
    pub fn new() -> (p: Self)
        ensures
            p@ == Set::<MediaAssetId>::empty(),
    {
        broadcast use lemma_ids_of_contains;

        let p = MediaPool { assets: BTreeSet::new() };
        assert(p@ =~= Set::<MediaAssetId>::empty());
        p
    }

    /// Returns whether `id` is registered.
    pub fn contains(&self, id: MediaAssetId) -> (r: bool)
        ensures
            r == self@.contains(id),
    {
        broadcast use lemma_ids_of_contains;

        let v = id.get();
        self.assets.contains(&v)
    }

    /// Registers `id`. Duplicate identities are rejected.
    pub fn register(&mut self, id: MediaAssetId) -> (r: Result<(), EditorError>)
        ensures
            old(self)@.contains(id) ==> r == Err::<(), EditorError>(EditorError::DuplicateId)
                && final(self)@ == old(self)@,
            !old(self)@.contains(id) ==> r is Ok && final(self)@ == old(self)@.insert(id),
    {
        broadcast use lemma_ids_of_contains;

        proof {
            use_type_invariant(&*self);
        }
        let v = id.get();
        let mut assets: BTreeSet<u64> = BTreeSet::new();
        core::mem::swap(&mut assets, &mut self.assets);
        let inserted = assets.insert(v);
        self.assets = assets;
        assert(self@ =~= old(self)@.insert(id));
        if !inserted {
            assert(self@ =~= old(self)@);
            return Err(EditorError::DuplicateId);
        }
        Ok(())
    }

    /// Removes a registered asset. Missing identities are rejected.
    pub fn unregister(&mut self, id: MediaAssetId) -> (r: Result<(), EditorError>)
        ensures
            !old(self)@.contains(id) ==> r == Err::<(), EditorError>(EditorError::AssetNotFound)
                && final(self)@ == old(self)@,
            old(self)@.contains(id) ==> r is Ok && final(self)@ == old(self)@.remove(id),
    {
        broadcast use lemma_ids_of_contains;

        proof {
            use_type_invariant(&*self);
        }
        let v = id.get();
        let mut assets: BTreeSet<u64> = BTreeSet::new();
        core::mem::swap(&mut assets, &mut self.assets);
        let removed = assets.remove(&v);
        self.assets = assets;
        assert(self@ =~= old(self)@.remove(id));
        if !removed {
            assert(self@ =~= old(self)@);
            return Err(EditorError::AssetNotFound);
        }
        Ok(())
    }

    /// Returns registered identities in ascending ID order.
    pub fn ids(&self) -> (r: Vec<MediaAssetId>)
        ensures
            r@.to_set() == self@,
            r@.len() == self@.len(),
            ascending_ids(r@),
    {
        broadcast use lemma_ids_of_contains;

        proof {
            use_type_invariant(self);
            lemma_values_finite(&self.assets);
            lemma_ids_of_len(self.assets@);
        }
        let ghost keys = vstd::std_specs::btree::spec_btree_keys_iter(&self.assets).remaining();
        let mut r: Vec<MediaAssetId> = Vec::new();
        for v in it: self.assets.iter()
            invariant
                it.seq() == keys,
                keys == vstd::std_specs::btree::spec_btree_keys_iter(&self.assets).remaining(),
                keys.unref().to_set() == self.assets@,
                forall|x: u64| #[trigger] self.assets@.contains(x) ==> x != 0,
                r@.len() == it.index(),
                forall|k: int| 0 <= k < it.index() ==> (#[trigger] r@[k])@ == *keys[k],
        {
            assert(keys.unref()[it.index()] == *v);
            assert(self.assets@.contains(*v));
            match MediaAssetId::new(*v) {
                Ok(id) => {
                    r.push(id);
                },
                Err(_) => {
                    assert(false);
                },
            }
        }
        proof {
            assert forall|i: int, j: int| 0 <= i < j < r@.len() implies (#[trigger] r@[i])@
                < (#[trigger] r@[j])@ by {
                vstd::std_specs::btree::axiom_increasing_seq_meaning::<&u64>(keys);
                assert((&keys[i]).cmp_spec(&keys[j]) is Less);
            }
            assert forall|id: MediaAssetId| #[trigger] r@.to_set().contains(id) <==> self@.contains(
                id,
            ) by {
                if r@.contains(id) {
                    let k = choose|k: int| 0 <= k < r@.len() && r@[k] == id;
                    assert(keys.unref()[k] == id@);
                    assert(keys.unref().contains(id@));
                }
                if self.assets@.contains(id@) {
                    assert(keys.unref().to_set().contains(id@));
                    let k = choose|k: int| 0 <= k < keys.unref().len() && keys.unref()[k] == id@;
                    assert(r@[k] == id);
                }
            }
            assert(r@.to_set() =~= self@);
        }
        r
    }

    /// Number of registered assets.
    pub fn len(&self) -> (n: usize)
        ensures
            n == self@.len(),
            self@.finite(),
    {
        proof {
            use_type_invariant(self);
            lemma_values_finite(&self.assets);
            lemma_ids_of_len(self.assets@);
        }
        self.assets.len()
    }

    /// Returns true when no assets are registered.
    pub fn is_empty(&self) -> (r: bool)
        ensures
            r == (self@.len() == 0),
    {
        proof {
            use_type_invariant(self);
            lemma_values_finite(&self.assets);
            lemma_ids_of_len(self.assets@);
        }
        self.assets.is_empty()
    }
}

} // verus!
