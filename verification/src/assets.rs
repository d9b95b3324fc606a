//! The immutable in-memory asset store.
//!
//! Assets are handed in once at startup as plain `(name, bytes)` entries and
//! never change afterwards.  Entries are taken in order and a later entry
//! with an already-seen name wins (last write wins), which is how a
//! directory scan that yields a name twice is resolved.

use vstd::prelude::*;

verus! {

/// A named immutable byte sequence loaded from the content root.
pub struct Asset {
    pub name: String,
    pub bytes: Vec<u8>,
}

/// The character/byte views of a sequence of owned entries.
pub open spec fn file_views(files: Seq<(String, Vec<u8>)>) -> Seq<(Seq<char>, Seq<u8>)> {
    Seq::new(files.len(), |i: int| (files[i].0@, files[i].1@))
}

/// The views of the assets a store holds.
pub open spec fn entry_views(entries: Seq<Asset>) -> Seq<(Seq<char>, Seq<u8>)> {
    Seq::new(entries.len(), |i: int| (entries[i].name@, entries[i].bytes@))
}

/// The mapping a sequence of entries builds up: entries are inserted in
/// order, so a later entry with the same name overwrites an earlier one.
pub open spec fn store_of(files: Seq<(Seq<char>, Seq<u8>)>) -> Map<Seq<char>, Seq<u8>>
    decreases files.len(),
{
    if files.len() == 0 {
        Map::empty()
    } else {
        store_of(files.drop_last()).insert(files.last().0, files.last().1)
    }
}

/// A name is in the built mapping exactly when some entry carries it.
pub proof fn lemma_store_contains(files: Seq<(Seq<char>, Seq<u8>)>, n: Seq<char>)
    ensures
        store_of(files).contains_key(n) <==> exists|i: int|
            0 <= i < files.len() && files[i].0 == n,
    decreases files.len(),
{
    if files.len() > 0 {
        lemma_store_contains(files.drop_last(), n);
        if files.last().0 == n {
            assert(files[files.len() - 1].0 == n);
        } else {
            if store_of(files).contains_key(n) {
                let i = choose|i: int| 0 <= i < files.len() - 1 && files.drop_last()[i].0 == n;
                assert(files[i].0 == n);
            }
            if exists|i: int| 0 <= i < files.len() && files[i].0 == n {
                let i = choose|i: int| 0 <= i < files.len() && files[i].0 == n;
                assert(files.drop_last()[i].0 == n);
            }
        }
    }
}

/// The entry that no later entry shadows is the one the mapping keeps.
pub proof fn lemma_store_value(files: Seq<(Seq<char>, Seq<u8>)>, n: Seq<char>, j: int)
    requires
        0 <= j < files.len(),
        files[j].0 == n,
        forall|k: int| j < k < files.len() ==> files[k].0 != n,
    ensures
        store_of(files).contains_key(n),
        store_of(files)[n] == files[j].1,
    decreases files.len(),
{
    if j == files.len() - 1 {
    } else {
        assert(files.last().0 != n);
        assert(files.drop_last()[j].0 == n);
        lemma_store_value(files.drop_last(), n, j);
    }
}

/// Round trip: an asset whose name no later entry shadows is stored with
/// byte-identical content and is returned for its exact name.
pub proof fn lemma_store_round_trip(files: Seq<(Seq<char>, Seq<u8>)>, i: int)
    requires
        0 <= i < files.len(),
        forall|k: int| i < k < files.len() ==> files[k].0 != files[i].0,
    ensures
        store_of(files).contains_key(files[i].0),
        store_of(files)[files[i].0] == files[i].1,
{
    lemma_store_value(files, files[i].0, i);
}

/// An empty store misses every name: a lookup can only answer "not found",
/// never fail.
pub proof fn lemma_empty_store_misses(n: Seq<char>)
    ensures
        !store_of(Seq::empty()).contains_key(n),
{
}

/// The read-only asset index.  Built once at startup; only lookups remain.
pub struct StaticAssetStore {
    entries: Vec<Asset>,
}

impl View for StaticAssetStore {
    type V = Map<Seq<char>, Seq<u8>>;

    closed spec fn view(&self) -> Map<Seq<char>, Seq<u8>> {
        store_of(entry_views(self.entries@))
    }
}

impl StaticAssetStore {
    /// The store with nothing in it, for a content root that could not be
    /// read: every later lookup misses, none fails.
    pub fn empty() -> (r: StaticAssetStore)
        ensures
            r@ == Map::<Seq<char>, Seq<u8>>::empty(),
    {
        let r = StaticAssetStore { entries: Vec::new() };
        proof {
            assert(entry_views(r.entries@) =~= Seq::<(Seq<char>, Seq<u8>)>::empty());
        }
        r
    }

    /// Indexes the given entries; a later entry with an already-seen name
    /// wins.
    pub fn from_entries(files: Vec<(String, Vec<u8>)>) -> (r: StaticAssetStore)
        ensures
            r@ == store_of(file_views(files@)),
    {
        let ghost all = file_views(files@);
        let mut entries: Vec<Asset> = Vec::new();
        let mut rest = files;
        while rest.len() > 0
            invariant
                all =~= entry_views(entries@) + file_views(rest@),
            decreases rest.len(),
        {
            let f = rest.remove(0);
            entries.push(Asset { name: f.0, bytes: f.1 });
            proof {
                assert(all =~= entry_views(entries@) + file_views(rest@));
            }
        }
        proof {
            assert(entry_views(entries@) =~= all);
        }
        StaticAssetStore { entries }
    }

    /// Total lookup: the bytes stored under exactly `name`, if any.
    pub fn get(&self, name: &str) -> (r: Option<&Vec<u8>>)
        ensures
            match r {
                Some(b) => self@.contains_key(name@) && b@ == self@[name@],
                None => !self@.contains_key(name@),
            },
    {
        let owned = name.to_owned();
        let n = self.entries.len();
        let mut i: usize = n;
        while i > 0
            invariant
                i <= n,
                n == self.entries.len(),
                owned@ == name@,
                forall|k: int| i <= k < n ==> self.entries@[k].name@ != name@,
            decreases i,
        {
            i = i - 1;
            if self.entries[i].name == owned {
                proof {
                    lemma_store_value(entry_views(self.entries@), name@, i as int);
                }
                return Some(&self.entries[i].bytes);
            }
        }
        proof {
            lemma_store_contains(entry_views(self.entries@), name@);
        }
        None
    }
}

/// Copies a byte vector.
pub fn copy_bytes(v: &Vec<u8>) -> (r: Vec<u8>)
    ensures
        r@ == v@,
{
    let mut r: Vec<u8> = Vec::new();
    let mut i: usize = 0;
    while i < v.len()
        invariant
            i <= v.len(),
            r@ =~= v@.take(i as int),
        decreases v.len() - i,
    {
        r.push(v[i]);
        i += 1;
    }
    proof {
        assert(v@.take(v@.len() as int) =~= v@);
    }
    r
}

} // verus!
