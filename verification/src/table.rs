use vstd::prelude::*;
use rustc_hash::FxHashMap;

verus! {

#[verifier::external_type_specification]
#[verifier::external_body]
pub struct ExFxBuildHasher(rustc_hash::FxBuildHasher);

/// An index from strings to positions, hashed with `rustc_hash`.
pub type FxIndex = FxHashMap<String, usize>;

/// What an index map of `rustc_hash` holds: each key, by its characters, with its position.
pub uninterp spec fn fx_index_contents(m: FxIndex) -> Map<Seq<char>, usize>;

/// `FxHashMap::default`: a new map holds nothing.
#[verifier::external_body]
fn fx_index_new() -> (fresh: FxIndex)
    ensures
        fx_index_contents(fresh).dom() == Set::<Seq<char>>::empty(),
{
    FxHashMap::default()
}

/// `FxHashMap::get`: the position stored under `key`, if any.
#[verifier::external_body]
fn fx_index_get(m: &FxIndex, key: &str) -> (r: Option<usize>)
    ensures
        r == (if fx_index_contents(*m).contains_key(key@) {
            Some(fx_index_contents(*m)[key@])
        } else {
            None::<usize>
        }),
{
    m.get(key).copied()
}

/// `FxHashMap::insert`: afterwards `key` maps to `value`, every other key as before.
#[verifier::external_body]
fn fx_index_insert(m: &mut FxIndex, key: String, value: usize)
    ensures
        fx_index_contents(*final(m)) == fx_index_contents(*old(m)).insert(key@, value),
{
    m.insert(key, value);
}

/// A table keyed by strings.  Keys are looked up through a `rustc_hash` index; the
/// table also remembers the order in which each key was first inserted.
pub struct StrTable<V> {
    index: FxIndex,
    keys: Vec<String>,
    values: Vec<V>,
}

impl<V> StrTable<V> {
    /// Positions of the keys, as the index holds them.
    pub closed spec fn positions(&self) -> Map<Seq<char>, usize> {
        fx_index_contents(self.index)
    }

    /// The index, the key list and the value list agree.
    pub closed spec fn wf(&self) -> bool {
        &&& self.keys.len() == self.values.len()
        &&& forall|i: int|
            0 <= i < self.keys.len() ==> #[trigger] self.positions().contains_key(self.keys@[i]@)
                && self.positions()[self.keys@[i]@] == i
        &&& forall|k: Seq<char>|
            #[trigger] self.positions().contains_key(k) ==> self.positions()[k] < self.keys.len()
                && self.keys@[self.positions()[k] as int]@ == k
    }

    /// The keys, in the order in which they were first inserted.
    pub closed spec fn key_order(&self) -> Seq<Seq<char>> {
        self.keys@.map_values(|k: String| k@)
    }

    /// What the table maps each key to.
    pub closed spec fn entries(&self) -> Map<Seq<char>, V> {
        Map::new(
            |k: Seq<char>| self.positions().contains_key(k),
            |k: Seq<char>| self.values@[self.positions()[k] as int],
        )
    }

    /// The keys listed by `key_order` are exactly the keys of `entries`, each once.
    pub proof fn lemma_key_order(&self)
        requires
            self.wf(),
        ensures
            forall|i: int|
                0 <= i < self.key_order().len() ==> #[trigger] self.entries().contains_key(
                    self.key_order()[i],
                ),
            forall|k: Seq<char>|
                #[trigger] self.entries().contains_key(k) ==> self.key_order().contains(k),
            forall|i: int, j: int|
                0 <= i < j < self.key_order().len() ==> self.key_order()[i] != self.key_order()[j],
    {
        assert forall|k: Seq<char>| #[trigger] self.entries().contains_key(k) implies self.key_order().contains(k) by {
            let i = self.positions()[k] as int;
            assert(self.key_order()[i] == k);
        }
        assert forall|i: int, j: int| 0 <= i < j < self.key_order().len() implies self.key_order()[i] != self.key_order()[j] by {
            assert(self.positions().contains_key(self.keys@[i]@));
            assert(self.positions().contains_key(self.keys@[j]@));
        }
    }

    pub fn new() -> (t: Self)
        ensures
            t.wf(),
            t.entries() == Map::<Seq<char>, V>::empty(),
            t.key_order() == Seq::<Seq<char>>::empty(),
    {
        let t = StrTable { index: fx_index_new(), keys: Vec::new(), values: Vec::new() };
        assert(t.entries() =~= Map::<Seq<char>, V>::empty());
        assert(t.key_order() =~= Seq::<Seq<char>>::empty());
        t
    }

    /// Number of keys in the table.
    pub fn len(&self) -> (n: usize)
        requires
            self.wf(),
        ensures
            n == self.key_order().len(),
    {
        self.keys.len()
    }

    /// The key inserted `i`-th.
    pub fn key_at(&self, i: usize) -> (k: &String)
        requires
            self.wf(),
            i < self.key_order().len(),
        ensures
            k@ == self.key_order()[i as int],
    {
        &self.keys[i]
    }

    pub fn contains_key(&self, key: &str) -> (b: bool)
        requires
            self.wf(),
        ensures
            b == self.entries().contains_key(key@),
    {
        fx_index_get(&self.index, key).is_some()
    }

    pub fn get(&self, key: &str) -> (r: Option<&V>)
        requires
            self.wf(),
        ensures
            r == (if self.entries().contains_key(key@) {
                Some(&self.entries()[key@])
            } else {
                None::<&V>
            }),
    {
        match fx_index_get(&self.index, key) {
            Some(i) => {
                assert(self.positions().contains_key(key@));
                Some(&self.values[i])
            },
            None => None,
        }
    }

    /// Inserts `value` under `key`, replacing any value stored there before.
    pub fn insert(&mut self, key: String, value: V)
        requires
            old(self).wf(),
        ensures
            final(self).wf(),
            final(self).entries() == old(self).entries().insert(key@, value),
            final(self).key_order() == (if old(self).entries().contains_key(key@) {
                old(self).key_order()
            } else {
                old(self).key_order().push(key@)
            }),
    {
        match fx_index_get(&self.index, key.as_str()) {
            Some(i) => {
                assert(self.positions().contains_key(key@));
                self.values.set(i, value);
                assert(self.entries() =~= old(self).entries().insert(key@, value));
                assert(self.key_order() =~= old(self).key_order());
            },
            None => {
                let n = self.keys.len();
                let k2 = key.clone();
                fx_index_insert(&mut self.index, key, n);
                self.keys.push(k2);
                self.values.push(value);
                assert(self.key_order() =~= old(self).key_order().push(k2@));
                assert forall|i: int| 0 <= i < self.keys.len() implies
                    #[trigger] self.positions().contains_key(self.keys@[i]@)
                        && self.positions()[self.keys@[i]@] == i by {
                    if i < n {
                        assert(old(self).positions().contains_key(old(self).keys@[i]@));
                    }
                }
                assert(self.entries() =~= old(self).entries().insert(k2@, value));
            },
        }
    }

    /// The value stored under `key`; a default value is stored there first when the key is new.
    pub fn entry_or_default(&mut self, key: &str) -> (v: &mut V)
        where
            V: Default,
        requires
            old(self).wf(),
        ensures
            final(self).wf(),
            old(self).entries().contains_key(key@) ==> *v == old(self).entries()[key@],
            !old(self).entries().contains_key(key@) ==> call_ensures(V::default, (), *v),
            final(self).entries() == old(self).entries().insert(key@, *final(v)),
            final(self).key_order() == (if old(self).entries().contains_key(key@) {
                old(self).key_order()
            } else {
                old(self).key_order().push(key@)
            }),
    {
        match fx_index_get(&self.index, key) {
            Some(i) => {
                assert(self.positions().contains_key(key@));
                &mut self.values[i]
            },
            None => {
                let n = self.keys.len();
                fx_index_insert(&mut self.index, key.to_owned(), n);
                self.keys.push(key.to_owned());
                self.values.push(V::default());
                assert(self.key_order() =~= old(self).key_order().push(key@));
                assert forall|i: int| 0 <= i < self.keys.len() implies
                    #[trigger] self.positions().contains_key(self.keys@[i]@)
                        && self.positions()[self.keys@[i]@] == i by {
                    if i < n {
                        assert(old(self).positions().contains_key(old(self).keys@[i]@));
                    }
                }
                assert forall|k: Seq<char>| #[trigger] self.positions().contains_key(k) implies
                    self.positions()[k] < self.keys.len() && self.keys@[self.positions()[k] as int]@ == k by {
                    if k != key@ {
                        assert(old(self).positions().contains_key(k));
                    }
                }
                assert(self.entries() =~= old(self).entries().insert(key@, self.values@[n as int]));
                &mut self.values[n]
            },
        }
    }
}

} // verus!
