use crate::ids::Identifier;
use vstd::prelude::*;

verus! {

/// The association of identifier keys to values induced by a sequence of
/// bindings, read left to right: a later binding for a key shadows an
/// earlier one (last-write-wins).
pub open spec fn bindings_map<V>(s: Seq<(Identifier, V)>) -> Map<(int, Seq<char>), V>
    decreases s.len(),
{
    if s.len() == 0 {
        Map::empty()
    } else {
        bindings_map(s.drop_last()).insert(s.last().0.key(), s.last().1)
    }
}

proof fn lemma_bindings_map_found<V>(s: Seq<(Identifier, V)>, i: int, k: (int, Seq<char>))
    requires
        0 <= i < s.len(),
        s[i].0.key() == k,
        forall|j: int| i < j < s.len() ==> s[j].0.key() != k,
    ensures
        bindings_map(s).contains_key(k),
        bindings_map(s)[k] == s[i].1,
    decreases s.len(),
{
    if i < s.len() - 1 {
        lemma_bindings_map_found(s.drop_last(), i, k);
    }
}

proof fn lemma_bindings_map_absent<V>(s: Seq<(Identifier, V)>, k: (int, Seq<char>))
    requires
        forall|j: int| 0 <= j < s.len() ==> s[j].0.key() != k,
    ensures
        !bindings_map(s).contains_key(k),
    decreases s.len(),
{
    if s.len() > 0 {
        lemma_bindings_map_absent(s.drop_last(), k);
    }
}

/// A collection keyed by [`Identifier`] with last-write-wins semantics on
/// duplicate keys.  Bindings are kept in insertion order; a lookup walks
/// them from the most recent one back, so the view of the collection is
/// the fold of `Map::insert` over the bindings.
#[derive(Debug)]
pub struct IdMap<V> {
    entries: Vec<(Identifier, V)>,
}

impl<V> View for IdMap<V> {
    type V = Map<(int, Seq<char>), V>;

    closed spec fn view(&self) -> Map<(int, Seq<char>), V> {
        bindings_map(self.entries@)
    }
}

impl<V> IdMap<V> {
    /// An empty collection.
    pub fn new() -> (m: IdMap<V>)
        ensures
            m@ == Map::<(int, Seq<char>), V>::empty(),
    {
        IdMap { entries: Vec::new() }
    }

    /// Binds `value` to the key of `id`, shadowing any earlier binding.
    pub fn insert(&mut self, id: Identifier, value: V)
        ensures
            final(self)@ == old(self)@.insert(id.key(), value),
    {
        let ghost before = self.entries@;
        let ghost key = id.key();
        self.entries.push((id, value));
        proof {
            assert(self.entries@.drop_last() =~= before);
            assert(self.entries@.last().0.key() == key);
        }
    }

    /// Looks the key of `id` up, returning the most recent binding.
    pub fn get(&self, id: &Identifier) -> (r: Option<&V>)
        ensures
            match r {
                Some(v) => self@.contains_key(id.key()) && *v == self@[id.key()],
                None => !self@.contains_key(id.key()),
            },
    {
        let mut i: usize = self.entries.len();
        while i > 0
            invariant
                i <= self.entries@.len(),
                forall|j: int| i <= j < self.entries@.len() ==> self.entries@[j].0.key() != id.key(),
            decreases i,
        {
            i = i - 1;
            let entry = &self.entries[i];
            if entry.0 == *id {
                proof {
                    lemma_bindings_map_found(self.entries@, i as int, id.key());
                }
                return Some(&entry.1);
            }
        }
        proof {
            lemma_bindings_map_absent(self.entries@, id.key());
        }
        None
    }

    /// Whether the key of `id` is bound.
    pub fn contains_key(&self, id: &Identifier) -> (r: bool)
        ensures
            r == self@.contains_key(id.key()),
    {
        self.get(id).is_some()
    }
}

/// The association of parameter names to numeric values induced by a
/// sequence of bindings; a later binding for a name shadows an earlier
/// one.
pub open spec fn param_bindings_map(s: Seq<(String, u64)>) -> Map<Seq<char>, u64>
    decreases s.len(),
{
    if s.len() == 0 {
        Map::empty()
    } else {
        param_bindings_map(s.drop_last()).insert(s.last().0@, s.last().1)
    }
}

proof fn lemma_param_bindings_map_found(s: Seq<(String, u64)>, i: int, k: Seq<char>)
    requires
        0 <= i < s.len(),
        s[i].0@ == k,
        forall|j: int| i < j < s.len() ==> s[j].0@ != k,
    ensures
        param_bindings_map(s).contains_key(k),
        param_bindings_map(s)[k] == s[i].1,
    decreases s.len(),
{
    if i < s.len() - 1 {
        lemma_param_bindings_map_found(s.drop_last(), i, k);
    }
}

proof fn lemma_param_bindings_map_absent(s: Seq<(String, u64)>, k: Seq<char>)
    requires
        forall|j: int| 0 <= j < s.len() ==> s[j].0@ != k,
    ensures
        !param_bindings_map(s).contains_key(k),
    decreases s.len(),
{
    if s.len() > 0 {
        lemma_param_bindings_map_absent(s.drop_last(), k);
    }
}

/// The named numeric parameters of an ephemeris record (for example
/// "GM", "Flattening", "Equatorial radius").  Values are the bit
/// patterns of IEEE-754 64-bit numbers; names are matched exactly.
#[derive(Debug)]
pub struct ParamMap {
    entries: Vec<(String, u64)>,
}

impl View for ParamMap {
    type V = Map<Seq<char>, u64>;

    closed spec fn view(&self) -> Map<Seq<char>, u64> {
        param_bindings_map(self.entries@)
    }
}

impl ParamMap {
    /// An empty parameter mapping.
    pub fn new() -> (m: ParamMap)
        ensures
            m@ == Map::<Seq<char>, u64>::empty(),
    {
        ParamMap { entries: Vec::new() }
    }

    /// Binds `value` to `name`, shadowing any earlier binding.
    pub fn insert(&mut self, name: String, value: u64)
        ensures
            final(self)@ == old(self)@.insert(name@, value),
    {
        let ghost before = self.entries@;
        self.entries.push((name, value));
        proof {
            assert(self.entries@.drop_last() =~= before);
        }
    }

    /// Looks `name` up, returning the most recent binding.
    pub fn get(&self, name: &String) -> (r: Option<u64>)
        ensures
            match r {
                Some(v) => self@.contains_key(name@) && v == self@[name@],
                None => !self@.contains_key(name@),
            },
    {
        let mut i: usize = self.entries.len();
        while i > 0
            invariant
                i <= self.entries@.len(),
                forall|j: int| i <= j < self.entries@.len() ==> self.entries@[j].0@ != name@,
            decreases i,
        {
            i = i - 1;
            let entry = &self.entries[i];
            if entry.0 == *name {
                proof {
                    lemma_param_bindings_map_found(self.entries@, i as int, name@);
                }
                return Some(entry.1);
            }
        }
        proof {
            lemma_param_bindings_map_absent(self.entries@, name@);
        }
        None
    }

    /// Whether `name` is bound.
    pub fn contains(&self, name: &String) -> (r: bool)
        ensures
            r == self@.contains_key(name@),
    {
        self.get(name).is_some()
    }
}

} // verus!
