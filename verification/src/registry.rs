//! The pair-proxy registry: a lookup table from a reward asset's key (token
//! contract address or native denomination) to the address of an alternate
//! pool that converts the reward into one of the target pool's assets.
//!
//! The registry is read-only during a compound; its mathematical model is a
//! finite map from key to pool address, so the order in which entries were
//! supplied does not matter.

use vstd::prelude::*;

verus! {

/// The map a sequence of key/value entries denotes; a later entry for the
/// same key overrides an earlier one.
pub open spec fn spec_entries_map(entries: Seq<(String, String)>) -> Map<Seq<char>, Seq<char>>
    decreases entries.len(),
{
    if entries.len() == 0 {
        Map::empty()
    } else {
        spec_entries_map(entries.drop_last()).insert(entries.last().0@, entries.last().1@)
    }
}

/// A lookup table from asset key to proxy pool address.
#[derive(Clone, Debug, PartialEq, Eq)]
pub struct Registry {
    entries: Vec<(String, String)>,
}

impl View for Registry {
    type V = Map<Seq<char>, Seq<char>>;

    closed spec fn view(&self) -> Map<Seq<char>, Seq<char>> {
        spec_entries_map(self.entries@)
    }
}

proof fn lemma_entries_map_push(entries: Seq<(String, String)>, e: (String, String))
    ensures
        spec_entries_map(entries.push(e)) == spec_entries_map(entries).insert(e.0@, e.1@),
{
    assert(entries.push(e).drop_last() =~= entries);
}

/// If no entry at or past `i` carries `key`, the binding of `key` is decided
/// by the first `i` entries alone.
proof fn lemma_entries_map_skip_tail(entries: Seq<(String, String)>, key: Seq<char>, i: int)
    requires
        0 <= i <= entries.len(),
        forall|j: int| i <= j < entries.len() ==> #[trigger] entries[j].0@ != key,
    ensures
        spec_entries_map(entries).contains_key(key) == spec_entries_map(
            entries.take(i),
        ).contains_key(key),
        spec_entries_map(entries).contains_key(key) ==> spec_entries_map(entries)[key]
            == spec_entries_map(entries.take(i))[key],
    decreases entries.len() - i,
{
    if i < entries.len() {
        lemma_entries_map_skip_tail(entries, key, i + 1);
        assert(entries.take(i + 1).drop_last() =~= entries.take(i));
        assert(entries.take(i + 1).last() == entries[i]);
    } else {
        assert(entries.take(i) =~= entries);
    }
}

impl Registry {
    /// How many entries the registry stores; at least as many as there are
    /// keys in its map, since a key can be entered more than once.
    pub closed spec fn spec_num_entries(&self) -> nat {
        self.entries@.len()
    }

    /// An empty registry.
    pub fn new() -> (r: Registry)
        ensures
            r@ == Map::<Seq<char>, Seq<char>>::empty(),
            r.spec_num_entries() == 0,
    {
        Registry { entries: Vec::new() }
    }

    /// How many entries the registry stores.
    pub fn num_entries(&self) -> (n: usize)
        ensures
            n == self.spec_num_entries(),
            n >= self@.dom().len(),
    {
        proof {
            lemma_entries_map_dom_bound(self.entries@);
        }
        self.entries.len()
    }

    /// Record that rewards keyed by `key` are converted through the pool at
    /// `pair_contract`; a later entry for the same key wins.
    pub fn insert(&mut self, key: String, pair_contract: String)
        ensures
            final(self)@ == old(self)@.insert(key@, pair_contract@),
            final(self).spec_num_entries() == old(self).spec_num_entries() + 1,
    {
        let ghost before = self.entries@;
        self.entries.push((key, pair_contract));
        proof {
            assert(self.entries@ =~= before.push(self.entries@.last()));
            lemma_entries_map_push(before, self.entries@.last());
        }
    }

    /// The proxy pool registered for `key`, if any.
    pub fn lookup(&self, key: &String) -> (r: Option<&String>)
        ensures
            match r {
                Some(pair) => self@.contains_key(key@) && pair@ == self@[key@],
                None => !self@.contains_key(key@),
            },
    {
        let mut i: usize = self.entries.len();
        while i > 0
            invariant
                i <= self.entries.len(),
                forall|j: int|
                    i <= j < self.entries@.len() ==> #[trigger] self.entries@[j].0@ != key@,
            decreases i,
        {
            i = i - 1;
            if self.entries[i].0 == *key {
                proof {
                    lemma_entries_map_skip_tail(self.entries@, key@, i + 1);
                    lemma_entries_map_push(
                        self.entries@.take(i + 1).drop_last(),
                        self.entries@[i as int],
                    );
                    assert(self.entries@.take(i + 1).drop_last().push(self.entries@[i as int])
                        =~= self.entries@.take(i + 1));
                }
                return Some(&self.entries[i].1);
            }
        }
        proof {
            lemma_entries_map_skip_tail(self.entries@, key@, 0);
            assert(self.entries@.take(0) =~= Seq::<(String, String)>::empty());
        }
        None
    }
}

/// A sequence of entries never denotes a map with more keys than entries.
proof fn lemma_entries_map_dom_bound(entries: Seq<(String, String)>)
    ensures
        spec_entries_map(entries).dom().finite(),
        spec_entries_map(entries).dom().len() <= entries.len(),
    decreases entries.len(),
{
    if entries.len() > 0 {
        lemma_entries_map_dom_bound(entries.drop_last());
        vstd::set_lib::lemma_len_union::<Seq<char>>(
            spec_entries_map(entries.drop_last()).dom(),
            set![entries.last().0@],
        );
        assert(spec_entries_map(entries).dom() =~= spec_entries_map(
            entries.drop_last(),
        ).dom().union(set![entries.last().0@]));
    }
}

} // verus!
