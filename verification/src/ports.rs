//! Values by port name: what a node is fed and what it gives out.

use crate::text::same_text;
use crate::value::{NodeData, Value};
use vstd::prelude::*;

verus! {

/// Whether no two pairs of a list share a name.
pub open spec fn distinct_names<V>(pairs: Seq<(Seq<char>, V)>) -> bool {
    forall|i: int, j: int|
        0 <= i < j < pairs.len() ==> (#[trigger] pairs[i]).0 != (#[trigger] pairs[j]).0
}

/// Whether some pair of a list has the given name.
pub open spec fn has_name<V>(pairs: Seq<(Seq<char>, V)>, name: Seq<char>) -> bool {
    exists|i: int| 0 <= i < pairs.len() && (#[trigger] pairs[i]).0 == name
}

/// The position of a pair with the given name.
pub open spec fn index_of<V>(pairs: Seq<(Seq<char>, V)>, name: Seq<char>) -> int {
    choose|i: int| 0 <= i < pairs.len() && (#[trigger] pairs[i]).0 == name
}

/// The map that a list of pairs stands for.
pub open spec fn as_map<V>(pairs: Seq<(Seq<char>, V)>) -> Map<Seq<char>, V> {
    Map::new(
        |name: Seq<char>| has_name(pairs, name),
        |name: Seq<char>| pairs[index_of(pairs, name)].1,
    )
}

/// In a list without repeated names, a pair's name is found at the pair's
/// own position.
pub proof fn lemma_index_of<V>(pairs: Seq<(Seq<char>, V)>, i: int)
    requires
        distinct_names(pairs),
        0 <= i < pairs.len(),
    ensures
        index_of(pairs, pairs[i].0) == i,
{
    let j = index_of(pairs, pairs[i].0);
    assert(0 <= j < pairs.len() && pairs[j].0 == pairs[i].0);
    if j < i {
        assert(pairs[j].0 != pairs[i].0);
    } else if i < j {
        assert(pairs[i].0 != pairs[j].0);
    }
}

/// In a list without repeated names, each pair is what the map holds under
/// its name.
pub proof fn lemma_pair_in_map<V>(pairs: Seq<(Seq<char>, V)>, i: int)
    requires
        distinct_names(pairs),
        0 <= i < pairs.len(),
    ensures
        as_map(pairs).contains_key(pairs[i].0),
        as_map(pairs)[pairs[i].0] == pairs[i].1,
{
    lemma_index_of(pairs, i);
}

/// Appending a pair under a fresh name inserts it into the map.
pub proof fn lemma_push_is_insert<V>(pairs: Seq<(Seq<char>, V)>, name: Seq<char>, value: V)
    requires
        distinct_names(pairs),
        !has_name(pairs, name),
    ensures
        distinct_names(pairs.push((name, value))),
        as_map(pairs.push((name, value))) == as_map(pairs).insert(name, value),
{
    let longer = pairs.push((name, value));
    assert forall|i: int, j: int| 0 <= i < j < longer.len() implies (#[trigger] longer[i]).0 != (
    #[trigger] longer[j]).0 by {
        if j < pairs.len() {
            assert(pairs[i].0 != pairs[j].0);
        } else {
            assert(longer[i] == pairs[i]);
            assert(pairs[i].0 != name);
        }
    }
    assert forall|key: Seq<char>| #[trigger] as_map(longer).contains_key(key) <==> as_map(
        pairs,
    ).insert(name, value).contains_key(key) by {
        if has_name(longer, key) {
            let i = index_of(longer, key);
            if i < pairs.len() {
                assert(pairs[i].0 == key);
            }
        }
        if has_name(pairs, key) {
            let i = index_of(pairs, key);
            assert(longer[i].0 == key);
        }
        if key == name {
            assert(longer[pairs.len() as int].0 == key);
        }
    }
    assert forall|key: Seq<char>| #[trigger] as_map(longer).contains_key(key) implies as_map(
        longer,
    )[key] == as_map(pairs).insert(name, value)[key] by {
        let i = index_of(longer, key);
        lemma_pair_in_map(longer, i);
        if i < pairs.len() {
            assert(pairs[i] == longer[i]);
            lemma_pair_in_map(pairs, i);
        }
    }
    assert(as_map(longer) =~= as_map(pairs).insert(name, value));
}

/// Replacing the value of the pair at a position inserts the new value under
/// that pair's name.
pub proof fn lemma_update_is_insert<V>(pairs: Seq<(Seq<char>, V)>, i: int, value: V)
    requires
        distinct_names(pairs),
        0 <= i < pairs.len(),
    ensures
        distinct_names(pairs.update(i, (pairs[i].0, value))),
        as_map(pairs.update(i, (pairs[i].0, value))) == as_map(pairs).insert(pairs[i].0, value),
{
    let name = pairs[i].0;
    let changed = pairs.update(i, (name, value));
    assert forall|a: int, b: int| 0 <= a < b < changed.len() implies (#[trigger] changed[a]).0 != (
    #[trigger] changed[b]).0 by {
        assert(changed[a].0 == pairs[a].0);
        assert(changed[b].0 == pairs[b].0);
    }
    assert forall|key: Seq<char>| #[trigger] as_map(changed).contains_key(key) <==> as_map(
        pairs,
    ).insert(name, value).contains_key(key) by {
        if has_name(changed, key) {
            let j = index_of(changed, key);
            assert(pairs[j].0 == key);
        }
        if has_name(pairs, key) {
            let j = index_of(pairs, key);
            assert(changed[j].0 == key);
        }
        if key == name {
            assert(changed[i].0 == key);
        }
    }
    assert forall|key: Seq<char>| #[trigger] as_map(changed).contains_key(key) implies as_map(
        changed,
    )[key] == as_map(pairs).insert(name, value)[key] by {
        let j = index_of(changed, key);
        lemma_pair_in_map(changed, j);
        if j != i {
            assert(changed[j] == pairs[j]);
            lemma_pair_in_map(pairs, j);
        }
    }
    assert(as_map(changed) =~= as_map(pairs).insert(name, value));
}

/// A map from port names to values. No name occurs twice; entries keep the
/// order in which their names were first inserted.
#[derive(Debug)]
pub struct PortValues {
    entries: Vec<(String, NodeData)>,
}

impl PortValues {
    /// The entries in order, each name by its characters and each value by
    /// what it holds.
    pub closed spec fn pairs(&self) -> Seq<(Seq<char>, Value)> {
        Seq::new(self.entries@.len(), |i: int| (self.entries@[i].0@, self.entries@[i].1@))
    }

    /// The validity of a map: no name occurs twice.
    #[verifier::type_invariant]
    pub open spec fn wf(&self) -> bool {
        distinct_names(self.pairs())
    }
}

impl View for PortValues {
    type V = Map<Seq<char>, Value>;

    open spec fn view(&self) -> Map<Seq<char>, Value> {
        as_map(self.pairs())
    }
}

impl PortValues {
    /// The empty map.
    pub fn new() -> (map: PortValues)
        ensures
            map.pairs() == Seq::<(Seq<char>, Value)>::empty(),
            map@ == Map::<Seq<char>, Value>::empty(),
    {
        let map = PortValues { entries: Vec::new() };
        proof {
            assert(map.pairs() =~= Seq::<(Seq<char>, Value)>::empty());
            assert(map@ =~= Map::<Seq<char>, Value>::empty());
        }
        map
    }

    /// The number of entries.
    pub fn len(&self) -> (count: usize)
        ensures
            count == self.pairs().len(),
    {
        self.entries.len()
    }

    /// The position of the entry with the given name, if there is one.
    fn position(&self, name: &str) -> (found: Option<usize>)
        ensures
            match found {
                Some(i) => i < self.pairs().len() && self.pairs()[i as int].0 == name@,
                None => !has_name(self.pairs(), name@),
            },
    {
        let mut i: usize = 0;
        while i < self.entries.len()
            invariant
                i <= self.entries.len(),
                forall|j: int| 0 <= j < i ==> (#[trigger] self.pairs()[j]).0 != name@,
            decreases self.entries.len() - i,
        {
            if same_text(self.entries[i].0.as_str(), name) {
                return Some(i);
            }
            i += 1;
        }
        None
    }

    /// Whether the map has an entry with the given name.
    pub fn contains(&self, name: &str) -> (found: bool)
        ensures
            found == self@.contains_key(name@),
    {
        self.position(name).is_some()
    }

    /// The value under the given name, if there is one.
    pub fn get(&self, name: &str) -> (value: Option<&NodeData>)
        ensures
            match value {
                Some(v) => self@.contains_key(name@) && v@ == self@[name@],
                None => !self@.contains_key(name@),
            },
    {
        match self.position(name) {
            Some(i) => {
                proof {
                    use_type_invariant(self);
                    lemma_pair_in_map(self.pairs(), i as int);
                }
                Some(&self.entries[i].1)
            },
            None => None,
        }
    }

    /// Puts a value under a name, and hands back the value that was there.
    /// A new name goes to the end; a known name keeps its place.
    pub fn insert(&mut self, name: String, value: NodeData) -> (previous: Option<NodeData>)
        ensures
            final(self)@ == old(self)@.insert(name@, value@),
            match previous {
                Some(v) => {
                    &&& old(self)@.contains_key(name@)
                    &&& v@ == old(self)@[name@]
                    &&& final(self).pairs() == old(self).pairs().update(
                        index_of(old(self).pairs(), name@),
                        (name@, value@),
                    )
                },
                None => {
                    &&& !old(self)@.contains_key(name@)
                    &&& final(self).pairs() == old(self).pairs().push((name@, value@))
                },
            },
    {
        proof {
            use_type_invariant(&*self);
        }
        let found = self.position(name.as_str());
        let ghost before = self.pairs();
        let ghost pair = (name@, value@);
        let mut taken = PortValues::new();
        core::mem::swap(self, &mut taken);
        let mut entries = taken.entries;
        let previous = match found {
            Some(i) => {
                proof {
                    lemma_pair_in_map(before, i as int);
                    lemma_update_is_insert(before, i as int, value@);
                    lemma_index_of(before, i as int);
                }
                let mut slot = value;
                core::mem::swap(&mut entries[i].1, &mut slot);
                Some(slot)
            },
            None => {
                proof {
                    lemma_push_is_insert(before, name@, value@);
                }
                entries.push((name, value));
                None
            },
        };
        proof {
            let changed = PortValues { entries };
            if found is Some {
                assert(changed.pairs() =~= before.update(found.unwrap() as int, pair));
            } else {
                assert(changed.pairs() =~= before.push(pair));
            }
        }
        *self = PortValues { entries };
        previous
    }

    /// The entry at a position in insertion order; nothing past the end.
    pub fn entry(&self, i: usize) -> (found: Option<(&str, &NodeData)>)
        ensures
            match found {
                Some((name, value)) => {
                    &&& i < self.pairs().len()
                    &&& self.pairs()[i as int] == (name@, value@)
                    &&& self@.contains_key(name@)
                    &&& self@[name@] == value@
                },
                None => i >= self.pairs().len(),
            },
    {
        if i < self.entries.len() {
            proof {
                use_type_invariant(self);
                lemma_pair_in_map(self.pairs(), i as int);
            }
            Some((self.entries[i].0.as_str(), &self.entries[i].1))
        } else {
            None
        }
    }
}

} // verus!
