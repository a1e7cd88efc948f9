//! A name-keyed table with the lookup semantics of a map: the latest
//! insertion for a name wins.  It backs the label, constant and macro tables
//! of the compiler driver.

use vstd::prelude::*;

verus! {

/// The map an entry list denotes: later entries override earlier ones.
pub open spec fn entries_map<V: View>(entries: Seq<(String, V)>) -> Map<Seq<char>, V::V>
    decreases entries.len(),
{
    if entries.len() == 0 {
        Map::<Seq<char>, V::V>::empty()
    } else {
        entries_map(entries.drop_last()).insert(entries.last().0@, entries.last().1@)
    }
}

pub struct Dict<V> {
    pub entries: Vec<(String, V)>,
}

impl<V: View> View for Dict<V> {
    type V = Map<Seq<char>, V::V>;

    open spec fn view(&self) -> Map<Seq<char>, V::V> {
        entries_map(self.entries@)
    }
}

/// Keys outside a prefix of the entry list do not change what the list says
/// about a name none of them carries.
proof fn lemma_entries_map_skip<V: View>(entries: Seq<(String, V)>, j: int, k: Seq<char>)
    requires
        0 <= j <= entries.len(),
        forall|m: int| j <= m < entries.len() ==> entries[m].0@ != k,
    ensures
        entries_map(entries).contains_key(k) == entries_map(entries.take(j)).contains_key(k),
        entries_map(entries).contains_key(k) ==> entries_map(entries)[k] == entries_map(
            entries.take(j),
        )[k],
    decreases entries.len() - j,
{
    if j == entries.len() {
        assert(entries.take(j) =~= entries);
    } else {
        lemma_entries_map_skip(entries, j + 1, k);
        assert(entries.take(j + 1).drop_last() =~= entries.take(j));
        assert(entries.take(j + 1).last() == entries[j]);
    }
}

impl<V: View> Dict<V> {
    pub fn new() -> (r: Dict<V>)
        ensures
            r@ == Map::<Seq<char>, V::V>::empty(),
    {
        let r = Dict::<V> { entries: Vec::new() };
        r
    }

    /// Records `value` under `name`, shadowing any earlier entry.
    pub fn insert(&mut self, name: String, value: V)
        ensures
            final(self)@ == old(self)@.insert(name@, value@),
    {
        self.entries.push((name, value));
        proof {
            assert(self.entries@.drop_last() =~= old(self).entries@);
        }
    }

    /// The latest value recorded under `name`, if any.
    pub fn get(&self, name: &str) -> (r: Option<&V>)
        ensures
            match r {
                Some(v) => self@.contains_key(name@) && self@[name@] == v@,
                None => !self@.contains_key(name@),
            },
    {
        let n = self.entries.len();
        let mut j: usize = n;
        loop
            invariant
                j <= n,
                n == self.entries@.len(),
                forall|m: int| j <= m < n ==> self.entries@[m].0@ != name@,
            decreases j,
        {
            proof {
                lemma_entries_map_skip(self.entries@, j as int, name@);
            }
            if j == 0 {
                proof {
                    assert(self.entries@.take(0) =~= Seq::<(String, V)>::empty());
                }
                return None;
            }
            j = j - 1;
            let e = &self.entries[j];
            if crate::strutil::str_eq(e.0.as_str(), name) {
                proof {
                    lemma_entries_map_skip(self.entries@, j + 1, name@);
                    assert(self.entries@.take(j + 1).last() == self.entries@[j as int]);
                    assert(self.entries@.take(j + 1).drop_last() =~= self.entries@.take(j as int));
                }
                return Some(&e.1);
            }
        }
    }

    /// Whether any value is recorded under `name`.
    pub fn contains(&self, name: &str) -> (r: bool)
        ensures
            r == self@.contains_key(name@),
    {
        match self.get(name) {
            Some(_) => true,
            None => false,
        }
    }

    /// Drops every entry.
    pub fn clear(&mut self)
        ensures
            final(self)@ == Map::<Seq<char>, V::V>::empty(),
    {
        self.entries = Vec::new();
    }
}

} // verus!
