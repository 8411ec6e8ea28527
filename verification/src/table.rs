//! An immutable-after-construction name-to-record table with unique keys,
//! the shape every reflection table and the fragment-location cache share.

use vstd::prelude::*;

verus! {

/// A table of records keyed by name. Keys are unique; lookup is by exact
/// name match.
#[derive(Debug)]
pub struct NamedTable<V> {
    entries: Vec<(String, V)>,
}

/// First-match lookup of `name` among `entries`, front to back.
pub open spec fn seq_lookup<V>(entries: Seq<(String, V)>, name: Seq<char>) -> Option<V>
    decreases entries.len(),
{
    if entries.len() == 0 {
        None
    } else if entries[0].0@ == name {
        Some(entries[0].1)
    } else {
        seq_lookup(entries.drop_first(), name)
    }
}

/// Appending an entry with a fresh key leaves every other lookup unchanged
/// and makes the new key found.
pub proof fn lemma_seq_lookup_push<V>(entries: Seq<(String, V)>, name: Seq<char>, entry: (String, V))
    ensures
        entry.0@ == name ==> seq_lookup(entries.push(entry), name) == (
        if seq_lookup(entries, name) is Some {
            seq_lookup(entries, name)
        } else {
            Some(entry.1)
        }),
        entry.0@ != name ==> seq_lookup(entries.push(entry), name) == seq_lookup(entries, name),
    decreases entries.len(),
{
    if entries.len() == 0 {
        assert(entries.push(entry).drop_first() =~= Seq::empty());
    } else {
        assert(entries.push(entry).drop_first() =~= entries.drop_first().push(entry));
        lemma_seq_lookup_push(entries.drop_first(), name, entry);
    }
}

impl<V: Copy> NamedTable<V> {
    /// The table's contents, as the sequence of its entries in insertion
    /// order.
    pub closed spec fn view(self) -> Seq<(String, V)> {
        self.entries@
    }

    /// What looking `name` up returns.
    pub open spec fn spec_lookup(self, name: Seq<char>) -> Option<V> {
        seq_lookup(self@, name)
    }

    /// Whether `name` has an entry.
    pub open spec fn spec_contains(self, name: Seq<char>) -> bool {
        self.spec_lookup(name) is Some
    }

    /// Keys are pairwise distinct.
    pub open spec fn wf(self) -> bool {
        forall|i: int, j: int|
            0 <= i < j < self@.len() ==> (#[trigger] self@[i]).0@ != (#[trigger] self@[j]).0@
    }

    /// An empty table.
    pub fn new() -> (r: Self)
        ensures
            r@ =~= Seq::<(String, V)>::empty(),
            r.wf(),
    {
        NamedTable { entries: Vec::new() }
    }

    /// How many entries the table holds.
    pub fn len(&self) -> (r: usize)
        ensures
            r == self@.len(),
    {
        self.entries.len()
    }

    /// The entry at position `i`, in insertion order.
    pub fn entry_at(&self, i: usize) -> (r: (&String, V))
        requires
            i < self@.len(),
        ensures
            r.0@ == self@[i as int].0@,
            r.1 == self@[i as int].1,
    {
        let entry = &self.entries[i];
        (&entry.0, entry.1)
    }

    /// Adds an entry for a name the table does not hold yet.
    pub fn insert(&mut self, name: String, value: V)
        requires
            !old(self).spec_contains(name@),
        ensures
            final(self)@ == old(self)@.push((name, value)),
            final(self).spec_lookup(name@) == Some(value),
            forall|other: Seq<char>|
                other != name@ ==> final(self).spec_lookup(other) == old(self).spec_lookup(other),
            old(self).wf() ==> final(self).wf(),
    {
        proof {
            let pre = self.entries@;
            assert forall|other: Seq<char>| true implies seq_lookup(
                pre.push((name, value)),
                other,
            ) == (if other == name@ {
                if seq_lookup(pre, other) is Some {
                    seq_lookup(pre, other)
                } else {
                    Some(value)
                }
            } else {
                seq_lookup(pre, other)
            }) by {
                lemma_seq_lookup_push(pre, other, (name, value));
            }
            if self.wf() {
                assert forall|i: int| 0 <= i < pre.len() implies (#[trigger] pre[i]).0@ != name@ by {
                    if pre[i].0@ == name@ {
                        lemma_key_present_implies_found(pre, name@, i);
                    }
                }
                assert forall|i: int, j: int|
                    0 <= i < j < pre.push((name, value)).len() implies (#[trigger] pre.push(
                    (name, value),
                )[i]).0@ != (#[trigger] pre.push((name, value))[j]).0@ by {
                    if j < pre.len() {
                        assert(pre[i].0@ != pre[j].0@);
                    } else {
                        assert(pre[i].0@ != name@);
                    }
                }
            }
        }
        self.entries.push((name, value));
    }

    /// Looks `name` up by exact match.
    pub fn get(&self, name: &str) -> (r: Option<V>)
        ensures
            r == self.spec_lookup(name@),
    {
        let want: String = name.to_owned();
        let n = self.entries.len();
        let mut i: usize = 0;
        proof {
            assert(self@.skip(0) =~= self@);
        }
        while i < n
            invariant
                n == self@.len(),
                i <= n,
                want@ == name@,
                seq_lookup(self@.skip(i as int), name@) == seq_lookup(self@, name@),
            decreases n - i,
        {
            proof {
                assert(self@.skip(i as int).drop_first() =~= self@.skip(i as int + 1));
                assert(self@.skip(i as int)[0] == self@[i as int]);
            }
            let entry = &self.entries[i];
            if entry.0 == want {
                return Some(entry.1);
            }
            i = i + 1;
        }
        proof {
            assert(self@.skip(n as int) =~= Seq::empty());
        }
        None
    }

    /// A copy with the same entries in the same order.
    pub fn duplicate(&self) -> (r: Self)
        ensures
            r@ =~= self@,
    {
        let n = self.entries.len();
        let mut entries: Vec<(String, V)> = Vec::new();
        let mut i: usize = 0;
        while i < n
            invariant
                n == self.entries@.len(),
                i <= n,
                entries@ =~= self.entries@.take(i as int),
            decreases n - i,
        {
            let entry = &self.entries[i];
            entries.push((entry.0.clone(), entry.1));
            proof {
                assert(entries@ =~= self.entries@.take(i as int + 1));
            }
            i = i + 1;
        }
        proof {
            assert(self.entries@.take(n as int) =~= self.entries@);
        }
        NamedTable { entries }
    }
}

/// An entry's key is always found.
pub proof fn lemma_key_present_implies_found<V>(entries: Seq<(String, V)>, name: Seq<char>, i: int)
    requires
        0 <= i < entries.len(),
        entries[i].0@ == name,
    ensures
        seq_lookup(entries, name) is Some,
    decreases entries.len(),
{
    if entries[0].0@ != name {
        assert(entries.drop_first()[i - 1] == entries[i]);
        lemma_key_present_implies_found(entries.drop_first(), name, i - 1);
    }
}

} // verus!
