//! Name-to-value association tables.
//!
//! Environments, class method tables and instance field tables are all
//! string-keyed maps. They are kept as vectors of entries and are specified
//! through their abstraction to `Map<Seq<char>, V>`, where a later entry for
//! a name shadows an earlier one.

use vstd::prelude::*;

verus! {

/// The map described by an entry list: later entries win.
pub open spec fn assoc_map<V>(s: Seq<(String, V)>) -> Map<Seq<char>, V>
    decreases s.len(),
{
    if s.len() == 0 {
        Map::empty()
    } else {
        assoc_map(s.drop_last()).insert(s.last().0@, s.last().1)
    }
}

/// The entry list with every entry for key `k` removed.
pub open spec fn seq_remove_key<V>(s: Seq<(String, V)>, k: Seq<char>) -> Seq<(String, V)>
    decreases s.len(),
{
    if s.len() == 0 {
        s
    } else if s.last().0@ == k {
        seq_remove_key(s.drop_last(), k)
    } else {
        seq_remove_key(s.drop_last(), k).push(s.last())
    }
}

/// A key is in the map exactly when some entry carries it.
proof fn lemma_assoc_dom<V>(s: Seq<(String, V)>, k: Seq<char>)
    ensures
        assoc_map(s).dom().contains(k) <==> exists|i: int| 0 <= i < s.len() && s[i].0@ == k,
    decreases s.len(),
{
    if s.len() > 0 {
        lemma_assoc_dom(s.drop_last(), k);
        if s.last().0@ != k && exists|i: int| 0 <= i < s.len() && s[i].0@ == k {
            let i = choose|i: int| 0 <= i < s.len() && s[i].0@ == k;
            assert(s.drop_last()[i] == s[i]);
        }
    }
}

/// The map of an entry list is finite and no larger than the list.
proof fn lemma_assoc_finite<V>(s: Seq<(String, V)>)
    ensures
        assoc_map(s).dom().finite(),
        assoc_map(s).dom().len() <= s.len(),
    decreases s.len(),
{
    if s.len() > 0 {
        lemma_assoc_finite(s.drop_last());
    }
}

/// The last entry for a key gives the map's value at that key.
proof fn lemma_assoc_last_wins<V>(s: Seq<(String, V)>, i: int)
    requires
        0 <= i < s.len(),
        forall|j: int| i < j < s.len() ==> s[j].0@ != s[i].0@,
    ensures
        assoc_map(s).dom().contains(s[i].0@),
        assoc_map(s)[s[i].0@] == s[i].1,
    decreases s.len(),
{
    if i < s.len() - 1 {
        assert(s.drop_last()[i] == s[i]);
        lemma_assoc_last_wins(s.drop_last(), i);
    }
}

/// Removing a key's entries removes exactly that key from the map.
proof fn lemma_assoc_remove_key<V>(s: Seq<(String, V)>, k: Seq<char>)
    ensures
        assoc_map(seq_remove_key(s, k)) =~= assoc_map(s).remove(k),
        seq_remove_key(s, k).len() <= s.len(),
        forall|i: int|
            0 <= i < seq_remove_key(s, k).len() ==> #[trigger] seq_remove_key(s, k)[i].0@ != k,
    decreases s.len(),
{
    if s.len() > 0 {
        lemma_assoc_remove_key(s.drop_last(), k);
        if s.last().0@ != k {
            let t = seq_remove_key(s.drop_last(), k).push(s.last());
            assert(t.drop_last() =~= seq_remove_key(s.drop_last(), k));
        }
    }
}

/// Concatenating entry lists unions their maps, preferring the later list.
proof fn lemma_assoc_append<V>(a: Seq<(String, V)>, b: Seq<(String, V)>)
    ensures
        assoc_map(a + b) =~= assoc_map(a).union_prefer_right(assoc_map(b)),
    decreases b.len(),
{
    if b.len() == 0 {
        assert(a + b =~= a);
        lemma_assoc_dom(b, arbitrary());
    } else {
        lemma_assoc_append(a, b.drop_last());
        assert((a + b).drop_last() =~= a + b.drop_last());
        assert((a + b).last() == b.last());
    }
}

/// Entry lists with pointwise equal keys and values describe one map.
proof fn lemma_assoc_congruent<V>(a: Seq<(String, V)>, b: Seq<(String, V)>)
    requires
        a.len() == b.len(),
        forall|j: int| 0 <= j < a.len() ==> a[j].0@ == b[j].0@ && a[j].1 == b[j].1,
    ensures
        assoc_map(a) == assoc_map(b),
    decreases a.len(),
{
    if a.len() > 0 {
        assert(forall|j: int|
            0 <= j < a.len() - 1 ==> a.drop_last()[j].0@ == b.drop_last()[j].0@
                && a.drop_last()[j].1 == b.drop_last()[j].1);
        lemma_assoc_congruent(a.drop_last(), b.drop_last());
        assert(assoc_map(a) =~= assoc_map(b));
    } else {
        assert(assoc_map(a) =~= assoc_map(b));
    }
}

/// A name-to-value table, abstracted as a `Map<Seq<char>, V>`.
pub struct StringMap<V> {
    entries: Vec<(String, V)>,
}

impl<V> View for StringMap<V> {
    type V = Map<Seq<char>, V>;

    closed spec fn view(&self) -> Map<Seq<char>, V> {
        assoc_map(self.entries@)
    }
}

impl<V> StringMap<V> {
    /// The empty table.
    pub fn new() -> (r: Self)
        ensures
            r@ == Map::<Seq<char>, V>::empty(),
    {
        StringMap { entries: Vec::new() }
    }

    /// The table binds finitely many names.
    pub proof fn lemma_finite(&self)
        ensures
            self@.dom().finite(),
    {
        lemma_assoc_finite(self.entries@);
    }

    /// Whether `name` is bound.
    pub fn contains_key(&self, name: &String) -> (r: bool)
        ensures
            r == self@.dom().contains(name@),
    {
        let n = self.entries.len();
        let mut i: usize = 0;
        while i < n
            invariant
                n == self.entries.len(),
                0 <= i <= n,
                forall|j: int| 0 <= j < i ==> self.entries@[j].0@ != name@,
            decreases n - i,
        {
            if self.entries[i].0 == *name {
                proof {
                    lemma_assoc_dom(self.entries@, name@);
                }
                return true;
            }
            i += 1;
        }
        proof {
            lemma_assoc_dom(self.entries@, name@);
        }
        false
    }

    /// The value bound to `name`, if any.
    pub fn get_ref(&self, name: &String) -> (r: Option<&V>)
        ensures
            match r {
                Some(v) => self@.dom().contains(name@) && *v == self@[name@],
                None => !self@.dom().contains(name@),
            },
    {
        let n = self.entries.len();
        let mut i: usize = n;
        while i > 0
            invariant
                n == self.entries.len(),
                0 <= i <= n,
                forall|j: int| i <= j < n ==> self.entries@[j].0@ != name@,
            decreases i,
        {
            i -= 1;
            if self.entries[i].0 == *name {
                proof {
                    lemma_assoc_last_wins(self.entries@, i as int);
                }
                return Some(&self.entries[i].1);
            }
        }
        proof {
            lemma_assoc_dom(self.entries@, name@);
        }
        None
    }

    /// Removes every entry for `name`.
    fn remove_key(&mut self, name: &String)
        ensures
            final(self)@ == old(self)@.remove(name@),
            final(self).entries@ == seq_remove_key(old(self).entries@, name@),
    {
        let mut kept: Vec<(String, V)> = Vec::new();
        core::mem::swap(&mut kept, &mut self.entries);
        let ghost s0 = kept@;
        let n = kept.len();
        let mut out: Vec<(String, V)> = Vec::new();
        let mut i: usize = 0;
        while i < n
            invariant
                n == s0.len(),
                0 <= i <= n,
                kept@ == s0.skip(i as int),
                out@ == seq_remove_key(s0.take(i as int), name@),
            decreases n - i,
        {
            let entry = kept.remove(0);
            proof {
                assert(entry == s0[i as int]);
                assert(kept@ =~= s0.skip(i as int + 1));
                assert(s0.take(i as int + 1).drop_last() =~= s0.take(i as int));
                assert(s0.take(i as int + 1).last() == s0[i as int]);
            }
            if entry.0 == *name {
            } else {
                out.push(entry);
            }
            i += 1;
        }
        proof {
            assert(s0.take(n as int) =~= s0);
            lemma_assoc_remove_key(s0, name@);
        }
        self.entries = out;
    }

    /// Binds `name` to `value`, replacing any earlier binding.
    pub fn insert(&mut self, name: String, value: V)
        ensures
            final(self)@ == old(self)@.insert(name@, value),
    {
        let ghost s0 = self.entries@;
        self.entries.push((name, value));
        proof {
            assert(self.entries@.drop_last() =~= s0);
        }
    }

    /// Removes and returns the binding of some bound name; `None` exactly
    /// when the table is empty.
    pub fn pop_entry(&mut self) -> (r: Option<(String, V)>)
        ensures
            old(self)@.dom().finite(),
            final(self)@.dom().finite(),
            match r {
                Some((name, value)) => {
                    &&& old(self)@.dom().contains(name@)
                    &&& old(self)@[name@] == value
                    &&& final(self)@ == old(self)@.remove(name@)
                    &&& final(self)@.dom().len() < old(self)@.dom().len()
                },
                None => {
                    &&& old(self)@ == Map::<Seq<char>, V>::empty()
                    &&& final(self)@ == old(self)@
                },
            },
    {
        proof {
            lemma_assoc_finite(self.entries@);
        }
        let ghost s0 = self.entries@;
        let popped = self.entries.pop();
        match popped {
            Some((name, value)) => {
                proof {
                    assert(self.entries@ =~= s0.drop_last());
                }
                self.remove_key(&name);
                proof {
                    lemma_assoc_finite(self.entries@);
                    assert(final(self)@ =~= old(self)@.remove(name@));
                    lemma_assoc_dom(s0, name@);
                }
                Some((name, value))
            },
            None => {
                proof {
                    assert(old(self)@ =~= Map::<Seq<char>, V>::empty());
                }
                None
            },
        }
    }

    /// Binds every entry of `other`, replacing earlier bindings of the same
    /// names.
    pub fn merge_from(&mut self, other: StringMap<V>)
        ensures
            final(self)@ == old(self)@.union_prefer_right(other@),
    {
        let ghost a = self.entries@;
        let ghost b = other.entries@;
        let mut moved = other;
        self.entries.append(&mut moved.entries);
        proof {
            lemma_assoc_append(a, b);
        }
    }

    /// A copy made by applying `f`, which must reproduce each value, to every
    /// bound value.
    pub fn clone_with<F: Fn(&V) -> V>(&self, f: &F) -> (r: Self)
        requires
            forall|x: &V| #[trigger] f.requires((x,)),
            forall|x: &V, y: V| #[trigger] f.ensures((x,), y) ==> y == *x,
        ensures
            r@ == self@,
    {
        let n = self.entries.len();
        let mut out: Vec<(String, V)> = Vec::new();
        let mut i: usize = 0;
        while i < n
            invariant
                n == self.entries.len(),
                0 <= i <= n,
                out@.len() == i,
                forall|x: &V| #[trigger] f.requires((x,)),
                forall|x: &V, y: V| #[trigger] f.ensures((x,), y) ==> y == *x,
                forall|j: int| 0 <= j < i ==> out@[j].0@ == self.entries@[j].0@ && out@[j].1
                    == self.entries@[j].1,
            decreases n - i,
        {
            let name = self.entries[i].0.clone();
            let value = f(&self.entries[i].1);
            out.push((name, value));
            i += 1;
        }
        proof {
            lemma_assoc_congruent(out@, self.entries@);
        }
        StringMap { entries: out }
    }
}

/// A set of names, abstracted as a `Set<Seq<char>>`.
pub struct StringSet {
    names: Vec<String>,
}

impl View for StringSet {
    type V = Set<Seq<char>>;

    closed spec fn view(&self) -> Set<Seq<char>> {
        Set::new(|k: Seq<char>| exists|i: int| 0 <= i < self.names@.len() && self.names@[i]@ == k)
    }
}

impl StringSet {
    /// The empty set.
    pub fn new() -> (r: Self)
        ensures
            r@ == Set::<Seq<char>>::empty(),
    {
        let r = StringSet { names: Vec::new() };
        proof {
            assert(r@ =~= Set::<Seq<char>>::empty());
        }
        r
    }

    /// Whether `name` is a member.
    pub fn contains(&self, name: &String) -> (r: bool)
        ensures
            r == self@.contains(name@),
    {
        let n = self.names.len();
        let mut i: usize = 0;
        while i < n
            invariant
                n == self.names.len(),
                0 <= i <= n,
                forall|j: int| 0 <= j < i ==> self.names@[j]@ != name@,
            decreases n - i,
        {
            if self.names[i] == *name {
                return true;
            }
            i += 1;
        }
        false
    }

    /// Adds `name`.
    pub fn add_name(&mut self, name: String)
        ensures
            final(self)@ == old(self)@.insert(name@),
    {
        let ghost s0 = self.names@;
        let ghost kv = name@;
        self.names.push(name);
        proof {
            assert forall|k: Seq<char>| #[trigger] final(self)@.contains(k) implies old(self)@.insert(kv).contains(k) by {
                let i = choose|i: int| 0 <= i < self.names@.len() && self.names@[i]@ == k;
                if i < s0.len() {
                    assert(s0[i]@ == k);
                }
            }
            assert forall|k: Seq<char>| old(self)@.insert(kv).contains(k) implies #[trigger] final(self)@.contains(k) by {
                if k == kv {
                    assert(self.names@[s0.len() as int]@ == kv);
                } else {
                    let i = choose|i: int| 0 <= i < s0.len() && s0[i]@ == k;
                    assert(self.names@[i]@ == k);
                }
            }
            assert(final(self)@ =~= old(self)@.insert(kv));
        }
    }

    /// An equal copy.
    pub fn clone_set(&self) -> (r: Self)
        ensures
            r@ == self@,
    {
        let n = self.names.len();
        let mut out: Vec<String> = Vec::new();
        let mut i: usize = 0;
        while i < n
            invariant
                n == self.names.len(),
                0 <= i <= n,
                out@.len() == i,
                forall|j: int| 0 <= j < i ==> out@[j]@ == self.names@[j]@,
            decreases n - i,
        {
            out.push(self.names[i].clone());
            i += 1;
        }
        let r = StringSet { names: out };
        proof {
            assert forall|k: Seq<char>| #[trigger] r@.contains(k) implies self@.contains(k) by {
                let i = choose|i: int| 0 <= i < r.names@.len() && r.names@[i]@ == k;
                assert(self.names@[i]@ == k);
            }
            assert forall|k: Seq<char>| #[trigger] self@.contains(k) implies r@.contains(k) by {
                let i = choose|i: int| 0 <= i < self.names@.len() && self.names@[i]@ == k;
                assert(r.names@[i]@ == k);
            }
            assert(r@ =~= self@);
        }
        r
    }
}

} // verus!
