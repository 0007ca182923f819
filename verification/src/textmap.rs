//! A map from names to values.

use vstd::prelude::*;

use crate::text;

verus! {

/// A map from names to values. No name occurs twice; names are listed in the
/// order in which they came in.
#[derive(Debug)]
pub struct TextMap<V> {
    names: Vec<String>,
    values: Vec<V>,
}

/// No name of the list occurs twice.
pub open spec fn distinct(names: Seq<String>) -> bool {
    forall|i: int, j: int|
        0 <= i < j < names.len() ==> (#[trigger] names[i])@ != (#[trigger] names[j])@
}

/// `k` is the name at position `i`.
pub open spec fn is_at(names: Seq<String>, k: Seq<char>, i: int) -> bool {
    0 <= i < names.len() && names[i]@ == k
}

/// The map that a list of pairs makes: the last pair of a name counts.
pub open spec fn collect<V>(pairs: Seq<(Seq<char>, V)>) -> Map<Seq<char>, V>
    decreases pairs.len(),
{
    if pairs.len() == 0 {
        Map::empty()
    } else {
        collect(pairs.drop_last()).insert(pairs.last().0, pairs.last().1)
    }
}

/// One more pair is one more insertion.
pub proof fn lemma_collect_step<V>(pairs: Seq<(Seq<char>, V)>, i: int)
    requires
        0 <= i < pairs.len(),
    ensures
        collect(pairs.take(i + 1)) == collect(pairs.take(i)).insert(pairs[i].0, pairs[i].1),
{
    assert(pairs.take(i + 1).drop_last() =~= pairs.take(i));
}

/// The pairs of a map, in the order of a list of its names.
pub open spec fn pairs_of<V>(names: Seq<Seq<char>>, m: Map<Seq<char>, V>) -> Seq<(Seq<char>, V)> {
    names.map_values(|k: Seq<char>| (k, m[k]))
}

/// The pairs of a map make that map again.
pub proof fn lemma_collect_pairs<V>(names: Seq<Seq<char>>, m: Map<Seq<char>, V>)
    requires
        forall|k: Seq<char>| names.contains(k) <==> #[trigger] m.dom().contains(k),
    ensures
        collect(pairs_of(names, m)) == m,
{
    lemma_collect_prefix(names, m, names.len() as int);
    let all = pairs_of(names, m);
    assert(all.take(names.len() as int) =~= all);
    assert forall|k: Seq<char>| #[trigger] m.dom().contains(k) implies collect(all).dom().contains(
        k,
    ) by {
        let i = choose|i: int| 0 <= i < names.len() && names[i] == k;
        assert(collect(all).dom().contains(names[i]));
    }
    assert(collect(all) =~= m);
}

proof fn lemma_collect_prefix<V>(names: Seq<Seq<char>>, m: Map<Seq<char>, V>, n: int)
    requires
        0 <= n <= names.len(),
        forall|k: Seq<char>| names.contains(k) <==> #[trigger] m.dom().contains(k),
    ensures
        forall|k: Seq<char>| #[trigger]
            collect(pairs_of(names, m).take(n)).dom().contains(k) ==> m.dom().contains(k)
                && collect(pairs_of(names, m).take(n))[k] == m[k],
        forall|i: int|
            0 <= i < n ==> collect(pairs_of(names, m).take(n)).dom().contains(
                #[trigger] names[i],
            ),
    decreases n,
{
    let all = pairs_of(names, m);
    if n > 0 {
        lemma_collect_prefix(names, m, n - 1);
        lemma_collect_step(all, n - 1);
        assert(names.contains(names[n - 1]));
        assert(m.dom().contains(names[n - 1]));
    }
}

impl<V> View for TextMap<V> {
    type V = Map<Seq<char>, V>;

    closed spec fn view(&self) -> Map<Seq<char>, V> {
        Map::new(
            |k: Seq<char>| exists|i: int| #[trigger] is_at(self.names@, k, i),
            |k: Seq<char>| self.values@[choose|i: int| #[trigger] is_at(self.names@, k, i)],
        )
    }
}

impl<V> TextMap<V> {
    /// Each name has one value, and no name occurs twice.
    #[verifier::type_invariant]
    pub closed spec fn valid(self) -> bool {
        &&& distinct(self.names@)
        &&& self.names@.len() == self.values@.len()
    }

    /// The names, in their order.
    pub closed spec fn listed(&self) -> Seq<Seq<char>> {
        self.names@.map_values(|s: String| s@)
    }

    proof fn lemma_at(&self, i: int)
        requires
            self.valid(),
            0 <= i < self.names@.len(),
        ensures
            self@.contains_key(self.names@[i]@),
            self@[self.names@[i]@] == self.values@[i],
    {
        let k = self.names@[i]@;
        assert(is_at(self.names@, k, i));
        let j = choose|j: int| #[trigger] is_at(self.names@, k, j);
        assert(is_at(self.names@, k, j));
        assert(i == j);
    }

    pub fn new() -> (r: TextMap<V>)
        ensures
            r@ == Map::<Seq<char>, V>::empty(),
            r.listed() == Seq::<Seq<char>>::empty(),
    {
        let r: TextMap<V> = TextMap { names: Vec::new(), values: Vec::new() };
        assert(r@ =~= Map::<Seq<char>, V>::empty());
        assert(r.listed() =~= Seq::<Seq<char>>::empty());
        r
    }

    fn find(&self, name: &str) -> (r: Option<usize>)
        ensures
            self.valid(),
            match r {
                Some(i) => is_at(self.names@, name@, i as int) && self@.contains_key(name@)
                    && self@[name@] == self.values@[i as int],
                None => !self@.contains_key(name@) && forall|j: int|
                    !#[trigger] is_at(self.names@, name@, j),
            },
    {
        proof {
            use_type_invariant(self);
        }
        let n: usize = self.names.len();
        for i in 0..n
            invariant
                n == self.names@.len(),
                self.valid(),
                forall|j: int| 0 <= j < i ==> !#[trigger] is_at(self.names@, name@, j),
        {
            if text::same_text(self.names[i].as_str(), name) {
                proof {
                    self.lemma_at(i as int);
                }
                return Some(i);
            }
        }
        None
    }

    /// Whether the name is in the map.
    pub fn contains_key(&self, name: &str) -> (r: bool)
        ensures
            r == self@.contains_key(name@),
    {
        self.find(name).is_some()
    }

    /// The value behind a name.
    pub fn get(&self, name: &str) -> (r: Option<&V>)
        ensures
            match r {
                Some(v) => self@.contains_key(name@) && *v == self@[name@],
                None => !self@.contains_key(name@),
            },
    {
        match self.find(name) {
            Some(i) => Some(&self.values[i]),
            None => None,
        }
    }

    /// Access to the value behind a name.
    pub fn get_mut(&mut self, name: &str) -> (r: Option<&mut V>)
        ensures
            match r {
                Some(v) => old(self)@.contains_key(name@) && *v == old(self)@[name@]
                    && final(self)@ == old(self)@.insert(name@, *final(v)),
                None => !old(self)@.contains_key(name@) && final(self)@ == old(self)@,
            },
            final(self).listed() == old(self).listed(),
    {
        match self.find(name) {
            Some(i) => Some(&mut self.values[i]),
            None => None,
        }
    }

    /// Puts a value behind a name, in place of an earlier one. A new name is
    /// listed last.
    pub fn insert(&mut self, name: String, value: V)
        ensures
            final(self)@ == old(self)@.insert(name@, value),
            old(self)@.contains_key(name@) ==> final(self).listed() == old(self).listed(),
            !old(self)@.contains_key(name@) ==> final(self).listed() == old(self).listed().push(
                name@,
            ),
    {
        let at = self.find(name.as_str());
        let mut taken: TextMap<V> = TextMap::new();
        std::mem::swap(self, &mut taken);
        let TextMap { mut names, mut values } = taken;
        let ghost before = *old(self);
        match at {
            Some(i) => {
                values.set(i, value);
                *self = TextMap { names, values };
                proof {
                    assert forall|k: Seq<char>| #[trigger] self@.dom().contains(k) implies
                        before@.dom().contains(k) && self@[k] == before@.insert(
                        name@,
                        value,
                    )[k] by {
                        let j = choose|j: int| is_at(self.names@, k, j);
                        assert(is_at(self.names@, k, j));
                        self.lemma_at(j);
                        before.lemma_at(j);
                    }
                    assert forall|k: Seq<char>| #[trigger] before@.dom().contains(k) implies
                        self@.dom().contains(k) by {
                        let j = choose|j: int| is_at(before.names@, k, j);
                        assert(is_at(before.names@, k, j));
                        self.lemma_at(j);
                    }
                }
            },
            None => {
                names.push(name);
                values.push(value);
                proof {
                    assert forall|i: int, j: int|
                        0 <= i < j < names@.len() implies (#[trigger] names@[i])@ != (
                    #[trigger] names@[j])@ by {
                        if j == before.names@.len() {
                            assert(!is_at(before.names@, name@, i));
                        }
                    }
                }
                *self = TextMap { names, values };
                proof {
                    let n = before.names@.len() as int;
                    assert forall|k: Seq<char>| #[trigger] self@.dom().contains(k) implies self@[k]
                        == before@.insert(name@, value)[k] && before@.insert(
                        name@,
                        value,
                    ).dom().contains(k) by {
                        let j = choose|j: int| is_at(self.names@, k, j);
                        assert(is_at(self.names@, k, j));
                        self.lemma_at(j);
                        if j < n {
                            before.lemma_at(j);
                        }
                    }
                    assert forall|k: Seq<char>| #[trigger] before@.dom().contains(k) || k == name@
                        implies self@.dom().contains(k) by {
                        if k == name@ {
                            self.lemma_at(n);
                        } else {
                            let j = choose|j: int| is_at(before.names@, k, j);
                            assert(is_at(before.names@, k, j));
                            self.lemma_at(j);
                        }
                    }
                    assert(self.listed() =~= before.listed().push(name@));
                }
            },
        }
        assert(self@ =~= before@.insert(name@, value));
    }

    /// Takes a name out of the map. The other names keep their order.
    pub fn remove(&mut self, name: &str) -> (r: Option<V>)
        ensures
            match r {
                Some(v) => old(self)@.contains_key(name@) && v == old(self)@[name@],
                None => !old(self)@.contains_key(name@),
            },
            final(self)@ == old(self)@.remove(name@),
            final(self).listed() == if old(self)@.contains_key(name@) {
                old(self).listed().remove(old(self).listed().index_of(name@))
            } else {
                old(self).listed()
            },
    {
        let at = self.find(name);
        match at {
            None => {
                assert(self@ =~= self@.remove(name@));
                None
            },
            Some(i) => {
                let ghost before = *old(self);
                let mut taken: TextMap<V> = TextMap::new();
                std::mem::swap(self, &mut taken);
                let TextMap { mut names, mut values } = taken;
                let n = names.remove(i);
                let v = values.remove(i);
                *self = TextMap { names, values };
                proof {
                    let at = i as int;
                    assert forall|k: Seq<char>| #[trigger] self@.dom().contains(k) implies
                        before@.remove(name@).dom().contains(k) && self@[k] == before@[k] by {
                        let j = choose|j: int| is_at(self.names@, k, j);
                        assert(is_at(self.names@, k, j));
                        self.lemma_at(j);
                        if j < at {
                            assert(before.names@[j]@ != before.names@[at]@);
                            before.lemma_at(j);
                        } else {
                            assert(before.names@[at]@ != before.names@[j + 1]@);
                            before.lemma_at(j + 1);
                        }
                    }
                    assert forall|k: Seq<char>| #[trigger]
                        before@.remove(name@).dom().contains(k) implies self@.dom().contains(k) by {
                        let j = choose|j: int| is_at(before.names@, k, j);
                        assert(is_at(before.names@, k, j));
                        if j < at {
                            self.lemma_at(j);
                        } else {
                            self.lemma_at(j - 1);
                        }
                    }
                    assert(self@ =~= before@.remove(name@));
                    before.lemma_listed();
                    assert(before.listed()[at] == name@);
                    let first = before.listed().index_of(name@);
                    assert(before.listed()[first] == name@);
                    assert(first == at);
                    assert(self.listed() =~= before.listed().remove(at));
                }
                Some(v)
            },
        }
    }

    /// How many names there are.
    pub fn len(&self) -> (r: usize)
        ensures
            r == self.listed().len(),
            self@.dom().finite(),
            r == self@.dom().len(),
            self.valid(),
    {
        proof {
            use_type_invariant(self);
            self.lemma_listed();
            self.listed().unique_seq_to_set();
            assert(self.listed().to_set() =~= self@.dom());
        }
        self.names.len()
    }

    /// The name at a position of the list, and its value.
    pub fn at(&self, i: usize) -> (r: (&String, &V))
        requires
            i < self.listed().len(),
        ensures
            r.0@ == self.listed()[i as int],
            self@.contains_key(r.0@),
            *r.1 == self@[r.0@],
    {
        proof {
            use_type_invariant(self);
            self.lemma_at(i as int);
        }
        (&self.names[i], &self.values[i])
    }

    /// The list holds each name of the map exactly once.
    pub proof fn lemma_listed(&self)
        requires
            self.valid(),
        ensures
            self.listed().no_duplicates(),
            forall|k: Seq<char>| self.listed().contains(k) <==> #[trigger] self@.contains_key(k),
    {
        assert forall|i: int, j: int|
            0 <= i < self.listed().len() && 0 <= j < self.listed().len() && i
                != j implies self.listed()[i] != self.listed()[j] by {
            if i < j {
                assert(self.names@[i]@ != self.names@[j]@);
            } else {
                assert(self.names@[j]@ != self.names@[i]@);
            }
        }
        assert forall|k: Seq<char>| self.listed().contains(k) <==> #[trigger] self@.contains_key(
            k,
        ) by {
            if self.listed().contains(k) {
                let i = choose|i: int| 0 <= i < self.listed().len() && self.listed()[i] == k;
                self.lemma_at(i);
            }
            if self@.contains_key(k) {
                let i = choose|i: int| is_at(self.names@, k, i);
                assert(is_at(self.names@, k, i));
                assert(self.listed()[i] == k);
            }
        }
    }

    /// The names, each once.
    pub fn names(&self) -> (r: Vec<String>)
        ensures
            r@.map_values(|s: String| s@) == self.listed(),
            distinct(r@),
            forall|k: Seq<char>| #[trigger]
                self@.contains_key(k) <==> exists|i: int| #[trigger] is_at(r@, k, i),
    {
        proof {
            use_type_invariant(self);
        }
        let mut out: Vec<String> = Vec::new();
        let n: usize = self.names.len();
        for i in 0..n
            invariant
                n == self.names@.len(),
                out@ == self.names@.take(i as int),
        {
            out.push(self.names[i].clone());
            assert(out@ =~= self.names@.take(i + 1));
        }
        assert(out@ =~= self.names@);
        out
    }
}

} // verus!
