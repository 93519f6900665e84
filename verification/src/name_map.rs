use crate::text::same_text;
use crate::text::texts;
use vstd::prelude::*;

verus! {

/// A map from names to values that remembers the order in which the names
/// were first inserted. No name occurs twice.
pub struct NameMap<V> {
    keys: Vec<String>,
    values: Vec<V>,
}

impl<V> View for NameMap<V> {
    type V = Map<Seq<char>, V>;

    closed spec fn view(&self) -> Map<Seq<char>, V> {
        Map::new(
            |name: Seq<char>| self.names().contains(name),
            |name: Seq<char>| self.values@[self.names().index_of(name)],
        )
    }
}

impl<V> NameMap<V> {
    /// Every name has its value and no name occurs twice. `new` establishes
    /// this and every method keeps it, so it holds of every map a program can
    /// build.
    pub closed spec fn wf(&self) -> bool {
        &&& self.keys.len() == self.values.len()
        &&& self.names().no_duplicates()
    }

    /// The names of the map, in the order of their first insertion.
    pub closed spec fn names(&self) -> Seq<Seq<char>> {
        self.keys@.map_values(|k: String| k@)
    }

    /// The names are distinct and are exactly the domain of the view.
    pub proof fn lemma_names(&self)
        requires
            self.wf(),
        ensures
            self.names().no_duplicates(),
            self@.dom().finite(),
            self@.dom() == self.names().to_set(),
            self@.dom().len() == self.names().len(),
            forall|i: int|
                0 <= i < self.names().len() ==> self@.contains_key(#[trigger] self.names()[i]),
    {
        assert(self@.dom() =~= self.names().to_set());
        self.names().unique_seq_to_set();
    }

    pub fn new() -> (map: Self)
        ensures
            map.wf(),
            map@ == Map::<Seq<char>, V>::empty(),
            map.names() == Seq::<Seq<char>>::empty(),
    {
        let map = NameMap { keys: Vec::new(), values: Vec::new() };
        assert(map.names() =~= Seq::<Seq<char>>::empty());
        assert(map@ =~= Map::<Seq<char>, V>::empty());
        map
    }

    pub fn len(&self) -> (n: usize)
        requires
            self.wf(),
        ensures
            n == self.names().len(),
            n == self@.dom().len(),
    {
        proof {
            self.lemma_names();
        }
        self.keys.len()
    }

    pub fn is_empty(&self) -> (empty: bool)
        requires
            self.wf(),
        ensures
            empty == (self.names().len() == 0),
            empty == (self@ == Map::<Seq<char>, V>::empty()),
    {
        proof {
            self.lemma_names();
            if self.names().len() == 0 {
                assert(self@ =~= Map::<Seq<char>, V>::empty());
            } else {
                assert(self@.contains_key(self.names()[0]));
            }
        }
        self.keys.len() == 0
    }

    /// Where a name stands in the order, if it is in the map.
    fn position(&self, name: &str) -> (at: Option<usize>)
        requires
            self.wf(),
        ensures
            match at {
                Some(i) => i < self.names().len() && self.names()[i as int] == name@,
                None => !self.names().contains(name@),
            },
    {
        let mut i: usize = 0;
        while i < self.keys.len()
            invariant
                self.wf(),
                0 <= i <= self.keys.len(),
                forall|j: int| 0 <= j < i ==> self.names()[j] != name@,
            decreases self.keys.len() - i,
        {
            if same_text(self.keys[i].as_str(), name) {
                return Some(i);
            }
            i += 1;
        }
        None
    }

    pub fn contains_key(&self, name: &str) -> (found: bool)
        requires
            self.wf(),
        ensures
            found == self@.contains_key(name@),
    {
        self.position(name).is_some()
    }

    pub fn get(&self, name: &str) -> (value: Option<&V>)
        requires
            self.wf(),
        ensures
            match value {
                Some(v) => self@.contains_key(name@) && *v == self@[name@],
                None => !self@.contains_key(name@),
            },
    {
        match self.position(name) {
            Some(i) => {
                assert(self.names().index_of(name@) == i);
                Some(&self.values[i])
            },
            None => None,
        }
    }

    /// The name at a place in the order.
    pub fn name_at(&self, i: usize) -> (name: &String)
        requires
            self.wf(),
            i < self.names().len(),
        ensures
            name@ == self.names()[i as int],
    {
        &self.keys[i]
    }

    /// The value of the name at a place in the order.
    pub fn value_at(&self, i: usize) -> (value: &V)
        requires
            self.wf(),
            i < self.names().len(),
        ensures
            self@.contains_key(self.names()[i as int]),
            *value == self@[self.names()[i as int]],
    {
        proof {
            assert(self.names().index_of(self.names()[i as int]) == i);
        }
        &self.values[i]
    }

    /// Binds a name to a value. A name that is already bound keeps its place in
    /// the order and hands back its old value; a new name goes to the end.
    pub fn insert(&mut self, name: String, value: V) -> (previous: Option<V>)
        requires
            old(self).wf(),
        ensures
            final(self).wf(),
            final(self)@ == old(self)@.insert(name@, value),
            match previous {
                Some(v) => old(self)@.contains_key(name@) && v == old(self)@[name@]
                    && final(self).names() == old(self).names(),
                None => !old(self)@.contains_key(name@) && final(self).names() == old(self).names().push(name@),
            },
    {
        let ghost before = *self;
        match self.position(name.as_str()) {
            Some(i) => {
                assert(before.names().index_of(name@) == i);
                self.values.push(value);
                let previous = self.values.swap_remove(i);
                proof {
                    assert(self.names() == before.names());
                    assert(self.values@ =~= before.values@.update(i as int, value));
                    assert forall|k: Seq<char>| self@.contains_key(k) implies #[trigger] self@[k]
                        == before@.insert(name@, value)[k] by {
                        let j = self.names().index_of(k);
                        if k != name@ {
                            assert(j != i);
                        }
                    }
                    assert(self@ =~= before@.insert(name@, value));
                }
                Some(previous)
            },
            None => {
                let ghost n = before.names().len() as int;
                self.keys.push(name);
                self.values.push(value);
                proof {
                    assert(self.names() =~= before.names().push(name@));
                    assert forall|a: int, b: int|
                        0 <= a < self.names().len() && 0 <= b < self.names().len() && a
                            != b implies self.names()[a] != self.names()[b] by {
                        if a < n && b < n {
                            assert(before.names()[a] != before.names()[b]);
                        } else if a < n {
                            assert(before.names().contains(before.names()[a]));
                        } else {
                            assert(before.names().contains(before.names()[b]));
                        }
                    }
                    assert forall|k: Seq<char>| #[trigger]
                        self@.contains_key(k) == before@.insert(name@, value).contains_key(k) by {
                        if k == name@ {
                            assert(self.names()[n] == k);
                        } else if before@.contains_key(k) {
                            let j = before.names().index_of(k);
                            assert(self.names()[j] == k);
                        } else if self@.contains_key(k) {
                            let j = self.names().index_of(k);
                            if j < n {
                                assert(before.names()[j] == k);
                            }
                        }
                    }
                    assert forall|k: Seq<char>| self@.contains_key(k) implies #[trigger] self@[k]
                        == before@.insert(name@, value)[k] by {
                        if k == name@ {
                            assert(self.names()[n] == k);
                            assert(self.names().index_of(k) == n);
                        } else {
                            let j = before.names().index_of(k);
                            assert(self.names()[j] == k);
                            assert(self.names().index_of(k) == j);
                        }
                    }
                    assert(self@ =~= before@.insert(name@, value));
                }
                None
            },
        }
    }

    /// Unbinds a name and hands back its value. The other names keep their
    /// order.
    pub fn remove(&mut self, name: &str) -> (previous: Option<V>)
        requires
            old(self).wf(),
        ensures
            final(self).wf(),
            final(self)@ == old(self)@.remove(name@),
            final(self).names() == without_name(old(self).names(), name@),
            match previous {
                Some(v) => old(self)@.contains_key(name@) && v == old(self)@[name@],
                None => !old(self)@.contains_key(name@),
            },
    {
        let ghost before = *self;
        match self.position(name) {
            Some(i) => {
                assert(before.names().index_of(name@) == i);
                let _ = self.keys.remove(i);
                let previous = self.values.remove(i);
                proof {
                    assert(self.names() =~= before.names().remove(i as int));
                    lemma_without_at(before.names(), i as int);
                    assert forall|a: int, b: int|
                        0 <= a < self.names().len() && 0 <= b < self.names().len() && a
                            != b implies self.names()[a] != self.names()[b] by {
                        let a0 = if a < i { a } else { a + 1 };
                        let b0 = if b < i { b } else { b + 1 };
                        assert(self.names()[a] == before.names()[a0]);
                        assert(self.names()[b] == before.names()[b0]);
                    }
                    assert forall|k: Seq<char>| #[trigger]
                        self@.contains_key(k) == before@.remove(name@).contains_key(k) by {
                        if before@.remove(name@).contains_key(k) {
                            let j = before.names().index_of(k);
                            assert(j != i);
                            let j1 = if j < i { j } else { j - 1 };
                            assert(self.names()[j1] == k);
                        } else if self@.contains_key(k) {
                            let j = self.names().index_of(k);
                            let j0 = if j < i { j } else { j + 1 };
                            assert(before.names()[j0] == k);
                        }
                    }
                    assert forall|k: Seq<char>| self@.contains_key(k) implies #[trigger] self@[k]
                        == before@.remove(name@)[k] by {
                        let j = before.names().index_of(k);
                        assert(j != i);
                        let j1 = if j < i { j } else { j - 1 };
                        assert(self.names()[j1] == k);
                        assert(self.names().index_of(k) == j1);
                    }
                    assert(self@ =~= before@.remove(name@));
                }
                Some(previous)
            },
            None => {
                proof {
                    lemma_without_absent(before.names(), name@);
                    assert(self@ =~= before@.remove(name@));
                }
                None
            },
        }
    }

    /// The same names, in the same order, with copies of their values.
    pub fn copy(&self) -> (twin: Self) where V: Copy
        requires
            self.wf(),
        ensures
            twin.wf(),
            twin@ == self@,
            twin.names() == self.names(),
    {
        let mut keys: Vec<String> = Vec::new();
        let mut values: Vec<V> = Vec::new();
        let mut i: usize = 0;
        while i < self.keys.len()
            invariant
                self.wf(),
                0 <= i <= self.keys.len(),
                keys.len() == i,
                values.len() == i,
                forall|j: int| 0 <= j < i ==> (#[trigger] keys[j])@ == self.keys[j]@,
                forall|j: int| 0 <= j < i ==> #[trigger] values[j] == self.values[j],
            decreases self.keys.len() - i,
        {
            keys.push(self.keys[i].clone());
            values.push(self.values[i]);
            i += 1;
        }
        let twin = NameMap { keys, values };
        proof {
            assert(twin.names() =~= self.names());
            assert(twin.values@ =~= self.values@);
            assert(twin@ =~= self@);
        }
        twin
    }

    /// Unbinds every name that `other` does not bind, and hands back the names
    /// that were unbound, in their order. The names that stay keep theirs.
    pub fn retain_names_of<W>(&mut self, other: &NameMap<W>) -> (dropped: Vec<String>)
        requires
            old(self).wf(),
            other.wf(),
        ensures
            final(self).wf(),
            final(self)@ == old(self)@.restrict(other@.dom()),
            final(self).names() == names_in(old(self).names(), other@.dom()),
            texts(dropped@) == names_not_in(old(self).names(), other@.dom()),
    {
        let ghost before = *self;
        let ghost all = before.names();
        let ghost among = other@.dom();
        let ghost mut seen: int = 0;
        let mut dropped: Vec<String> = Vec::new();
        let mut i: usize = 0;
        proof {
            before.lemma_names();
            assert(all.take(0) =~= Seq::<Seq<char>>::empty());
            assert(all.skip(0) =~= all);
            assert(names_in(all.take(0), among) + all.skip(0) =~= all);
        }
        while i < self.len()
            invariant
                before.wf(),
                other.wf(),
                self.wf(),
                all == before.names(),
                among == other@.dom(),
                0 <= seen <= all.len(),
                i == names_in(all.take(seen), among).len(),
                self.names() == names_in(all.take(seen), among) + all.skip(seen),
                forall|name: Seq<char>| #[trigger]
                    self@.contains_key(name) ==> before@.contains_key(name) && self@[name]
                        == before@[name],
                texts(dropped@) == names_not_in(all.take(seen), among),
            decreases all.len() - seen,
        {
            proof {
                assert(self.names()[i as int] == all.skip(seen)[0]);
                assert(all.take(seen + 1).drop_last() =~= all.take(seen));
                assert(all.take(seen + 1).last() == all[seen]);
            }
            if other.contains_key(self.name_at(i).as_str()) {
                proof {
                    assert(names_in(all.take(seen + 1), among) + all.skip(seen + 1)
                        =~= names_in(all.take(seen), among) + all.skip(seen));
                    seen = seen + 1;
                }
                i += 1;
            } else {
                let name = self.name_at(i).clone();
                let ghost names_before = self.names();
                let ghost view_before = self@;
                proof {
                    self.lemma_names();
                    lemma_without_at(names_before, i as int);
                    assert(names_before.remove(i as int) =~= names_in(all.take(seen), among)
                        + all.skip(seen + 1));
                }
                self.remove(name.as_str());
                dropped.push(name);
                proof {
                    assert(texts(dropped@) =~= names_not_in(all.take(seen), among).push(
                        all[seen],
                    ));
                    seen = seen + 1;
                }
            }
        }
        proof {
            assert(all.skip(seen) =~= Seq::<Seq<char>>::empty()) by {
                assert(self.names().len() == i + all.skip(seen).len());
            }
            assert(all.take(seen) =~= all);
            assert(self.names() =~= names_in(all, among));
            self.lemma_names();
            assert forall|name: Seq<char>| #[trigger]
                self@.contains_key(name) == before@.restrict(among).contains_key(name) by {
                lemma_names_in_contains(all, among, name);
            }
            assert(self@ =~= before@.restrict(among));
        }
        dropped
    }
}

/// The names of a sequence that are in a set, in their order.
pub open spec fn names_in(names: Seq<Seq<char>>, among: Set<Seq<char>>) -> Seq<Seq<char>>
    decreases names.len(),
{
    if names.len() == 0 {
        names
    } else if among.contains(names.last()) {
        names_in(names.drop_last(), among).push(names.last())
    } else {
        names_in(names.drop_last(), among)
    }
}

/// The names of a sequence that are not in a set, in their order.
pub open spec fn names_not_in(names: Seq<Seq<char>>, among: Set<Seq<char>>) -> Seq<Seq<char>>
    decreases names.len(),
{
    if names.len() == 0 {
        names
    } else if among.contains(names.last()) {
        names_not_in(names.drop_last(), among)
    } else {
        names_not_in(names.drop_last(), among).push(names.last())
    }
}

/// A name is among the selected ones exactly when it is in the sequence and
/// in the set.
pub proof fn lemma_names_in_contains(
    names: Seq<Seq<char>>,
    among: Set<Seq<char>>,
    name: Seq<char>,
)
    ensures
        names_in(names, among).contains(name) <==> names.contains(name) && among.contains(name),
    decreases names.len(),
{
    if names.len() > 0 {
        let front = names.drop_last();
        lemma_names_in_contains(front, among, name);
        if names.contains(name) {
            let j = names.index_of(name);
            if j < front.len() {
                assert(front[j] == name);
            }
        }
        if front.contains(name) {
            let j = front.index_of(name);
            assert(names[j] == name);
        }
        let chosen = names_in(front, among);
        if among.contains(names.last()) {
            assert(chosen.push(names.last())[chosen.len() as int] == names.last());
            if chosen.contains(name) {
                let j = chosen.index_of(name);
                assert(chosen.push(names.last())[j] == name);
            }
            if chosen.push(names.last()).contains(name) {
                let j = chosen.push(names.last()).index_of(name);
                if j < chosen.len() {
                    assert(chosen[j] == name);
                }
            }
        }
        assert(names.contains(names.last())) by {
            assert(names[names.len() - 1] == names.last());
        }
    }
}

/// A sequence of names without every occurrence of one name, the others in
/// their order.
pub open spec fn without_name(names: Seq<Seq<char>>, name: Seq<char>) -> Seq<Seq<char>>
    decreases names.len(),
{
    if names.len() == 0 {
        names
    } else if names.last() == name {
        without_name(names.drop_last(), name)
    } else {
        without_name(names.drop_last(), name).push(names.last())
    }
}

/// Taking a name out of a sequence that does not hold it changes nothing.
pub proof fn lemma_without_absent(names: Seq<Seq<char>>, name: Seq<char>)
    requires
        !names.contains(name),
    ensures
        without_name(names, name) == names,
    decreases names.len(),
{
    if names.len() > 0 {
        assert forall|k: Seq<char>| names.drop_last().contains(k) implies names.contains(k) by {
            let j = names.drop_last().index_of(k);
            assert(names[j] == k);
        }
        lemma_without_absent(names.drop_last(), name);
        assert(names.contains(names.last()));
        assert(names.drop_last().push(names.last()) =~= names);
    }
}

/// Taking out the name that stands at `at` in a sequence without duplicates
/// removes that one place.
pub proof fn lemma_without_at(names: Seq<Seq<char>>, at: int)
    requires
        names.no_duplicates(),
        0 <= at < names.len(),
    ensures
        without_name(names, names[at]) == names.remove(at),
    decreases names.len(),
{
    let name = names[at];
    let front = names.drop_last();
    if at == names.len() - 1 {
        assert(!front.contains(name)) by {
            if front.contains(name) {
                let j = front.index_of(name);
                assert(names[j] == name);
            }
        }
        lemma_without_absent(front, name);
        assert(names.remove(at) =~= front);
    } else {
        lemma_without_at(front, at);
        assert(front[at] == name);
        assert(names.last() != name);
        assert(names.remove(at) =~= front.remove(at).push(names.last()));
    }
}

} // verus!
