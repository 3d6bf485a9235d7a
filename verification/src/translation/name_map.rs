//! A map keyed by name, as the definition files give them: each name at most
//! once, the value of a name replaced when the name comes again.

use vstd::prelude::*;

verus! {

/// The names of the entries, in order.
pub open spec fn names_of<V>(s: Seq<(String, V)>) -> Seq<Seq<char>> {
    s.map_values(|e: (String, V)| e.0@)
}

/// The map that the entries give, a later entry overriding an earlier one.
pub open spec fn map_of<V>(s: Seq<(String, V)>) -> Map<Seq<char>, V>
    decreases s.len(),
{
    if s.len() == 0 {
        Map::empty()
    } else {
        map_of(s.drop_last()).insert(s.last().0@, s.last().1)
    }
}

/// Entries under names, each name at most once.
#[derive(Debug)]
pub struct NameMap<V> {
    entries: Vec<(String, V)>,
}

proof fn lemma_names_drop_last<V>(s: Seq<(String, V)>)
    requires
        s.len() > 0,
    ensures
        names_of(s.drop_last()) == names_of(s).drop_last(),
        names_of(s) == names_of(s.drop_last()).push(s.last().0@),
{
    assert(names_of(s.drop_last()) =~= names_of(s).drop_last());
    assert(names_of(s) =~= names_of(s.drop_last()).push(s.last().0@));
}

/// The map has exactly the names of the entries.
proof fn lemma_dom<V>(s: Seq<(String, V)>)
    ensures
        map_of(s).dom() == names_of(s).to_set(),
    decreases s.len(),
{
    if s.len() > 0 {
        lemma_dom(s.drop_last());
        lemma_names_drop_last(s);
        assert(names_of(s).to_set() =~= names_of(s.drop_last()).to_set().insert(s.last().0@)) by {
            assert forall|k: Seq<char>| names_of(s).to_set().contains(k) implies names_of(
                s.drop_last(),
            ).to_set().insert(s.last().0@).contains(k) by {
                let i = choose|i: int| 0 <= i < names_of(s).len() && names_of(s)[i] == k;
                if i < s.len() - 1 {
                    assert(names_of(s.drop_last())[i] == k);
                }
            }
            assert forall|k: Seq<char>| names_of(s.drop_last()).to_set().insert(s.last().0@).contains(
                k,
            ) implies names_of(s).to_set().contains(k) by {
                if k == s.last().0@ {
                    assert(names_of(s)[s.len() - 1] == k);
                } else {
                    let i = choose|i: int|
                        0 <= i < names_of(s.drop_last()).len() && names_of(s.drop_last())[i] == k;
                    assert(names_of(s)[i] == k);
                }
            }
        }
    } else {
        assert(names_of(s).to_set() =~= Set::empty());
    }
}

/// With names unique, the value under an entry's name is that entry's value.
proof fn lemma_get<V>(s: Seq<(String, V)>, i: int)
    requires
        names_of(s).no_duplicates(),
        0 <= i < s.len(),
    ensures
        map_of(s).contains_key(s[i].0@),
        map_of(s)[s[i].0@] == s[i].1,
    decreases s.len(),
{
    if i < s.len() - 1 {
        lemma_names_drop_last(s);
        assert(names_of(s)[i] != names_of(s)[s.len() - 1]);
        lemma_get(s.drop_last(), i);
    }
}

/// With names unique, replacing an entry by one under the same name sets the
/// name's value.
proof fn lemma_update<V>(s: Seq<(String, V)>, i: int, x: (String, V))
    requires
        names_of(s).no_duplicates(),
        0 <= i < s.len(),
        x.0@ == s[i].0@,
    ensures
        map_of(s.update(i, x)) == map_of(s).insert(x.0@, x.1),
        names_of(s.update(i, x)) == names_of(s),
    decreases s.len(),
{
    assert(names_of(s.update(i, x)) =~= names_of(s));
    let t = s.update(i, x);
    if i == s.len() - 1 {
        assert(t.drop_last() =~= s.drop_last());
        assert(map_of(t) =~= map_of(s).insert(x.0@, x.1));
    } else {
        lemma_names_drop_last(s);
        assert(t.drop_last() =~= s.drop_last().update(i, x));
        assert(names_of(s)[i] != names_of(s)[s.len() - 1]);
        lemma_update(s.drop_last(), i, x);
        assert(map_of(t) =~= map_of(s).insert(x.0@, x.1));
    }
}

/// With names unique, the first entry is the last insertion that matters.
proof fn lemma_front<V>(t: Seq<(String, V)>)
    requires
        names_of(t).no_duplicates(),
        t.len() > 0,
    ensures
        map_of(t) == map_of(t.drop_first()).insert(t[0].0@, t[0].1),
    decreases t.len(),
{
    if t.len() == 1 {
        assert(t.drop_last() =~= Seq::<(String, V)>::empty());
        assert(t.drop_first() =~= Seq::<(String, V)>::empty());
    } else {
        let u = t.drop_last();
        lemma_names_drop_last(t);
        assert(names_of(u).no_duplicates());
        lemma_front(u);
        assert(t.drop_first().drop_last() =~= u.drop_first());
        assert(t.drop_first().last() == t.last());
        assert(names_of(t)[0] != names_of(t)[t.len() - 1]);
        assert(map_of(t) =~= map_of(t.drop_first()).insert(t[0].0@, t[0].1));
    }
}

impl<V> NameMap<V> {
    /// No name is held twice.
    #[verifier::type_invariant]
    closed spec fn wf(self) -> bool {
        names_of(self.entries@).no_duplicates()
    }

    /// Each name and the value under it.
    pub closed spec fn view(&self) -> Map<Seq<char>, V> {
        map_of(self.entries@)
    }

    /// An empty map.
    pub fn new() -> (m: Self)
        ensures
            m.view() == Map::<Seq<char>, V>::empty(),
    {
        let m = NameMap { entries: Vec::new() };
        assert(names_of(m.entries@) =~= Seq::empty());
        m
    }

    /// Sets the value under `name`, adding the name if it is new.
    pub fn insert(&mut self, name: String, value: V)
        ensures
            final(self).view() == old(self).view().insert(name@, value),
    {
        proof {
            use_type_invariant(&*self);
        }
        let mut entries: Vec<(String, V)> = Vec::new();
        proof {
            assert(names_of(entries@) =~= Seq::empty());
        }
        std::mem::swap(&mut entries, &mut self.entries);
        let ghost old_entries = entries@;
        let mut i: usize = 0;
        while i < entries.len()
            invariant
                entries@ == old_entries,
                map_of(old_entries) == old(self).view(),
                names_of(old_entries).no_duplicates(),
                0 <= i <= entries.len(),
                forall|j: int| 0 <= j < i ==> #[trigger] old_entries[j].0@ != name@,
            decreases entries.len() - i,
        {
            if entries[i].0 == name {
                let ghost x = (name, value);
                proof {
                    lemma_update(old_entries, i as int, x);
                }
                entries.set(i, (name, value));
                assert(entries@ == old_entries.update(i as int, x));
                assert(map_of(entries@) == map_of(old_entries).insert(name@, value));
                self.entries = entries;
                return;
            }
            i = i + 1;
        }
        proof {
            assert(!names_of(old_entries).contains(name@)) by {
                if names_of(old_entries).contains(name@) {
                    let j = choose|j: int|
                        0 <= j < names_of(old_entries).len() && names_of(old_entries)[j] == name@;
                    assert(old_entries[j].0@ == name@);
                }
            }
            let grown = old_entries.push((name, value));
            assert(grown.drop_last() =~= old_entries);
            lemma_names_drop_last(grown);
        }
        entries.push((name, value));
        self.entries = entries;
    }

    /// The value under `name`, if the name is held.
    pub fn get(&self, name: &str) -> (v: Option<&V>)
        ensures
            v is Some <==> self.view().contains_key(name@),
            v is Some ==> *v->0 == self.view()[name@],
    {
        proof {
            use_type_invariant(self);
            lemma_dom(self.entries@);
        }
        let key = name.to_owned();
        let mut i: usize = 0;
        while i < self.entries.len()
            invariant
                key@ == name@,
                names_of(self.entries@).no_duplicates(),
                map_of(self.entries@).dom() == names_of(self.entries@).to_set(),
                0 <= i <= self.entries.len(),
                forall|j: int| 0 <= j < i ==> #[trigger] self.entries@[j].0@ != name@,
            decreases self.entries.len() - i,
        {
            if self.entries[i].0 == key {
                proof {
                    lemma_get(self.entries@, i as int);
                }
                return Some(&self.entries[i].1);
            }
            i = i + 1;
        }
        proof {
            if names_of(self.entries@).contains(name@) {
                let j = choose|j: int|
                    0 <= j < names_of(self.entries@).len() && names_of(self.entries@)[j] == name@;
                assert(self.entries@[j].0@ == name@);
            }
        }
        None
    }

    /// Every name held, each once, in no promised order.
    pub fn names(&self) -> (names: Vec<String>)
        ensures
            names@.map_values(|s: String| s@).no_duplicates(),
            names@.map_values(|s: String| s@).to_set() == self.view().dom(),
    {
        proof {
            use_type_invariant(self);
            lemma_dom(self.entries@);
        }
        let mut names: Vec<String> = Vec::new();
        let mut i: usize = 0;
        while i < self.entries.len()
            invariant
                0 <= i <= self.entries.len(),
                names@.map_values(|s: String| s@) == names_of(self.entries@).take(i as int),
            decreases self.entries.len() - i,
        {
            let ghost prev = names@;
            names.push(self.entries[i].0.clone());
            assert(names@ == prev.push(self.entries@[i as int].0));
            assert(names@.map_values(|s: String| s@) =~= prev.map_values(|s: String| s@).push(
                self.entries@[i as int].0@,
            ));
            assert(names_of(self.entries@).take(i + 1) =~= names_of(self.entries@).take(
                i as int,
            ).push(self.entries@[i as int].0@));
            i = i + 1;
        }
        assert(names_of(self.entries@).take(i as int) =~= names_of(self.entries@));
        names
    }

    /// Adds every entry of `more`, its value winning where both hold a name.
    pub fn extend(&mut self, more: NameMap<V>)
        ensures
            final(self).view() == old(self).view().union_prefer_right(more.view()),
    {
        proof {
            use_type_invariant(&more);
        }
        let ghost start = self.view();
        let NameMap { entries: mut rest } = more;
        let ghost orig = rest@;
        proof {
            assert(orig.skip(orig.len() as int) =~= Seq::empty());
            assert(start.union_prefer_right(Map::empty()) =~= start);
        }
        while rest.len() > 0
            invariant
                names_of(orig).no_duplicates(),
                rest.len() <= orig.len(),
                rest@ == orig.take(rest.len() as int),
                self.view() == start.union_prefer_right(map_of(orig.skip(rest.len() as int))),
            decreases rest.len(),
        {
            let ghost n = rest.len() as int;
            let last = rest.pop();
            match last {
                Some(entry) => {
                    let (name, value) = entry;
                    proof {
                        let t = orig.skip(n - 1);
                        assert(t.drop_first() =~= orig.skip(n));
                        assert(names_of(t) =~= names_of(orig).skip(n - 1));
                        lemma_front(t);
                        assert(rest@ =~= orig.take(n - 1));
                    }
                    self.insert(name, value);
                    assert(self.view() =~= start.union_prefer_right(map_of(orig.skip(n - 1))));
                },
                None => {},
            }
        }
        assert(orig.skip(0) =~= orig);
    }
}

/// A name just set reads back its value; every other name keeps its value.
pub proof fn lemma_insert_then_get<V>(m: NameMap<V>, name: Seq<char>, value: V, other: Seq<char>)
    requires
        other != name,
    ensures
        m.view().insert(name, value).contains_key(name),
        m.view().insert(name, value)[name] == value,
        m.view().insert(name, value).contains_key(other) == m.view().contains_key(other),
        m.view().contains_key(other) ==> m.view().insert(name, value)[other] == m.view()[other],
{
}

} // verus!
