//! Small collections keyed by chat names: a map and a set whose keys are strings,
//! kept as association lists in which no name occurs twice.
use vstd::prelude::*;

use crate::text::str_eq;

verus! {

/// The names held by a list of strings, as a set of character sequences.
pub open spec fn names_of(s: Seq<String>) -> Set<Seq<char>> {
    Set::new(|k: Seq<char>| exists|i: int| 0 <= i < s.len() && #[trigger] s[i]@ == k)
}

/// No name occurs twice in an association list.
pub open spec fn keys_unique<V>(e: Seq<(String, V)>) -> bool {
    forall|i: int, j: int|
        0 <= i < e.len() && 0 <= j < e.len() && i != j ==> #[trigger] e[i].0@ != #[trigger] e[j].0@
}

/// The name `k` stands at position `i` of an association list.
pub open spec fn has_key_at<V>(e: Seq<(String, V)>, k: Seq<char>, i: int) -> bool {
    0 <= i < e.len() && e[i].0@ == k
}

/// The names of an association list and their values.
pub open spec fn assoc_map<V>(e: Seq<(String, V)>) -> Map<Seq<char>, V> {
    Map::new(
        |k: Seq<char>| exists|i: int| has_key_at(e, k, i),
        |k: Seq<char>| e[choose|i: int| has_key_at(e, k, i)].1,
    )
}

/// In a list without repeated names, the value of the name at position `i` is the one stored there.
pub proof fn lemma_assoc_value_at<V>(e: Seq<(String, V)>, i: int)
    requires
        keys_unique(e),
        0 <= i < e.len(),
    ensures
        assoc_map(e).dom().contains(e[i].0@),
        assoc_map(e)[e[i].0@] == e[i].1,
{
    let k = e[i].0@;
    assert(has_key_at(e, k, i));
    let j = choose|j: int| has_key_at(e, k, j);
    assert(has_key_at(e, k, j));
    if j != i {
        assert(e[i].0@ != e[j].0@);
    }
}

proof fn lemma_assoc_update<V>(e: Seq<(String, V)>, i: int, key: String, v: V)
    requires
        keys_unique(e),
        0 <= i < e.len(),
        e[i].0@ == key@,
    ensures
        keys_unique(e.update(i, (key, v))),
        assoc_map(e.update(i, (key, v))) == assoc_map(e).insert(key@, v),
{
    let f = e.update(i, (key, v));
    let k = key@;
    assert forall|a: int, b: int| 0 <= a < f.len() && 0 <= b < f.len() && a != b
        implies #[trigger] f[a].0@ != #[trigger] f[b].0@ by {
        assert(e[a].0@ != e[b].0@);
    }
    let m = assoc_map(e).insert(k, v);
    assert forall|kk: Seq<char>| #[trigger] assoc_map(f).dom().contains(kk) <==> m.dom().contains(kk) by {
        if assoc_map(f).dom().contains(kk) {
            let j = choose|j: int| has_key_at(f, kk, j);
            assert(has_key_at(f, kk, j));
            if j != i {
                assert(has_key_at(e, kk, j));
            }
        }
        if assoc_map(e).dom().contains(kk) {
            let j = choose|j: int| has_key_at(e, kk, j);
            assert(has_key_at(e, kk, j));
            assert(has_key_at(f, kk, j));
        }
        if kk == k {
            assert(has_key_at(f, kk, i));
        }
    }
    assert forall|kk: Seq<char>| #[trigger] assoc_map(f).dom().contains(kk) implies assoc_map(f)[kk] == m[kk] by {
        let j = choose|j: int| has_key_at(f, kk, j);
        assert(has_key_at(f, kk, j));
        lemma_assoc_value_at(f, j);
        if j != i {
            lemma_assoc_value_at(e, j);
        }
    }
    assert(assoc_map(f) =~= m);
}

proof fn lemma_assoc_push<V>(e: Seq<(String, V)>, key: String, v: V)
    requires
        keys_unique(e),
        !assoc_map(e).dom().contains(key@),
    ensures
        keys_unique(e.push((key, v))),
        assoc_map(e.push((key, v))) == assoc_map(e).insert(key@, v),
{
    let f = e.push((key, v));
    let k = key@;
    let n = e.len() as int;
    assert forall|a: int, b: int| 0 <= a < f.len() && 0 <= b < f.len() && a != b
        implies #[trigger] f[a].0@ != #[trigger] f[b].0@ by {
        if a == n {
            assert(!has_key_at(e, k, b));
        } else if b == n {
            assert(!has_key_at(e, k, a));
        } else {
            assert(e[a].0@ != e[b].0@);
        }
    }
    let m = assoc_map(e).insert(k, v);
    assert forall|kk: Seq<char>| #[trigger] assoc_map(f).dom().contains(kk) <==> m.dom().contains(kk) by {
        if assoc_map(f).dom().contains(kk) {
            let j = choose|j: int| has_key_at(f, kk, j);
            assert(has_key_at(f, kk, j));
            if j != n {
                assert(has_key_at(e, kk, j));
            }
        }
        if assoc_map(e).dom().contains(kk) {
            let j = choose|j: int| has_key_at(e, kk, j);
            assert(has_key_at(e, kk, j));
            assert(has_key_at(f, kk, j));
        }
        if kk == k {
            assert(has_key_at(f, kk, n));
        }
    }
    assert forall|kk: Seq<char>| #[trigger] assoc_map(f).dom().contains(kk) implies assoc_map(f)[kk] == m[kk] by {
        let j = choose|j: int| has_key_at(f, kk, j);
        assert(has_key_at(f, kk, j));
        lemma_assoc_value_at(f, j);
        if j != n {
            lemma_assoc_value_at(e, j);
        }
    }
    assert(assoc_map(f) =~= m);
}

proof fn lemma_assoc_remove<V>(e: Seq<(String, V)>, i: int)
    requires
        keys_unique(e),
        0 <= i < e.len(),
    ensures
        keys_unique(e.remove(i)),
        assoc_map(e.remove(i)) == assoc_map(e).remove(e[i].0@),
{
    let f = e.remove(i);
    let k = e[i].0@;
    assert forall|a: int, b: int| 0 <= a < f.len() && 0 <= b < f.len() && a != b
        implies #[trigger] f[a].0@ != #[trigger] f[b].0@ by {
        let oa = if a < i { a } else { a + 1 };
        let ob = if b < i { b } else { b + 1 };
        assert(e[oa].0@ != e[ob].0@);
    }
    let m = assoc_map(e).remove(k);
    assert forall|kk: Seq<char>| #[trigger] assoc_map(f).dom().contains(kk) <==> m.dom().contains(kk) by {
        if assoc_map(f).dom().contains(kk) {
            let j = choose|j: int| has_key_at(f, kk, j);
            assert(has_key_at(f, kk, j));
            let oj = if j < i { j } else { j + 1 };
            assert(has_key_at(e, kk, oj));
            assert(e[oj].0@ != e[i].0@);
        }
        if m.dom().contains(kk) {
            let j = choose|j: int| has_key_at(e, kk, j);
            assert(has_key_at(e, kk, j));
            if j < i {
                assert(has_key_at(f, kk, j));
            } else {
                assert(j != i);
                assert(has_key_at(f, kk, j - 1));
            }
        }
    }
    assert forall|kk: Seq<char>| #[trigger] assoc_map(f).dom().contains(kk) implies assoc_map(f)[kk] == m[kk] by {
        let j = choose|j: int| has_key_at(f, kk, j);
        assert(has_key_at(f, kk, j));
        lemma_assoc_value_at(f, j);
        let oj = if j < i { j } else { j + 1 };
        lemma_assoc_value_at(e, oj);
    }
    assert(assoc_map(f) =~= m);
}

/// A map from chat names to values. No name occurs twice.
#[derive(Debug)]
pub struct NameMap<V> {
    entries: Vec<(String, V)>,
}

impl<V> NameMap<V> {
    #[verifier::type_invariant]
    spec fn inv(self) -> bool {
        keys_unique(self.entries@)
    }

    /// The names and their values.
    pub closed spec fn as_map(self) -> Map<Seq<char>, V> {
        assoc_map(self.entries@)
    }

    /// An empty map.
    pub fn new() -> (m: Self)
        ensures
            m@ == Map::<Seq<char>, V>::empty(),
    {
        let m = NameMap { entries: Vec::new() };
        assert(m.as_map() =~= Map::<Seq<char>, V>::empty());
        m
    }

    fn find(&self, key: &str) -> (r: Option<usize>)
        ensures
            match r {
                Some(i) => i < self.entries@.len() && self.entries@[i as int].0@ == key@,
                None => !self@.dom().contains(key@),
            },
    {
        let n = self.entries.len();
        for i in 0..n
            invariant
                n == self.entries@.len(),
                forall|j: int| 0 <= j < i ==> self.entries@[j].0@ != key@,
        {
            if str_eq(self.entries[i].0.as_str(), key) {
                return Some(i);
            }
        }
        assert(!self@.dom().contains(key@)) by {
            if self@.dom().contains(key@) {
                let j = choose|j: int| has_key_at(self.entries@, key@, j);
                assert(has_key_at(self.entries@, key@, j));
            }
        }
        None
    }

    /// The names and their values, each name once.
    pub fn entries(&self) -> (r: &Vec<(String, V)>)
        ensures
            keys_unique(r@),
            assoc_map(r@) == self@,
    {
        proof {
            use_type_invariant(self);
        }
        &self.entries
    }

    /// Whether a name has a value.
    pub fn contains_key(&self, key: &str) -> (r: bool)
        ensures
            r == self@.dom().contains(key@),
    {
        proof {
            use_type_invariant(self);
        }
        match self.find(key) {
            Some(i) => {
                proof {
                    lemma_assoc_value_at(self.entries@, i as int);
                }
                true
            },
            None => false,
        }
    }

    /// The value of a name, if it has one.
    pub fn get(&self, key: &str) -> (r: Option<&V>)
        ensures
            r == (if self@.dom().contains(key@) {
                Some(&self@[key@])
            } else {
                None
            }),
    {
        proof {
            use_type_invariant(self);
        }
        match self.find(key) {
            Some(i) => {
                proof {
                    lemma_assoc_value_at(self.entries@, i as int);
                }
                Some(&self.entries[i].1)
            },
            None => None,
        }
    }

    /// Gives a name a value, replacing the value it had.
    pub fn insert(&mut self, key: String, value: V)
        ensures
            final(self)@ == old(self)@.insert(key@, value),
    {
        proof {
            use_type_invariant(&*self);
        }
        let ghost old_entries = self.entries@;
        match self.find(key.as_str()) {
            Some(i) => {
                let mut entries = Vec::new();
                std::mem::swap(&mut entries, &mut self.entries);
                proof {
                    lemma_assoc_update(old_entries, i as int, key, value);
                }
                entries.set(i, (key, value));
                self.entries = entries;
            },
            None => {
                let mut entries = Vec::new();
                std::mem::swap(&mut entries, &mut self.entries);
                proof {
                    lemma_assoc_push(old_entries, key, value);
                }
                entries.push((key, value));
                self.entries = entries;
            },
        }
    }

    /// Removes a name and returns its value, if it has one.
    pub fn take(&mut self, key: &str) -> (r: Option<V>)
        ensures
            final(self)@ == old(self)@.remove(key@),
            r == (if old(self)@.dom().contains(key@) {
                Some(old(self)@[key@])
            } else {
                None
            }),
    {
        proof {
            use_type_invariant(&*self);
        }
        let ghost old_entries = self.entries@;
        match self.find(key) {
            Some(i) => {
                let mut entries = Vec::new();
                std::mem::swap(&mut entries, &mut self.entries);
                proof {
                    lemma_assoc_remove(old_entries, i as int);
                    lemma_assoc_value_at(old_entries, i as int);
                }
                let (_, v) = entries.remove(i);
                self.entries = entries;
                Some(v)
            },
            None => {
                assert(self@ =~= self@.remove(key@));
                None
            },
        }
    }

    /// Removes a name and its value, if it has one.
    pub fn remove(&mut self, key: &str)
        ensures
            final(self)@ == old(self)@.remove(key@),
    {
        proof {
            use_type_invariant(&*self);
        }
        let ghost old_entries = self.entries@;
        match self.find(key) {
            Some(i) => {
                let mut entries = Vec::new();
                std::mem::swap(&mut entries, &mut self.entries);
                proof {
                    lemma_assoc_remove(old_entries, i as int);
                }
                entries.remove(i);
                self.entries = entries;
            },
            None => {
                assert(self@ =~= self@.remove(key@));
            },
        }
    }
}

impl<V> View for NameMap<V> {
    type V = Map<Seq<char>, V>;

    open spec fn view(&self) -> Map<Seq<char>, V> {
        self.as_map()
    }
}

/// A set of chat names or keywords. No name occurs twice.
#[derive(Debug)]
pub struct NameSet {
    names: Vec<String>,
}

impl NameSet {
    #[verifier::type_invariant]
    spec fn inv(self) -> bool {
        forall|i: int, j: int|
            0 <= i < self.names@.len() && 0 <= j < self.names@.len() && i != j
                ==> #[trigger] self.names@[i]@ != #[trigger] self.names@[j]@
    }

    /// The names held.
    pub closed spec fn as_set(self) -> Set<Seq<char>> {
        names_of(self.names@)
    }

    /// An empty set.
    pub fn new() -> (s: Self)
        ensures
            s@ == Set::<Seq<char>>::empty(),
    {
        let s = NameSet { names: Vec::new() };
        assert(s.as_set() =~= Set::<Seq<char>>::empty());
        s
    }

    /// Whether a name is held.
    pub fn contains(&self, name: &str) -> (r: bool)
        ensures
            r == self@.contains(name@),
    {
        let n = self.names.len();
        for i in 0..n
            invariant
                n == self.names@.len(),
                forall|j: int| 0 <= j < i ==> self.names@[j]@ != name@,
        {
            if str_eq(self.names[i].as_str(), name) {
                return true;
            }
        }
        false
    }

    /// Adds a name.
    pub fn insert(&mut self, name: String)
        ensures
            final(self)@ == old(self)@.insert(name@),
    {
        proof {
            use_type_invariant(&*self);
        }
        if !self.contains(name.as_str()) {
            let ghost old_names = self.names@;
            let ghost k = name@;
            let mut names = Vec::new();
            std::mem::swap(&mut names, &mut self.names);
            names.push(name);
            proof {
                let n = old_names.len() as int;
                assert forall|i: int, j: int|
                    0 <= i < names@.len() && 0 <= j < names@.len() && i != j
                        implies #[trigger] names@[i]@ != #[trigger] names@[j]@ by {
                    if i == n {
                        assert(old_names[j]@ != k);
                    } else if j == n {
                        assert(old_names[i]@ != k);
                    }
                }
                assert(names_of(names@) =~= names_of(old_names).insert(k)) by {
                    assert forall|x: Seq<char>| names_of(old_names).insert(k).contains(x) implies #[trigger] names_of(names@).contains(x) by {
                        if x == k {
                            assert(names@[n]@ == x);
                        } else {
                            let j = choose|j: int| 0 <= j < old_names.len() && #[trigger] old_names[j]@ == x;
                            assert(names@[j]@ == x);
                        }
                    }
                    assert forall|x: Seq<char>| #[trigger] names_of(names@).contains(x) implies names_of(old_names).insert(k).contains(x) by {
                        let j = choose|j: int| 0 <= j < names@.len() && #[trigger] names@[j]@ == x;
                        if j < n {
                            assert(old_names[j]@ == x);
                        }
                    }
                }
            }
            self.names = names;
        } else {
            assert(self@ =~= self@.insert(name@));
        }
    }

    /// The names held, in the order they were added.
    pub fn names(&self) -> (r: &Vec<String>)
        ensures
            names_of(r@) == self@,
            r@.len() == self@.len(),
    {
        proof {
            use_type_invariant(self);
            self.lemma_len();
        }
        &self.names
    }

    proof fn lemma_len(self)
        requires
            self.inv(),
        ensures
            self@.finite(),
            self@.len() == self.names@.len(),
    {
        let v = self.names@.map_values(|s: String| s@);
        assert(v.no_duplicates()) by {
            assert forall|i: int, j: int| 0 <= i < v.len() && 0 <= j < v.len() && i != j implies v[i] != v[j] by {
                assert(self.names@[i]@ != self.names@[j]@);
            }
        }
        assert(v.to_set() =~= self@) by {
            assert forall|x: Seq<char>| v.to_set().contains(x) implies #[trigger] self@.contains(x) by {
                let j = choose|j: int| 0 <= j < v.len() && v[j] == x;
                assert(self.names@[j]@ == x);
            }
            assert forall|x: Seq<char>| #[trigger] self@.contains(x) implies v.to_set().contains(x) by {
                let j = choose|j: int| 0 <= j < self.names@.len() && #[trigger] self.names@[j]@ == x;
                assert(v[j] == x);
            }
        }
        v.unique_seq_to_set();
    }
}

impl View for NameSet {
    type V = Set<Seq<char>>;

    open spec fn view(&self) -> Set<Seq<char>> {
        self.as_set()
    }
}

/// The non-empty strings of a list, as a set.
pub open spec fn nonempty_names(s: Seq<String>) -> Set<Seq<char>> {
    names_of(s).filter(|k: Seq<char>| k.len() > 0)
}

/// Collects the non-empty strings of a list into a set.
pub fn collect_nonempty(list: &[String]) -> (out: NameSet)
    ensures
        out@ == nonempty_names(list@),
{
    let mut out = NameSet::new();
    let n = list.len();
    for i in 0..n
        invariant
            n == list@.len(),
            out@ == nonempty_names(list@.take(i as int)),
    {
        let ghost before = out@;
        if !list[i].as_str().is_empty() {
            out.insert(list[i].clone());
        }
        assert(out@ =~= nonempty_names(list@.take(i + 1))) by {
            let t = list@.take(i + 1);
            assert forall|x: Seq<char>| #[trigger] nonempty_names(t).contains(x) implies out@.contains(x) by {
                let j = choose|j: int| 0 <= j < t.len() && #[trigger] t[j]@ == x;
                if j < i {
                    assert(list@.take(i as int)[j]@ == x);
                }
            }
            assert forall|x: Seq<char>| #[trigger] out@.contains(x) implies nonempty_names(t).contains(x) by {
                if before.contains(x) {
                    let j = choose|j: int| 0 <= j < i && #[trigger] list@.take(i as int)[j]@ == x;
                    assert(t[j]@ == x);
                } else {
                    assert(t[i as int]@ == x);
                }
            }
        }
    }
    assert(list@.take(n as int) == list@);
    out
}

/// Whether a list of strings holds `name`.
pub fn list_contains(list: &[String], name: &str) -> (r: bool)
    ensures
        r == names_of(list@).contains(name@),
{
    let n = list.len();
    for i in 0..n
        invariant
            n == list@.len(),
            forall|j: int| 0 <= j < i ==> list@[j]@ != name@,
    {
        if str_eq(list[i].as_str(), name) {
            assert(names_of(list@).contains(name@)) by {
                assert(list@[i as int]@ == name@);
            }
            return true;
        }
    }
    false
}

/// The strings of `s` whose names are not in `removed`, in their order.
pub open spec fn without_names(s: Seq<String>, removed: Set<Seq<char>>) -> Seq<String>
    decreases s.len(),
{
    if s.len() == 0 {
        seq![]
    } else {
        let rest = without_names(s.drop_last(), removed);
        if removed.contains(s.last()@) {
            rest
        } else {
            rest.push(s.last())
        }
    }
}

/// Keeps the strings of `list` that are not in `removed`, in their order.
pub fn retain_names(list: &mut Vec<String>, removed: &[String])
    ensures
        final(list)@ == without_names(old(list)@, names_of(removed@)),
{
    let mut kept: Vec<String> = Vec::new();
    let n = list.len();
    for i in 0..n
        invariant
            n == list@.len(),
            kept@ == without_names(list@.take(i as int), names_of(removed@)),
    {
        assert(list@.take(i + 1).drop_last() == list@.take(i as int));
        if !list_contains(removed, list[i].as_str()) {
            kept.push(list[i].clone());
        }
    }
    assert(list@.take(n as int) == list@);
    *list = kept;
}

} // verus!
