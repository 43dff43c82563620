//! A map from strings to values that keeps its keys in ascending order, as a
//! `BTreeMap<String, V>` does: lookups, inserts and removals, and a walk over the
//! entries in key order.
use vstd::prelude::*;
use crate::strings::{lemma_lt_irreflexive, lemma_lt_total, lemma_lt_transitive, seq_lt, str_eq, str_lt};

verus! {

/// The keys of `s` ascend strictly.
pub open spec fn keys_ascending<T>(s: Seq<(String, T)>) -> bool {
    forall|i: int, j: int| 0 <= i < j < s.len() ==> seq_lt(#[trigger] s[i].0@, #[trigger] s[j].0@)
}

/// A map from strings to values, ordered by key.
#[derive(Debug, PartialEq)]
pub struct StrMap<V> {
    entries: Vec<(String, V)>,
}

proof fn lemma_keys_unique<T>(s: Seq<(String, T)>, i: int, j: int)
    requires
        keys_ascending(s),
        0 <= i < s.len(),
        0 <= j < s.len(),
        s[i].0@ == s[j].0@,
    ensures
        i == j,
{
    if i < j {
        assert(seq_lt(s[i].0@, s[j].0@));
        lemma_lt_irreflexive(s[i].0@);
    } else if j < i {
        assert(seq_lt(s[j].0@, s[i].0@));
        lemma_lt_irreflexive(s[i].0@);
    }
}

impl<V> StrMap<V> {
    #[verifier::type_invariant]
    spec fn inv(self) -> bool {
        keys_ascending(self.entries@)
    }
}

impl<V: View> StrMap<V> {
    /// The keys, in ascending order.
    pub closed spec fn key_seq(&self) -> Seq<Seq<char>> {
        self.entries@.map_values(|e: (String, V)| e.0@)
    }

    /// The value stored under the `i`-th key.
    pub closed spec fn value_seq(&self) -> Seq<V::V> {
        self.entries@.map_values(|e: (String, V)| e.1@)
    }

    closed spec fn index_of(&self, k: Seq<char>) -> int {
        choose|i: int| 0 <= i < self.entries@.len() && self.entries@[i].0@ == k
    }

    proof fn lemma_index_of(&self, i: int)
        requires
            keys_ascending(self.entries@),
            0 <= i < self.entries@.len(),
        ensures
            self.index_of(self.entries@[i].0@) == i,
            self.key_seq().contains(self.entries@[i].0@),
    {
        let k = self.entries@[i].0@;
        assert(self.key_seq()[i] == k);
        let j = self.index_of(k);
        lemma_keys_unique(self.entries@, i, j);
    }

    proof fn lemma_key_seq_unique(&self)
        requires
            keys_ascending(self.entries@),
        ensures
            self.key_seq().no_duplicates(),
            self.key_seq().to_set().len() == self.entries@.len(),
    {
        assert forall|i: int, j: int|
            0 <= i < self.key_seq().len() && 0 <= j < self.key_seq().len() && i != j implies
            self.key_seq()[i] != self.key_seq()[j] by {
            if self.key_seq()[i] == self.key_seq()[j] {
                lemma_keys_unique(self.entries@, i, j);
            }
        }
        self.key_seq().unique_seq_to_set();
    }
}

impl<V: View> View for StrMap<V> {
    type V = Map<Seq<char>, V::V>;

    closed spec fn view(&self) -> Map<Seq<char>, V::V> {
        Map::new(
            |k: Seq<char>| self.key_seq().contains(k),
            |k: Seq<char>| self.entries@[self.index_of(k)].1@,
        )
    }
}

impl<V: View> StrMap<V> {
    /// An empty map.
    pub fn new() -> (m: Self)
        ensures
            m@ == Map::<Seq<char>, V::V>::empty(),
            m.key_seq() == Seq::<Seq<char>>::empty(),
    {
        let m = StrMap { entries: Vec::new() };
        assert(m@ =~= Map::<Seq<char>, V::V>::empty());
        assert(m.key_seq() =~= Seq::<Seq<char>>::empty());
        m
    }

    /// The keys of the map are the keys of its entries.
    pub proof fn lemma_dom(&self)
        ensures
            forall|k: Seq<char>| #[trigger] self@.contains_key(k) <==> self.key_seq().contains(k),
            self.key_seq().len() == self.value_seq().len(),
    {
    }

    /// The number of entries.
    pub fn len(&self) -> (n: usize)
        ensures
            n == self@.len(),
            n == self.key_seq().len(),
    {
        proof {
            use_type_invariant(self);
            self.lemma_key_seq_unique();
            assert(self@.dom() =~= self.key_seq().to_set());
        }
        self.entries.len()
    }

    /// Whether the map has no entries.
    pub fn is_empty(&self) -> (b: bool)
        ensures
            b == (self@.len() == 0),
            b == (self@ == Map::<Seq<char>, V::V>::empty()),
    {
        let n = self.len();
        proof {
            if n == 0 {
                assert(self@ =~= Map::<Seq<char>, V::V>::empty());
            } else {
                assert(self.key_seq().contains(self.key_seq()[0]));
                assert(self@.contains_key(self.key_seq()[0]));
            }
        }
        n == 0
    }

    /// The key at position `i` in ascending key order.
    pub fn key_at(&self, i: usize) -> (k: &String)
        requires
            i < self.key_seq().len(),
        ensures
            k@ == self.key_seq()[i as int],
            self@.contains_key(k@),
            self@[k@] == self.value_seq()[i as int],
    {
        proof {
            use_type_invariant(self);
            self.lemma_index_of(i as int);
        }
        &self.entries[i].0
    }

    /// The value at position `i` in ascending key order.
    pub fn value_at(&self, i: usize) -> (v: &V)
        requires
            i < self.key_seq().len(),
        ensures
            v@ == self.value_seq()[i as int],
            self@[self.key_seq()[i as int]] == v@,
    {
        proof {
            use_type_invariant(self);
            self.lemma_index_of(i as int);
        }
        &self.entries[i].1
    }

    /// Looks a key up.
    pub fn get(&self, k: &str) -> (r: Option<&V>)
        ensures
            match r {
                Some(v) => self@.contains_key(k@) && self@[k@] == v@,
                None => !self@.contains_key(k@),
            },
    {
        proof {
            use_type_invariant(self);
        }
        let n = self.entries.len();
        let mut i: usize = 0;
        while i < n
            invariant
                n == self.entries@.len(),
                keys_ascending(self.entries@),
                forall|j: int| 0 <= j < i ==> self.entries@[j].0@ != k@,
            decreases n - i,
        {
            if str_eq(self.entries[i].0.as_str(), k) {
                proof {
                    self.lemma_index_of(i as int);
                }
                return Some(&self.entries[i].1);
            }
            i = i + 1;
        }
        proof {
            if self.key_seq().contains(k@) {
                let j = choose|j: int| 0 <= j < self.key_seq().len() && self.key_seq()[j] == k@;
                assert(self.entries@[j].0@ == k@);
            }
        }
        None
    }

    /// Whether the map holds a key.
    pub fn contains_key(&self, k: &str) -> (b: bool)
        ensures
            b == self@.contains_key(k@),
    {
        match self.get(k) {
            Some(_) => true,
            None => false,
        }
    }

    /// Sets the value under a key, replacing any earlier one.
    pub fn insert(&mut self, k: String, v: V)
        ensures
            final(self)@ == old(self)@.insert(k@, v@),
    {
        proof {
            use_type_invariant(&*self);
        }
        let mut entries: Vec<(String, V)> = Vec::new();
        std::mem::swap(&mut entries, &mut self.entries);
        let ghost old_entries = entries@;
        let ghost old_map = old(self)@;
        assert(keys_ascending(old_entries));
        let n = entries.len();
        let mut p: usize = 0;
        while p < n && str_lt(entries[p].0.as_str(), k.as_str())
            invariant
                n == entries@.len(),
                entries@ == old_entries,
                p <= n,
                forall|j: int| 0 <= j < p ==> seq_lt(#[trigger] entries@[j].0@, k@),
            decreases n - p,
        {
            p = p + 1;
        }
        let ghost kv = k@;
        let ghost vv = v@;
        if p < n && str_eq(entries[p].0.as_str(), k.as_str()) {
            entries.set(p, (k, v));
            proof {
                assert forall|i: int, j: int| 0 <= i < j < entries@.len() implies seq_lt(
                    #[trigger] entries@[i].0@,
                    #[trigger] entries@[j].0@,
                ) by {
                    assert(seq_lt(old_entries[i].0@, old_entries[j].0@));
                }
            }
            self.entries = entries;
            proof {
                let new_map = self@;
                assert forall|key: Seq<char>| #[trigger] new_map.contains_key(key) <==> old_map.insert(kv, vv).contains_key(key) by {
                    if new_map.contains_key(key) {
                        let j = choose|j: int| 0 <= j < self.key_seq().len() && self.key_seq()[j] == key;
                        if j != p {
                            assert(old_entries[j].0@ == key);
                            assert(old(self).key_seq()[j] == key);
                        }
                    }
                    if old_map.contains_key(key) {
                        let j = choose|j: int| 0 <= j < old(self).key_seq().len() && old(self).key_seq()[j] == key;
                        assert(self.entries@[j].0@ == key);
                        assert(self.key_seq()[j] == key);
                    }
                    if key == kv {
                        assert(self.key_seq()[p as int] == key);
                    }
                }
                assert forall|key: Seq<char>| #[trigger] new_map.contains_key(key) implies new_map[key] == old_map.insert(kv, vv)[key] by {
                    let j = choose|j: int| 0 <= j < self.key_seq().len() && self.key_seq()[j] == key;
                    self.lemma_index_of(j);
                    if j != p {
                        assert(old_entries[j].0@ == key);
                        old(self).lemma_index_of(j);
                    }
                }
                assert(new_map =~= old_map.insert(kv, vv));
            }
        } else {
            proof {
                if p < n {
                    assert(!seq_lt(old_entries[p as int].0@, kv));
                    assert(old_entries[p as int].0@ != kv);
                    lemma_lt_total(old_entries[p as int].0@, kv);
                }
            }
            entries.insert(p, (k, v));
            proof {
                assert forall|i: int, j: int| 0 <= i < j < entries@.len() implies seq_lt(
                    #[trigger] entries@[i].0@,
                    #[trigger] entries@[j].0@,
                ) by {
                    if j < p {
                        assert(seq_lt(old_entries[i].0@, old_entries[j].0@));
                    } else if j == p {
                        assert(seq_lt(old_entries[i].0@, kv));
                    } else if i == p {
                        assert(entries@[j] == old_entries[j - 1]);
                        if j - 1 > p {
                            assert(seq_lt(old_entries[p as int].0@, old_entries[j - 1].0@));
                            lemma_lt_transitive(kv, old_entries[p as int].0@, old_entries[j - 1].0@);
                        }
                    } else if i < p {
                        assert(entries@[j] == old_entries[j - 1]);
                        assert(seq_lt(old_entries[i].0@, kv));
                        if j - 1 >= p {
                            if j - 1 > p {
                                assert(seq_lt(old_entries[p as int].0@, old_entries[j - 1].0@));
                                lemma_lt_transitive(kv, old_entries[p as int].0@, old_entries[j - 1].0@);
                            }
                            lemma_lt_transitive(old_entries[i].0@, kv, old_entries[j - 1].0@);
                        }
                    } else {
                        assert(entries@[i] == old_entries[i - 1]);
                        assert(entries@[j] == old_entries[j - 1]);
                        assert(seq_lt(old_entries[i - 1].0@, old_entries[j - 1].0@));
                    }
                }
            }
            self.entries = entries;
            proof {
                let new_map = self@;
                assert forall|key: Seq<char>| #[trigger] new_map.contains_key(key) <==> old_map.insert(kv, vv).contains_key(key) by {
                    if new_map.contains_key(key) {
                        let j = choose|j: int| 0 <= j < self.key_seq().len() && self.key_seq()[j] == key;
                        if j < p {
                            assert(old(self).key_seq()[j] == key);
                        } else if j > p {
                            assert(old(self).key_seq()[j - 1] == key);
                        }
                    }
                    if old_map.contains_key(key) {
                        let j = choose|j: int| 0 <= j < old(self).key_seq().len() && old(self).key_seq()[j] == key;
                        if j < p {
                            assert(self.key_seq()[j] == key);
                        } else {
                            assert(self.key_seq()[j + 1] == key);
                        }
                    }
                    if key == kv {
                        assert(self.key_seq()[p as int] == key);
                    }
                }
                assert forall|key: Seq<char>| #[trigger] new_map.contains_key(key) implies new_map[key] == old_map.insert(kv, vv)[key] by {
                    let j = choose|j: int| 0 <= j < self.key_seq().len() && self.key_seq()[j] == key;
                    self.lemma_index_of(j);
                    if j < p {
                        old(self).lemma_index_of(j);
                    } else if j > p {
                        old(self).lemma_index_of(j - 1);
                    }
                }
                assert(new_map =~= old_map.insert(kv, vv));
            }
        }
    }
}


/// Values whose copy keeps their view.
pub trait DeepCopy: View + Sized {
    fn deep_copy(&self) -> (r: Self)
        ensures
            r@ == self@,
    ;
}

/// The view of an optional value.
pub open spec fn opt_view<T: View>(o: Option<T>) -> Option<T::V> {
    match o {
        Some(x) => Some(x@),
        None => None,
    }
}

/// Whether two optional values are the same.
pub fn opt_same<T: SpecEq>(a: &Option<T>, b: &Option<T>) -> (r: bool)
    ensures
        r == (opt_view(*a) == opt_view(*b)),
{
    match (a, b) {
        (Some(x), Some(y)) => x.same(y),
        (None, None) => true,
        _ => false,
    }
}

/// Values compared by their view.
pub trait SpecEq: View + Sized {
    fn same(&self, other: &Self) -> (r: bool)
        ensures
            r == (self@ == other@),
    ;
}

/// Values compared as the values they stand for: each has a normal form
/// of its view, and two values are equivalent when their normal forms are
/// equal.
pub trait Equiv: View + Sized {
    spec fn normal(v: Self::V) -> Self::V;

    fn equivalent(&self, other: &Self) -> (r: bool)
        ensures
            r == (Self::normal(self@) == Self::normal(other@)),
    ;
}

impl Equiv for String {
    open spec fn normal(v: Seq<char>) -> Seq<char> {
        v
    }

    fn equivalent(&self, other: &Self) -> (r: bool) {
        str_eq(self.as_str(), other.as_str())
    }
}

/// The normal forms of the views of a sequence's items.
pub open spec fn normals<T: Equiv>(s: Seq<T::V>) -> Seq<T::V> {
    s.map_values(|x: T::V| T::normal(x))
}

/// The normal forms of an optional sequence's items.
pub open spec fn opt_normals<T: Equiv>(o: Option<Seq<T::V>>) -> Option<Seq<T::V>> {
    match o {
        Some(s) => Some(normals::<T>(s)),
        None => None,
    }
}

/// The normal form of an optional value.
pub open spec fn opt_normal<T: Equiv>(o: Option<T::V>) -> Option<T::V> {
    match o {
        Some(x) => Some(T::normal(x)),
        None => None,
    }
}

/// Whether two optional values are equivalent.
pub fn opt_equivalent<T: Equiv>(a: &Option<T>, b: &Option<T>) -> (r: bool)
    ensures
        r == (opt_normal::<T>(opt_view(*a)) == opt_normal::<T>(opt_view(*b))),
{
    match (a, b) {
        (Some(x), Some(y)) => x.equivalent(y),
        (None, None) => true,
        _ => false,
    }
}

/// Whether two vectors hold equivalent items.
pub fn vec_equivalent<T: Equiv>(a: &Vec<T>, b: &Vec<T>) -> (r: bool)
    ensures
        r == (normals::<T>(views(a@)) == normals::<T>(views(b@))),
{
    if a.len() != b.len() {
        assert(normals::<T>(views(a@)).len() != normals::<T>(views(b@)).len());
        return false;
    }
    let n = a.len();
    let mut i: usize = 0;
    while i < n
        invariant
            n == a@.len(),
            n == b@.len(),
            forall|j: int| 0 <= j < i ==> T::normal(a@[j]@) == T::normal(b@[j]@),
        decreases n - i,
    {
        if !a[i].equivalent(&b[i]) {
            assert(normals::<T>(views(a@))[i as int] != normals::<T>(views(b@))[i as int]);
            return false;
        }
        i = i + 1;
    }
    assert(normals::<T>(views(a@)) =~= normals::<T>(views(b@)));
    true
}

/// Whether two optional vectors hold equivalent items.
pub fn opt_vec_equivalent<T: Equiv>(a: &Option<Vec<T>>, b: &Option<Vec<T>>) -> (r: bool)
    ensures
        r == (opt_normals::<T>(opt_views(*a)) == opt_normals::<T>(opt_views(*b))),
{
    match (a, b) {
        (Some(x), Some(y)) => vec_equivalent(x, y),
        (None, None) => true,
        _ => false,
    }
}

impl SpecEq for String {
    fn same(&self, other: &Self) -> (r: bool) {
        str_eq(self.as_str(), other.as_str())
    }
}

/// The views of a vector's items.
pub open spec fn views<T: View>(v: Seq<T>) -> Seq<T::V> {
    v.map_values(|x: T| x@)
}

/// The views of an optional vector's items.
pub open spec fn opt_views<T: View>(o: Option<Vec<T>>) -> Option<Seq<T::V>> {
    match o {
        Some(v) => Some(views(v@)),
        None => None,
    }
}

/// Whether two vectors hold the same items.
pub fn vec_same<T: SpecEq>(a: &Vec<T>, b: &Vec<T>) -> (r: bool)
    ensures
        r == (views(a@) == views(b@)),
{
    if a.len() != b.len() {
        assert(views(a@).len() != views(b@).len());
        return false;
    }
    let n = a.len();
    let mut i: usize = 0;
    while i < n
        invariant
            n == a@.len(),
            n == b@.len(),
            forall|j: int| 0 <= j < i ==> a@[j]@ == b@[j]@,
        decreases n - i,
    {
        if !a[i].same(&b[i]) {
            assert(views(a@)[i as int] != views(b@)[i as int]);
            return false;
        }
        i = i + 1;
    }
    assert(views(a@) =~= views(b@));
    true
}

/// Whether two optional vectors hold the same items.
pub fn opt_vec_same<T: SpecEq>(a: &Option<Vec<T>>, b: &Option<Vec<T>>) -> (r: bool)
    ensures
        r == (opt_views(*a) == opt_views(*b)),
{
    match (a, b) {
        (Some(x), Some(y)) => vec_same(x, y),
        (None, None) => true,
        _ => false,
    }
}

/// A copy of a vector.
pub fn vec_copy<T: DeepCopy>(a: &Vec<T>) -> (r: Vec<T>)
    ensures
        views(r@) == views(a@),
{
    let mut out: Vec<T> = Vec::new();
    let n = a.len();
    let mut i: usize = 0;
    while i < n
        invariant
            n == a@.len(),
            i <= n,
            out@.len() == i,
            forall|j: int| 0 <= j < i ==> out@[j]@ == a@[j]@,
        decreases n - i,
    {
        out.push(a[i].deep_copy());
        i = i + 1;
    }
    assert(views(out@) =~= views(a@));
    out
}

/// A copy of an optional vector.
pub fn opt_vec_copy<T: DeepCopy>(a: &Option<Vec<T>>) -> (r: Option<Vec<T>>)
    ensures
        opt_views(r) == opt_views(*a),
{
    match a {
        Some(x) => Some(vec_copy(x)),
        None => None,
    }
}

impl DeepCopy for String {
    fn deep_copy(&self) -> (r: Self) {
        self.clone()
    }
}

impl<V: View> StrMap<V> {
    /// Removes a key, returning the value it held.
    pub fn remove(&mut self, k: &str) -> (r: Option<V>)
        ensures
            final(self)@ == old(self)@.remove(k@),
            match r {
                Some(v) => old(self)@.contains_key(k@) && old(self)@[k@] == v@,
                None => !old(self)@.contains_key(k@),
            },
    {
        proof {
            use_type_invariant(&*self);
        }
        let mut entries: Vec<(String, V)> = Vec::new();
        std::mem::swap(&mut entries, &mut self.entries);
        let ghost old_entries = entries@;
        let ghost old_map = old(self)@;
        let n = entries.len();
        let mut i: usize = 0;
        while i < n
            invariant
                n == entries@.len(),
                entries@ == old_entries,
                old(self).entries@ == old_entries,
                old_map == old(self)@,
                keys_ascending(old_entries),
                forall|j: int| 0 <= j < i ==> old_entries[j].0@ != k@,
            decreases n - i,
        {
            if str_eq(entries[i].0.as_str(), k) {
                let (_, v) = entries.remove(i);
                proof {
                    assert forall|a: int, b: int| 0 <= a < b < entries@.len() implies seq_lt(
                        #[trigger] entries@[a].0@,
                        #[trigger] entries@[b].0@,
                    ) by {
                        let a0 = if a < i { a } else { a + 1 };
                        let b0 = if b < i { b } else { b + 1 };
                        assert(entries@[a] == old_entries[a0]);
                        assert(entries@[b] == old_entries[b0]);
                        assert(seq_lt(old_entries[a0].0@, old_entries[b0].0@));
                    }
                    old(self).lemma_index_of(i as int);
                }
                self.entries = entries;
                proof {
                    let new_map = self@;
                    assert forall|key: Seq<char>| #[trigger] new_map.contains_key(key) <==> old_map.remove(k@).contains_key(key) by {
                        if new_map.contains_key(key) {
                            let j = choose|j: int| 0 <= j < self.key_seq().len() && self.key_seq()[j] == key;
                            let j0 = if j < i { j } else { j + 1 };
                            assert(old(self).key_seq()[j0] == key);
                            if key == k@ {
                                lemma_keys_unique(old_entries, j0, i as int);
                            }
                        }
                        if old_map.contains_key(key) && key != k@ {
                            let j = choose|j: int| 0 <= j < old(self).key_seq().len() && old(self).key_seq()[j] == key;
                            if j < i {
                                assert(self.key_seq()[j] == key);
                            } else {
                                assert(j != i);
                                assert(self.key_seq()[j - 1] == key);
                            }
                        }
                    }
                    assert forall|key: Seq<char>| #[trigger] new_map.contains_key(key) implies new_map[key] == old_map.remove(k@)[key] by {
                        let j = choose|j: int| 0 <= j < self.key_seq().len() && self.key_seq()[j] == key;
                        self.lemma_index_of(j);
                        let j0 = if j < i { j } else { j + 1 };
                        old(self).lemma_index_of(j0);
                    }
                    assert(new_map =~= old_map.remove(k@));
                }
                return Some(v);
            }
            i = i + 1;
        }
        self.entries = entries;
        proof {
            if old_map.contains_key(k@) {
                let j = choose|j: int| 0 <= j < old(self).key_seq().len() && old(self).key_seq()[j] == k@;
                assert(old_entries[j].0@ == k@);
            }
            assert(self@ =~= old_map);
            assert(old_map.remove(k@) =~= old_map);
        }
        None
    }
}

impl<V: DeepCopy> StrMap<V> {
    /// A copy of the map.
    pub fn copy(&self) -> (r: Self)
        ensures
            r@ == self@,
            r.key_seq() == self.key_seq(),
    {
        proof {
            use_type_invariant(self);
        }
        let mut entries: Vec<(String, V)> = Vec::new();
        let n = self.entries.len();
        let mut i: usize = 0;
        while i < n
            invariant
                n == self.entries@.len(),
                i <= n,
                entries@.len() == i,
                forall|j: int| 0 <= j < i ==> #[trigger] entries@[j].0@ == self.entries@[j].0@ && entries@[j].1@ == self.entries@[j].1@,
            decreases n - i,
        {
            let k = self.entries[i].0.clone();
            let v = self.entries[i].1.deep_copy();
            entries.push((k, v));
            i = i + 1;
        }
        proof {
            assert forall|a: int, b: int| 0 <= a < b < entries@.len() implies seq_lt(
                #[trigger] entries@[a].0@,
                #[trigger] entries@[b].0@,
            ) by {
                assert(entries@[a].0@ == self.entries@[a].0@);
                assert(entries@[b].0@ == self.entries@[b].0@);
            }
        }
        let r = StrMap { entries };
        proof {
            assert(r.key_seq() =~= self.key_seq());
            assert forall|key: Seq<char>| #[trigger] r@.contains_key(key) implies r@[key] == self@[key] by {
                let j = choose|j: int| 0 <= j < r.key_seq().len() && r.key_seq()[j] == key;
                r.lemma_index_of(j);
                self.lemma_index_of(j);
            }
            assert(r@ =~= self@);
        }
        r
    }
}

impl<V: DeepCopy> StrMap<V> {
    /// Inserts every entry of `other`, whose values replace those of the same keys.
    pub fn extend_from(&mut self, other: &Self)
        ensures
            final(self)@ == old(self)@.union_prefer_right(other@),
    {
        let ghost start = self@;
        let ghost ks = other.key_seq();
        let n = other.len();
        let mut i: usize = 0;
        while i < n
            invariant
                n == ks.len(),
                ks == other.key_seq(),
                i <= n,
                forall|k: Seq<char>|
                    #[trigger] self@.contains_key(k) <==> (start.contains_key(k) || ks.subrange(0, i as int).contains(k)),
                forall|k: Seq<char>|
                    #[trigger] self@.contains_key(k) ==> self@[k] == if ks.subrange(0, i as int).contains(k) {
                        other@[k]
                    } else {
                        start[k]
                    },
            decreases n - i,
        {
            let k = other.key_at(i);
            let v = other.value_at(i);
            let ghost before = self@;
            self.insert(k.clone(), v.deep_copy());
            proof {
                let s0 = ks.subrange(0, i as int);
                let s1 = ks.subrange(0, i + 1);
                assert forall|x: Seq<char>| s1.contains(x) <==> (s0.contains(x) || x == ks[i as int]) by {
                    if s1.contains(x) {
                        let j = choose|j: int| 0 <= j < s1.len() && #[trigger] s1[j] == x;
                        if j < i {
                            assert(s0[j] == x);
                        }
                    }
                    if s0.contains(x) {
                        let j = choose|j: int| 0 <= j < s0.len() && #[trigger] s0[j] == x;
                        assert(s1[j] == x);
                    }
                    if x == ks[i as int] {
                        assert(s1[i as int] == x);
                    }
                }
                other.lemma_dom();
                assert forall|x: Seq<char>| s0.contains(x) implies other@.contains_key(x) by {
                    let j = choose|j: int| 0 <= j < s0.len() && #[trigger] s0[j] == x;
                    assert(ks[j] == x);
                    assert(ks.contains(x));
                }
            }
            i = i + 1;
        }
        proof {
            assert(ks.subrange(0, n as int) =~= ks);
            other.lemma_dom();
            assert(self@ =~= start.union_prefer_right(other@));
        }
    }
}

impl<V: DeepCopy> DeepCopy for StrMap<V> {
    fn deep_copy(&self) -> (r: Self) {
        self.copy()
    }
}

} // verus!
