use vstd::prelude::*;

verus! {

/// A resident entry: its key, its value and its weight.
pub struct Entry<V> {
    pub key: u64,
    pub value: V,
    pub weight: u64,
}

/// The sum of the weights of `s`.
pub open spec fn total_weight<V>(s: Seq<Entry<V>>) -> nat
    decreases s.len(),
{
    if s.len() == 0 {
        0
    } else {
        total_weight(s.drop_last()) + s.last().weight as nat
    }
}

/// Whether some entry of `s` has the key `key`.
pub open spec fn has_key<V>(s: Seq<Entry<V>>, key: u64) -> bool {
    exists|i: int| 0 <= i < s.len() && s[i].key == key
}

/// The position of the entry of `s` with the key `key`, where there is one.
pub open spec fn key_index<V>(s: Seq<Entry<V>>, key: u64) -> int {
    choose|i: int| 0 <= i < s.len() && s[i].key == key
}

/// No two entries of `s` share a key.
pub open spec fn unique_keys<V>(s: Seq<Entry<V>>) -> bool {
    forall|i: int, j: int| 0 <= i < s.len() && 0 <= j < s.len() && s[i].key == s[j].key ==> i == j
}

/// `s` without the entry whose key is `key`.
pub open spec fn without_key<V>(s: Seq<Entry<V>>, key: u64) -> Seq<Entry<V>> {
    if has_key(s, key) {
        s.remove(key_index(s, key))
    } else {
        s
    }
}

/// The total weight of a sequence is its first weight plus that of the rest.
pub proof fn lemma_total_weight_front<V>(s: Seq<Entry<V>>)
    requires
        s.len() > 0,
    ensures
        total_weight(s) == s[0].weight + total_weight(s.skip(1)),
    decreases s.len(),
{
    if s.len() > 1 {
        lemma_total_weight_front(s.drop_last());
        assert(s.skip(1).drop_last() =~= s.drop_last().skip(1));
        assert(s.skip(1).last() == s.last());
        assert(total_weight(s.skip(1)) == total_weight(s.skip(1).drop_last()) + s.last().weight);
    } else {
        assert(s.skip(1).len() == 0);
        assert(s.drop_last().len() == 0);
        assert(total_weight(s.drop_last()) == 0);
    }
}

/// Removing one entry takes its weight off the total.
pub proof fn lemma_total_weight_remove<V>(s: Seq<Entry<V>>, i: int)
    requires
        0 <= i < s.len(),
    ensures
        total_weight(s.remove(i)) + s[i].weight == total_weight(s),
    decreases s.len(),
{
    if i == s.len() - 1 {
        assert(s.remove(i) =~= s.drop_last());
    } else {
        lemma_total_weight_remove(s.drop_last(), i);
        assert(s.remove(i).drop_last() =~= s.drop_last().remove(i));
    }
}

/// Appending an entry adds its weight to the total.
pub proof fn lemma_total_weight_push<V>(s: Seq<Entry<V>>, e: Entry<V>)
    ensures
        total_weight(s.push(e)) == total_weight(s) + e.weight,
{
    assert(s.push(e).drop_last() =~= s);
}

/// Where keys are unique, the entry found at `i` is the one `key_index` names.
pub proof fn lemma_key_index_unique<V>(s: Seq<Entry<V>>, key: u64, i: int)
    requires
        unique_keys(s),
        0 <= i < s.len(),
        s[i].key == key,
    ensures
        has_key(s, key),
        key_index(s, key) == i,
{
    assert(has_key(s, key));
}

/// Taking out the entry with a given key keeps keys unique and leaves that
/// key absent.
pub proof fn lemma_without_key<V>(s: Seq<Entry<V>>, key: u64)
    requires
        unique_keys(s),
    ensures
        unique_keys(without_key(s, key)),
        !has_key(without_key(s, key), key),
        has_key(s, key) ==> total_weight(without_key(s, key)) + s[key_index(s, key)].weight
            == total_weight(s),
        !has_key(s, key) ==> without_key(s, key) == s,
{
    if has_key(s, key) {
        let k = key_index(s, key);
        let t = s.remove(k);
        assert forall|i: int, j: int|
            0 <= i < t.len() && 0 <= j < t.len() && t[i].key == t[j].key implies i == j by {
            let si = if i < k { i } else { i + 1 };
            let sj = if j < k { j } else { j + 1 };
            assert(t[i] == s[si]);
            assert(t[j] == s[sj]);
        }
        assert forall|i: int| 0 <= i < t.len() implies t[i].key != key by {
            let si = if i < k { i } else { i + 1 };
            assert(t[i] == s[si]);
        }
        lemma_total_weight_remove(s, k);
    }
}

/// Appending an entry whose key is absent keeps keys unique.
pub proof fn lemma_push_unique<V>(s: Seq<Entry<V>>, e: Entry<V>)
    requires
        unique_keys(s),
        !has_key(s, e.key),
    ensures
        unique_keys(s.push(e)),
{
    let t = s.push(e);
    assert forall|i: int, j: int|
        0 <= i < t.len() && 0 <= j < t.len() && t[i].key == t[j].key implies i == j by {
        if i < s.len() && j == s.len() {
            assert(s[i].key == e.key);
        }
        if j < s.len() && i == s.len() {
            assert(s[j].key == e.key);
        }
    }
}

/// The resident entries of a cache, kept in eviction order: the entry at the
/// front is the first to go.
pub struct Store<V> {
    entries: Vec<Entry<V>>,
    weighted_size: u64,
}

impl<V> View for Store<V> {
    type V = Seq<Entry<V>>;

    closed spec fn view(&self) -> Seq<Entry<V>> {
        self.entries@
    }
}

impl<V> Store<V> {
    /// The store's invariant: keys are unique and the recorded weighted size
    /// is the sum of the weights.
    pub closed spec fn wf(&self) -> bool {
        &&& unique_keys(self.entries@)
        &&& self.weighted_size == total_weight(self.entries@)
    }

    /// An empty store.
    pub fn new() -> (r: Self)
        ensures
            r.wf(),
            r@ == Seq::<Entry<V>>::empty(),
    {
        Store { entries: Vec::new(), weighted_size: 0 }
    }

    /// The number of resident entries.
    pub fn len(&self) -> (r: usize)
        ensures
            r == self@.len(),
    {
        self.entries.len()
    }

    /// The sum of the weights of the resident entries.
    pub fn weighted_size(&self) -> (r: u64)
        requires
            self.wf(),
        ensures
            r == total_weight(self@),
    {
        self.weighted_size
    }

    /// The position of the entry with the key `key`, if one is resident.
    fn find(&self, key: u64) -> (r: Option<usize>)
        requires
            self.wf(),
        ensures
            r.is_some() == has_key(self@, key),
            r matches Some(i) ==> i == key_index(self@, key) && i < self@.len(),
    {
        let mut i: usize = 0;
        while i < self.entries.len()
            invariant
                self.wf(),
                i <= self.entries@.len(),
                forall|j: int| 0 <= j < i ==> self.entries@[j].key != key,
            decreases self.entries@.len() - i,
        {
            if self.entries[i].key == key {
                proof {
                    lemma_key_index_unique(self@, key, i as int);
                }
                return Some(i);
            }
            i = i + 1;
        }
        None
    }

    /// Whether an entry with the key `key` is resident.
    pub fn contains_key(&self, key: u64) -> (r: bool)
        requires
            self.wf(),
        ensures
            r == has_key(self@, key),
    {
        self.find(key).is_some()
    }

    /// The value stored under `key`, if any.
    pub fn get(&self, key: u64) -> (r: Option<&V>)
        requires
            self.wf(),
        ensures
            r.is_some() == has_key(self@, key),
            r matches Some(v) ==> *v == self@[key_index(self@, key)].value,
    {
        match self.find(key) {
            Some(i) => Some(&self.entries[i].value),
            None => None,
        }
    }
    /// Stores `value` under `key` with the given weight, at the back of the
    /// eviction order, in place of any entry with that key. Nothing changes,
    /// and `false` comes back, where the new weighted size would not fit in
    /// a `u64`.
    pub fn insert(&mut self, key: u64, value: V, weight: u64) -> (r: bool)
        requires
            old(self).wf(),
        ensures
            final(self).wf(),
            r == (total_weight(without_key(old(self)@, key)) + weight <= u64::MAX),
            r ==> final(self)@ == without_key(old(self)@, key).push(Entry { key, value, weight }),
            !r ==> final(self)@ == old(self)@,
    {
        proof {
            lemma_without_key(self@, key);
        }
        let found = self.find(key);
        let base: u64 = match found {
            Some(i) => self.weighted_size - self.entries[i].weight,
            None => self.weighted_size,
        };
        if weight > u64::MAX - base {
            return false;
        }
        match found {
            Some(i) => {
                self.entries.remove(i);
            },
            None => {},
        }
        let e = Entry { key, value, weight };
        proof {
            lemma_push_unique(self.entries@, e);
            lemma_total_weight_push(self.entries@, e);
        }
        self.entries.push(e);
        self.weighted_size = base + weight;
        true
    }

    /// Takes out the entry with the key `key`, if one is resident.
    pub fn remove(&mut self, key: u64) -> (r: Option<Entry<V>>)
        requires
            old(self).wf(),
        ensures
            final(self).wf(),
            r.is_some() == has_key(old(self)@, key),
            r matches Some(e) ==> e == old(self)@[key_index(old(self)@, key)],
            final(self)@ == without_key(old(self)@, key),
    {
        proof {
            lemma_without_key(self@, key);
        }
        match self.find(key) {
            Some(i) => {
                let e = self.entries.remove(i);
                self.weighted_size = self.weighted_size - e.weight;
                Some(e)
            },
            None => None,
        }
    }

    /// Takes out the entry at the front of the eviction order, if any.
    pub fn pop_front(&mut self) -> (r: Option<Entry<V>>)
        requires
            old(self).wf(),
        ensures
            final(self).wf(),
            old(self)@.len() == 0 ==> r.is_none() && final(self)@ == old(self)@,
            old(self)@.len() > 0 ==> r == Some(old(self)@[0]) && final(self)@ == old(self)@.skip(1),
    {
        if self.entries.len() == 0 {
            return None;
        }
        proof {
            lemma_without_key(self@, self@[0].key);
            lemma_key_index_unique(self@, self@[0].key, 0);
        }
        let e = self.entries.remove(0);
        assert(self.entries@ =~= old(self)@.skip(1));
        self.weighted_size = self.weighted_size - e.weight;
        Some(e)
    }
}

} // verus!
