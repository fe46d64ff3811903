//! A map keyed by byte strings, held as a list of entries in increasing order of key
//! (lexicographic on the raw bytes), so that listing a map is deterministic.
use vstd::prelude::*;
use crate::codec::copy_bytes;

verus! {

/// Byte-string equality.
pub fn bytes_eq(a: &[u8], b: &[u8]) -> (r: bool)
    ensures
        r == (a@ == b@),
{
    if a.len() != b.len() {
        return false;
    }
    let mut i: usize = 0;
    while i < a.len()
        invariant
            a@.len() == b@.len(),
            i <= a@.len(),
            forall|j: int| 0 <= j < i ==> a@[j] == b@[j],
        decreases a@.len() - i,
    {
        if a[i] != b[i] {
            return false;
        }
        i = i + 1;
    }
    assert(a@ =~= b@);
    true
}

/// `a` comes before `b` in lexicographic order on raw bytes (a proper prefix comes first).
pub open spec fn lex_lt(a: Seq<u8>, b: Seq<u8>) -> bool
    decreases a.len(),
{
    if a.len() == 0 {
        b.len() > 0
    } else if b.len() == 0 {
        false
    } else if a[0] != b[0] {
        a[0] < b[0]
    } else {
        lex_lt(a.drop_first(), b.drop_first())
    }
}

pub proof fn lemma_lex_irreflexive(a: Seq<u8>)
    ensures
        !lex_lt(a, a),
    decreases a.len(),
{
    if a.len() > 0 {
        lemma_lex_irreflexive(a.drop_first());
    }
}

pub proof fn lemma_lex_transitive(a: Seq<u8>, b: Seq<u8>, c: Seq<u8>)
    requires
        lex_lt(a, b),
        lex_lt(b, c),
    ensures
        lex_lt(a, c),
    decreases a.len(),
{
    if a.len() > 0 && b.len() > 0 && c.len() > 0 && a[0] == b[0] && b[0] == c[0] {
        lemma_lex_transitive(a.drop_first(), b.drop_first(), c.drop_first());
    }
}

pub proof fn lemma_lex_total(a: Seq<u8>, b: Seq<u8>)
    requires
        a != b,
    ensures
        lex_lt(a, b) || lex_lt(b, a),
    decreases a.len(),
{
    if a.len() > 0 && b.len() > 0 && a[0] == b[0] {
        if a.drop_first() == b.drop_first() {
            assert(a =~= seq![a[0]] + a.drop_first());
            assert(b =~= seq![b[0]] + b.drop_first());
        }
        lemma_lex_total(a.drop_first(), b.drop_first());
    } else if a.len() == 0 && b.len() == 0 {
        assert(a =~= b);
    }
}

/// Lexicographic order on raw bytes.
pub fn bytes_lt(a: &[u8], b: &[u8]) -> (r: bool)
    ensures
        r == lex_lt(a@, b@),
{
    let mut i: usize = 0;
    assert(a@.subrange(0, a@.len() as int) =~= a@);
    assert(b@.subrange(0, b@.len() as int) =~= b@);
    while i < a.len() && i < b.len()
        invariant
            i <= a@.len(),
            i <= b@.len(),
            lex_lt(a@, b@) == lex_lt(a@.subrange(i as int, a@.len() as int), b@.subrange(i as int, b@.len() as int)),
        decreases a@.len() - i,
    {
        let ghost sa = a@.subrange(i as int, a@.len() as int);
        let ghost sb = b@.subrange(i as int, b@.len() as int);
        assert(sa.drop_first() =~= a@.subrange(i + 1, a@.len() as int));
        assert(sb.drop_first() =~= b@.subrange(i + 1, b@.len() as int));
        if a[i] != b[i] {
            return a[i] < b[i];
        }
        i = i + 1;
    }
    let ghost sa = a@.subrange(i as int, a@.len() as int);
    let ghost sb = b@.subrange(i as int, b@.len() as int);
    assert(i == a@.len() ==> sa.len() == 0);
    assert(i == b@.len() ==> sb.len() == 0);
    i == a.len() && i < b.len()
}

/// One key and its value.
#[derive(Debug, Clone)]
pub struct KeyedEntry<V> {
    pub key: Vec<u8>,
    pub value: V,
}

/// A map from byte strings to values, its entries in increasing order of key.
#[derive(Debug, Clone)]
pub struct KeyedMap<V> {
    pub entries: Vec<KeyedEntry<V>>,
}

impl<V: View> View for KeyedMap<V> {
    type V = Map<Seq<u8>, V::V>;

    /// The map that the entries stand for.
    open spec fn view(&self) -> Map<Seq<u8>, V::V> {
        Map::new(|k: Seq<u8>| self.has(k), |k: Seq<u8>| self.entries@[self.index_of(k)].value@)
    }
}

impl<V: View> KeyedMap<V> {
    /// The keys increase strictly from entry to entry.
    pub open spec fn wf(&self) -> bool {
        forall|i: int, j: int|
            0 <= i < j < self.entries@.len() ==> lex_lt(
                (#[trigger] self.entries@[i]).key@,
                (#[trigger] self.entries@[j]).key@,
            )
    }

    /// No key occurs twice.
    pub open spec fn distinct(&self) -> bool {
        forall|i: int, j: int|
            0 <= i < j < self.entries@.len() ==> (#[trigger] self.entries@[i]).key@
                != (#[trigger] self.entries@[j]).key@
    }

    proof fn lemma_distinct(&self)
        requires
            self.wf(),
        ensures
            self.distinct(),
    {
        assert forall|i: int, j: int| 0 <= i < j < self.entries@.len() implies (#[trigger] self.entries@[i]).key@
            != (#[trigger] self.entries@[j]).key@ by {
            lemma_lex_irreflexive(self.entries@[i].key@);
        }
    }

    pub open spec fn has(&self, k: Seq<u8>) -> bool {
        exists|i: int| 0 <= i < self.entries@.len() && (#[trigger] self.entries@[i]).key@ == k
    }

    pub open spec fn index_of(&self, k: Seq<u8>) -> int {
        choose|i: int| 0 <= i < self.entries@.len() && (#[trigger] self.entries@[i]).key@ == k
    }

    proof fn lemma_index(&self, k: Seq<u8>, i: int)
        requires
            self.distinct(),
            0 <= i < self.entries@.len(),
            self.entries@[i].key@ == k,
        ensures
            self.has(k),
            self.index_of(k) == i,
            self@[k] == self.entries@[i].value@,
    {
        let j = self.index_of(k);
        if j != i {
            if j < i {
                assert(self.entries@[j].key@ != self.entries@[i].key@);
            } else {
                assert(self.entries@[i].key@ != self.entries@[j].key@);
            }
        }
    }

    /// An empty map.
    pub fn new() -> (r: Self)
        ensures
            r.wf(),
            r@ == Map::<Seq<u8>, V::V>::empty(),
    {
        let r = KeyedMap { entries: Vec::new() };
        assert(r@ =~= Map::<Seq<u8>, V::V>::empty());
        r
    }

    /// The position of `key` among the entries, if it is there.
    pub fn find(&self, key: &[u8]) -> (r: Option<usize>)
        requires
            self.wf(),
        ensures
            r is None <==> !self@.contains_key(key@),
            r is Some ==> r.unwrap() < self.entries@.len() && self.entries@[r.unwrap() as int].key@
                == key@ && self.index_of(key@) == r.unwrap(),
    {
        proof {
            self.lemma_distinct();
        }
        let mut i: usize = 0;
        while i < self.entries.len()
            invariant
                self.distinct(),
                i <= self.entries@.len(),
                forall|j: int| 0 <= j < i ==> (#[trigger] self.entries@[j]).key@ != key@,
            decreases self.entries@.len() - i,
        {
            if bytes_eq(self.entries[i].key.as_slice(), key) {
                proof {
                    self.lemma_index(key@, i as int);
                }
                return Some(i);
            }
            i = i + 1;
        }
        None
    }

    /// The value under `key`, if any.
    pub fn get(&self, key: &[u8]) -> (r: Option<&V>)
        requires
            self.wf(),
        ensures
            r is None <==> !self@.contains_key(key@),
            r is Some ==> r.unwrap()@ == self@[key@],
    {
        match self.find(key) {
            None => None,
            Some(i) => Some(&self.entries[i].value),
        }
    }

    /// Whether `key` has a value.
    pub fn contains(&self, key: &[u8]) -> (r: bool)
        requires
            self.wf(),
        ensures
            r == self@.contains_key(key@),
    {
        self.find(key).is_some()
    }

    /// Sets the value under `key`, adding the key in its place if it is new.
    pub fn insert(&mut self, key: Vec<u8>, value: V)
        requires
            old(self).wf(),
        ensures
            final(self).wf(),
            final(self)@ == old(self)@.insert(key@, value@),
    {
        let ghost k = key@;
        let ghost val = value@;
        proof {
            old(self).lemma_distinct();
        }
        let mut pos: usize = 0;
        let mut found = false;
        while !found && pos < self.entries.len()
            invariant
                self == old(self),
                k == key@,
                pos <= self.entries@.len(),
                found ==> pos < self.entries@.len() && !lex_lt(self.entries@[pos as int].key@, k),
                forall|j: int| 0 <= j < pos ==> lex_lt((#[trigger] self.entries@[j]).key@, k),
            decreases (self.entries@.len() - pos) * 2 + (if found { 0int } else { 1int }),
        {
            if bytes_lt(self.entries[pos].key.as_slice(), key.as_slice()) {
                pos = pos + 1;
            } else {
                found = true;
            }
        }
        let n = self.entries.len();
        if pos < n && bytes_eq(self.entries[pos].key.as_slice(), key.as_slice()) {
            self.entries.set(pos, KeyedEntry { key, value });
            proof {
                let i = pos as int;
                assert forall|a: int, b: int|
                    0 <= a < b < self.entries@.len() implies lex_lt(
                    (#[trigger] self.entries@[a]).key@,
                    (#[trigger] self.entries@[b]).key@,
                ) by {
                    assert(lex_lt(old(self).entries@[a].key@, old(self).entries@[b].key@));
                }
                self.lemma_distinct();
                self.lemma_index(k, i);
                assert forall|q: Seq<u8>| q != k && #[trigger] old(self)@.contains_key(q)
                    implies self@.contains_key(q) && self@[q] == old(self)@[q] by {
                    let j = old(self).index_of(q);
                    assert(old(self).entries@[j].key@ == q);
                    assert(self.entries@[j] == old(self).entries@[j]);
                    self.lemma_index(q, j);
                }
                assert forall|q: Seq<u8>| #[trigger] self@.contains_key(q) && q != k
                    implies old(self)@.contains_key(q) by {
                    let j = self.index_of(q);
                    assert(self.entries@[j] == old(self).entries@[j]);
                }
                assert(self@ =~= old(self)@.insert(k, val));
            }
        } else {
            proof {
                if pos < n {
                    let next = old(self).entries@[pos as int].key@;
                    lemma_lex_total(next, k);
                }
            }
            self.entries.insert(pos, KeyedEntry { key, value });
            proof {
                let i = pos as int;
                let o = old(self).entries@;
                assert(forall|j: int| 0 <= j < i ==> self.entries@[j] == o[j]);
                assert(forall|j: int| i < j < self.entries@.len() ==> self.entries@[j] == o[j - 1]);
                assert(self.entries@[i].key@ == k);
                assert forall|a: int, b: int|
                    0 <= a < b < self.entries@.len() implies lex_lt(
                    (#[trigger] self.entries@[a]).key@,
                    (#[trigger] self.entries@[b]).key@,
                ) by {
                    if b < i {
                        assert(lex_lt(o[a].key@, o[b].key@));
                    } else if b == i {
                        assert(lex_lt(o[a].key@, k));
                    } else if a > i {
                        assert(lex_lt(o[a - 1].key@, o[b - 1].key@));
                    } else if a == i {
                        if b - 1 > i {
                            assert(lex_lt(o[i].key@, o[b - 1].key@));
                            lemma_lex_transitive(k, o[i].key@, o[b - 1].key@);
                        }
                    } else {
                        assert(lex_lt(o[a].key@, o[b - 1].key@));
                    }
                }
                self.lemma_distinct();
                self.lemma_index(k, i);
                assert forall|q: Seq<u8>| q != k && #[trigger] old(self)@.contains_key(q)
                    implies self@.contains_key(q) && self@[q] == old(self)@[q] by {
                    let j = old(self).index_of(q);
                    let nj = if j < i { j } else { j + 1 };
                    assert(self.entries@[nj] == o[j]);
                    self.lemma_index(q, nj);
                }
                assert forall|q: Seq<u8>| #[trigger] self@.contains_key(q) && q != k
                    implies old(self)@.contains_key(q) by {
                    let j = self.index_of(q);
                    let oj = if j < i { j } else { j - 1 };
                    assert(j != i);
                    assert(self.entries@[j] == o[oj]);
                }
                assert(self@ =~= old(self)@.insert(k, val));
            }
        }
    }

    /// Removes `key` and its value, if it is there.
    pub fn remove(&mut self, key: &[u8])
        requires
            old(self).wf(),
        ensures
            final(self).wf(),
            final(self)@ == old(self)@.remove(key@),
    {
        let ghost k = key@;
        match self.find(key) {
            None => {
                assert(self@ =~= old(self)@.remove(k));
            },
            Some(i) => {
                let removed = self.entries.remove(i);
                proof {
                    let o = old(self).entries@;
                    old(self).lemma_distinct();
                    assert forall|a: int, b: int|
                        0 <= a < b < self.entries@.len() implies lex_lt(
                        (#[trigger] self.entries@[a]).key@,
                        (#[trigger] self.entries@[b]).key@,
                    ) by {
                        let oa = if a < i { a } else { a + 1 };
                        let ob = if b < i { b } else { b + 1 };
                        assert(self.entries@[a] == o[oa]);
                        assert(self.entries@[b] == o[ob]);
                        assert(lex_lt(o[oa].key@, o[ob].key@));
                    }
                    self.lemma_distinct();
                    assert forall|q: Seq<u8>| q != k && #[trigger] old(self)@.contains_key(q)
                        implies self@.contains_key(q) && self@[q] == old(self)@[q] by {
                        let j = old(self).index_of(q);
                        let nj = if j < i { j } else { j - 1 };
                        assert(j != i);
                        assert(self.entries@[nj] == o[j]);
                        self.lemma_index(q, nj);
                    }
                    assert forall|q: Seq<u8>| #[trigger] self@.contains_key(q)
                        implies old(self)@.contains_key(q) && q != k by {
                        let j = self.index_of(q);
                        let oj = if j < i { j } else { j + 1 };
                        assert(self.entries@[j] == o[oj]);
                        if q == k {
                            old(self).lemma_index(k, oj);
                        }
                    }
                    assert(self@ =~= old(self)@.remove(k));
                }
            },
        }
    }
}

impl<V: View + Copy> KeyedMap<V> {
    /// A copy of a map whose values are plain values.
    pub fn copy(&self) -> (r: Self)
        requires
            self.wf(),
        ensures
            r.wf(),
            r@ == self@,
    {
        let mut entries: Vec<KeyedEntry<V>> = Vec::new();
        let mut i: usize = 0;
        while i < self.entries.len()
            invariant
                i <= self.entries@.len(),
                entries@.len() == i,
                forall|j: int|
                    0 <= j < i ==> (#[trigger] entries@[j]).key@ == self.entries@[j].key@
                        && entries@[j].value == self.entries@[j].value,
            decreases self.entries@.len() - i,
        {
            let e = &self.entries[i];
            entries.push(KeyedEntry { key: copy_bytes(e.key.as_slice()), value: e.value });
            i = i + 1;
        }
        let r = KeyedMap { entries };
        proof {
            lemma_same_entries(self, &r);
        }
        r
    }
}

impl KeyedMap<Vec<u8>> {
    /// A copy of a map whose values are byte strings.
    pub fn copy_bytes_map(&self) -> (r: Self)
        requires
            self.wf(),
        ensures
            r.wf(),
            r@ == self@,
    {
        let mut entries: Vec<KeyedEntry<Vec<u8>>> = Vec::new();
        let mut i: usize = 0;
        while i < self.entries.len()
            invariant
                i <= self.entries@.len(),
                entries@.len() == i,
                forall|j: int|
                    0 <= j < i ==> (#[trigger] entries@[j]).key@ == self.entries@[j].key@
                        && entries@[j].value@ == self.entries@[j].value@,
            decreases self.entries@.len() - i,
        {
            let e = &self.entries[i];
            entries.push(
                KeyedEntry { key: copy_bytes(e.key.as_slice()), value: copy_bytes(e.value.as_slice()) },
            );
            i = i + 1;
        }
        let r = KeyedMap { entries };
        proof {
            lemma_same_entries(self, &r);
        }
        r
    }
}

/// Two entry lists with the same keys and values, position by position, stand for the same map.
proof fn lemma_same_entries<V: View>(a: &KeyedMap<V>, b: &KeyedMap<V>)
    requires
        a.wf(),
        a.entries@.len() == b.entries@.len(),
        forall|j: int|
            0 <= j < a.entries@.len() ==> (#[trigger] b.entries@[j]).key@ == a.entries@[j].key@
                && b.entries@[j].value@ == a.entries@[j].value@,
    ensures
        b.wf(),
        b@ == a@,
{
    assert forall|i: int, j: int| 0 <= i < j < b.entries@.len() implies lex_lt(
        (#[trigger] b.entries@[i]).key@,
        (#[trigger] b.entries@[j]).key@,
    ) by {
        assert(lex_lt(a.entries@[i].key@, a.entries@[j].key@));
    }
    a.lemma_distinct();
    b.lemma_distinct();
    assert forall|k: Seq<u8>| #[trigger] a@.contains_key(k) implies b@.contains_key(k) && b@[k] == a@[k] by {
        let i = a.index_of(k);
        b.lemma_index(k, i);
    }
    assert forall|k: Seq<u8>| #[trigger] b@.contains_key(k) implies a@.contains_key(k) by {
        let i = b.index_of(k);
        assert(a.entries@[i].key@ == k);
    }
    assert(b@ =~= a@);
}

} // verus!
