//! An ordered header container: unique names, insertion order kept, a later
//! value for a name replacing the earlier one in place.
use vstd::prelude::*;

verus! {

/// A header list as the contracts see it: (name, value) pairs in order.
pub type HeaderList = Seq<(Seq<char>, Seq<char>)>;

/// The index of the first entry named `k`, or `e.len()` if none is.
pub open spec fn key_index(e: HeaderList, k: Seq<char>) -> int
    decreases e.len(),
{
    if e.len() == 0 {
        0
    } else if key_index(e.drop_last(), k) < e.len() - 1 {
        key_index(e.drop_last(), k)
    } else if e.last().0 == k {
        e.len() - 1
    } else {
        e.len() as int
    }
}

/// The value stored under `k`, if any.
pub open spec fn lookup(e: HeaderList, k: Seq<char>) -> Option<Seq<char>> {
    if key_index(e, k) < e.len() {
        Some(e[key_index(e, k)].1)
    } else {
        None
    }
}

/// `e` with `k` set to `v`: the entry named `k` is replaced in place, or a new
/// entry is appended.
pub open spec fn insert_entry(e: HeaderList, k: Seq<char>, v: Seq<char>) -> HeaderList {
    if key_index(e, k) < e.len() {
        e.update(key_index(e, k), (k, v))
    } else {
        e.push((k, v))
    }
}

/// No two entries share a name.
pub open spec fn unique_keys(e: HeaderList) -> bool {
    forall|i: int, j: int| 0 <= i < j < e.len() ==> #[trigger] e[i].0 != #[trigger] e[j].0
}

pub proof fn lemma_key_index(e: HeaderList, k: Seq<char>)
    ensures
        0 <= key_index(e, k) <= e.len(),
        key_index(e, k) < e.len() ==> e[key_index(e, k)].0 == k,
        forall|j: int| 0 <= j < key_index(e, k) ==> #[trigger] e[j].0 != k,
    decreases e.len(),
{
    if e.len() > 0 {
        let p = e.drop_last();
        lemma_key_index(p, k);
        assert(forall|j: int| 0 <= j < p.len() ==> p[j] == #[trigger] e[j]);
    }
}

/// What `key_index` is, given where `k` first occurs.
pub proof fn lemma_key_index_at(e: HeaderList, k: Seq<char>, i: int)
    requires
        0 <= i <= e.len(),
        i < e.len() ==> e[i].0 == k,
        forall|j: int| 0 <= j < i ==> #[trigger] e[j].0 != k,
    ensures
        key_index(e, k) == i,
    decreases e.len(),
{
    if e.len() > 0 {
        let p = e.drop_last();
        let ip = if i < p.len() {
            i
        } else {
            p.len() as int
        };
        assert(forall|j: int| 0 <= j < p.len() ==> #[trigger] p[j] == e[j]);
        lemma_key_index_at(p, k, ip);
    }
}

/// Setting a header makes it read back as the new value and leaves every
/// other header as it was.
pub proof fn lemma_insert_lookup(e: HeaderList, k: Seq<char>, v: Seq<char>, other: Seq<char>)
    ensures
        lookup(insert_entry(e, k, v), k) == Some(v),
        other != k ==> lookup(insert_entry(e, k, v), other) == lookup(e, other),
{
    let n = insert_entry(e, k, v);
    lemma_key_index(e, k);
    lemma_key_index(e, other);
    let i = key_index(e, k);
    assert(forall|j: int| 0 <= j < e.len() && j != i ==> #[trigger] n[j] == e[j]);
    lemma_key_index_at(n, k, i);
    if other != k {
        let o = key_index(e, other);
        if o < e.len() {
            lemma_key_index_at(n, other, o);
        } else {
            lemma_key_index_at(n, other, n.len() as int);
        }
    }
}

#[derive(Debug, Clone, PartialEq)]
pub struct HeaderMap {
    entries: Vec<(String, String)>,
}

impl View for HeaderMap {
    type V = HeaderList;

    closed spec fn view(&self) -> HeaderList {
        self.entries@.map_values(|p: (String, String)| (p.0@, p.1@))
    }
}

impl HeaderMap {
    /// Well-formed: names are unique.
    pub open spec fn wf(&self) -> bool {
        unique_keys(self@)
    }

    /// An empty header map.
    pub fn new() -> (r: HeaderMap)
        ensures
            r@ == Seq::<(Seq<char>, Seq<char>)>::empty(),
            r.wf(),
    {
        HeaderMap { entries: Vec::new() }
    }

    /// The number of entries.
    pub fn len(&self) -> (r: usize)
        ensures
            r == self@.len(),
    {
        self.entries.len()
    }

    /// The position of the entry named `k`, or the length if none is.
    fn position(&self, k: &String) -> (r: usize)
        ensures
            r == key_index(self@, k@),
    {
        let mut i: usize = 0;
        while i < self.entries.len()
            invariant
                i <= self@.len(),
                forall|j: int| 0 <= j < i ==> #[trigger] self@[j].0 != k@,
            decreases self.entries.len() - i,
        {
            if self.entries[i].0 == *k {
                proof {
                    lemma_key_index_at(self@, k@, i as int);
                }
                return i;
            }
            i += 1;
        }
        proof {
            lemma_key_index_at(self@, k@, i as int);
        }
        i
    }

    /// Sets header `k` to `v`: an existing entry named `k` keeps its place and
    /// takes the new value, else the entry is appended.
    pub fn insert(&mut self, k: &str, v: &str)
        requires
            old(self).wf(),
        ensures
            final(self)@ == insert_entry(old(self)@, k@, v@),
            final(self).wf(),
    {
        let key = String::from_str(k);
        let val = String::from_str(v);
        let i = self.position(&key);
        proof {
            lemma_key_index(self@, k@);
        }
        if i < self.entries.len() {
            self.entries.set(i, (key, val));
            assert(self@ =~= insert_entry(old(self)@, k@, v@));
        } else {
            self.entries.push((key, val));
            assert(self@ =~= insert_entry(old(self)@, k@, v@));
        }
    }

    /// The value of header `k`, if present.
    pub fn get(&self, k: &str) -> (r: Option<&String>)
        ensures
            match r {
                Some(v) => lookup(self@, k@) == Some(v@),
                None => lookup(self@, k@) is None,
            },
    {
        let key = String::from_str(k);
        let i = self.position(&key);
        proof {
            lemma_key_index(self@, k@);
        }
        if i < self.entries.len() {
            Some(&self.entries[i].1)
        } else {
            None
        }
    }

    /// The name of entry `i`.
    pub fn name_at(&self, i: usize) -> (r: &str)
        requires
            i < self@.len(),
        ensures
            r@ == self@[i as int].0,
    {
        self.entries[i].0.as_str()
    }

    /// The value of entry `i`.
    pub fn value_at(&self, i: usize) -> (r: &str)
        requires
            i < self@.len(),
        ensures
            r@ == self@[i as int].1,
    {
        self.entries[i].1.as_str()
    }
}

} // verus!
