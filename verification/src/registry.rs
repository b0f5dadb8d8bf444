//! The texture registry: a name-keyed, insertion-ordered collection.
//!
//! The registry maps names to handles (the GPU-resident texture objects of
//! the backend — the registry is generic over them). The position of a
//! name in insertion order is the per-batch texture index that a draw call
//! resolves the name to, so the contracts here pin down both directions:
//! inserting under an existing name replaces the handle but keeps the
//! name's position, and lookup returns the first match in insertion order.

use vstd::prelude::*;

verus! {

/// The first position at or after `i` where `names` holds `key`, or
/// `names.len()` when there is none.
pub open spec fn first_match_at(names: Seq<Seq<char>>, key: Seq<char>, i: int) -> int
    decreases names.len() - i,
    when 0 <= i <= names.len()
{
    if i >= names.len() {
        i
    } else if names[i] == key {
        i
    } else {
        first_match_at(names, key, i + 1)
    }
}

/// The index a name resolves to: the first position holding `key`, or
/// `names.len()` when the name is not registered.
pub open spec fn first_match(names: Seq<Seq<char>>, key: Seq<char>) -> int {
    first_match_at(names, key, 0)
}

/// A prefix free of `key` can be skipped without changing the match.
pub proof fn lemma_first_match_skip(names: Seq<Seq<char>>, key: Seq<char>, i: int)
    requires
        0 <= i <= names.len(),
        forall|j: int| 0 <= j < i ==> names[j] != key,
    ensures
        first_match(names, key) == first_match_at(names, key, i),
    decreases i,
{
    if i > 0 {
        lemma_first_match_skip(names, key, i - 1);
    }
}

/// What the match index means: it is in bounds; when it is short of the
/// length it points at the first occurrence of `key`; when it equals the
/// length, `key` occurs nowhere.
pub proof fn lemma_first_match_props(names: Seq<Seq<char>>, key: Seq<char>)
    ensures
        0 <= first_match(names, key) <= names.len(),
        first_match(names, key) < names.len() ==> names[first_match(names, key)] == key,
        forall|j: int| 0 <= j < first_match(names, key) ==> names[j] != key,
{
    lemma_first_match_props_at(names, key, 0);
}

proof fn lemma_first_match_props_at(names: Seq<Seq<char>>, key: Seq<char>, i: int)
    requires
        0 <= i <= names.len(),
    ensures
        i <= first_match_at(names, key, i) <= names.len(),
        first_match_at(names, key, i) < names.len()
            ==> names[first_match_at(names, key, i)] == key,
        forall|j: int| i <= j < first_match_at(names, key, i) ==> names[j] != key,
    decreases names.len() - i,
{
    if i < names.len() && names[i] != key {
        lemma_first_match_props_at(names, key, i + 1);
    }
}

/// A name-keyed registry of texture handles, iterated in insertion order.
/// Loading a texture under an existing name replaces the handle in place;
/// a new name is appended.
pub struct TextureRegistry<T> {
    names: Vec<String>,
    handles: Vec<T>,
}

impl<T> TextureRegistry<T> {
    /// The registered names, in insertion order.
    pub closed spec fn keys(&self) -> Seq<Seq<char>> {
        self.names.deep_view()
    }

    /// The registered handles, positioned like their names.
    pub closed spec fn values(&self) -> Seq<T> {
        self.handles@
    }

    /// One handle per name, and few enough names that a resolved index
    /// fits `u32`.
    pub open spec fn wf(&self) -> bool {
        self.keys().len() == self.values().len() && self.keys().len() <= 0xFFFF_FFFF
    }

    /// An empty registry.
    pub fn new() -> (r: TextureRegistry<T>)
        ensures
            r.wf(),
            r.keys() == Seq::<Seq<char>>::empty(),
            r.values() == Seq::<T>::empty(),
    {
        TextureRegistry { names: Vec::new(), handles: Vec::new() }
    }

    /// The number of registered names.
    pub fn len(&self) -> (n: usize)
        requires
            self.wf(),
        ensures
            n == self.keys().len(),
    {
        self.names.len()
    }

    /// Resolves a name to its texture index: the position of the first
    /// matching name in insertion order, or `None` when the name is not
    /// registered.
    pub fn index_of(&self, name: &str) -> (r: Option<u32>)
        requires
            self.wf(),
        ensures
            match r {
                Some(i) => first_match(self.keys(), name@) == i as int
                    && (i as int) < self.keys().len(),
                None => first_match(self.keys(), name@) == self.keys().len(),
            },
    {
        let key: String = name.to_owned();
        let n: usize = self.names.len();
        let mut i: usize = 0;
        while i < n
            invariant
                n == self.keys().len(),
                n <= 0xFFFF_FFFF,
                i <= n,
                key@ == name@,
                forall|j: int| 0 <= j < i ==> self.keys()[j] != name@,
            decreases n - i,
        {
            if self.names[i] == key {
                proof {
                    lemma_first_match_skip(self.keys(), name@, i as int);
                }
                return Some(i as u32);
            }
            i = i + 1;
        }
        proof {
            lemma_first_match_skip(self.keys(), name@, n as int);
        }
        None
    }

    /// Whether a name is registered.
    pub fn contains(&self, name: &str) -> (b: bool)
        requires
            self.wf(),
        ensures
            b == (first_match(self.keys(), name@) < self.keys().len()),
    {
        self.index_of(name).is_some()
    }

    /// Stores `handle` under `name`. An already-registered name keeps its
    /// position — only its handle is replaced — so texture indices
    /// resolved in later batches stay stable; a new name is appended at
    /// the end of the insertion order.
    pub fn insert(&mut self, name: String, handle: T)
        requires
            old(self).wf(),
            old(self).keys().len() < 0xFFFF_FFFF,
        ensures
            final(self).wf(),
            ({
                let fm = first_match(old(self).keys(), name@);
                if fm < old(self).keys().len() {
                    final(self).keys() == old(self).keys()
                        && final(self).values() == old(self).values().update(fm, handle)
                } else {
                    final(self).keys() == old(self).keys().push(name@)
                        && final(self).values() == old(self).values().push(handle)
                }
            }),
    {
        let slot: Option<u32> = self.index_of(name.as_str());
        match slot {
            Some(i) => {
                self.handles.set(i as usize, handle);
            },
            None => {
                self.names.push(name);
                self.handles.push(handle);
                proof {
                    assert(self.keys() =~= old(self).keys().push(name@));
                }
            },
        }
    }

    /// The handle at a resolved index.
    pub fn get(&self, i: u32) -> (t: &T)
        requires
            self.wf(),
            (i as int) < self.values().len(),
        ensures
            *t == self.values()[i as int],
    {
        &self.handles[i as usize]
    }

    /// The registered names, in insertion order; a batch snapshots these
    /// at creation.
    pub fn names(&self) -> (v: &Vec<String>)
        ensures
            v.deep_view() == self.keys(),
    {
        &self.names
    }
}

} // verus!
