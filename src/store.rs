//! An in-memory key store of short links.

use vstd::prelude::*;
use crate::models::{Link, LinkView};

verus! {

/// Short links keyed by code, held in memory.
///
/// Records stay until the process ends; expiry is decided when a record is
/// resolved. Claiming a code is a single step, so the first claim of a code
/// wins and a later one is refused.
pub struct MemoryStore {
    links: Vec<Link>,
}

impl MemoryStore {
    /// No two records share a code.
    pub closed spec fn wf(&self) -> bool {
        forall|i: int, j: int|
            #![trigger self.links@[i], self.links@[j]]
            0 <= i < j < self.links@.len() ==> self.links@[i].short_code@
                != self.links@[j].short_code@
    }

    /// Some record carries the code `c`.
    closed spec fn has(&self, c: Seq<char>) -> bool {
        exists|i: int| 0 <= i < self.links@.len() && #[trigger] self.links@[i].short_code@ == c
    }

    /// The position of the record that carries `c`.
    closed spec fn index_of(&self, c: Seq<char>) -> int {
        choose|i: int| 0 <= i < self.links@.len() && #[trigger] self.links@[i].short_code@ == c
    }

    /// How many records the store holds.
    pub closed spec fn size(&self) -> nat {
        self.links@.len()
    }

    proof fn lemma_index(&self, c: Seq<char>, i: int)
        requires
            self.wf(),
            0 <= i < self.links@.len(),
            self.links@[i].short_code@ == c,
        ensures
            self.has(c),
            self.index_of(c) == i,
    {
        let j = self.index_of(c);
        assert(self.links@[j].short_code@ == c);
        if j < i {
            assert(self.links@[j].short_code@ != self.links@[i].short_code@);
        } else if i < j {
            assert(self.links@[i].short_code@ != self.links@[j].short_code@);
        }
    }

    /// An empty store.
    pub fn new() -> (r: MemoryStore)
        ensures
            r.wf(),
            r@ == Map::<Seq<char>, LinkView>::empty(),
            r.size() == 0,
    {
        let r = MemoryStore { links: Vec::new() };
        assert(r@ =~= Map::<Seq<char>, LinkView>::empty());
        r
    }

    /// How many records the store holds.
    pub fn len(&self) -> (r: usize)
        ensures
            r == self.size(),
    {
        self.links.len()
    }

    fn find(&self, code: &String) -> (r: Option<usize>)
        requires
            self.wf(),
        ensures
            match r {
                Some(i) => i < self.links@.len() && self.links@[i as int].short_code@ == code@
                    && self.index_of(code@) == i,
                None => !self.has(code@),
            },
    {
        let mut i: usize = 0;
        while i < self.links.len()
            invariant
                self.wf(),
                i <= self.links@.len(),
                forall|j: int| 0 <= j < i ==> #[trigger] self.links@[j].short_code@ != code@,
            decreases self.links@.len() - i,
        {
            if self.links[i].short_code == *code {
                proof {
                    self.lemma_index(code@, i as int);
                }
                return Some(i);
            }
            i += 1;
        }
        None
    }

    /// Whether a record carries `code`.
    pub fn contains(&self, code: &String) -> (r: bool)
        requires
            self.wf(),
        ensures
            r == self@.contains_key(code@),
    {
        self.find(code).is_some()
    }

    /// A copy of the record that carries `code`, if any.
    pub fn get(&self, code: &String) -> (r: Option<Link>)
        requires
            self.wf(),
        ensures
            match r {
                Some(l) => self@.contains_key(code@) && l@ == self@[code@] && l.short_code@
                    == code@,
                None => !self@.contains_key(code@),
            },
    {
        match self.find(code) {
            Some(i) => Some(self.links[i].duplicate()),
            None => None,
        }
    }

    /// Claims the code of `link` for it: stores it when no record carries
    /// that code yet and reports whether it did.
    pub fn insert_if_absent(&mut self, link: Link) -> (r: bool)
        requires
            old(self).wf(),
        ensures
            final(self).wf(),
            r == !old(self)@.contains_key(link.short_code@),
            r ==> final(self)@ == old(self)@.insert(link.short_code@, link@),
            r ==> final(self).size() == old(self).size() + 1,
            !r ==> final(self)@ == old(self)@,
            !r ==> final(self).size() == old(self).size(),
    {
        if self.find(&link.short_code).is_some() {
            return false;
        }
        let ghost before = *self;
        let ghost code = link.short_code@;
        let ghost v = link@;
        let ghost n = self.links@.len() as int;
        self.links.push(link);
        proof {
            assert forall|i: int, j: int|
                #![trigger self.links@[i], self.links@[j]]
                0 <= i < j < self.links@.len() implies self.links@[i].short_code@
                != self.links@[j].short_code@ by {
                if j == n {
                    assert(self.links@[i] == before.links@[i]);
                    if self.links@[i].short_code@ == code {
                        assert(before.has(code));
                    }
                } else {
                    assert(self.links@[i] == before.links@[i]);
                    assert(self.links@[j] == before.links@[j]);
                }
            }
            assert forall|c: Seq<char>| self.has(c) == (before.has(c) || c == code) by {
                if self.has(c) {
                    let i = choose|i: int|
                        0 <= i < self.links@.len() && #[trigger] self.links@[i].short_code@ == c;
                    if i < n {
                        assert(before.links@[i] == self.links@[i]);
                    }
                }
                if before.has(c) {
                    let i = choose|i: int|
                        0 <= i < before.links@.len() && #[trigger] before.links@[i].short_code@
                            == c;
                    assert(self.links@[i] == before.links@[i]);
                }
                if c == code {
                    assert(self.links@[n].short_code@ == c);
                }
            }
            assert forall|c: Seq<char>| #[trigger] self.has(c) implies self.links@[self.index_of(
                c,
            )]@ == before@.insert(code, v)[c] by {
                if c == code {
                    self.lemma_index(c, n);
                } else {
                    let i = before.index_of(c);
                    assert(before.links@[i].short_code@ == c);
                    assert(self.links@[i] == before.links@[i]);
                    self.lemma_index(c, i);
                }
            }
            assert(self@ =~= before@.insert(code, v));
        }
        true
    }

    /// Puts `link` in place of the record that carries the same code.
    pub(crate) fn replace(&mut self, link: Link)
        requires
            old(self).wf(),
            old(self)@.contains_key(link.short_code@),
        ensures
            final(self).wf(),
            final(self)@ == old(self)@.insert(link.short_code@, link@),
            final(self).size() == old(self).size(),
    {
        let i = self.find(&link.short_code).unwrap();
        let ghost before = *self;
        let ghost code = link.short_code@;
        let ghost v = link@;
        self.links.set(i, link);
        proof {
            assert forall|a: int, b: int|
                #![trigger self.links@[a], self.links@[b]]
                0 <= a < b < self.links@.len() implies self.links@[a].short_code@
                != self.links@[b].short_code@ by {
                assert(self.links@[a].short_code@ == before.links@[a].short_code@);
                assert(self.links@[b].short_code@ == before.links@[b].short_code@);
            }
            assert forall|c: Seq<char>| self.has(c) == before.has(c) by {
                if self.has(c) {
                    let k = choose|k: int|
                        0 <= k < self.links@.len() && #[trigger] self.links@[k].short_code@ == c;
                    assert(before.links@[k].short_code@ == c);
                }
                if before.has(c) {
                    let k = choose|k: int|
                        0 <= k < before.links@.len() && #[trigger] before.links@[k].short_code@
                            == c;
                    assert(self.links@[k].short_code@ == c);
                }
            }
            assert forall|c: Seq<char>| #[trigger] self.has(c) implies self.links@[self.index_of(
                c,
            )]@ == before@.insert(code, v)[c] by {
                if c == code {
                    self.lemma_index(c, i as int);
                } else {
                    let k = before.index_of(c);
                    assert(before.links@[k].short_code@ == c);
                    assert(self.links@[k] == before.links@[k]);
                    self.lemma_index(c, k);
                }
            }
            assert(self@ =~= before@.insert(code, v));
        }
    }
}

impl View for MemoryStore {
    type V = Map<Seq<char>, LinkView>;

    closed spec fn view(&self) -> Map<Seq<char>, LinkView> {
        Map::new(|c: Seq<char>| self.has(c), |c: Seq<char>| self.links@[self.index_of(c)]@)
    }
}

} // verus!
