//! Shared texture resources and the string-keyed lookup tables the resolver
//! reads: the path-to-texture-key table and the texture cache.
use vstd::prelude::*;
use std::rc::Rc;

verus! {

use crate::text::chars_of;
use crate::text::char_vecs_eq;

/// A decoded texture resource, ready to bind: dimensions and the identifier
/// the host's texture decoder assigned. Draw objects share it by reference
/// counting; nothing copies pixel data per object.
pub struct Texture {
    pub id: u64,
    pub width: u32,
    pub height: u32,
}

/// Relies on std's `Rc::clone`: the returned handle refers to the same
/// allocation as the argument, so it carries the same value.
#[verifier::external_body]
pub fn clone_texture(t: &Rc<Texture>) -> (r: Rc<Texture>)
    ensures
        r == *t,
{
    Rc::clone(t)
}

/// A lookup table keyed by strings, held as character vectors and abstracted
/// as the map from key characters to values.
pub struct KeyMap<V> {
    keys: Vec<Vec<char>>,
    vals: Vec<V>,
}

impl<V> View for KeyMap<V> {
    type V = Map<Seq<char>, V>;

    closed spec fn view(&self) -> Map<Seq<char>, V> {
        Map::new(
            |k: Seq<char>| self.contains_spec(k),
            |k: Seq<char>| self.vals@[self.index_of(k)],
        )
    }
}

impl<V> KeyMap<V> {
    /// The keys are as many as the values and pairwise distinct.
    pub closed spec fn wf(self) -> bool {
        &&& self.keys@.len() == self.vals@.len()
        &&& forall|i: int, j: int|
            0 <= i < j < self.keys@.len() ==> self.keys@[i]@ != self.keys@[j]@
    }

    pub closed spec fn contains_spec(self, k: Seq<char>) -> bool {
        exists|i: int| 0 <= i < self.keys@.len() && self.keys@[i]@ == k
    }

    pub closed spec fn index_of(self, k: Seq<char>) -> int {
        choose|i: int| 0 <= i < self.keys@.len() && self.keys@[i]@ == k
    }

    /// An empty table.
    pub fn new() -> (r: Self)
        ensures
            r.wf(),
            r@ == Map::<Seq<char>, V>::empty(),
    {
        let r = KeyMap { keys: Vec::<Vec<char>>::new(), vals: Vec::<V>::new() };
        proof {
            assert(r@ =~= Map::<Seq<char>, V>::empty());
        }
        r
    }

    /// The position of key `k`, if it is present.
    fn find(&self, k: &Vec<char>) -> (r: Option<usize>)
        requires
            self.wf(),
        ensures
            match r {
                Some(i) => i < self.keys@.len() && self.keys@[i as int]@ == k@ && self.index_of(
                    k@,
                ) == i && self.contains_spec(k@),
                None => !self.contains_spec(k@),
            },
    {
        let mut i: usize = 0;
        while i < self.keys.len()
            invariant
                self.wf(),
                i <= self.keys@.len(),
                forall|j: int| 0 <= j < i ==> self.keys@[j]@ != k@,
            decreases self.keys@.len() - i,
        {
            if char_vecs_eq(&self.keys[i], k) {
                proof {
                    assert(self.contains_spec(k@));
                    let w = self.index_of(k@);
                    assert(0 <= w < self.keys@.len() && self.keys@[w]@ == k@);
                    if w < i as int {
                        assert(false);
                    } else if w > i as int {
                        assert(self.keys@[i as int]@ != self.keys@[w]@);
                        assert(false);
                    }
                }
                return Some(i);
            }
            i = i + 1;
        }
        proof {
            if self.contains_spec(k@) {
                let w = self.index_of(k@);
                assert(self.keys@[w]@ != k@);
                assert(false);
            }
        }
        None
    }

    /// The value at key `k`, if any.
    pub fn get(&self, k: &Vec<char>) -> (r: Option<&V>)
        requires
            self.wf(),
        ensures
            match r {
                Some(v) => self@.contains_key(k@) && *v == self@[k@],
                None => !self@.contains_key(k@),
            },
    {
        match self.find(k) {
            Some(i) => Some(&self.vals[i]),
            None => None,
        }
    }

    /// The value at the string key `k`, if any.
    pub fn get_str(&self, k: &str) -> (r: Option<&V>)
        requires
            self.wf(),
        ensures
            match r {
                Some(v) => self@.contains_key(k@) && *v == self@[k@],
                None => !self@.contains_key(k@),
            },
    {
        let kc = chars_of(k);
        self.get(&kc)
    }

    /// Binds the string key `k` to `v`, replacing any previous value at it.
    pub fn insert(&mut self, k: String, v: V)
        requires
            old(self).wf(),
        ensures
            final(self).wf(),
            final(self)@ == old(self)@.insert(k@, v),
    {
        let kc = chars_of(k.as_str());
        match self.find(&kc) {
            Some(i) => {
                self.vals[i] = v;
                proof {
                    assert(final(self).wf());
                    assert forall|k2: Seq<char>| final(self).contains_spec(k2) == old(self).contains_spec(k2) by {}
                    assert forall|k2: Seq<char>|
                        final(self).contains_spec(k2) && k2 != k@ implies final(self)@[k2] == old(self)@[k2] by {
                        let w = final(self).index_of(k2);
                        assert(0 <= w < final(self).keys@.len() && final(self).keys@[w]@ == k2);
                        assert(old(self).index_of(k2) == w);
                        assert(w != i as int);
                    }
                    assert(final(self).index_of(k@) == i as int);
                    assert(final(self)@[k@] == v);
                    assert(final(self)@ =~= old(self)@.insert(k@, v));
                }
            },
            None => {
                let ghost prev = *self;
                self.keys.push(kc);
                self.vals.push(v);
                proof {
                    assert forall|i: int, j: int|
                        0 <= i < j < final(self).keys@.len() implies final(self).keys@[i]@ != final(self).keys@[j]@ by {
                        if j == final(self).keys@.len() - 1 {
                            assert(final(self).keys@[j]@ == k@);
                            assert(prev.keys@[i]@ == final(self).keys@[i]@);
                            if final(self).keys@[i]@ == k@ {
                                assert(prev.contains_spec(k@));
                                assert(false);
                            }
                        }
                    }
                    assert(final(self).wf());
                    let n = prev.keys@.len() as int;
                    assert(final(self).keys@[n]@ == k@);
                    assert(final(self).contains_spec(k@));
                    assert forall|k2: Seq<char>| k2 != k@ implies final(self).contains_spec(k2)
                        == prev.contains_spec(k2) by {
                        if final(self).contains_spec(k2) {
                            let w = choose|w: int|
                                0 <= w < final(self).keys@.len() && final(self).keys@[w]@ == k2;
                            assert(w != n);
                            assert(prev.keys@[w]@ == k2);
                        }
                        if prev.contains_spec(k2) {
                            let w = choose|w: int| 0 <= w < prev.keys@.len() && prev.keys@[w]@ == k2;
                            assert(final(self).keys@[w]@ == k2);
                        }
                    }
                    assert forall|k2: Seq<char>|
                        final(self).contains_spec(k2) && k2 != k@ implies final(self)@[k2]
                        == prev@[k2] by {
                        let w = final(self).index_of(k2);
                        assert(0 <= w < final(self).keys@.len() && final(self).keys@[w]@ == k2);
                        assert(w != n);
                        assert(prev.keys@[w]@ == k2);
                        assert(prev.index_of(k2) == w);
                    }
                    assert(final(self).index_of(k@) == n);
                    assert(final(self)@[k@] == v);
                    assert(final(self)@ =~= prev@.insert(k@, v));
                }
            },
        }
    }

}

} // verus!
