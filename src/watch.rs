//! The watch table: each watched path with the mask last registered for it.

use vstd::prelude::*;
use crate::flags::MaskFlags;

verus! {

/// The paths being watched, each with its mask.
pub struct WatchTable {
    paths: Vec<String>,
    masks: Vec<MaskFlags>,
    model: Ghost<Map<Seq<char>, MaskFlags>>,
}

impl View for WatchTable {
    type V = Map<Seq<char>, MaskFlags>;

    closed spec fn view(&self) -> Map<Seq<char>, MaskFlags> {
        self.model@
    }
}

impl WatchTable {
    /// The entries and the map agree, and no path stands twice.
    pub closed spec fn wf(&self) -> bool {
        &&& self.paths@.len() == self.masks@.len()
        &&& forall|i: int|
            0 <= i < self.paths@.len() ==> #[trigger] self.model@.contains_key(self.paths@[i]@)
                && self.model@[self.paths@[i]@] == self.masks@[i]
        &&& forall|k: Seq<char>|
            #[trigger] self.model@.contains_key(k) ==> exists|i: int|
                0 <= i < self.paths@.len() && #[trigger] self.paths@[i]@ == k
        &&& forall|i: int, j: int|
            0 <= i < self.paths@.len() && 0 <= j < self.paths@.len() && i != j ==> #[trigger] self.paths@[i]@
                != #[trigger] self.paths@[j]@
    }

    /// An empty table.
    pub fn new() -> (r: WatchTable)
        ensures
            r.wf(),
            r@ == Map::<Seq<char>, MaskFlags>::empty(),
    {
        WatchTable { paths: Vec::new(), masks: Vec::new(), model: Ghost(Map::empty()) }
    }

    /// Where `path` stands among the entries.
    fn find(&self, path: &String) -> (r: Option<usize>)
        requires
            self.wf(),
        ensures
            r is None <==> !self@.contains_key(path@),
            r matches Some(i) ==> i < self.paths@.len() && self.paths@[i as int]@ == path@,
    {
        let mut i: usize = 0;
        while i < self.paths.len()
            invariant
                self.wf(),
                i <= self.paths@.len(),
                forall|j: int| 0 <= j < i ==> self.paths@[j]@ != path@,
            decreases self.paths@.len() - i,
        {
            if self.paths[i] == *path {
                return Some(i);
            }
            i = i + 1;
        }
        proof {
            if self@.contains_key(path@) {
                let j = choose|j: int| 0 <= j < self.paths@.len() && #[trigger] self.paths@[j]@ == path@;
                assert(self.paths@[j]@ != path@);
            }
        }
        None
    }

    /// Number of watched paths.
    pub fn len(&self) -> (r: usize)
        requires
            self.wf(),
        ensures
            r == self@.len(),
    {
        proof {
            self.lemma_len();
        }
        self.paths.len()
    }

    proof fn lemma_len(&self)
        requires
            self.wf(),
        ensures
            self@.dom().finite(),
            self@.len() == self.paths@.len(),
    {
        let keys = self.paths@.map_values(|p: String| p@);
        assert(keys.to_set() =~= self@.dom()) by {
            assert forall|k: Seq<char>| self@.dom().contains(k) implies keys.to_set().contains(k) by {
                let i = choose|i: int| 0 <= i < self.paths@.len() && #[trigger] self.paths@[i]@ == k;
                assert(keys[i] == k);
            }
            assert forall|k: Seq<char>| keys.to_set().contains(k) implies self@.dom().contains(k) by {
                let i = choose|i: int| 0 <= i < keys.len() && keys[i] == k;
                assert(self.model@.contains_key(self.paths@[i]@));
            }
        }
        assert(keys.no_duplicates()) by {
            assert forall|i: int, j: int| 0 <= i < keys.len() && 0 <= j < keys.len() && i != j implies keys[i] != keys[j] by {
                assert(self.paths@[i]@ != self.paths@[j]@);
            }
        }
        keys.unique_seq_to_set();
    }

    /// Whether `path` is watched.
    pub fn contains(&self, path: &String) -> (r: bool)
        requires
            self.wf(),
        ensures
            r == self@.contains_key(path@),
    {
        self.find(path).is_some()
    }

    /// The mask registered for `path`, if it is watched.
    pub fn get(&self, path: &String) -> (r: Option<MaskFlags>)
        requires
            self.wf(),
        ensures
            r == (if self@.contains_key(path@) {
                Some(self@[path@])
            } else {
                None
            }),
    {
        match self.find(path) {
            Some(i) => Some(self.masks[i]),
            None => None,
        }
    }

    /// Records `mask` for `path`, in place of any earlier mask.
    pub fn insert(&mut self, path: String, mask: MaskFlags)
        requires
            old(self).wf(),
        ensures
            final(self).wf(),
            final(self)@ == old(self)@.insert(path@, mask),
    {
        let ghost k = path@;
        let ghost m = self.model@.insert(k, mask);
        match self.find(&path) {
            Some(i) => {
                self.masks.set(i, mask);
            },
            None => {
                self.paths.push(path);
                self.masks.push(mask);
            },
        }
        self.model = Ghost(m);
        assert forall|q: Seq<char>| #[trigger] self.model@.contains_key(q) implies exists|i: int|
            0 <= i < self.paths@.len() && #[trigger] self.paths@[i]@ == q by {
            if q == k {
                let n = self.paths@.len() - 1;
                if old(self)@.contains_key(k) {
                    let j = choose|j: int| 0 <= j < old(self).paths@.len() && #[trigger] old(self).paths@[j]@ == k;
                    assert(self.paths@[j]@ == q);
                } else {
                    assert(self.paths@[n]@ == q);
                }
            } else {
                let j = choose|j: int| 0 <= j < old(self).paths@.len() && #[trigger] old(self).paths@[j]@ == q;
                assert(self.paths@[j]@ == q);
            }
        }
    }

    /// Forgets `path`, if it was watched.
    pub fn remove(&mut self, path: &String)
        requires
            old(self).wf(),
        ensures
            final(self).wf(),
            final(self)@ == old(self)@.remove(path@),
    {
        let ghost k = path@;
        let ghost m = self.model@.remove(k);
        match self.find(path) {
            Some(i) => {
                let ghost op = self.paths@;
                let ghost om = self.masks@;
                let n = self.paths.len() - 1;
                self.paths.swap_remove(i);
                self.masks.swap_remove(i);
                self.model = Ghost(m);
                assert forall|j: int| 0 <= j < self.paths@.len() implies #[trigger] self.model@.contains_key(
                    self.paths@[j]@,
                ) && self.model@[self.paths@[j]@] == self.masks@[j] by {
                    let src = if j == i { n as int } else { j };
                    assert(self.paths@[j] == op[src]);
                    assert(self.masks@[j] == om[src]);
                    assert(src != i);
                    assert(op[src]@ != op[i as int]@);
                    assert(old(self).model@.contains_key(op[src]@));
                }
                assert forall|q: Seq<char>| #[trigger] self.model@.contains_key(q) implies exists|j: int|
                    0 <= j < self.paths@.len() && #[trigger] self.paths@[j]@ == q by {
                    let j = choose|j: int| 0 <= j < op.len() && #[trigger] op[j]@ == q;
                    assert(j != i);
                    if j == n {
                        assert(self.paths@[i as int]@ == q);
                    } else {
                        assert(self.paths@[j]@ == q);
                    }
                }
                assert forall|a: int, b: int|
                    0 <= a < self.paths@.len() && 0 <= b < self.paths@.len() && a != b implies #[trigger] self.paths@[a]@
                    != #[trigger] self.paths@[b]@ by {
                    let sa = if a == i { n as int } else { a };
                    let sb = if b == i { n as int } else { b };
                    assert(self.paths@[a] == op[sa]);
                    assert(self.paths@[b] == op[sb]);
                }
            },
            None => {
                assert(m =~= self.model@);
            },
        }
    }

    /// The watched paths with their masks, in no particular order.
    pub fn entries(&self) -> (r: Vec<(String, MaskFlags)>)
        requires
            self.wf(),
        ensures
            r@.len() == self@.len(),
            forall|i: int|
                0 <= i < r@.len() ==> #[trigger] self@.contains_key(r@[i].0@) && self@[r@[i].0@]
                    == r@[i].1,
            forall|k: Seq<char>|
                #[trigger] self@.contains_key(k) ==> exists|i: int| 0 <= i < r@.len() && #[trigger] r@[i].0@ == k,
    {
        proof {
            self.lemma_len();
        }
        let mut out: Vec<(String, MaskFlags)> = Vec::new();
        let mut i: usize = 0;
        while i < self.paths.len()
            invariant
                self.wf(),
                i <= self.paths@.len(),
                out@.len() == i,
                forall|j: int| 0 <= j < i ==> (#[trigger] out@[j]).0@ == self.paths@[j]@ && out@[j].1 == self.masks@[j],
            decreases self.paths@.len() - i,
        {
            out.push((self.paths[i].clone(), self.masks[i]));
            i = i + 1;
        }
        assert forall|k: Seq<char>| #[trigger] self@.contains_key(k) implies exists|j: int|
            0 <= j < out@.len() && #[trigger] out@[j].0@ == k by {
            let j = choose|j: int| 0 <= j < self.paths@.len() && #[trigger] self.paths@[j]@ == k;
            assert(out@[j].0@ == k);
        }
        out
    }
}

} // verus!
