use vstd::prelude::*;

verus! {

/// The texts of a sequence of strings, as a set.
pub open spec fn text_set(v: Seq<String>) -> Set<Seq<char>> {
    v.map_values(|s: String| s@).to_set()
}

/// The texts of a sequence of strings.
pub open spec fn texts(v: Seq<String>) -> Seq<Seq<char>> {
    v.map_values(|s: String| s@)
}

/// The texts of a list of strings, as a set, are exactly the texts of its
/// elements.
pub proof fn law_text_set(v: Seq<String>, x: Seq<char>)
    ensures
        text_set(v).contains(x) <==> exists|i: int| 0 <= i < v.len() && #[trigger] v[i]@ == x,
{
    if text_set(v).contains(x) {
        let i = choose|i: int| 0 <= i < texts(v).len() && texts(v)[i] == x;
        assert(v[i]@ == x);
    }
    if exists|i: int| 0 <= i < v.len() && #[trigger] v[i]@ == x {
        let i = choose|i: int| 0 <= i < v.len() && #[trigger] v[i]@ == x;
        assert(texts(v)[i] == x);
    }
}

/// A finite set of identifiers.
#[derive(Debug)]
pub struct IdSet {
    items: Vec<u128>,
}

impl View for IdSet {
    type V = Set<u128>;

    closed spec fn view(&self) -> Set<u128> {
        self.items@.to_set()
    }
}

impl Clone for IdSet {
    fn clone(&self) -> (r: Self)
        ensures
            r@ == self@,
    {
        IdSet { items: self.items.clone() }
    }
}

impl IdSet {
    /// The empty set.
    pub fn new() -> (r: IdSet)
        ensures
            r@ == Set::<u128>::empty(),
    {
        let r = IdSet { items: Vec::new() };
        assert(r@ =~= Set::<u128>::empty());
        r
    }

    /// The set of the identifiers in `v`.
    pub fn from_vec(v: Vec<u128>) -> (r: IdSet)
        ensures
            r@ == v@.to_set(),
    {
        IdSet { items: v }
    }

    /// Whether `x` is in the set.
    pub fn contains(&self, x: u128) -> (r: bool)
        ensures
            r == self@.contains(x),
    {
        let mut i: usize = 0;
        while i < self.items.len()
            invariant
                0 <= i <= self.items@.len(),
                forall|j: int| 0 <= j < i ==> self.items@[j] != x,
            decreases self.items.len() - i,
        {
            if self.items[i] == x {
                assert(self.items@.contains(x));
                return true;
            }
            i = i + 1;
        }
        assert(!self.items@.contains(x));
        false
    }

    /// Whether the set is empty.
    pub fn is_empty(&self) -> (r: bool)
        ensures
            r == (self@ == Set::<u128>::empty()),
    {
        if self.items.len() == 0 {
            assert(self@ =~= Set::<u128>::empty());
            true
        } else {
            assert(self@.contains(self.items@[0]));
            false
        }
    }

    /// Adds `x`.
    pub fn insert(&mut self, x: u128)
        ensures
            final(self)@ == old(self)@.insert(x),
    {
        if !self.contains(x) {
            proof {
                lemma_push_to_set(self.items@, x);
            }
            self.items.push(x);
        }
        assert(self@ =~= old(self)@.insert(x));
    }

    /// Removes `x`.
    pub fn remove(&mut self, x: u128)
        ensures
            final(self)@ == old(self)@.remove(x),
    {
        let mut kept: Vec<u128> = Vec::new();
        let mut i: usize = 0;
        while i < self.items.len()
            invariant
                0 <= i <= self.items@.len(),
                kept@.to_set() == self.items@.subrange(0, i as int).to_set().remove(x),
            decreases self.items.len() - i,
        {
            let y = self.items[i];
            proof {
                assert(self.items@.subrange(0, i + 1) =~= self.items@.subrange(0, i as int).push(y));
                lemma_push_to_set(self.items@.subrange(0, i as int), y);
                lemma_push_to_set(kept@, y);
            }
            if y != x {
                kept.push(y);
                assert(kept@.to_set() =~= self.items@.subrange(0, i + 1).to_set().remove(x));
            } else {
                assert(kept@.to_set() =~= self.items@.subrange(0, i + 1).to_set().remove(x));
            }
            i = i + 1;
        }
        assert(self.items@.subrange(0, self.items@.len() as int) =~= self.items@);
        self.items = kept;
    }

    /// Adds every identifier of `v`.
    pub fn extend(&mut self, v: &Vec<u128>)
        ensures
            final(self)@ == old(self)@.union(v@.to_set()),
    {
        let mut i: usize = 0;
        while i < v.len()
            invariant
                0 <= i <= v@.len(),
                self@ == old(self)@.union(v@.subrange(0, i as int).to_set()),
            decreases v.len() - i,
        {
            proof {
                assert(v@.subrange(0, i + 1) =~= v@.subrange(0, i as int).push(v@[i as int]));
                lemma_push_to_set(v@.subrange(0, i as int), v@[i as int]);
            }
            self.insert(v[i]);
            assert(self@ =~= old(self)@.union(v@.subrange(0, i + 1).to_set()));
            i = i + 1;
        }
        assert(v@.subrange(0, v@.len() as int) =~= v@);
    }

    /// Removes every identifier of `v`.
    pub fn retain_absent_from(&mut self, v: &Vec<u128>)
        ensures
            final(self)@ == old(self)@.difference(v@.to_set()),
    {
        let mut i: usize = 0;
        while i < v.len()
            invariant
                0 <= i <= v@.len(),
                self@ == old(self)@.difference(v@.subrange(0, i as int).to_set()),
            decreases v.len() - i,
        {
            proof {
                assert(v@.subrange(0, i + 1) =~= v@.subrange(0, i as int).push(v@[i as int]));
                lemma_push_to_set(v@.subrange(0, i as int), v@[i as int]);
            }
            self.remove(v[i]);
            assert(self@ =~= old(self)@.difference(v@.subrange(0, i + 1).to_set()));
            i = i + 1;
        }
        assert(v@.subrange(0, v@.len() as int) =~= v@);
    }

    /// The identifiers of the set, each once.
    pub fn to_vec(&self) -> (r: Vec<u128>)
        ensures
            r@.to_set() == self@,
            r@.no_duplicates(),
    {
        let mut out: Vec<u128> = Vec::new();
        let mut i: usize = 0;
        while i < self.items.len()
            invariant
                0 <= i <= self.items@.len(),
                out@.to_set() == self.items@.subrange(0, i as int).to_set(),
                out@.no_duplicates(),
            decreases self.items.len() - i,
        {
            let y = self.items[i];
            proof {
                assert(self.items@.subrange(0, i + 1) =~= self.items@.subrange(0, i as int).push(y));
                lemma_push_to_set(self.items@.subrange(0, i as int), y);
                lemma_push_to_set(out@, y);
            }
            let mut found = false;
            let mut k: usize = 0;
            while k < out.len()
                invariant
                    0 <= k <= out@.len(),
                    found == (exists|j: int| 0 <= j < k && out@[j] == y),
                decreases out.len() - k,
            {
                if out[k] == y {
                    found = true;
                }
                k = k + 1;
            }
            if !found {
                assert(!out@.contains(y));
                out.push(y);
            } else {
                assert(out@.contains(y));
            }
            assert(out@.to_set() =~= self.items@.subrange(0, i + 1).to_set());
            i = i + 1;
        }
        assert(self.items@.subrange(0, self.items@.len() as int) =~= self.items@);
        out
    }

    /// The identifiers of this set that are also in `other`.
    pub fn common_with(&self, other: &IdSet) -> (r: IdSet)
        ensures
            r@ == self@.intersect(other@),
    {
        self.selected(other, true)
    }

    /// The identifiers of this set that are not in `other`.
    pub fn absent_from(&self, other: &IdSet) -> (r: IdSet)
        ensures
            r@ == self@.difference(other@),
    {
        self.selected(other, false)
    }

    /// The identifiers of this set whose presence in `other` is `present`.
    fn selected(&self, other: &IdSet, present: bool) -> (r: IdSet)
        ensures
            r@ == self@.filter(|x: u128| other@.contains(x) == present),
    {
        let mut out = IdSet::new();
        let ghost keep = |x: u128| other@.contains(x) == present;
        let mut i: usize = 0;
        while i < self.items.len()
            invariant
                0 <= i <= self.items@.len(),
                keep == (|x: u128| other@.contains(x) == present),
                out@ == self.items@.subrange(0, i as int).to_set().filter(keep),
            decreases self.items.len() - i,
        {
            let y = self.items[i];
            proof {
                assert(self.items@.subrange(0, i + 1) =~= self.items@.subrange(0, i as int).push(y));
                lemma_push_to_set(self.items@.subrange(0, i as int), y);
            }
            if other.contains(y) == present {
                out.insert(y);
            }
            assert(out@ =~= self.items@.subrange(0, i + 1).to_set().filter(keep));
            i = i + 1;
        }
        assert(self.items@.subrange(0, self.items@.len() as int) =~= self.items@);
        out
    }


}

/// Pushing onto a sequence adds the element to its set.
pub proof fn lemma_push_to_set<T>(s: Seq<T>, x: T)
    ensures
        s.push(x).to_set() == s.to_set().insert(x),
{
    assert forall|y: T| s.push(x).to_set().contains(y) <==> s.to_set().insert(x).contains(y) by {
        if s.push(x).to_set().contains(y) {
            let j = choose|j: int| 0 <= j < s.push(x).len() && s.push(x)[j] == y;
            if j < s.len() {
                assert(s[j] == y);
            }
        }
        if s.to_set().contains(y) {
            let j = choose|j: int| 0 <= j < s.len() && s[j] == y;
            assert(s.push(x)[j] == y);
        }
        if y == x {
            assert(s.push(x)[s.len() as int] == x);
        }
    }
    assert(s.push(x).to_set() =~= s.to_set().insert(x));
}

} // verus!

verus! {

proof fn lemma_texts_push(s: Seq<String>, x: String)
    ensures
        texts(s.push(x)) == texts(s).push(x@),
        text_set(s.push(x)) == text_set(s).insert(x@),
{
    assert(texts(s.push(x)) =~= texts(s).push(x@));
    lemma_push_to_set(texts(s), x@);
}

proof fn lemma_texts_prefix(s: Seq<String>, i: int)
    requires
        0 <= i < s.len(),
    ensures
        text_set(s.subrange(0, i + 1)) == text_set(s.subrange(0, i)).insert(s[i]@),
{
    assert(s.subrange(0, i + 1) =~= s.subrange(0, i).push(s[i]));
    lemma_texts_push(s.subrange(0, i), s[i]);
}

/// A finite set of names (such as permission codes).
#[derive(Debug)]
pub struct NameSet {
    items: Vec<String>,
}

impl View for NameSet {
    type V = Set<Seq<char>>;

    closed spec fn view(&self) -> Set<Seq<char>> {
        text_set(self.items@)
    }
}

impl Clone for NameSet {
    fn clone(&self) -> (r: Self)
        ensures
            r@ == self@,
    {
        let mut items: Vec<String> = Vec::new();
        let mut i: usize = 0;
        while i < self.items.len()
            invariant
                0 <= i <= self.items@.len(),
                texts(items@) == texts(self.items@.subrange(0, i as int)),
            decreases self.items.len() - i,
        {
            proof {
                assert(self.items@.subrange(0, i + 1) =~= self.items@.subrange(0, i as int).push(
                    self.items@[i as int],
                ));
                lemma_texts_push(self.items@.subrange(0, i as int), self.items@[i as int]);
                lemma_texts_push(items@, self.items@[i as int]);
            }
            items.push(self.items[i].clone());
            i = i + 1;
        }
        assert(self.items@.subrange(0, self.items@.len() as int) =~= self.items@);
        NameSet { items }
    }
}

impl NameSet {
    /// The empty set.
    pub fn new() -> (r: NameSet)
        ensures
            r@ == Set::<Seq<char>>::empty(),
    {
        let r = NameSet { items: Vec::new() };
        assert(r@ =~= Set::<Seq<char>>::empty());
        r
    }

    /// The set of the names in `v`.
    pub fn from_vec(v: Vec<String>) -> (r: NameSet)
        ensures
            r@ == text_set(v@),
    {
        NameSet { items: v }
    }

    /// Whether `x` is in the set.
    pub fn contains(&self, x: &String) -> (r: bool)
        ensures
            r == self@.contains(x@),
    {
        let mut i: usize = 0;
        while i < self.items.len()
            invariant
                0 <= i <= self.items@.len(),
                forall|j: int| 0 <= j < i ==> self.items@[j]@ != x@,
            decreases self.items.len() - i,
        {
            if self.items[i] == *x {
                assert(texts(self.items@)[i as int] == x@);
                return true;
            }
            i = i + 1;
        }
        assert forall|j: int| 0 <= j < texts(self.items@).len() implies texts(self.items@)[j] != x@ by {
            assert(texts(self.items@)[j] == self.items@[j]@);
        }
        false
    }

    /// Whether the set is empty.
    pub fn is_empty(&self) -> (r: bool)
        ensures
            r == (self@ == Set::<Seq<char>>::empty()),
    {
        if self.items.len() == 0 {
            assert(self@ =~= Set::<Seq<char>>::empty());
            true
        } else {
            assert(texts(self.items@)[0] == self.items@[0]@);
            assert(self@.contains(self.items@[0]@));
            false
        }
    }

    /// Adds `x`.
    pub fn insert(&mut self, x: String)
        ensures
            final(self)@ == old(self)@.insert(x@),
    {
        if !self.contains(&x) {
            proof {
                lemma_texts_push(self.items@, x);
            }
            self.items.push(x);
        }
        assert(self@ =~= old(self)@.insert(x@));
    }

    /// Removes `x`.
    pub fn remove(&mut self, x: &String)
        ensures
            final(self)@ == old(self)@.remove(x@),
    {
        let mut kept: Vec<String> = Vec::new();
        let mut i: usize = 0;
        while i < self.items.len()
            invariant
                0 <= i <= self.items@.len(),
                text_set(kept@) == text_set(self.items@.subrange(0, i as int)).remove(x@),
            decreases self.items.len() - i,
        {
            let y = self.items[i].clone();
            proof {
                lemma_texts_prefix(self.items@, i as int);
                lemma_texts_push(kept@, y);
            }
            if y != *x {
                kept.push(y);
                assert(text_set(kept@) =~= text_set(self.items@.subrange(0, i + 1)).remove(x@));
            } else {
                assert(text_set(kept@) =~= text_set(self.items@.subrange(0, i + 1)).remove(x@));
            }
            i = i + 1;
        }
        assert(self.items@.subrange(0, self.items@.len() as int) =~= self.items@);
        self.items = kept;
    }

    /// Adds every name of `v`.
    pub fn extend(&mut self, v: &Vec<String>)
        ensures
            final(self)@ == old(self)@.union(text_set(v@)),
    {
        let mut i: usize = 0;
        while i < v.len()
            invariant
                0 <= i <= v@.len(),
                self@ == old(self)@.union(text_set(v@.subrange(0, i as int))),
            decreases v.len() - i,
        {
            proof {
                lemma_texts_prefix(v@, i as int);
            }
            self.insert(v[i].clone());
            assert(self@ =~= old(self)@.union(text_set(v@.subrange(0, i + 1))));
            i = i + 1;
        }
        assert(v@.subrange(0, v@.len() as int) =~= v@);
    }

    /// Removes every name of `v`.
    pub fn retain_absent_from(&mut self, v: &Vec<String>)
        ensures
            final(self)@ == old(self)@.difference(text_set(v@)),
    {
        let mut i: usize = 0;
        while i < v.len()
            invariant
                0 <= i <= v@.len(),
                self@ == old(self)@.difference(text_set(v@.subrange(0, i as int))),
            decreases v.len() - i,
        {
            proof {
                lemma_texts_prefix(v@, i as int);
            }
            self.remove(&v[i]);
            assert(self@ =~= old(self)@.difference(text_set(v@.subrange(0, i + 1))));
            i = i + 1;
        }
        assert(v@.subrange(0, v@.len() as int) =~= v@);
    }

    /// The names of the set, each once.
    pub fn to_vec(&self) -> (r: Vec<String>)
        ensures
            text_set(r@) == self@,
            texts(r@).no_duplicates(),
    {
        let mut out = NameSet { items: Vec::new() };
        assert(texts(out.items@) =~= Seq::<Seq<char>>::empty());
        assert(out@ =~= text_set(self.items@.subrange(0, 0)));
        let mut i: usize = 0;
        while i < self.items.len()
            invariant
                0 <= i <= self.items@.len(),
                out@ == text_set(self.items@.subrange(0, i as int)),
                texts(out.items@).no_duplicates(),
            decreases self.items.len() - i,
        {
            proof {
                lemma_texts_prefix(self.items@, i as int);
            }
            let y = self.items[i].clone();
            if !out.contains(&y) {
                proof {
                    lemma_texts_push(out.items@, y);
                    assert(!texts(out.items@).contains(y@));
                }
                out.items.push(y);
            }
            assert(out@ =~= text_set(self.items@.subrange(0, i + 1)));
            i = i + 1;
        }
        assert(self.items@.subrange(0, self.items@.len() as int) =~= self.items@);
        out.items
    }

    /// The names of this set that are also in `other`.
    pub fn common_with(&self, other: &NameSet) -> (r: NameSet)
        ensures
            r@ == self@.intersect(other@),
    {
        self.selected(other, true)
    }

    /// The names of this set that are not in `other`.
    pub fn absent_from(&self, other: &NameSet) -> (r: NameSet)
        ensures
            r@ == self@.difference(other@),
    {
        self.selected(other, false)
    }

    /// The names of this set whose presence in `other` is `present`.
    fn selected(&self, other: &NameSet, present: bool) -> (r: NameSet)
        ensures
            r@ == self@.filter(|x: Seq<char>| other@.contains(x) == present),
    {
        let mut out = NameSet::new();
        let ghost keep = |x: Seq<char>| other@.contains(x) == present;
        let mut i: usize = 0;
        while i < self.items.len()
            invariant
                0 <= i <= self.items@.len(),
                keep == (|x: Seq<char>| other@.contains(x) == present),
                out@ == text_set(self.items@.subrange(0, i as int)).filter(keep),
            decreases self.items.len() - i,
        {
            proof {
                lemma_texts_prefix(self.items@, i as int);
            }
            if other.contains(&self.items[i]) == present {
                out.insert(self.items[i].clone());
            }
            assert(out@ =~= text_set(self.items@.subrange(0, i + 1)).filter(keep));
            i = i + 1;
        }
        assert(self.items@.subrange(0, self.items@.len() as int) =~= self.items@);
        out
    }


}

} // verus!
