use vstd::prelude::*;
use vstd::std_specs::cmp::PartialEqSpecImpl;
use vstd::std_specs::convert::TryFromSpecImpl;

verus! {

/// What `std::path::Path::parent` gives for the path spelled `s`, as text,
/// under the Unix path syntax (`/` separates components) of the targets this
/// crate is built for.
pub uninterp spec fn path_parent_of(s: Seq<char>) -> Option<Seq<char>>;

/// Whether `std::path::Path`'s equality (component-wise) holds between the
/// paths spelled `a` and `b`, under the same Unix path syntax.
pub uninterp spec fn path_same(a: Seq<char>, b: Seq<char>) -> bool;

/// Calls `std::path::Path::parent` on the path spelled `s` and gives the
/// parent back as text. Claimed: the result is `path_parent_of(s)`, and a
/// parent (the path without its final component) is shorter than the path.
#[verifier::external_body]
fn path_parent(s: &str) -> (r: Option<String>)
    ensures
        r matches Some(p) ==> path_parent_of(s@) == Some(p@) && p@.len() < s@.len(),
        r is None ==> path_parent_of(s@) is None,
{
    match std::path::Path::new(s).parent() {
        Some(p) => Some(p.to_string_lossy().into_owned()),
        None => None,
    }
}

/// `a` and `b` have the same ancestors, position by position: each has a
/// chain of ancestors when the other has, the chains are equally long, and at
/// every position the two ancestors are `==` to the same paths.
pub open spec fn same_ancestors(a: Seq<char>, b: Seq<char>) -> bool {
    &&& forall|c1: Seq<Seq<char>>| #[trigger] ancestor_chain(a, c1) ==> exists|c2: Seq<Seq<char>>|
        #[trigger] ancestor_chain(b, c2)
    &&& forall|c1: Seq<Seq<char>>, c2: Seq<Seq<char>>|
        #[trigger] ancestor_chain(a, c1) && #[trigger] ancestor_chain(b, c2) ==> {
            &&& c1.len() == c2.len()
            &&& forall|i: int, x: Seq<char>|
                0 <= i < c1.len() ==> (#[trigger] path_same(c1[i], x) <==> #[trigger] path_same(c2[i], x))
        }
}

/// `a` and `b` have the same ancestors, and so has every ancestor of `a`
/// with every path it is `==` to.
pub open spec fn chains_agree(a: Seq<char>, b: Seq<char>) -> bool {
    &&& same_ancestors(a, b)
    &&& forall|c1: Seq<Seq<char>>, i: int, x: Seq<char>|
        #[trigger] ancestor_chain(a, c1) && 0 <= i < c1.len() && #[trigger] path_same(c1[i], x)
            ==> same_ancestors(c1[i], x)
}

/// Compares the paths spelled `a` and `b` with `std::path::Path`'s `==`.
/// Claimed: the result is `path_same(a, b)`; like every `Eq`, it is
/// reflexive and symmetric. `Path`'s `==` compares the components, and a
/// parent is the path with its last component removed, so paths found equal
/// have the same ancestors position by position, and so have their
/// ancestors with whatever is `==` to them (`chains_agree`).
#[verifier::external_body]
fn path_eq(a: &str, b: &str) -> (r: bool)
    ensures
        r == path_same(a@, b@),
        r == path_same(b@, a@),
        a@ == b@ ==> r,
        r ==> chains_agree(a@, b@) && chains_agree(b@, a@),
{
    std::path::Path::new(a) == std::path::Path::new(b)
}

/// `c` is the sequence of proper ancestors of `s`: its parent, the parent of
/// that, and so on until a path that has no parent.
pub open spec fn ancestor_chain(s: Seq<char>, c: Seq<Seq<char>>) -> bool {
    &&& (c.len() == 0 <==> path_parent_of(s) is None)
    &&& (c.len() > 0 ==> path_parent_of(s) == Some(c[0]))
    &&& (forall|i: int| 0 <= i < c.len() - 1 ==> path_parent_of(#[trigger] c[i]) == Some(c[i + 1]))
    &&& (c.len() > 0 ==> path_parent_of(c[c.len() - 1]) is None)
}

/// A path has at most one chain of ancestors.
pub proof fn lemma_ancestor_chain_unique(s: Seq<char>, c1: Seq<Seq<char>>, c2: Seq<Seq<char>>)
    requires
        ancestor_chain(s, c1),
        ancestor_chain(s, c2),
    ensures
        c1 == c2,
{
    if c1.len() > 0 && c2.len() > 0 {
        let m = if c1.len() < c2.len() { c1.len() } else { c2.len() };
        assert forall|i: int| 0 <= i < m implies c1[i] == c2[i] by {
            lemma_chain_prefix_agrees(s, c1, c2, i);
        }
        if c1.len() < c2.len() {
            let k = c1.len() - 1;
            assert(c1[k] == c2[k]);
            assert(path_parent_of(c2[k]) == Some(c2[k + 1]));
        } else if c2.len() < c1.len() {
            let k = c2.len() - 1;
            assert(c1[k] == c2[k]);
            assert(path_parent_of(c1[k]) == Some(c1[k + 1]));
        }
        assert(c1 =~= c2);
    }
}

proof fn lemma_chain_prefix_agrees(s: Seq<char>, c1: Seq<Seq<char>>, c2: Seq<Seq<char>>, i: int)
    requires
        ancestor_chain(s, c1),
        ancestor_chain(s, c2),
        0 <= i < c1.len(),
        i < c2.len(),
    ensures
        c1[i] == c2[i],
    decreases i,
{
    if i > 0 {
        lemma_chain_prefix_agrees(s, c1, c2, i - 1);
        assert(path_parent_of(c1[i - 1]) == Some(c1[i]));
        assert(path_parent_of(c2[i - 1]) == Some(c2[i]));
    }
}

/// The ancestors of the `i`-th ancestor of `s` are the ancestors of `s` that
/// come after it.
proof fn lemma_chain_suffix(s: Seq<char>, c: Seq<Seq<char>>, i: int)
    requires
        ancestor_chain(s, c),
        0 <= i < c.len(),
    ensures
        ancestor_chain(c[i], c.subrange(i + 1, c.len() as int)),
{
    let d = c.subrange(i + 1, c.len() as int);
    if d.len() > 0 {
        assert(path_parent_of(c[i]) == Some(c[i + 1]));
        assert(d[0] == c[i + 1]);
        assert(d[d.len() - 1] == c[c.len() - 1]);
    } else {
        assert(i == c.len() - 1);
    }
    assert forall|k: int| 0 <= k < d.len() - 1 implies path_parent_of(#[trigger] d[k]) == Some(
        d[k + 1],
    ) by {
        assert(d[k] == c[i + 1 + k]);
        assert(d[k + 1] == c[i + 1 + k + 1]);
    }
}

/// `a.is_parent_of(b)`: the parent of `a` is the path `b`.
pub open spec fn spec_is_parent_of(a: Seq<char>, b: Seq<char>) -> bool {
    match path_parent_of(a) {
        Some(p) => path_same(p, b),
        None => false,
    }
}

/// `a.is_ancestor_of(b)`: some proper ancestor of `b` is the path `a`.
pub open spec fn spec_is_ancestor_of(a: Seq<char>, b: Seq<char>) -> bool {
    forall|c: Seq<Seq<char>>|
        #[trigger] ancestor_chain(b, c) ==> exists|i: int| 0 <= i < c.len() && path_same(#[trigger] c[i], a)
}

/// The texts of a sequence of paths.
pub open spec fn path_texts(v: Seq<TaxonomyPath>) -> Seq<Seq<char>> {
    v.map_values(|p: TaxonomyPath| p@)
}

/// Why a text was refused as a taxonomy path.
#[derive(Debug, Clone, Copy, PartialEq, Eq, Structural)]
pub enum PathError {
    /// The text is empty.
    Empty,
}

/// A slash-separated position in the taxonomy tree, such as `tech/rust`.
#[derive(Debug)]
pub struct TaxonomyPath(String);

impl View for TaxonomyPath {
    type V = Seq<char>;

    closed spec fn view(&self) -> Seq<char> {
        self.0@
    }
}

impl Clone for TaxonomyPath {
    fn clone(&self) -> (r: Self)
        ensures
            r@ == self@,
    {
        TaxonomyPath(self.0.clone())
    }
}

impl PartialEq for TaxonomyPath {
    fn eq(&self, other: &Self) -> (r: bool) {
        path_eq(self.0.as_str(), other.0.as_str())
    }
}

impl PartialEqSpecImpl for TaxonomyPath {
    open spec fn obeys_eq_spec() -> bool {
        true
    }

    open spec fn eq_spec(&self, other: &Self) -> bool {
        path_same(self@, other@)
    }
}

impl Eq for TaxonomyPath {}

impl TaxonomyPath {
    /// The path spelled `path`.
    pub fn new(path: String) -> (r: TaxonomyPath)
        ensures
            r@ == path@,
    {
        TaxonomyPath(path)
    }

    /// The text of the path.
    pub fn into_inner(self) -> (r: String)
        ensures
            r@ == self@,
    {
        self.0
    }

    /// The text of the path, borrowed.
    pub fn as_path(&self) -> (r: &str)
        ensures
            r@ == self@,
    {
        self.0.as_str()
    }

    /// The path as it is displayed.
    pub fn to_string(&self) -> (r: String)
        ensures
            r@ == self@,
    {
        self.0.clone()
    }

    /// Whether the path is the empty path.
    pub fn is_empty(&self) -> (r: bool)
        ensures
            r == (self@.len() == 0),
    {
        self.0.as_str().is_empty()
    }

    /// The path without its final component, if there is one.
    pub fn parent(&self) -> (r: Option<TaxonomyPath>)
        ensures
            r matches Some(p) ==> path_parent_of(self@) == Some(p@),
            r is None ==> path_parent_of(self@) is None,
    {
        match path_parent(self.0.as_str()) {
            Some(p) => Some(TaxonomyPath(p)),
            None => None,
        }
    }

    /// The proper ancestors of the path, nearest first.
    pub fn ancestors(&self) -> (r: Vec<TaxonomyPath>)
        ensures
            ancestor_chain(self@, path_texts(r@)),
    {
        let mut out: Vec<TaxonomyPath> = Vec::new();
        let mut cur = path_parent(self.0.as_str());
        let ghost mut last: Seq<char> = self@;
        while cur.is_some()
            invariant
                out@.len() == 0 ==> last == self@,
                out@.len() > 0 ==> last == out@[out@.len() - 1]@,
                out@.len() > 0 ==> path_parent_of(self@) == Some(out@[0]@),
                forall|i: int|
                    0 <= i < out@.len() - 1 ==> path_parent_of(#[trigger] out@[i]@) == Some(
                        out@[i + 1]@,
                    ),
                cur matches Some(p) ==> path_parent_of(last) == Some(p@) && p@.len() < last.len(),
                cur is None ==> path_parent_of(last) is None,
            decreases
                match cur {
                    Some(p) => p@.len() + 1,
                    None => 0,
                },
        {
            let p = cur.unwrap();
            let next = path_parent(p.as_str());
            proof {
                last = p@;
            }
            out.push(TaxonomyPath(p));
            cur = next;
        }
        proof {
            let c = path_texts(out@);
            assert(c.len() == out@.len());
            if c.len() > 0 {
                assert(c[0] == out@[0]@);
                assert(c[c.len() - 1] == out@[out@.len() - 1]@);
            }
            assert forall|i: int| 0 <= i < c.len() - 1 implies path_parent_of(#[trigger] c[i]) == Some(
                c[i + 1],
            ) by {
                assert(c[i] == out@[i]@);
                assert(c[i + 1] == out@[i + 1]@);
            }
        }
        out
    }

    /// Whether the parent of this path is `other`.
    pub fn is_parent_of(&self, other: &TaxonomyPath) -> (r: bool)
        ensures
            r == spec_is_parent_of(self@, other@),
    {
        match self.parent() {
            Some(parent) => path_eq(parent.0.as_str(), other.0.as_str()),
            None => false,
        }
    }

    /// Whether this path is a proper ancestor of `other`. No path is its own
    /// ancestor, and what is an ancestor of this path is one of `other` too.
    pub fn is_ancestor_of(&self, other: &TaxonomyPath) -> (r: bool)
        ensures
            r == spec_is_ancestor_of(self@, other@),
            self@ == other@ ==> !r,
            r ==> forall|x: Seq<char>|
                spec_is_ancestor_of(x, self@) ==> #[trigger] spec_is_ancestor_of(x, other@),
            r ==> !spec_is_ancestor_of(other@, self@),
    {
        let chain = other.ancestors();
        let ghost c = path_texts(chain@);
        let mut i: usize = 0;
        while i < chain.len()
            invariant
                c == path_texts(chain@),
                ancestor_chain(other@, c),
                0 <= i <= chain@.len(),
                forall|j: int| 0 <= j < i ==> !path_same(#[trigger] c[j], self@),
            decreases chain.len() - i,
        {
            if path_eq(chain[i].0.as_str(), self.0.as_str()) {
                proof {
                    assert(c[i as int] == chain@[i as int]@);
                    assert forall|c2: Seq<Seq<char>>| #[trigger] ancestor_chain(other@, c2) implies exists|k: int|
                        0 <= k < c2.len() && path_same(#[trigger] c2[k], self@) by {
                        lemma_ancestor_chain_unique(other@, c, c2);
                        assert(path_same(c2[i as int], self@));
                    }
                    let above = c.subrange(i + 1, c.len() as int);
                    lemma_chain_suffix(other@, c, i as int);
                    assert(chains_agree(c[i as int], self@));
                    let d = choose|d: Seq<Seq<char>>| #[trigger] ancestor_chain(self@, d);
                    assert(ancestor_chain(self@, d));
                    assert(above.len() == d.len());
                    if self@ == other@ {
                        lemma_ancestor_chain_unique(other@, c, d);
                        assert(false);
                    }
                    if spec_is_ancestor_of(other@, self@) {
                        let j = choose|j: int| 0 <= j < d.len() && path_same(#[trigger] d[j], other@);
                        assert(above[j] == c[i + 1 + j]);
                        assert(path_same(above[j], other@));
                        lemma_chain_suffix(c[i as int], above, j);
                        let up = above.subrange(j + 1, above.len() as int);
                        assert(same_ancestors(above[j], other@));
                        assert(up.len() != c.len());
                        assert(false);
                    }
                    assert forall|x: Seq<char>| spec_is_ancestor_of(x, self@) implies #[trigger] spec_is_ancestor_of(
                        x,
                        other@,
                    ) by {
                        let j = choose|j: int| 0 <= j < d.len() && path_same(#[trigger] d[j], x);
                        assert(above[j] == c[i + 1 + j]);
                        assert(path_same(above[j], x));
                        assert forall|c2: Seq<Seq<char>>| #[trigger] ancestor_chain(other@, c2) implies exists|k: int|
                            0 <= k < c2.len() && path_same(#[trigger] c2[k], x) by {
                            lemma_ancestor_chain_unique(other@, c, c2);
                            assert(path_same(c2[i + 1 + j], x));
                        }
                    }
                }
                return true;
            }
            proof {
                assert(c[i as int] == chain@[i as int]@);
            }
            i = i + 1;
        }
        proof {
            assert(ancestor_chain(other@, c));
            assert(!(exists|k: int| 0 <= k < c.len() && path_same(#[trigger] c[k], self@)));
        }
        false
    }

    /// Whether `other` is the parent of this path.
    pub fn is_child_of(&self, other: &TaxonomyPath) -> (r: bool)
        ensures
            r == spec_is_parent_of(other@, self@),
    {
        other.is_parent_of(self)
    }

    /// Whether `other` is a proper ancestor of this path.
    pub fn is_descendant_of(&self, other: &TaxonomyPath) -> (r: bool)
        ensures
            r == spec_is_ancestor_of(other@, self@),
    {
        other.is_ancestor_of(self)
    }
}

impl TryFrom<String> for TaxonomyPath {
    type Error = PathError;

    fn try_from(value: String) -> (r: Result<TaxonomyPath, PathError>)
        ensures
            value@.len() == 0 ==> r == Err::<TaxonomyPath, PathError>(PathError::Empty),
            value@.len() > 0 ==> (r matches Ok(p) && p@ == value@),
    {
        if value.as_str().is_empty() {
            return Err(PathError::Empty);
        }
        Ok(TaxonomyPath(value))
    }
}

impl TryFromSpecImpl<String> for TaxonomyPath {
    open spec fn obeys_try_from_spec() -> bool {
        true
    }

    closed spec fn try_from_spec(v: String) -> Result<TaxonomyPath, PathError> {
        if v@.len() == 0 {
            Err(PathError::Empty)
        } else {
            Ok(TaxonomyPath(v))
        }
    }
}

/// When `b` is the parent of `a`, `b` is an ancestor of `a`: `a.is_parent_of(b)`
/// implies `b.is_ancestor_of(a)`, that is `a.is_descendant_of(b)`.
pub proof fn law_parent_is_ancestor(a: Seq<char>, b: Seq<char>)
    requires
        spec_is_parent_of(a, b),
    ensures
        spec_is_ancestor_of(b, a),
{
    assert forall|c: Seq<Seq<char>>| #[trigger] ancestor_chain(a, c) implies exists|i: int|
        0 <= i < c.len() && path_same(#[trigger] c[i], b) by {
        assert(c.len() > 0);
        assert(path_same(c[0], b));
    }
}

/// A path without a parent has no ancestors and is no one's child.
pub proof fn law_root_has_no_ancestor(a: Seq<char>, b: Seq<char>)
    requires
        path_parent_of(a) is None,
    ensures
        !spec_is_parent_of(a, b),
        !spec_is_ancestor_of(b, a),
{
    let c = Seq::<Seq<char>>::empty();
    assert(ancestor_chain(a, c));
}

} // verus!
