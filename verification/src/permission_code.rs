use vstd::prelude::*;
use vstd::std_specs::cmp::PartialEqSpecImpl;
use vstd::string::*;

verus! {

/// Characters allowed inside one segment of a permission code.
pub open spec fn is_code_char(c: char) -> bool {
    ('a' <= c && c <= 'z') || ('A' <= c && c <= 'Z') || c == '_'
}

/// The segment that ends at position `i` (at a '.' or at the end of the
/// code) is empty.
pub open spec fn empty_segment_at(s: Seq<char>, i: int) -> bool {
    &&& 0 <= i <= s.len()
    &&& (i == s.len() || s[i] == '.')
    &&& (i == 0 || s[i - 1] == '.')
}

/// Position `i` holds a character that no segment may contain.
pub open spec fn bad_char_at(s: Seq<char>, i: int) -> bool {
    &&& 0 <= i < s.len()
    &&& s[i] != '.'
    &&& !is_code_char(s[i])
}

/// Position `i` is where a scan of the segments, in order, first notices
/// a defect.
pub open spec fn fault_at(s: Seq<char>, i: int) -> bool {
    empty_segment_at(s, i) || bad_char_at(s, i)
}

/// No position before `i` is a fault.
pub open spec fn clean_before(s: Seq<char>, i: int) -> bool {
    forall|j: int| 0 <= j < i ==> !fault_at(s, j)
}

/// A code is valid when it is non-empty and every '.'-separated segment is a
/// non-empty run of ASCII letters and underscores.
pub open spec fn valid_code(s: Seq<char>) -> bool {
    s.len() > 0 && clean_before(s, s.len() + 1int)
}

/// `s[a..b]` is one whole segment: it starts at the beginning of the code or
/// after a '.', ends at the end of the code or at a '.', and holds no '.'.
pub open spec fn segment_span(s: Seq<char>, a: int, b: int) -> bool {
    &&& 0 <= a <= b <= s.len()
    &&& (a == 0 || s[a - 1] == '.')
    &&& (b == s.len() || s[b] == '.')
    &&& forall|k: int| a <= k < b ==> s[k] != '.'
}

/// Why a permission code was refused.
#[derive(Debug, Clone, PartialEq, Eq)]
pub enum CodeError {
    /// The code is the empty string.
    Empty,
    /// Two dots are adjacent, or the code starts or ends with a dot.
    EmptySegment,
    /// The segment given holds a character other than A-Z, a-z and '_'.
    InvalidChar(String),
}

/// What validating `s` gives: `Ok` exactly for valid codes; otherwise the
/// error of the first defect in reading order, and for a character that no
/// segment may hold, the whole segment that holds it.
pub open spec fn code_outcome(s: Seq<char>, r: Result<(), CodeError>) -> bool {
    &&& (r is Ok <==> valid_code(s))
    &&& (r == Err::<(), CodeError>(CodeError::Empty) <==> s.len() == 0)
    &&& (r == Err::<(), CodeError>(CodeError::EmptySegment) <==> (s.len() > 0 && exists|i: int|
        #[trigger] empty_segment_at(s, i) && clean_before(s, i)))
    &&& ((r matches Err(CodeError::InvalidChar(_))) <==> (s.len() > 0 && exists|i: int|
        #[trigger] bad_char_at(s, i) && clean_before(s, i)))
    &&& (r matches Err(CodeError::InvalidChar(seg)) ==> exists|i: int, a: int, b: int|
        #![trigger bad_char_at(s, i), segment_span(s, a, b)]
        bad_char_at(s, i) && clean_before(s, i) && a <= i < b && segment_span(s, a, b) && seg@
            == s.subrange(a, b))
}

/// The first fault of a code is unique, and a code with a fault is invalid.
proof fn lemma_first_fault(s: Seq<char>, i: int)
    requires
        fault_at(s, i),
        clean_before(s, i),
        s.len() > 0,
    ensures
        !valid_code(s),
        forall|k: int| fault_at(s, k) && clean_before(s, k) ==> k == i,
        empty_segment_at(s, i) ==> code_outcome(s, Err(CodeError::EmptySegment)),
        bad_char_at(s, i) ==> forall|k: int| #[trigger] empty_segment_at(s, k) ==> !clean_before(s, k),
{
    assert forall|k: int| fault_at(s, k) && clean_before(s, k) implies k == i by {
        if k < i {
            assert(!fault_at(s, k));
        } else if k > i {
            assert(!fault_at(s, i));
        }
    }
    assert(!clean_before(s, s.len() + 1int)) by {
        assert(fault_at(s, i) && 0 <= i < s.len() + 1);
    }
    if empty_segment_at(s, i) {
        assert forall|k: int| bad_char_at(s, k) && clean_before(s, k) implies false by {
            assert(fault_at(s, k));
        }
    }
    if bad_char_at(s, i) {
        assert forall|k: int| empty_segment_at(s, k) && clean_before(s, k) implies false by {
            assert(fault_at(s, k));
        }
    }
}

/// A code is valid exactly when it is non-empty, neither starts nor ends with
/// a dot, has no two dots in a row, and every other character is an ASCII
/// letter, 'a' to 'z' or 'A' to 'Z' with both ends included, or '_'.
pub proof fn law_valid_codes(s: Seq<char>)
    ensures
        valid_code(s) <==> {
            &&& s.len() > 0
            &&& s[0] != '.'
            &&& s[s.len() - 1] != '.'
            &&& forall|k: int| 0 < k < s.len() ==> !(#[trigger] s[k] == '.' && s[k - 1] == '.')
            &&& forall|k: int|
                0 <= k < s.len() ==> (#[trigger] s[k] == '.' || ('a' <= s[k] && s[k] <= 'z') || (
                'A' <= s[k] && s[k] <= 'Z') || s[k] == '_')
        },
{
    if valid_code(s) {
        assert(!fault_at(s, 0));
        assert(!fault_at(s, s.len() as int));
        assert forall|k: int| 0 < k < s.len() implies !(#[trigger] s[k] == '.' && s[k - 1] == '.') by {
            assert(!fault_at(s, k));
        }
        assert forall|k: int| 0 <= k < s.len() implies (#[trigger] s[k] == '.' || ('a' <= s[k] && s[k]
            <= 'z') || ('A' <= s[k] && s[k] <= 'Z') || s[k] == '_') by {
            assert(!fault_at(s, k));
        }
    }
    if s.len() > 0 && s[0] != '.' && s[s.len() - 1] != '.' && (forall|k: int|
        0 < k < s.len() ==> !(#[trigger] s[k] == '.' && s[k - 1] == '.')) && (forall|k: int|
        0 <= k < s.len() ==> (#[trigger] s[k] == '.' || ('a' <= s[k] && s[k] <= 'z') || ('A' <= s[k]
            && s[k] <= 'Z') || s[k] == '_')) {
        assert forall|j: int| 0 <= j < s.len() + 1 implies !fault_at(s, j) by {
            if 0 < j < s.len() {
                assert(!(s[j] == '.' && s[j - 1] == '.'));
            }
            if j < s.len() {
                assert(s[j] == '.' || ('a' <= s[j] && s[j] <= 'z') || ('A' <= s[j] && s[j] <= 'Z')
                    || s[j] == '_');
            }
        }
    }
}

/// Every one-character code made of an ASCII letter, 'a' to 'z' or 'A' to
/// 'Z' with both ends included, or of '_' is valid; so is every such
/// character as a segment after another valid code.
pub proof fn law_single_characters_are_codes(c: char, s: Seq<char>)
    requires
        ('a' <= c && c <= 'z') || ('A' <= c && c <= 'Z') || c == '_',
    ensures
        valid_code(seq![c]),
        valid_code(s) ==> valid_code(s + seq!['.', c]),
{
    law_valid_codes(seq![c]);
    if valid_code(s) {
        law_valid_codes(s);
        let t = s + seq!['.', c];
        assert(t[0] == s[0]);
        assert(t[t.len() - 1] == c);
        assert forall|k: int| 0 < k < t.len() implies !(#[trigger] t[k] == '.' && t[k - 1] == '.') by {
            if k < s.len() {
                assert(t[k] == s[k] && t[k - 1] == s[k - 1]);
            } else if k == s.len() {
                assert(t[k - 1] == s[s.len() - 1]);
            }
        }
        assert forall|k: int| 0 <= k < t.len() implies (#[trigger] t[k] == '.' || ('a' <= t[k] && t[k]
            <= 'z') || ('A' <= t[k] && t[k] <= 'Z') || t[k] == '_') by {
            if k < s.len() {
                assert(t[k] == s[k]);
            }
        }
        law_valid_codes(t);
    }
}

/// How a code is refused at its start: the empty code as empty; a code that
/// starts with a dot as having an empty segment; a code whose first segment
/// (the text before the first dot, or all of it) holds a character other
/// than an ASCII letter or '_' as holding an invalid character, naming that
/// whole first segment.
pub proof fn law_code_refusals_at_start(s: Seq<char>, r: Result<(), CodeError>, e: int, k: int)
    requires
        code_outcome(s, r),
    ensures
        s.len() == 0 ==> r == Err::<(), CodeError>(CodeError::Empty),
        s.len() > 0 && s[0] == '.' ==> r == Err::<(), CodeError>(CodeError::EmptySegment),
        (0 < e <= s.len() && (e == s.len() || s[e] == '.') && (forall|j: int|
            0 <= j < e ==> #[trigger] s[j] != '.') && 0 <= k < e && !(('a' <= s[k] && s[k] <= 'z') || (
        'A' <= s[k] && s[k] <= 'Z') || s[k] == '_')) ==> (r matches Err(CodeError::InvalidChar(seg))
            && seg@ == s.subrange(0, e)),
{
    if s.len() > 0 && s[0] == '.' {
        assert(empty_segment_at(s, 0) && clean_before(s, 0));
    }
    if 0 < e <= s.len() && (e == s.len() || s[e] == '.') && (forall|j: int|
        0 <= j < e ==> #[trigger] s[j] != '.') && 0 <= k < e && !(('a' <= s[k] && s[k] <= 'z') || (
    'A' <= s[k] && s[k] <= 'Z') || s[k] == '_') {
        assert(bad_char_at(s, k));
        assert(fault_at(s, k));
        assert(!valid_code(s)) by {
            assert(0 <= k < s.len() + 1);
        }
        assert forall|j: int| 0 <= j <= e implies !#[trigger] empty_segment_at(s, j) by {
            if j < e {
                assert(s[j] != '.');
            }
            if j > 0 {
                assert(s[j - 1] != '.');
            }
        }
        if r == Err::<(), CodeError>(CodeError::EmptySegment) {
            let j = choose|j: int| #[trigger] empty_segment_at(s, j) && clean_before(s, j);
            assert(!fault_at(s, k));
        }
        assert(r matches Err(CodeError::InvalidChar(_)));
        let seg = r->Err_0->InvalidChar_0;
        let (i, a, b) = choose|i: int, a: int, b: int|
            #![trigger bad_char_at(s, i), segment_span(s, a, b)]
            bad_char_at(s, i) && clean_before(s, i) && a <= i < b && segment_span(s, a, b) && seg@
                == s.subrange(a, b);
        if k < i {
            assert(!fault_at(s, k));
        }
        if a > 0 {
            assert(s[a - 1] == '.');
        }
        if b < e {
            assert(s[b] == '.');
        }
        if b > e {
            assert(s[e] == '.');
        }
        assert(a == 0 && b == e);
    }
}

/// A validated permission code such as `user.create`.
#[derive(Debug, Hash)]
pub struct PermissionCode(String);

impl PartialEq for PermissionCode {
    fn eq(&self, other: &Self) -> (r: bool) {
        self.0 == other.0
    }
}

impl PartialEqSpecImpl for PermissionCode {
    open spec fn obeys_eq_spec() -> bool {
        true
    }

    open spec fn eq_spec(&self, other: &Self) -> bool {
        self@ == other@
    }
}

impl Eq for PermissionCode {}

impl core::ops::Deref for PermissionCode {
    type Target = str;

    fn deref(&self) -> (r: &str)
        ensures
            r@ == self@,
    {
        self.0.as_str()
    }
}

impl View for PermissionCode {
    type V = Seq<char>;

    closed spec fn view(&self) -> Seq<char> {
        self.0@
    }
}

impl Clone for PermissionCode {
    fn clone(&self) -> (r: Self)
        ensures
            r@ == self@,
    {
        proof {
            use_type_invariant(self);
        }
        PermissionCode(self.0.clone())
    }
}

impl PermissionCode {
    #[verifier::type_invariant]
    closed spec fn inv(self) -> bool {
        valid_code(self.0@)
    }

    fn is_code_char_exec(c: char) -> (r: bool)
        ensures
            r == is_code_char(c),
    {
        ('a' <= c && c <= 'z') || ('A' <= c && c <= 'Z') || c == '_'
    }

    /// Checks `code` segment by segment.
    fn validate(code: &str) -> (r: Result<(), CodeError>)
        ensures
            code_outcome(code@, r),
    {
        let n = code.unicode_len();
        let ghost s = code@;
        if n == 0 {
            return Err(CodeError::Empty);
        }
        let mut prev_dot = true;
        let mut start: usize = 0;
        let mut i: usize = 0;
        while i < n
            invariant
                n == s.len(),
                s == code@,
                0 <= start <= i <= n,
                n > 0,
                prev_dot == (i == 0 || s[i - 1] == '.'),
                start == 0 || s[start - 1] == '.',
                forall|k: int| start <= k < i ==> s[k] != '.',
                clean_before(s, i as int),
            decreases n - i,
        {
            let c = code.get_char(i);
            if c == '.' {
                if prev_dot {
                    assert(empty_segment_at(s, i as int));
                    proof {
                        lemma_first_fault(s, i as int);
                    }
                    return Err(CodeError::EmptySegment);
                }
                prev_dot = true;
                start = i + 1;
            } else {
                if !Self::is_code_char_exec(c) {
                    assert(bad_char_at(s, i as int));
                    proof {
                        lemma_first_fault(s, i as int);
                    }
                    let mut end: usize = i + 1;
                    while end < n && code.get_char(end) != '.'
                        invariant
                            n == s.len(),
                            s == code@,
                            start <= i < end <= n,
                            forall|k: int| start <= k < end ==> s[k] != '.',
                        decreases n - end,
                    {
                        end = end + 1;
                    }
                    let seg = code.substring_char(start, end).to_owned();
                    assert(segment_span(s, start as int, end as int));
                    let r: Result<(), CodeError> = Err(CodeError::InvalidChar(seg));
                    assert(code_outcome(s, r)) by {
                        assert(bad_char_at(s, i as int) && clean_before(s, i as int));
                    }
                    return r;
                }
                prev_dot = false;
            }
            assert(!fault_at(s, i as int));
            i = i + 1;
        }
        if prev_dot {
            assert(empty_segment_at(s, n as int));
            proof {
                lemma_first_fault(s, n as int);
            }
            return Err(CodeError::EmptySegment);
        }
        assert(!fault_at(s, n as int));
        assert(clean_before(s, s.len() + 1int)) by {
            assert forall|j: int| 0 <= j < s.len() + 1 implies !fault_at(s, j) by {
                if j < n {
                } else {
                    assert(j == n);
                }
            }
        }
        assert forall|k: int| #[trigger] empty_segment_at(s, k) implies !clean_before(s, k) by {
            assert(fault_at(s, k));
            assert(!clean_before(s, s.len() + 1int) || !(0 <= k < s.len() + 1) || !fault_at(s, k));
        }
        assert forall|k: int| #[trigger] bad_char_at(s, k) implies !clean_before(s, k) by {
            assert(fault_at(s, k));
        }
        Ok(())
    }

    /// Makes a permission code of `code`, refused unless it is valid.
    pub fn new(code: &str) -> (r: Result<PermissionCode, CodeError>)
        ensures
            code_outcome(
                code@,
                match r {
                    Ok(_) => Ok(()),
                    Err(e) => Err(e),
                },
            ),
            r matches Ok(p) ==> p@ == code@,
    {
        match Self::validate(code) {
            Ok(()) => {
                let owned = code.to_owned();
                Ok(PermissionCode(owned))
            },
            Err(e) => Err(e),
        }
    }

    /// The code as text; it is always a valid code.
    pub fn as_str(&self) -> (r: &str)
        ensures
            r@ == self@,
            valid_code(r@),
    {
        proof {
            use_type_invariant(self);
        }
        self.0.as_str()
    }
}

} // verus!
