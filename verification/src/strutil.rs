//! Verified string utilities used by discovery and dispatch: ASCII
//! case-insensitive search, file-extension tests, prefix tests, equality,
//! concatenation, and a lexicographic order on names.
use vstd::prelude::*;
use vstd::string::*;

verus! {

/// Code point of `c` with ASCII upper-case letters folded to lower case.
pub open spec fn lower_code(c: char) -> int {
    if 65 <= c as u32 <= 90 {
        c as u32 + 32
    } else {
        c as u32 as int
    }
}

/// The needle matches the haystack at offset `k`, comparing ASCII
/// case-insensitively.
pub open spec fn ci_match_at(hay: Seq<char>, ndl: Seq<char>, k: int) -> bool {
    &&& 0 <= k
    &&& k + ndl.len() <= hay.len()
    &&& forall|j: int| 0 <= j < ndl.len() ==> lower_code(hay[k + j]) == lower_code(ndl[j])
}

/// The haystack contains the needle, comparing ASCII case-insensitively.
pub open spec fn contains_ci(hay: Seq<char>, ndl: Seq<char>) -> bool {
    exists|k: int| ci_match_at(hay, ndl, k)
}

/// Folds one character to lower case, as `lower_code` describes.
pub fn lower_code_x(c: char) -> (r: u32)
    ensures
        r == lower_code(c),
{
    let u: u32 = c as u32;
    if 65 <= u && u <= 90 {
        u + 32
    } else {
        u
    }
}

/// ASCII case-insensitive comparison of the needle against the haystack at
/// one offset.
fn ci_match_at_x(hay: &str, ndl: &str, k: usize) -> (r: bool)
    requires
        k + ndl@.len() <= hay@.len(),
    ensures
        r == ci_match_at(hay@, ndl@, k as int),
{
    let n: usize = hay.unicode_len();
    let m: usize = ndl.unicode_len();
    let mut j: usize = 0;
    while j < m
        invariant
            n == hay@.len(),
            m == ndl@.len(),
            k + m <= n,
            j <= m,
            forall|j2: int| 0 <= j2 < j ==> lower_code(hay@[k + j2]) == lower_code(ndl@[j2]),
        decreases m - j,
    {
        if lower_code_x(hay.get_char(k + j)) != lower_code_x(ndl.get_char(j)) {
            return false;
        }
        j += 1;
    }
    true
}

/// ASCII case-insensitive substring test.
pub fn str_contains_ci(hay: &str, ndl: &str) -> (r: bool)
    ensures
        r == contains_ci(hay@, ndl@),
{
    let n: usize = hay.unicode_len();
    let m: usize = ndl.unicode_len();
    if m > n {
        assert(forall|k: int| !ci_match_at(hay@, ndl@, k));
        return false;
    }
    let mut k: usize = 0;
    while k <= n - m
        invariant
            m <= n,
            n == hay@.len(),
            m == ndl@.len(),
            k <= n - m + 1,
            forall|k2: int| 0 <= k2 < k ==> !ci_match_at(hay@, ndl@, k2),
        decreases n - m + 1 - k,
    {
        if ci_match_at_x(hay, ndl, k) {
            return true;
        }
        k += 1;
    }
    assert(forall|k2: int| !ci_match_at(hay@, ndl@, k2));
    false
}

/// Character-wise equality of two string slices.
pub fn str_eq(a: &str, b: &str) -> (r: bool)
    ensures
        r == (a@ == b@),
{
    let n: usize = a.unicode_len();
    if n != b.unicode_len() {
        return false;
    }
    let mut i: usize = 0;
    while i < n
        invariant
            n == a@.len(),
            n == b@.len(),
            i <= n,
            forall|j: int| 0 <= j < i ==> a@[j] == b@[j],
        decreases n - i,
    {
        if a.get_char(i) != b.get_char(i) {
            return false;
        }
        i += 1;
    }
    assert(a@ =~= b@);
    true
}

/// The sequence starts with the given prefix.
pub open spec fn has_prefix(s: Seq<char>, p: Seq<char>) -> bool {
    p.len() <= s.len() && s.subrange(0, p.len() as int) == p
}

/// Prefix test on string slices.
pub fn str_has_prefix(s: &str, p: &str) -> (r: bool)
    ensures
        r == has_prefix(s@, p@),
{
    let n: usize = s.unicode_len();
    let m: usize = p.unicode_len();
    if m > n {
        return false;
    }
    let mut i: usize = 0;
    while i < m
        invariant
            n == s@.len(),
            m == p@.len(),
            m <= n,
            i <= m,
            forall|j: int| 0 <= j < i ==> s@[j] == p@[j],
        decreases m - i,
    {
        if s.get_char(i) != p.get_char(i) {
            assert(s@.subrange(0, m as int)[i as int] != p@[i as int]);
            return false;
        }
        i += 1;
    }
    assert(s@.subrange(0, m as int) =~= p@);
    true
}

/// Index `i` is the last dot of the name.
pub open spec fn is_last_dot(name: Seq<char>, i: int) -> bool {
    &&& 0 <= i < name.len()
    &&& name[i] == '.'
    &&& forall|j: int| i < j < name.len() ==> name[j] != '.'
}

/// The file name has extension `ext`: the text after its last dot is `ext`,
/// and the dot is not the leading character (a leading dot marks a hidden
/// file, not an extension).
pub open spec fn has_ext(name: Seq<char>, ext: Seq<char>) -> bool {
    exists|i: int|
        {
            &&& #[trigger] is_last_dot(name, i)
            &&& 0 < i
            &&& name.subrange(i + 1, name.len() as int) == ext
        }
}

proof fn lemma_last_dot_unique(name: Seq<char>, i: int, j: int)
    requires
        is_last_dot(name, i),
        is_last_dot(name, j),
    ensures
        i == j,
{
    if i < j {
        assert(name[j] != '.');
    } else if j < i {
        assert(name[i] != '.');
    }
}

/// Finds the position of the last dot in the name, if any.
fn find_last_dot(name: &str) -> (r: Option<usize>)
    ensures
        match r {
            Option::Some(i) => is_last_dot(name@, i as int),
            Option::None => forall|d: int| !is_last_dot(name@, d),
        },
{
    let n: usize = name.unicode_len();
    let mut i: usize = n;
    while i > 0
        invariant
            n == name@.len(),
            i <= n,
            forall|j: int| i <= j < n ==> name@[j] != '.',
        decreases i,
    {
        i -= 1;
        if name.get_char(i) == '.' {
            return Some(i);
        }
    }
    assert(forall|d: int| !is_last_dot(name@, d));
    None
}

/// Extension test on string slices.
pub fn str_has_ext(name: &str, ext: &str) -> (r: bool)
    ensures
        r == has_ext(name@, ext@),
{
    let n: usize = name.unicode_len();
    let m: usize = ext.unicode_len();
    let found: Option<usize> = find_last_dot(name);
    if found.is_none() {
        return false;
    }
    let i: usize = found.unwrap();
    if i == 0 {
        assert forall|d: int|
            !(is_last_dot(name@, d) && 0 < d && name@.subrange(d + 1, n as int)
                == ext@) by {
            if is_last_dot(name@, d) {
                lemma_last_dot_unique(name@, i as int, d);
            }
        }
        return false;
    }
    if n - i - 1 != m {
        assert forall|d: int|
            !(is_last_dot(name@, d) && 0 < d && name@.subrange(d + 1, n as int)
                == ext@) by {
            if is_last_dot(name@, d) {
                lemma_last_dot_unique(name@, i as int, d);
                assert(name@.subrange(d + 1, n as int).len() != ext@.len());
            }
        }
        return false;
    }
    let mut t: usize = 0;
    while t < m
        invariant
            n == name@.len(),
            m == ext@.len(),
            is_last_dot(name@, i as int),
            0 < i,
            i + 1 + m == n,
            t <= m,
            forall|j: int| 0 <= j < t ==> name@[i + 1 + j] == ext@[j],
        decreases m - t,
    {
        if name.get_char(i + 1 + t) != ext.get_char(t) {
            assert forall|d: int|
                !(is_last_dot(name@, d) && 0 < d && name@.subrange(d + 1, n as int)
                    == ext@) by {
                if is_last_dot(name@, d) {
                    lemma_last_dot_unique(name@, i as int, d);
                    assert(name@.subrange(d + 1, n as int)[t as int] == name@[i + 1 + t]);
                }
            }
            return false;
        }
        t += 1;
    }
    assert(name@.subrange(i + 1, n as int) =~= ext@);
    true
}

/// The name with its last dot and extension removed; meaningful only when
/// the name has an extension of length `ext_len`.
pub open spec fn stem_of(name: Seq<char>, ext_len: int) -> Seq<char> {
    name.subrange(0, name.len() - ext_len - 1)
}

proof fn lemma_ext_len(name: Seq<char>, ext: Seq<char>)
    requires
        has_ext(name, ext),
    ensures
        name.len() >= ext.len() + 2,
{
    let i = choose|i: int|
        is_last_dot(name, i) && 0 < i && name.subrange(i + 1, name.len() as int) == ext;
    assert(name.subrange(i + 1, name.len() as int).len() == ext.len());
}

/// Strips a known extension of character length `ext_len` from the name.
pub fn strip_ext(name: &str, ext_len: usize) -> (r: String)
    requires
        exists|e: Seq<char>| has_ext(name@, e) && e.len() == ext_len,
    ensures
        r@ == stem_of(name@, ext_len as int),
{
    proof {
        let e = choose|e: Seq<char>| has_ext(name@, e) && e.len() == ext_len;
        lemma_ext_len(name@, e);
    }
    let n: usize = name.unicode_len();
    let s: &str = name.substring_char(0, n - ext_len - 1);
    String::from_str(s)
}

/// Concatenation of two string slices.
pub fn join2(a: &str, b: &str) -> (r: String)
    ensures
        r@ == a@ + b@,
{
    String::from_str(a).concat(b)
}

/// Concatenation of three string slices.
pub fn join3(a: &str, b: &str, c: &str) -> (r: String)
    ensures
        r@ == a@ + b@ + c@,
{
    String::from_str(a).concat(b).concat(c)
}

/// Lexicographic order on character sequences, by code point. This is the
/// order in which byte-wise comparison of the UTF-8 encodings would place
/// the names, since UTF-8 preserves code-point order.
pub open spec fn lex_leq(a: Seq<char>, b: Seq<char>) -> bool
    decreases a.len(),
{
    if a.len() == 0 {
        true
    } else if b.len() == 0 {
        false
    } else if (a[0] as u32) < (b[0] as u32) {
        true
    } else if (b[0] as u32) < (a[0] as u32) {
        false
    } else {
        lex_leq(a.skip(1), b.skip(1))
    }
}

/// The order is total.
pub proof fn lemma_lex_total(a: Seq<char>, b: Seq<char>)
    ensures
        lex_leq(a, b) || lex_leq(b, a),
    decreases a.len(),
{
    if a.len() == 0 || b.len() == 0 {
    } else if (a[0] as u32) == (b[0] as u32) {
        lemma_lex_total(a.skip(1), b.skip(1));
    }
}

/// The order is transitive.
pub proof fn lemma_lex_trans(a: Seq<char>, b: Seq<char>, c: Seq<char>)
    requires
        lex_leq(a, b),
        lex_leq(b, c),
    ensures
        lex_leq(a, c),
    decreases a.len(),
{
    if a.len() == 0 || b.len() == 0 || c.len() == 0 {
    } else if (a[0] as u32) == (b[0] as u32) && (b[0] as u32) == (c[0] as u32) {
        lemma_lex_trans(a.skip(1), b.skip(1), c.skip(1));
    }
}

/// Comparing two sequences that agree code-for-code on their first `i`
/// characters reduces to comparing the remainders.
proof fn lemma_lex_skip(a: Seq<char>, b: Seq<char>, i: int)
    requires
        0 <= i <= a.len(),
        i <= b.len(),
        forall|j: int| 0 <= j < i ==> (a[j] as u32) == (b[j] as u32),
    ensures
        lex_leq(a, b) == lex_leq(a.skip(i), b.skip(i)),
    decreases i,
{
    if i > 0 {
        lemma_lex_skip(a.skip(1), b.skip(1), i - 1);
        assert(a.skip(1).skip(i - 1) =~= a.skip(i));
        assert(b.skip(1).skip(i - 1) =~= b.skip(i));
        assert(a.skip(0) =~= a);
        assert(b.skip(0) =~= b);
    } else {
        assert(a.skip(0) =~= a);
        assert(b.skip(0) =~= b);
    }
}

/// Lexicographic comparison of two string slices.
pub fn str_lex_leq(a: &str, b: &str) -> (r: bool)
    ensures
        r == lex_leq(a@, b@),
{
    let n: usize = a.unicode_len();
    let m: usize = b.unicode_len();
    let mut i: usize = 0;
    while i < n && i < m
        invariant
            n == a@.len(),
            m == b@.len(),
            i <= n,
            i <= m,
            forall|j: int| 0 <= j < i ==> (a@[j] as u32) == (b@[j] as u32),
        decreases n - i,
    {
        let ca: u32 = a.get_char(i) as u32;
        let cb: u32 = b.get_char(i) as u32;
        if ca < cb {
            proof {
                lemma_lex_skip(a@, b@, i as int);
            }
            return true;
        }
        if cb < ca {
            proof {
                lemma_lex_skip(a@, b@, i as int);
            }
            return false;
        }
        i += 1;
    }
    proof {
        lemma_lex_skip(a@, b@, i as int);
        if i == n {
            assert(a@.skip(i as int).len() == 0);
        } else {
            assert(b@.skip(i as int).len() == 0);
            assert(a@.skip(i as int).len() > 0);
        }
    }
    n <= m
}

/// The view of a vector of strings, one character sequence per name.
pub open spec fn names_view(v: Seq<String>) -> Seq<Seq<char>> {
    v.map_values(|s: String| s@)
}

/// The names appear in lexicographic order.
pub open spec fn names_sorted(s: Seq<Seq<char>>) -> bool {
    forall|i: int, j: int| 0 <= i < j < s.len() ==> lex_leq(s[i], s[j])
}

/// Inserts a name into a lexicographically sorted vector, keeping it sorted;
/// the contents change exactly by the added name.
pub fn insert_sorted(v: &mut Vec<String>, x: String)
    requires
        names_sorted(names_view(old(v)@)),
    ensures
        names_sorted(names_view(final(v)@)),
        names_view(final(v)@).to_multiset() == names_view(old(v)@).to_multiset().insert(x@),
        final(v)@.len() == old(v)@.len() + 1,
{
    let pos: usize = lower_bound(v, x.as_str());
    proof {
        if pos < v@.len() {
            lemma_lex_total(v@[pos as int]@, x@);
        }
    }
    v.insert(pos, x);
    proof {
        let olds = names_view(old(v)@);
        let news = names_view(v@);
        assert(news =~= olds.insert(pos as int, x@));
        vstd::seq_lib::to_multiset_insert(olds, pos as int, x@);
        assert forall|i: int, j: int| 0 <= i < j < news.len() implies lex_leq(
            news[i],
            news[j],
        ) by {
            if i == pos && j > pos {
                if j - 1 > pos {
                    lemma_lex_trans(x@, olds[pos as int], olds[j - 1]);
                }
            }
        }
    }
}

/// The index of the first name in a sorted vector that does not precede `x`,
/// or the length when every name does.
fn lower_bound(v: &Vec<String>, x: &str) -> (pos: usize)
    ensures
        pos <= v@.len(),
        forall|j: int| 0 <= j < pos ==> lex_leq(names_view(v@)[j], x@),
        pos < v@.len() ==> !lex_leq(names_view(v@)[pos as int], x@),
{
    let n: usize = v.len();
    let mut pos: usize = 0;
    while pos < n
        invariant
            n == v@.len(),
            pos <= n,
            forall|j: int| 0 <= j < pos ==> lex_leq(names_view(v@)[j], x@),
        decreases n - pos,
    {
        if !str_lex_leq(v[pos].as_str(), x) {
            return pos;
        }
        pos += 1;
    }
    n
}

} // verus!
