//! Character-level text handling shared by the configuration checks and the
//! naming rules: whitespace trimming, ASCII case folding, identifier
//! normalisation and comparison against fixed names.

use vstd::prelude::*;

verus! {

/// Whitespace as `char::is_whitespace` defines it: the Unicode `White_Space`
/// property.
pub open spec fn is_ws(c: char) -> bool {
    let u = c as u32;
    ||| 0x09 <= u <= 0x0d
    ||| u == 0x20
    ||| u == 0x85
    ||| u == 0xa0
    ||| u == 0x1680
    ||| 0x2000 <= u <= 0x200a
    ||| u == 0x2028
    ||| u == 0x2029
    ||| u == 0x202f
    ||| u == 0x205f
    ||| u == 0x3000
}

/// The ASCII lower-case form of a character; other characters are unchanged.
pub open spec fn ascii_lower(c: char) -> char {
    if 'A' <= c && c <= 'Z' {
        ((c as u32) + 32) as char
    } else {
        c
    }
}

pub fn is_whitespace_char(c: char) -> (res: bool)
    ensures
        res == is_ws(c),
{
    let u = c as u32;
    (0x09 <= u && u <= 0x0d) || u == 0x20 || u == 0x85 || u == 0xa0 || u == 0x1680 || (0x2000
        <= u && u <= 0x200a) || u == 0x2028 || u == 0x2029 || u == 0x202f || u == 0x205f || u
        == 0x3000
}

pub fn lower_char(c: char) -> (res: char)
    ensures
        res == ascii_lower(c),
{
    if 'A' <= c && c <= 'Z' {
        let b: u8 = (c as u8) + 32;
        b as char
    } else {
        c
    }
}

/// Appends one character to a string.
#[verifier::external_body]
pub(crate) fn push_char(s: &mut String, c: char)
    ensures
        final(s)@ == old(s)@.push(c),
{
    s.push(c);
}


/// The characters of a string slice, in order.
pub fn chars_of(s: &str) -> (v: Vec<char>)
    ensures
        v@ == s@,
{
    broadcast use vstd::string::group_string_axioms;
    let mut v: Vec<char> = Vec::new();
    for c in it: s.chars()
        invariant
            v@.len() == it.index(),
            forall|i: int| 0 <= i < v@.len() ==> v@[i] == it.seq()[i],
    {
        v.push(c);
    }
    assert(v@ =~= s@);
    v
}


/// The class of characters that a trim removes: whitespace, or one given
/// character.
pub open spec fn in_class(c: char, only: Option<char>) -> bool {
    match only {
        None => is_ws(c),
        Some(d) => c == d,
    }
}

/// `s` without its leading characters of the class.
pub open spec fn strip_start(s: Seq<char>, only: Option<char>) -> Seq<char>
    decreases s.len(),
{
    if s.len() > 0 && in_class(s[0], only) {
        strip_start(s.drop_first(), only)
    } else {
        s
    }
}

/// `s` without its trailing characters of the class.
pub open spec fn strip_end(s: Seq<char>, only: Option<char>) -> Seq<char>
    decreases s.len(),
{
    if s.len() > 0 && in_class(s.last(), only) {
        strip_end(s.drop_last(), only)
    } else {
        s
    }
}

/// `s` without the characters of the class at either end.
pub open spec fn strip(s: Seq<char>, only: Option<char>) -> Seq<char> {
    strip_end(strip_start(s, only), only)
}

/// What `str::trim` gives.
pub open spec fn trim(s: Seq<char>) -> Seq<char> {
    strip(s, None)
}

/// The characters that name normalisation drops.
pub open spec fn is_separator(c: char) -> bool {
    c == '-' || c == '_' || c == ' '
}

/// Every character folded to ASCII lower case, and the separators dropped.
pub open spec fn fold_name(s: Seq<char>) -> Seq<char>
    decreases s.len(),
{
    if s.len() == 0 {
        Seq::empty()
    } else {
        let c = ascii_lower(s.last());
        let rest = fold_name(s.drop_last());
        if is_separator(c) {
            rest
        } else {
            rest.push(c)
        }
    }
}

/// The canonical form of a vendor or transport name: trimmed, folded to
/// ASCII lower case, with `-`, `_` and spaces removed.
pub open spec fn normalize_name(s: Seq<char>) -> Seq<char> {
    fold_name(trim(s))
}

/// ASCII lower case of every character.
pub open spec fn lower_all(s: Seq<char>) -> Seq<char> {
    s.map_values(|c: char| ascii_lower(c))
}

fn in_class_exec(c: char, only: Option<char>) -> (res: bool)
    ensures
        res == in_class(c, only),
{
    match only {
        None => is_whitespace_char(c),
        Some(d) => c == d,
    }
}

/// The bounds `[start, end)` of what is left of `v` once the characters of
/// the class are stripped from both ends.
fn strip_bounds(v: &Vec<char>, only: Option<char>) -> (res: (usize, usize))
    ensures
        res.0 <= res.1 <= v@.len(),
        v@.subrange(res.0 as int, res.1 as int) == strip(v@, only),
{
    let n = v.len();
    let mut i: usize = 0;
    assert(v@.subrange(0, n as int) =~= v@);
    while i < n && in_class_exec(v[i], only)
        invariant
            i <= n,
            n == v@.len(),
            strip_start(v@, only) == strip_start(v@.subrange(i as int, n as int), only),
        decreases n - i,
    {
        assert(v@.subrange(i as int, n as int).drop_first() =~= v@.subrange(i + 1, n as int));
        i = i + 1;
    }
    proof {
        if i == n {
            assert(v@.subrange(i as int, n as int) =~= Seq::<char>::empty());
        }
    }
    assert(strip_start(v@, only) == v@.subrange(i as int, n as int));
    let mut j: usize = n;
    while j > i && in_class_exec(v[j - 1], only)
        invariant
            i <= j <= n,
            n == v@.len(),
            strip(v@, only) == strip_end(v@.subrange(i as int, j as int), only),
        decreases j - i,
    {
        assert(v@.subrange(i as int, j as int).drop_last() =~= v@.subrange(i as int, j - 1));
        j = j - 1;
    }
    proof {
        if j == i {
            assert(v@.subrange(i as int, j as int) =~= Seq::<char>::empty());
        }
    }
    (i, j)
}

/// Builds the folded form of `v[start..end]`.
fn fold_range(v: &Vec<char>, start: usize, end: usize) -> (res: String)
    requires
        start <= end <= v@.len(),
    ensures
        res@ == fold_name(v@.subrange(start as int, end as int)),
{
    let mut out = String::new();
    let mut k: usize = start;
    assert(v@.subrange(start as int, start as int) =~= Seq::<char>::empty());
    while k < end
        invariant
            start <= k <= end,
            end <= v@.len(),
            out@ == fold_name(v@.subrange(start as int, k as int)),
        decreases end - k,
    {
        let c = lower_char(v[k]);
        assert(v@.subrange(start as int, k + 1).drop_last() =~= v@.subrange(
            start as int,
            k as int,
        ));
        if !(c == '-' || c == '_' || c == ' ') {
            push_char(&mut out, c);
        }
        k = k + 1;
    }
    out
}

/// Builds the string `v[start..end]`.
fn collect_range(v: &Vec<char>, start: usize, end: usize) -> (res: String)
    requires
        start <= end <= v@.len(),
    ensures
        res@ == v@.subrange(start as int, end as int),
{
    let mut out = String::new();
    let mut k: usize = start;
    while k < end
        invariant
            start <= k <= end,
            end <= v@.len(),
            out@ == v@.subrange(start as int, k as int),
        decreases end - k,
    {
        push_char(&mut out, v[k]);
        assert(out@ =~= v@.subrange(start as int, k + 1));
        k = k + 1;
    }
    out
}

/// The canonical form of a vendor or transport name (see `normalize_name`).
pub fn normalize_name_exec(s: &str) -> (res: String)
    ensures
        res@ == normalize_name(s@),
{
    let v = chars_of(s);
    let (a, b) = strip_bounds(&v, None);
    fold_range(&v, a, b)
}

/// `str::trim`.
pub fn trim_str(s: &str) -> (res: String)
    ensures
        res@ == trim(s@),
{
    let v = chars_of(s);
    let (a, b) = strip_bounds(&v, None);
    collect_range(&v, a, b)
}

/// `str::trim_matches` with a single character.
pub fn trim_char(s: &str, c: char) -> (res: String)
    ensures
        res@ == strip(s@, Some(c)),
{
    let v = chars_of(s);
    let (a, b) = strip_bounds(&v, Some(c));
    collect_range(&v, a, b)
}

/// Whether two strings are equal.
pub fn str_eq(a: &str, b: &str) -> (res: bool)
    ensures
        res == (a@ == b@),
{
    a.to_owned() == b.to_owned()
}

/// Whether two strings are equal once ASCII letters are folded to lower case
/// (`str::eq_ignore_ascii_case`).
pub fn eq_ignore_ascii_case(a: &str, b: &str) -> (res: bool)
    ensures
        res == (lower_all(a@) == lower_all(b@)),
{
    let va = chars_of(a);
    let vb = chars_of(b);
    if va.len() != vb.len() {
        proof {
            assert(lower_all(a@).len() != lower_all(b@).len());
        }
        return false;
    }
    let n = va.len();
    let mut i: usize = 0;
    while i < n
        invariant
            i <= n,
            n == va@.len(),
            n == vb@.len(),
            va@ == a@,
            vb@ == b@,
            forall|k: int| 0 <= k < i ==> ascii_lower(va@[k]) == ascii_lower(vb@[k]),
        decreases n - i,
    {
        if lower_char(va[i]) != lower_char(vb[i]) {
            proof {
                assert(lower_all(a@)[i as int] != lower_all(b@)[i as int]);
            }
            return false;
        }
        i = i + 1;
    }
    assert(lower_all(a@) =~= lower_all(b@));
    true
}


/// The concatenation of two strings.
pub fn concat(a: &str, b: &str) -> (res: String)
    ensures
        res@ == a@ + b@,
{
    let mut s = a.to_owned();
    let v = chars_of(b);
    let mut k: usize = 0;
    while k < v.len()
        invariant
            k <= v@.len(),
            v@ == b@,
            s@ == a@ + v@.subrange(0, k as int),
        decreases v@.len() - k,
    {
        push_char(&mut s, v[k]);
        assert(s@ =~= a@ + v@.subrange(0, k + 1));
        k = k + 1;
    }
    assert(v@.subrange(0, v@.len() as int) =~= v@);
    s
}


/// Whether a name is already in canonical form: no whitespace, no
/// separators, no ASCII upper-case letters.
pub open spec fn is_canonical_name(s: Seq<char>) -> bool {
    forall|i: int|
        0 <= i < s.len() ==> !is_ws(#[trigger] s[i]) && !is_separator(s[i]) && ascii_lower(s[i])
            == s[i]
}

proof fn lemma_fold_canonical(s: Seq<char>)
    requires
        is_canonical_name(s),
    ensures
        fold_name(s) == s,
    decreases s.len(),
{
    if s.len() > 0 {
        let t = s.drop_last();
        assert(is_canonical_name(t)) by {
            assert forall|i: int| 0 <= i < t.len() implies !is_ws(#[trigger] t[i]) && !is_separator(
                t[i],
            ) && ascii_lower(t[i]) == t[i] by {
                assert(t[i] == s[i]);
            }
        }
        lemma_fold_canonical(t);
        assert(s.last() == s[s.len() - 1]);
        assert(t.push(s.last()) =~= s);
    }
}

/// Normalising a name that is already canonical leaves it as it is.
pub proof fn normalize_canonical_name(s: Seq<char>)
    requires
        is_canonical_name(s),
    ensures
        normalize_name(s) == s,
{
    if s.len() > 0 {
        assert(!is_ws(s[0]));
        assert(!is_ws(s[s.len() - 1]));
    }
    assert(strip_start(s, None) == s);
    assert(strip_end(s, None) == s);
    lemma_fold_canonical(s);
}


proof fn lemma_strip_start_append(t: Seq<char>, u: Seq<char>, only: Option<char>)
    ensures
        strip_start(t + u, only) == if strip_start(t, only).len() == 0 {
            strip_start(u, only)
        } else {
            strip_start(t, only) + u
        },
    decreases t.len(),
{
    if t.len() == 0 {
        assert(t + u =~= u);
    } else {
        assert((t + u)[0] == t[0]);
        if in_class(t[0], only) {
            assert((t + u).drop_first() =~= t.drop_first() + u);
            lemma_strip_start_append(t.drop_first(), u, only);
        }
    }
}

/// Characters of the class added at either end make no difference once
/// stripped.
pub proof fn strip_ignores_added_ends(s: Seq<char>, c: char)
    ensures
        strip(seq![c] + s + seq![c], Some(c)) == strip(s, Some(c)),
{
    let only = Some(c);
    let front = seq![c] + s;
    assert(front.drop_first() =~= s);
    assert(strip_start(front, only) == strip_start(s, only));
    lemma_strip_start_append(front, seq![c], only);
    let x = strip_start(s, only);
    if x.len() == 0 {
        assert(seq![c].drop_first() =~= Seq::<char>::empty());
        assert(strip_start(seq![c], only) == strip_start(Seq::<char>::empty(), only));
    } else {
        assert((x + seq![c]).drop_last() =~= x);
        assert((x + seq![c]).last() == c);
    }
}


proof fn lemma_fold_clean(s: Seq<char>)
    ensures
        forall|i: int|
            0 <= i < fold_name(s).len() ==> !is_separator(#[trigger] fold_name(s)[i]) && ascii_lower(
                fold_name(s)[i],
            ) == fold_name(s)[i],
    decreases s.len(),
{
    if s.len() > 0 {
        lemma_fold_clean(s.drop_last());
        let rest = fold_name(s.drop_last());
        let c = ascii_lower(s.last());
        if !is_separator(c) {
            assert forall|i: int| 0 <= i < rest.push(c).len() implies !is_separator(
                #[trigger] rest.push(c)[i],
            ) && ascii_lower(rest.push(c)[i]) == rest.push(c)[i] by {
                if i < rest.len() {
                    assert(rest.push(c)[i] == rest[i]);
                }
            }
        }
    }
}

/// A normalised name holds no separators and no ASCII upper-case letters.
pub proof fn normalized_name_is_folded(s: Seq<char>)
    ensures
        forall|i: int|
            0 <= i < normalize_name(s).len() ==> !is_separator(#[trigger] normalize_name(s)[i])
                && ascii_lower(normalize_name(s)[i]) == normalize_name(s)[i],
{
    lemma_fold_clean(trim(s));
}

/// Whether the only whitespace a name holds, if any, is the plain space.
pub open spec fn only_space_whitespace(s: Seq<char>) -> bool {
    forall|i: int| 0 <= i < s.len() ==> is_ws(#[trigger] s[i]) ==> s[i] == ' '
}

proof fn lemma_strip_keeps_only_space(s: Seq<char>, only: Option<char>)
    requires
        only_space_whitespace(s),
    ensures
        only_space_whitespace(strip_start(s, only)),
        only_space_whitespace(strip_end(s, only)),
    decreases s.len(),
{
    if s.len() > 0 {
        let a = s.drop_first();
        let b = s.drop_last();
        assert(only_space_whitespace(a)) by {
            assert forall|i: int| 0 <= i < a.len() && is_ws(#[trigger] a[i]) implies a[i] == ' ' by {
                assert(a[i] == s[i + 1]);
            }
        }
        assert(only_space_whitespace(b)) by {
            assert forall|i: int| 0 <= i < b.len() && is_ws(#[trigger] b[i]) implies b[i] == ' ' by {
                assert(b[i] == s[i]);
            }
        }
        lemma_strip_keeps_only_space(a, only);
        lemma_strip_keeps_only_space(b, only);
    }
}

proof fn lemma_fold_no_whitespace(s: Seq<char>)
    requires
        only_space_whitespace(s),
    ensures
        forall|i: int| 0 <= i < fold_name(s).len() ==> !is_ws(#[trigger] fold_name(s)[i]),
    decreases s.len(),
{
    if s.len() > 0 {
        let t = s.drop_last();
        assert(only_space_whitespace(t)) by {
            assert forall|i: int| 0 <= i < t.len() && is_ws(#[trigger] t[i]) implies t[i] == ' ' by {
                assert(t[i] == s[i]);
            }
        }
        lemma_fold_no_whitespace(t);
        let rest = fold_name(t);
        let x = s.last();
        let c = ascii_lower(x);
        assert(x == s[s.len() - 1]);
        if !is_separator(c) {
            assert(!is_ws(c));
            assert forall|i: int| 0 <= i < rest.push(c).len() implies !is_ws(
                #[trigger] rest.push(c)[i],
            ) by {
                if i < rest.len() {
                    assert(rest.push(c)[i] == rest[i]);
                }
            }
        }
    }
}

/// Normalising a name twice gives what normalising it once gives, where the
/// only whitespace in the name is the plain space. (Other whitespace inside
/// the name is kept by the first pass and may be trimmed by the second.)
pub proof fn normalize_name_idempotent(s: Seq<char>)
    requires
        only_space_whitespace(s),
    ensures
        normalize_name(normalize_name(s)) == normalize_name(s),
{
    lemma_strip_keeps_only_space(s, None);
    lemma_strip_keeps_only_space(strip_start(s, None), None);
    let t = trim(s);
    lemma_fold_no_whitespace(t);
    lemma_fold_clean(t);
    normalize_canonical_name(fold_name(t));
}

proof fn lemma_strip_start_shape(s: Seq<char>, only: Option<char>) -> (a: int)
    ensures
        0 <= a <= s.len(),
        strip_start(s, only) == s.subrange(a, s.len() as int),
        forall|k: int| 0 <= k < a ==> in_class(#[trigger] s[k], only),
        a < s.len() ==> !in_class(s[a], only),
    decreases s.len(),
{
    if s.len() > 0 && in_class(s[0], only) {
        let t = s.drop_first();
        let b = lemma_strip_start_shape(t, only);
        assert(t.subrange(b, t.len() as int) =~= s.subrange(b + 1, s.len() as int));
        assert forall|k: int| 0 <= k < b + 1 implies in_class(#[trigger] s[k], only) by {
            if k > 0 {
                assert(s[k] == t[k - 1]);
            }
        }
        if b + 1 < s.len() {
            assert(s[b + 1] == t[b]);
        }
        b + 1
    } else {
        assert(s.subrange(0, s.len() as int) =~= s);
        0
    }
}

proof fn lemma_strip_end_shape(s: Seq<char>, only: Option<char>) -> (b: int)
    ensures
        0 <= b <= s.len(),
        strip_end(s, only) == s.subrange(0, b),
        forall|k: int| b <= k < s.len() ==> in_class(#[trigger] s[k], only),
        b > 0 ==> !in_class(s[b - 1], only),
    decreases s.len(),
{
    if s.len() > 0 && in_class(s.last(), only) {
        let t = s.drop_last();
        let b = lemma_strip_end_shape(t, only);
        assert(t.subrange(0, b) =~= s.subrange(0, b));
        assert forall|k: int| b <= k < s.len() implies in_class(#[trigger] s[k], only) by {
            if k < s.len() - 1 {
                assert(s[k] == t[k]);
            }
        }
        if b > 0 {
            assert(s[b - 1] == t[b - 1]);
        }
        b
    } else {
        assert(s.subrange(0, s.len() as int) =~= s);
        s.len() as int
    }
}

/// Stripping removes characters of the class at the two ends and nothing
/// else: what is left is an unbroken stretch of the string, everything
/// before and after it is of the class, and it neither starts nor ends with
/// a character of the class.
pub proof fn strip_removes_only_the_ends(s: Seq<char>, only: Option<char>)
    ensures
        exists|a: int, b: int|
            {
                &&& 0 <= a <= b <= s.len()
                &&& strip(s, only) == s.subrange(a, b)
                &&& forall|k: int| 0 <= k < a ==> in_class(#[trigger] s[k], only)
                &&& forall|k: int| b <= k < s.len() ==> in_class(#[trigger] s[k], only)
                &&& a < b ==> !in_class(s[a], only) && !in_class(s[b - 1], only)
            },
{
    let a = lemma_strip_start_shape(s, only);
    let t = s.subrange(a, s.len() as int);
    let c = lemma_strip_end_shape(t, only);
    let b = a + c;
    assert(t.subrange(0, c) =~= s.subrange(a, b));
    assert forall|k: int| b <= k < s.len() implies in_class(#[trigger] s[k], only) by {
        assert(s[k] == t[k - a]);
    }
    if a < b {
        assert(s[a] == t[0]);
        assert(s[b - 1] == t[c - 1]);
    }
    assert(0 <= a <= b <= s.len() && strip(s, only) == s.subrange(a, b));
}

} // verus!
